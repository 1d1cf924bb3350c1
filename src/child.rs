use crate::errors::Errcode;
use vstd::prelude::*;

verus! {

/// Size of the stack the child starts on: one mebibyte.
pub const STACK_SIZE: usize = 1024 * 1024;

/// `clone` flag: new mount namespace.
pub const CLONE_NEWNS: u32 = 0x0002_0000;

/// `clone` flag: new cgroup namespace.
pub const CLONE_NEWCGROUP: u32 = 0x0200_0000;

/// `clone` flag: new UTS namespace (hostname).
pub const CLONE_NEWUTS: u32 = 0x0400_0000;

/// `clone` flag: new IPC namespace.
pub const CLONE_NEWIPC: u32 = 0x0800_0000;

/// `clone` flag: new PID namespace.
pub const CLONE_NEWPID: u32 = 0x2000_0000;

/// `clone` flag: new network namespace.
pub const CLONE_NEWNET: u32 = 0x4000_0000;

/// The namespaces the child is cloned into, all six together. The user
/// namespace is not among them: the child asks for it itself, later.
pub const NAMESPACE_FLAGS: u32 = CLONE_NEWNS | CLONE_NEWCGROUP | CLONE_NEWPID | CLONE_NEWIPC
    | CLONE_NEWNET | CLONE_NEWUTS;

/// The child's setup, in its fixed order.
#[derive(Debug, Clone, Copy, PartialEq, Eq, Structural)]
pub enum SetupStep {
    /// Set the container's hostname.
    Hostname,
    /// Pivot to the new root (see the mount steps).
    Mounts,
    /// Child half of the user-namespace handshake.
    UserNamespace,
    /// Drop capabilities.
    Capabilities,
    /// Install the syscall filter.
    Syscalls,
    /// Close the child's end of the channel.
    CloseChannel,
    /// Setup is complete; the command may run.
    Ready,
}

impl SetupStep {
    /// The step the child's setup starts with.
    pub fn first() -> (r: SetupStep)
        ensures
            r == SetupStep::Hostname,
    {
        SetupStep::Hostname
    }
}

/// Position of a setup step.
pub open spec fn setup_index(s: SetupStep) -> nat {
    match s {
        SetupStep::Hostname => 0,
        SetupStep::Mounts => 1,
        SetupStep::UserNamespace => 2,
        SetupStep::Capabilities => 3,
        SetupStep::Syscalls => 4,
        SetupStep::CloseChannel => 5,
        SetupStep::Ready => 6,
    }
}

/// The step after `step` ran with `outcome`: the next step in order on
/// success, and the step's own error on failure, after which nothing runs.
pub fn setup_next(step: SetupStep, outcome: Result<(), Errcode>) -> (r: Result<SetupStep, Errcode>)
    ensures
        step == SetupStep::Ready ==> r == Ok::<SetupStep, Errcode>(SetupStep::Ready),
        step != SetupStep::Ready && outcome is Err ==> r == Err::<SetupStep, Errcode>(outcome->Err_0),
        step != SetupStep::Ready && outcome is Ok ==> (r matches Ok(n) && setup_index(n) == setup_index(step) + 1),
{
    if let SetupStep::Ready = step {
        return Ok(SetupStep::Ready);
    }
    match outcome {
        Err(e) => Err(e),
        Ok(_) => Ok(match step {
            SetupStep::Hostname => SetupStep::Mounts,
            SetupStep::Mounts => SetupStep::UserNamespace,
            SetupStep::UserNamespace => SetupStep::Capabilities,
            SetupStep::Capabilities => SetupStep::Syscalls,
            SetupStep::Syscalls => SetupStep::CloseChannel,
            _ => SetupStep::Ready,
        }),
    }
}

/// The child process's exit status: 0 once setup completed, -1 otherwise.
pub fn child_exit_status(res: &Result<(), Errcode>) -> (r: isize)
    ensures
        res is Ok ==> r == 0,
        res is Err ==> r == -1,
{
    match res {
        Ok(_) => 0,
        Err(_) => -1,
    }
}

} // verus!
