use crate::errors::Errcode;
use vstd::prelude::*;

verus! {

/// Oldest supported kernel: major and minor version.
pub const MINIMAL_KERNEL_MAJOR: u64 = 4;

pub const MINIMAL_KERNEL_MINOR: u64 = 8;

/// Version numbers are read up to this value; larger ones count as it.
pub const VERSION_CAP: u64 = 1_000_000;

/// An ASCII decimal digit.
pub open spec fn is_digit(b: u8) -> bool {
    48 <= b <= 57
}

/// The value of a run of digits, saturated at `VERSION_CAP`.
pub open spec fn digits_value(s: Seq<u8>) -> nat
    decreases s.len(),
{
    if s.len() == 0 {
        0
    } else {
        let v = digits_value(s.drop_last()) * 10 + (s.last() - 48);
        if v > VERSION_CAP { VERSION_CAP as nat } else { v as nat }
    }
}

/// How many digits follow position `from` in `s`.
pub open spec fn digit_run(s: Seq<u8>, from: int) -> nat
    decreases s.len() - from,
{
    if from < 0 || from >= s.len() || !is_digit(s[from]) {
        0
    } else {
        1 + digit_run(s, from + 1)
    }
}

/// Major and minor version of a kernel release string `<major>.<minor>...`,
/// `None` when it does not start that way.
pub open spec fn release_version(s: Seq<u8>) -> Option<(nat, nat)> {
    let i = digit_run(s, 0) as int;
    if i == 0 || i >= s.len() || s[i] != 46u8 {
        None
    } else {
        let j = i + 1 + digit_run(s, i + 1);
        if j == i + 1 {
            None
        } else {
            Some((digits_value(s.subrange(0, i)), digits_value(s.subrange(i + 1, j))))
        }
    }
}

/// `x86_64`, the one supported machine.
pub open spec fn supported_machine() -> Seq<u8> {
    seq![120u8, 56u8, 54u8, 95u8, 54u8, 52u8]
}

/// What the platform check decides for a kernel `release` and `machine`.
pub open spec fn platform_verdict(release: Seq<u8>, machine: Seq<u8>) -> Result<(), Errcode> {
    match release_version(release) {
        None => Err(Errcode::ContainerError(0)),
        Some((major, minor)) => if major < MINIMAL_KERNEL_MAJOR || (major == MINIMAL_KERNEL_MAJOR
            && minor < MINIMAL_KERNEL_MINOR) {
            Err(Errcode::NotSupported(0))
        } else if machine != supported_machine() {
            Err(Errcode::NotSupported(1))
        } else {
            Ok(())
        },
    }
}

/// Reads the digits of `s` from `from` on: where they end, and their value.
fn scan_number(s: &[u8], from: usize) -> (r: (usize, u64))
    requires
        from <= s@.len(),
    ensures
        r.0 == from + digit_run(s@, from as int),
        r.0 <= s@.len(),
        r.1 == digits_value(s@.subrange(from as int, r.0 as int)),
{
    let mut i: usize = from;
    let mut value: u64 = 0;
    while i < s.len() && 48 <= s[i] && s[i] <= 57
        invariant
            from <= i <= s@.len(),
            value <= VERSION_CAP,
            value == digits_value(s@.subrange(from as int, i as int)),
            digit_run(s@, from as int) == (i - from) + digit_run(s@, i as int),
        decreases s@.len() - i,
    {
        let d = (s[i] - 48) as u64;
        let v = value * 10 + d;
        value = if v > VERSION_CAP { VERSION_CAP } else { v };
        assert(s@.subrange(from as int, i + 1).drop_last() == s@.subrange(from as int, i as int));
        i = i + 1;
    }
    (i, value)
}

/// Checks that the host can run a container: the kernel `release` (as
/// `uname` gives it) must be at least 4.8, and the `machine` `x86_64`. A
/// release that does not read as `<major>.<minor>` is an error of its own.
pub fn check_linux_version(release: &[u8], machine: &[u8]) -> (r: Result<(), Errcode>)
    ensures
        r == platform_verdict(release@, machine@),
{
    let (i, major) = scan_number(release, 0);
    if i == 0 || i >= release.len() || release[i] != 46 {
        return Err(Errcode::ContainerError(0));
    }
    let (j, minor) = scan_number(release, i + 1);
    if j == i + 1 {
        return Err(Errcode::ContainerError(0));
    }
    if major < MINIMAL_KERNEL_MAJOR || (major == MINIMAL_KERNEL_MAJOR && minor < MINIMAL_KERNEL_MINOR) {
        return Err(Errcode::NotSupported(0));
    }
    let is_x86_64 = machine.len() == 6 && machine[0] == 120 && machine[1] == 56 && machine[2] == 54
        && machine[3] == 95 && machine[4] == 54 && machine[5] == 52;
    if !is_x86_64 {
        assert(machine@ != supported_machine()) by {
            if machine@ == supported_machine() {
                assert(machine@[0] == 120u8 && machine@[5] == 52u8);
            }
        }
        return Err(Errcode::NotSupported(1));
    }
    assert(machine@ =~= supported_machine());
    Ok(())
}

/// The stages of one container launch, as the parent runs them.
#[derive(Debug, Clone, Copy, PartialEq, Eq)]
pub enum LaunchStep {
    /// Check kernel version and machine; nothing has been created yet.
    CheckPlatform,
    /// Build the configuration: channel pair and hostname.
    Configure,
    /// Clone the isolated child.
    Spawn,
    /// Apply cgroup limits to the child.
    RestrictResources,
    /// Run the parent half of the user-namespace handshake.
    MapIds,
    /// Wait for the child to end.
    WaitChild,
    /// Close the channel, clean mounts and cgroups; `failure` is the error
    /// that brought the launch here, if any.
    CleanExit { failure: Option<Errcode> },
    /// The launch is over with this result.
    Exit(Result<(), Errcode>),
}

/// The launch's transition table. A failure before anything was created
/// ends the launch at once; any later failure goes through cleanup, and the
/// result is then that failure, whatever cleanup reports.
pub open spec fn launch_next_spec(step: LaunchStep, outcome: Result<(), Errcode>) -> LaunchStep {
    match step {
        LaunchStep::CheckPlatform => match outcome {
            Ok(_) => LaunchStep::Configure,
            Err(e) => LaunchStep::Exit(Err(e)),
        },
        LaunchStep::Configure => match outcome {
            Ok(_) => LaunchStep::Spawn,
            Err(e) => LaunchStep::Exit(Err(e)),
        },
        LaunchStep::Spawn => match outcome {
            Ok(_) => LaunchStep::RestrictResources,
            Err(e) => LaunchStep::CleanExit { failure: Some(e) },
        },
        LaunchStep::RestrictResources => match outcome {
            Ok(_) => LaunchStep::MapIds,
            Err(e) => LaunchStep::CleanExit { failure: Some(e) },
        },
        LaunchStep::MapIds => match outcome {
            Ok(_) => LaunchStep::WaitChild,
            Err(e) => LaunchStep::CleanExit { failure: Some(e) },
        },
        LaunchStep::WaitChild => match outcome {
            Ok(_) => LaunchStep::CleanExit { failure: None },
            Err(e) => LaunchStep::CleanExit { failure: Some(e) },
        },
        LaunchStep::CleanExit { failure } => match failure {
            Some(e) => LaunchStep::Exit(Err(e)),
            None => LaunchStep::Exit(outcome),
        },
        LaunchStep::Exit(r) => LaunchStep::Exit(r),
    }
}

/// The first stage of a launch: the platform check comes before any
/// namespace, mount or channel operation.
pub fn start() -> (r: LaunchStep)
    ensures
        r == LaunchStep::CheckPlatform,
{
    LaunchStep::CheckPlatform
}

/// The stage after `step` ran with `outcome`.
pub fn launch_next(step: LaunchStep, outcome: Result<(), Errcode>) -> (r: LaunchStep)
    ensures
        r == launch_next_spec(step, outcome),
{
    match step {
        LaunchStep::CheckPlatform => match outcome {
            Ok(_) => LaunchStep::Configure,
            Err(e) => LaunchStep::Exit(Err(e)),
        },
        LaunchStep::Configure => match outcome {
            Ok(_) => LaunchStep::Spawn,
            Err(e) => LaunchStep::Exit(Err(e)),
        },
        LaunchStep::Spawn => match outcome {
            Ok(_) => LaunchStep::RestrictResources,
            Err(e) => LaunchStep::CleanExit { failure: Some(e) },
        },
        LaunchStep::RestrictResources => match outcome {
            Ok(_) => LaunchStep::MapIds,
            Err(e) => LaunchStep::CleanExit { failure: Some(e) },
        },
        LaunchStep::MapIds => match outcome {
            Ok(_) => LaunchStep::WaitChild,
            Err(e) => LaunchStep::CleanExit { failure: Some(e) },
        },
        LaunchStep::WaitChild => match outcome {
            Ok(_) => LaunchStep::CleanExit { failure: None },
            Err(e) => LaunchStep::CleanExit { failure: Some(e) },
        },
        LaunchStep::CleanExit { failure } => match failure {
            Some(e) => LaunchStep::Exit(Err(e)),
            None => LaunchStep::Exit(outcome),
        },
        LaunchStep::Exit(r) => LaunchStep::Exit(r),
    }
}

/// A platform that fails the check ends the launch with that error, right
/// after `start`, before configuration creates the channel.
pub proof fn lemma_platform_failure_fails_fast(release: Seq<u8>, machine: Seq<u8>)
    requires
        platform_verdict(release, machine) is Err,
    ensures
        launch_next_spec(LaunchStep::CheckPlatform, platform_verdict(release, machine))
            == LaunchStep::Exit(platform_verdict(release, machine)),
{
}

/// A release older than 4.8 fails the check as unsupported.
pub proof fn lemma_old_kernel_unsupported(release: Seq<u8>, machine: Seq<u8>)
    requires
        release_version(release) matches Some((major, minor)) && (major < 4 || (major == 4 && minor < 8)),
    ensures
        platform_verdict(release, machine) == Err::<(), Errcode>(Errcode::NotSupported(0)),
{
}

/// Once the child has been spawned, every failure is followed by cleanup,
/// and the launch ends with that failure even when cleanup fails too.
pub proof fn lemma_failure_runs_cleanup(step: LaunchStep, e: Errcode, cleanup: Result<(), Errcode>)
    requires
        step == LaunchStep::Spawn || step == LaunchStep::RestrictResources
            || step == LaunchStep::MapIds || step == LaunchStep::WaitChild,
    ensures
        launch_next_spec(step, Err(e)) == (LaunchStep::CleanExit { failure: Some(e) }),
        launch_next_spec(launch_next_spec(step, Err(e)), cleanup) == LaunchStep::Exit(Err(e)),
{
}

/// The steps of `clean_exit`, in order.
#[derive(Debug, Clone, Copy, PartialEq, Eq, Structural)]
pub enum CleanStep {
    /// Close the parent's end of the channel.
    CloseParentEnd,
    /// Close the child's end of the channel.
    CloseChildEnd,
    /// Clean the mount directory.
    CleanMounts,
    /// Remove the container's cgroups.
    CleanCgroups,
    Done,
}

/// Position of a cleanup step.
pub open spec fn clean_index(s: CleanStep) -> nat {
    match s {
        CleanStep::CloseParentEnd => 0,
        CleanStep::CloseChildEnd => 1,
        CleanStep::CleanMounts => 2,
        CleanStep::CleanCgroups => 3,
        CleanStep::Done => 4,
    }
}

/// The error a failing cleanup step is reported as.
pub open spec fn clean_error(s: CleanStep, e: Errcode) -> Errcode {
    match s {
        CleanStep::CloseParentEnd => Errcode::SocketError(3),
        CleanStep::CloseChildEnd => Errcode::SocketError(4),
        _ => e,
    }
}

/// Cleanup in progress: the next step and the first failure so far.
#[derive(Debug, Clone, Copy, PartialEq, Eq)]
pub struct Cleanup {
    pub step: CleanStep,
    pub first_failure: Option<Errcode>,
}

impl Cleanup {
    /// Cleanup about to close the parent's end.
    pub fn new() -> (r: Cleanup)
        ensures
            r.step == CleanStep::CloseParentEnd,
            r.first_failure is None,
    {
        Cleanup { step: CleanStep::CloseParentEnd, first_failure: None }
    }

    /// Records the outcome of the current step and moves to the next one.
    /// A failure never stops cleanup: every step runs exactly once, in order.
    pub fn advance(&mut self, outcome: Result<(), Errcode>)
        ensures
            old(self).step == CleanStep::Done ==> *final(self) == *old(self),
            old(self).step != CleanStep::Done ==> clean_index(final(self).step) == clean_index(
                old(self).step,
            ) + 1,
            old(self).step != CleanStep::Done ==> final(self).first_failure == match (
                old(self).first_failure,
                outcome,
            ) {
                (Some(f), _) => Some(f),
                (None, Err(e)) => Some(clean_error(old(self).step, e)),
                (None, Ok(_)) => None,
            },
    {
        if let CleanStep::Done = self.step {
            return;
        }
        if self.first_failure.is_none() {
            if let Err(e) = outcome {
                self.first_failure = Some(match self.step {
                    CleanStep::CloseParentEnd => Errcode::SocketError(3),
                    CleanStep::CloseChildEnd => Errcode::SocketError(4),
                    _ => e,
                });
            }
        }
        self.step = match self.step {
            CleanStep::CloseParentEnd => CleanStep::CloseChildEnd,
            CleanStep::CloseChildEnd => CleanStep::CleanMounts,
            CleanStep::CleanMounts => CleanStep::CleanCgroups,
            _ => CleanStep::Done,
        };
    }

    /// The result of the cleanup: the first failure, if any.
    pub fn result(&self) -> (r: Result<(), Errcode>)
        ensures
            self.first_failure matches Some(e) ==> r == Err::<(), Errcode>(e),
            self.first_failure is None ==> r is Ok,
    {
        match &self.first_failure {
            Some(e) => Err(*e),
            None => Ok(()),
        }
    }
}

} // verus!
