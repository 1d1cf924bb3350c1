use vstd::prelude::*;

verus! {

/// Every failure of the runtime: a kind, and for most kinds a subcode that
/// names the failing step within that kind.
#[derive(Debug, Clone, Copy, PartialEq, Eq)]
pub enum Errcode {
    ArgumentInvalid(&'static str),
    ContainerError(u8),
    ChildProcessError(u8),
    NotSupported(u8),
    SocketError(u8),
    HostnameError(u8),
    RngError,
    MountsError(u8),
    NamespacesError(u8),
    CapabilitiesError(u8),
    SyscallsError(u8),
    ResourcesError(u8),
}

/// The status every failure exits with: all kinds collapse to one code.
pub const FAILURE_RETCODE: i32 = 1;

impl Errcode {
    /// The process exit status for this error.
    pub fn get_retcode(&self) -> (r: i32)
        ensures
            r == FAILURE_RETCODE,
            r != 0,
    {
        FAILURE_RETCODE
    }
}

/// The exit status of the runtime for the outcome of a launch: zero on
/// success, the fixed failure code otherwise.
pub fn exit_code(res: &Result<(), Errcode>) -> (r: i32)
    ensures
        res is Ok ==> r == 0,
        res is Err ==> r == FAILURE_RETCODE,
{
    match res {
        Ok(_) => 0,
        Err(e) => e.get_retcode(),
    }
}

} // verus!
