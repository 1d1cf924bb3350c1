use crate::errors::Errcode;
use vstd::prelude::*;

verus! {

/// The errno a refused call returns: permission denied.
pub const EPERM: u16 = 1;

/// Mode bit: set user id on execution.
pub const S_ISUID: u64 = 0o4000;

/// Mode bit: set group id on execution.
pub const S_ISGID: u64 = 0o2000;

/// `clone`/`unshare` flag: create a new user namespace.
pub const CLONE_NEWUSER: u64 = 0x1000_0000;

/// `ioctl` request that pushes a byte into a terminal's input queue.
pub const TIOCSTI: u64 = 0x5412;

/// The system calls the filter speaks of; any other call is `Other`.
#[derive(Debug, Clone, Copy, PartialEq, Eq, Structural)]
pub enum Syscall {
    Keyctl,
    AddKey,
    RequestKey,
    Mbind,
    MigratePages,
    MovePages,
    SetMempolicy,
    Userfaultfd,
    PerfEventOpen,
    Chmod,
    Fchmod,
    Fchmodat,
    Unshare,
    Clone,
    Ioctl,
    Other(u32),
}

/// The kernel's name of a call, `None` for `Other`.
pub open spec fn syscall_name(sc: Syscall) -> Option<&'static str> {
    match sc {
        Syscall::Keyctl => Some("keyctl"),
        Syscall::AddKey => Some("add_key"),
        Syscall::RequestKey => Some("request_key"),
        Syscall::Mbind => Some("mbind"),
        Syscall::MigratePages => Some("migrate_pages"),
        Syscall::MovePages => Some("move_pages"),
        Syscall::SetMempolicy => Some("set_mempolicy"),
        Syscall::Userfaultfd => Some("userfaultfd"),
        Syscall::PerfEventOpen => Some("perf_event_open"),
        Syscall::Chmod => Some("chmod"),
        Syscall::Fchmod => Some("fchmod"),
        Syscall::Fchmodat => Some("fchmodat"),
        Syscall::Unshare => Some("unshare"),
        Syscall::Clone => Some("clone"),
        Syscall::Ioctl => Some("ioctl"),
        Syscall::Other(_) => None,
    }
}

impl Syscall {
    /// The kernel's name of the call, `None` for `Other`.
    pub fn name(&self) -> (r: Option<&'static str>)
        ensures
            r == syscall_name(*self),
    {
        match self {
            Syscall::Keyctl => Some("keyctl"),
            Syscall::AddKey => Some("add_key"),
            Syscall::RequestKey => Some("request_key"),
            Syscall::Mbind => Some("mbind"),
            Syscall::MigratePages => Some("migrate_pages"),
            Syscall::MovePages => Some("move_pages"),
            Syscall::SetMempolicy => Some("set_mempolicy"),
            Syscall::Userfaultfd => Some("userfaultfd"),
            Syscall::PerfEventOpen => Some("perf_event_open"),
            Syscall::Chmod => Some("chmod"),
            Syscall::Fchmod => Some("fchmod"),
            Syscall::Fchmodat => Some("fchmodat"),
            Syscall::Unshare => Some("unshare"),
            Syscall::Clone => Some("clone"),
            Syscall::Ioctl => Some("ioctl"),
            Syscall::Other(_) => None,
        }
    }
}

/// One override of the allow-by-default policy.
#[derive(Debug, Clone, Copy, PartialEq, Eq, Structural)]
pub enum Rule {
    /// The call is refused whatever its arguments.
    Deny(Syscall),
    /// The call is refused when all bits of `mask` are set in argument `arg`.
    DenyIfMasked { syscall: Syscall, arg: usize, mask: u64 },
}

/// The decision on one call.
#[derive(Debug, Clone, Copy, PartialEq, Eq, Structural)]
pub enum Verdict {
    Allow,
    Errno(u16),
}

/// Allow-by-default policy with ordered deny rules.
pub struct SyscallPolicy {
    pub rules: Vec<Rule>,
}

/// `value` has every bit of `mask` set.
pub open spec fn has_bits(value: u64, mask: u64) -> bool {
    value & mask == mask
}

pub open spec fn rule_denies(r: Rule, sc: Syscall, args: Seq<u64>) -> bool {
    match r {
        Rule::Deny(s) => s == sc,
        Rule::DenyIfMasked { syscall, arg, mask } => syscall == sc && arg < args.len()
            && has_bits(args[arg as int], mask),
    }
}

/// Some rule of `rules` refuses the call.
pub open spec fn rules_deny(rules: Seq<Rule>, sc: Syscall, args: Seq<u64>) -> bool {
    exists|i: int| 0 <= i < rules.len() && #[trigger] rule_denies(rules[i], sc, args)
}

pub open spec fn rule_well_formed(r: Rule) -> bool {
    match r {
        Rule::Deny(s) => !(s is Other),
        Rule::DenyIfMasked { syscall, arg, mask } => !(syscall is Other) && arg < 6,
    }
}

/// The runtime's rules, in the order they are installed.
pub open spec fn default_rules() -> Seq<Rule> {
    seq![
        Rule::Deny(Syscall::Keyctl),
        Rule::Deny(Syscall::AddKey),
        Rule::Deny(Syscall::RequestKey),
        Rule::Deny(Syscall::Mbind),
        Rule::Deny(Syscall::MigratePages),
        Rule::Deny(Syscall::MovePages),
        Rule::Deny(Syscall::SetMempolicy),
        Rule::Deny(Syscall::Userfaultfd),
        Rule::Deny(Syscall::PerfEventOpen),
        Rule::DenyIfMasked { syscall: Syscall::Chmod, arg: 1, mask: S_ISUID },
        Rule::DenyIfMasked { syscall: Syscall::Chmod, arg: 1, mask: S_ISGID },
        Rule::DenyIfMasked { syscall: Syscall::Fchmod, arg: 1, mask: S_ISUID },
        Rule::DenyIfMasked { syscall: Syscall::Fchmod, arg: 1, mask: S_ISGID },
        Rule::DenyIfMasked { syscall: Syscall::Fchmodat, arg: 2, mask: S_ISUID },
        Rule::DenyIfMasked { syscall: Syscall::Fchmodat, arg: 2, mask: S_ISGID },
        Rule::DenyIfMasked { syscall: Syscall::Unshare, arg: 0, mask: CLONE_NEWUSER },
        Rule::DenyIfMasked { syscall: Syscall::Clone, arg: 0, mask: CLONE_NEWUSER },
        Rule::DenyIfMasked { syscall: Syscall::Ioctl, arg: 1, mask: TIOCSTI },
    ]
}

/// What the runtime's policy decides, call by call.
pub open spec fn default_denies(sc: Syscall, args: Seq<u64>) -> bool {
    match sc {
        Syscall::Chmod | Syscall::Fchmod => has_bits(args[1], S_ISUID) || has_bits(args[1], S_ISGID),
        Syscall::Fchmodat => has_bits(args[2], S_ISUID) || has_bits(args[2], S_ISGID),
        Syscall::Unshare | Syscall::Clone => has_bits(args[0], CLONE_NEWUSER),
        Syscall::Ioctl => has_bits(args[1], TIOCSTI),
        Syscall::Other(_) => false,
        _ => true,
    }
}

impl SyscallPolicy {
    pub open spec fn well_formed(&self) -> bool {
        forall|i: int| 0 <= i < self.rules@.len() ==> rule_well_formed(#[trigger] self.rules@[i])
    }

    /// How the policy judges a call with the given six arguments: refused
    /// with `EPERM` when some rule matches, allowed otherwise.
    pub fn evaluate(&self, sc: Syscall, args: &[u64; 6]) -> (r: Verdict)
        ensures
            r == (if rules_deny(self.rules@, sc, args@) {
                Verdict::Errno(EPERM)
            } else {
                Verdict::Allow
            }),
    {
        let mut i: usize = 0;
        while i < self.rules.len()
            invariant
                i <= self.rules@.len(),
                forall|j: int| 0 <= j < i ==> !rule_denies(#[trigger] self.rules@[j], sc, args@),
            decreases self.rules@.len() - i,
        {
            let hit = match self.rules[i] {
                Rule::Deny(s) => s == sc,
                Rule::DenyIfMasked { syscall, arg, mask } => syscall == sc && arg < 6
                    && args[arg] & mask == mask,
            };
            if hit {
                assert(rule_denies(self.rules@[i as int], sc, args@));
                return Verdict::Errno(EPERM);
            }
            i = i + 1;
        }
        Verdict::Allow
    }
}

/// The runtime's policy: allow by default, refuse the keyring, memory-policy,
/// user-fault and perf-event calls outright, and refuse mode changes that set
/// set-uid or set-gid bits, new user namespaces and terminal input injection.
pub fn syscall_policy() -> (r: SyscallPolicy)
    ensures
        r.rules@ == default_rules(),
        r.well_formed(),
{
    let rules = vec![
        Rule::Deny(Syscall::Keyctl),
        Rule::Deny(Syscall::AddKey),
        Rule::Deny(Syscall::RequestKey),
        Rule::Deny(Syscall::Mbind),
        Rule::Deny(Syscall::MigratePages),
        Rule::Deny(Syscall::MovePages),
        Rule::Deny(Syscall::SetMempolicy),
        Rule::Deny(Syscall::Userfaultfd),
        Rule::Deny(Syscall::PerfEventOpen),
        Rule::DenyIfMasked { syscall: Syscall::Chmod, arg: 1, mask: S_ISUID },
        Rule::DenyIfMasked { syscall: Syscall::Chmod, arg: 1, mask: S_ISGID },
        Rule::DenyIfMasked { syscall: Syscall::Fchmod, arg: 1, mask: S_ISUID },
        Rule::DenyIfMasked { syscall: Syscall::Fchmod, arg: 1, mask: S_ISGID },
        Rule::DenyIfMasked { syscall: Syscall::Fchmodat, arg: 2, mask: S_ISUID },
        Rule::DenyIfMasked { syscall: Syscall::Fchmodat, arg: 2, mask: S_ISGID },
        Rule::DenyIfMasked { syscall: Syscall::Unshare, arg: 0, mask: CLONE_NEWUSER },
        Rule::DenyIfMasked { syscall: Syscall::Clone, arg: 0, mask: CLONE_NEWUSER },
        Rule::DenyIfMasked { syscall: Syscall::Ioctl, arg: 1, mask: TIOCSTI },
    ];
    assert(rules@ =~= default_rules());
    SyscallPolicy { rules }
}

/// The ordered rule list decides each call exactly as `default_denies` says.
pub proof fn lemma_default_rules_decide(sc: Syscall, args: Seq<u64>)
    requires
        args.len() == 6,
    ensures
        rules_deny(default_rules(), sc, args) == default_denies(sc, args),
{
    let rs = default_rules();
    assert(rs.len() == 18);
    if default_denies(sc, args) {
        let k: int = match sc {
            Syscall::Keyctl => 0,
            Syscall::AddKey => 1,
            Syscall::RequestKey => 2,
            Syscall::Mbind => 3,
            Syscall::MigratePages => 4,
            Syscall::MovePages => 5,
            Syscall::SetMempolicy => 6,
            Syscall::Userfaultfd => 7,
            Syscall::PerfEventOpen => 8,
            Syscall::Chmod => if has_bits(args[1], S_ISUID) { 9 } else { 10 },
            Syscall::Fchmod => if has_bits(args[1], S_ISUID) { 11 } else { 12 },
            Syscall::Fchmodat => if has_bits(args[2], S_ISUID) { 13 } else { 14 },
            Syscall::Unshare => 15,
            Syscall::Clone => 16,
            Syscall::Ioctl => 17,
            Syscall::Other(_) => 0,
        };
        assert(rule_denies(rs[k], sc, args));
    } else {
        assert forall|i: int| 0 <= i < rs.len() implies !#[trigger] rule_denies(rs[i], sc, args) by {
            if i < 9 {
            } else {
            }
        }
    }
}

/// A mode change of `chmod` or `fchmod` is refused exactly when the mode
/// carries the set-uid or the set-gid bit: with the set-gid bit clear, it is
/// refused if and only if the set-uid bit is set.
pub proof fn lemma_chmod_setuid(sc: Syscall, args: Seq<u64>)
    requires
        args.len() == 6,
        sc == Syscall::Chmod || sc == Syscall::Fchmod,
    ensures
        args[1] & S_ISUID != 0 ==> rules_deny(default_rules(), sc, args),
        args[1] & S_ISGID == 0 ==> (rules_deny(default_rules(), sc, args) <==> args[1] & S_ISUID != 0),
{
    lemma_default_rules_decide(sc, args);
    let m = args[1];
    assert(m & 0o4000u64 == 0o4000u64 <==> m & 0o4000u64 != 0) by (bit_vector);
    assert(m & 0o2000u64 == 0o2000u64 <==> m & 0o2000u64 != 0) by (bit_vector);
}

/// `unshare` and `clone` are refused exactly when their flags ask for a new
/// user namespace.
pub proof fn lemma_new_user_namespace(sc: Syscall, args: Seq<u64>)
    requires
        args.len() == 6,
        sc == Syscall::Unshare || sc == Syscall::Clone,
    ensures
        rules_deny(default_rules(), sc, args) <==> args[0] & CLONE_NEWUSER != 0,
{
    lemma_default_rules_decide(sc, args);
    let f = args[0];
    assert(f & 0x1000_0000u64 == 0x1000_0000u64 <==> f & 0x1000_0000u64 != 0) by (bit_vector);
}

/// The steps of installing a policy with the kernel's seccomp filter.
#[derive(Debug, Clone, Copy, PartialEq, Eq, Structural)]
pub enum InstallStep {
    /// Create a filter context that allows every call by default.
    Init,
    /// Add rule `i` of the policy, refusing with `EPERM`.
    AddRule(usize),
    /// Compile and load the filter for this process.
    Load,
    Done,
}

impl InstallStep {
    /// The step an installation starts with.
    pub fn first() -> (r: InstallStep)
        ensures
            r == InstallStep::Init,
    {
        InstallStep::Init
    }
}

/// The step that follows adding the rules before index `i`.
pub open spec fn after_rules(rules: Seq<Rule>, i: int) -> InstallStep {
    if i < rules.len() { InstallStep::AddRule(i as usize) } else { InstallStep::Load }
}

/// The installation's transition table. Failures are coded by step:
/// creating the context 1, an unconditional rule 2, a conditional rule 3,
/// loading 0. The filter is loaded only after every rule was added.
pub open spec fn install_next_spec(rules: Seq<Rule>, step: InstallStep, succeeded: bool) -> Result<
    InstallStep,
    Errcode,
> {
    match step {
        InstallStep::Init => if succeeded {
            Ok(after_rules(rules, 0))
        } else {
            Err(Errcode::SyscallsError(1))
        },
        InstallStep::AddRule(i) => if i >= rules.len() {
            Ok(InstallStep::Load)
        } else if succeeded {
            Ok(after_rules(rules, i + 1))
        } else if rules[i as int] is Deny {
            Err(Errcode::SyscallsError(2))
        } else {
            Err(Errcode::SyscallsError(3))
        },
        InstallStep::Load => if succeeded {
            Ok(InstallStep::Done)
        } else {
            Err(Errcode::SyscallsError(0))
        },
        InstallStep::Done => Ok(InstallStep::Done),
    }
}

impl SyscallPolicy {
    /// The installation step after `step` ran and `succeeded` or not.
    pub fn install_next(&self, step: InstallStep, succeeded: bool) -> (r: Result<InstallStep, Errcode>)
        ensures
            r == install_next_spec(self.rules@, step, succeeded),
    {
        match step {
            InstallStep::Init => if succeeded {
                Ok(if 0 < self.rules.len() { InstallStep::AddRule(0) } else { InstallStep::Load })
            } else {
                Err(Errcode::SyscallsError(1))
            },
            InstallStep::AddRule(i) => if i >= self.rules.len() {
                Ok(InstallStep::Load)
            } else if succeeded {
                Ok(if i + 1 < self.rules.len() { InstallStep::AddRule(i + 1) } else { InstallStep::Load })
            } else if let Rule::Deny(_) = self.rules[i] {
                Err(Errcode::SyscallsError(2))
            } else {
                Err(Errcode::SyscallsError(3))
            },
            InstallStep::Load => if succeeded {
                Ok(InstallStep::Done)
            } else {
                Err(Errcode::SyscallsError(0))
            },
            InstallStep::Done => Ok(InstallStep::Done),
        }
    }
}

/// The filter is loaded only once every rule was added: the one way to reach
/// `Load` from a rule is the last rule's success, and from `Init` only when
/// there are no rules.
pub proof fn lemma_load_only_after_all_rules(rules: Seq<Rule>, step: InstallStep, succeeded: bool)
    requires
        install_next_spec(rules, step, succeeded) == Ok::<InstallStep, Errcode>(InstallStep::Load),
        step is Init || step is AddRule,
    ensures
        step is Init ==> succeeded && rules.len() == 0,
        step matches InstallStep::AddRule(i) ==> (i >= rules.len() || (succeeded && i + 1 == rules.len())),
{
}

} // verus!
