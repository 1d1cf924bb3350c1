use crate::errors::Errcode;
use rand::Rng;
use vstd::prelude::*;

verus! {

/// Length of the random part of the new root's name.
pub const NEW_ROOT_NAME_LEN: usize = 12;

/// Length of the random part of the old root's directory name.
pub const OLD_ROOT_NAME_LEN: usize = 6;

/// Bytes a random name is drawn from: ASCII letters and digits.
pub open spec fn is_name_char(c: u8) -> bool {
    (65u8 <= c <= 90u8) || (97u8 <= c <= 122u8) || (48u8 <= c <= 57u8)
}

/// Relies on rand::thread_rng and Rng::gen_range: a uniformly drawn index
/// below `n` (the range must not be empty).
#[verifier::external_body]
fn random_below(n: usize) -> (r: usize)
    requires
        n > 0,
    ensures
        r < n,
{
    rand::thread_rng().gen_range(0..n)
}

/// The `i`-th of the 62 name characters: upper case, lower case, digits.
fn charset_byte(i: usize) -> (r: u8)
    requires
        i < 62,
    ensures
        is_name_char(r),
{
    if i < 26 {
        65u8 + i as u8
    } else if i < 52 {
        97u8 + (i - 26) as u8
    } else {
        48u8 + (i - 52) as u8
    }
}

/// A random name of `n` ASCII letters and digits.
pub fn random_string(n: usize) -> (r: Vec<u8>)
    ensures
        r@.len() == n,
        forall|i: int| 0 <= i < n ==> is_name_char(#[trigger] r@[i]),
{
    let mut name: Vec<u8> = Vec::new();
    let mut k: usize = 0;
    while k < n
        invariant
            k <= n,
            name@.len() == k,
            forall|i: int| 0 <= i < k ==> is_name_char(#[trigger] name@[i]),
        decreases n - k,
    {
        let c = charset_byte(random_below(62));
        name.push(c);
        k = k + 1;
    }
    name
}

/// `/tmp/crabcan.`: where new roots are made.
pub open spec fn new_root_prefix() -> Seq<u8> {
    seq![47u8, 116u8, 109u8, 112u8, 47u8, 99u8, 114u8, 97u8, 98u8, 99u8, 97u8, 110u8, 46u8]
}

/// `oldroot.`: how the old root's directory name starts.
pub open spec fn old_root_prefix() -> Seq<u8> {
    seq![111u8, 108u8, 100u8, 114u8, 111u8, 111u8, 116u8, 46u8]
}

fn append(dst: &mut Vec<u8>, src: &[u8])
    ensures
        final(dst)@ == old(dst)@ + src@,
{
    let mut i: usize = 0;
    while i < src.len()
        invariant
            i <= src@.len(),
            dst@ == old(dst)@ + src@.subrange(0, i as int),
        decreases src@.len() - i,
    {
        dst.push(src[i]);
        i = i + 1;
        assert(src@.subrange(0, i as int) == src@.subrange(0, i - 1) + seq![src@[i - 1]]);
    }
    assert(src@.subrange(0, src@.len() as int) =~= src@);
}

/// The paths of one root pivot.
pub struct MountPlan {
    /// Where the mount source is bound and which becomes `/`.
    pub new_root: Vec<u8>,
    /// Where the old root goes, seen before the pivot.
    pub put_old: Vec<u8>,
    /// The same directory, seen after the pivot.
    pub old_root: Vec<u8>,
}

impl MountPlan {
    pub open spec fn new_root_spec(root_name: Seq<u8>) -> Seq<u8> {
        new_root_prefix() + root_name
    }

    pub open spec fn old_root_spec(old_name: Seq<u8>) -> Seq<u8> {
        seq![47u8] + old_root_prefix() + old_name
    }

    /// The plan for random names `root_name` and `old_name`: the new root is
    /// `/tmp/crabcan.<root_name>`, the old root goes to
    /// `<new root>/oldroot.<old_name>`, which is `/oldroot.<old_name>` after
    /// the pivot.
    pub fn new(root_name: &[u8], old_name: &[u8]) -> (r: MountPlan)
        ensures
            r.new_root@ == Self::new_root_spec(root_name@),
            r.old_root@ == Self::old_root_spec(old_name@),
            r.put_old@ == Self::new_root_spec(root_name@) + Self::old_root_spec(old_name@),
    {
        let prefix: [u8; 13] = [47u8, 116u8, 109u8, 112u8, 47u8, 99u8, 114u8, 97u8, 98u8, 99u8, 97u8, 110u8, 46u8];
        let tail: [u8; 9] = [47u8, 111u8, 108u8, 100u8, 114u8, 111u8, 111u8, 116u8, 46u8];
        assert(prefix@ =~= new_root_prefix());
        assert(tail@ =~= seq![47u8] + old_root_prefix());
        let mut new_root: Vec<u8> = Vec::new();
        append(&mut new_root, &prefix);
        append(&mut new_root, root_name);
        let mut old_root: Vec<u8> = Vec::new();
        append(&mut old_root, &tail);
        append(&mut old_root, old_name);
        let mut put_old: Vec<u8> = Vec::new();
        append(&mut put_old, new_root.as_slice());
        append(&mut put_old, old_root.as_slice());
        assert(old_root@ =~= Self::old_root_spec(old_name@));
        assert(new_root@ =~= Self::new_root_spec(root_name@));
        MountPlan { new_root, put_old, old_root }
    }

    /// A plan with freshly drawn names of the runtime's lengths, made of
    /// ASCII letters and digits.
    pub fn random() -> (r: MountPlan)
        ensures
            exists|a: Seq<u8>, b: Seq<u8>|
                a.len() == NEW_ROOT_NAME_LEN && b.len() == OLD_ROOT_NAME_LEN
                && (forall|i: int| 0 <= i < a.len() ==> is_name_char(#[trigger] a[i]))
                && (forall|i: int| 0 <= i < b.len() ==> is_name_char(#[trigger] b[i]))
                && r.new_root@ == #[trigger] Self::new_root_spec(a)
                && r.old_root@ == #[trigger] Self::old_root_spec(b)
                && r.put_old@ == Self::new_root_spec(a) + Self::old_root_spec(b),
    {
        let a = random_string(NEW_ROOT_NAME_LEN);
        let b = random_string(OLD_ROOT_NAME_LEN);
        let r = MountPlan::new(a.as_slice(), b.as_slice());
        assert(r.new_root@ == Self::new_root_spec(a@));
        r
    }
}

/// The steps of the root pivot. The first eight run in order; the last
/// three undo, after a failure before the pivot took effect, what the
/// earlier steps made on the host, and end with the failure's `code`.
#[derive(Debug, Clone, Copy, PartialEq, Eq, Structural)]
pub enum MountStep {
    /// Remount `/` recursively private, cutting propagation to the host.
    PrivatizeRoot,
    /// Create the new root directory.
    CreateNewRoot,
    /// Bind the mount source onto the new root, privately.
    BindSource,
    /// Create the directory the old root goes to.
    CreateOldRoot,
    /// Pivot: the new root becomes `/`.
    PivotRoot,
    /// Change directory to the new `/`.
    ChdirRoot,
    /// Detach the old root.
    UnmountOldRoot,
    /// Remove the old root's empty directory.
    DeleteOldRoot,
    Done,
    /// Undo: remove the old root's directory inside the bound source.
    RemovePutOld { code: u8 },
    /// Undo: detach the bind mount of the new root.
    UnbindNewRoot { code: u8 },
    /// Undo: remove the new root directory.
    RemoveNewRoot { code: u8 },
}

impl MountStep {
    /// The step a pivot starts with.
    pub fn first() -> (r: MountStep)
        ensures
            r == MountStep::PrivatizeRoot,
    {
        MountStep::PrivatizeRoot
    }
}

/// One of the eight steps of a successful pivot, or `Done`.
pub open spec fn is_forward(s: MountStep) -> bool {
    !(s is RemovePutOld) && !(s is UnbindNewRoot) && !(s is RemoveNewRoot)
}

/// Position of a forward step in the sequence.
pub open spec fn mount_index(s: MountStep) -> nat {
    match s {
        MountStep::PrivatizeRoot => 0,
        MountStep::CreateNewRoot => 1,
        MountStep::BindSource => 2,
        MountStep::CreateOldRoot => 3,
        MountStep::PivotRoot => 4,
        MountStep::ChdirRoot => 5,
        MountStep::UnmountOldRoot => 6,
        MountStep::DeleteOldRoot => 7,
        _ => 8,
    }
}

/// The subcode of a failing forward step; each step has its own.
pub open spec fn mount_code(s: MountStep) -> u8 {
    match s {
        MountStep::PrivatizeRoot => 3,
        MountStep::CreateNewRoot => 2,
        MountStep::BindSource => 6,
        MountStep::CreateOldRoot => 7,
        MountStep::PivotRoot => 4,
        MountStep::ChdirRoot => 5,
        MountStep::UnmountOldRoot => 0,
        _ => 1,
    }
}

/// The pivot's transition table. A forward step that succeeds leads to the
/// next one. One that fails ends the pivot with its own code, after undoing
/// what was made on the host: the new root's bind and directory once the
/// bind is in place, the old root's directory too once it exists. Undo steps
/// run whatever their outcome. Nothing is retried.
pub open spec fn mount_next_spec(step: MountStep, succeeded: bool) -> Result<MountStep, Errcode> {
    match step {
        MountStep::Done => Ok(MountStep::Done),
        MountStep::RemovePutOld { code } => Ok(MountStep::UnbindNewRoot { code }),
        MountStep::UnbindNewRoot { code } => Ok(MountStep::RemoveNewRoot { code }),
        MountStep::RemoveNewRoot { code } => Err(Errcode::MountsError(code)),
        _ => if succeeded {
            Ok(match step {
                MountStep::PrivatizeRoot => MountStep::CreateNewRoot,
                MountStep::CreateNewRoot => MountStep::BindSource,
                MountStep::BindSource => MountStep::CreateOldRoot,
                MountStep::CreateOldRoot => MountStep::PivotRoot,
                MountStep::PivotRoot => MountStep::ChdirRoot,
                MountStep::ChdirRoot => MountStep::UnmountOldRoot,
                MountStep::UnmountOldRoot => MountStep::DeleteOldRoot,
                _ => MountStep::Done,
            })
        } else {
            match step {
                MountStep::BindSource => Ok(MountStep::RemoveNewRoot { code: mount_code(step) }),
                MountStep::CreateOldRoot => Ok(MountStep::UnbindNewRoot { code: mount_code(step) }),
                MountStep::PivotRoot => Ok(MountStep::RemovePutOld { code: mount_code(step) }),
                _ => Err(Errcode::MountsError(mount_code(step))),
            }
        },
    }
}

/// The step after `step` ran and `succeeded` or not.
pub fn mount_next(step: MountStep, succeeded: bool) -> (r: Result<MountStep, Errcode>)
    ensures
        r == mount_next_spec(step, succeeded),
{
    match step {
        MountStep::Done => Ok(MountStep::Done),
        MountStep::RemovePutOld { code } => Ok(MountStep::UnbindNewRoot { code }),
        MountStep::UnbindNewRoot { code } => Ok(MountStep::RemoveNewRoot { code }),
        MountStep::RemoveNewRoot { code } => Err(Errcode::MountsError(code)),
        _ => if succeeded {
            Ok(match step {
                MountStep::PrivatizeRoot => MountStep::CreateNewRoot,
                MountStep::CreateNewRoot => MountStep::BindSource,
                MountStep::BindSource => MountStep::CreateOldRoot,
                MountStep::CreateOldRoot => MountStep::PivotRoot,
                MountStep::PivotRoot => MountStep::ChdirRoot,
                MountStep::ChdirRoot => MountStep::UnmountOldRoot,
                MountStep::UnmountOldRoot => MountStep::DeleteOldRoot,
                _ => MountStep::Done,
            })
        } else {
            let code: u8 = match step {
                MountStep::PrivatizeRoot => 3,
                MountStep::CreateNewRoot => 2,
                MountStep::BindSource => 6,
                MountStep::CreateOldRoot => 7,
                MountStep::PivotRoot => 4,
                MountStep::ChdirRoot => 5,
                MountStep::UnmountOldRoot => 0,
                _ => 1,
            };
            match step {
                MountStep::BindSource => Ok(MountStep::RemoveNewRoot { code }),
                MountStep::CreateOldRoot => Ok(MountStep::UnbindNewRoot { code }),
                MountStep::PivotRoot => Ok(MountStep::RemovePutOld { code }),
                _ => Err(Errcode::MountsError(code)),
            }
        },
    }
}

/// Successful forward steps run in order, one position at a time.
pub proof fn lemma_mount_steps_in_order(step: MountStep)
    requires
        is_forward(step),
        step != MountStep::Done,
    ensures
        mount_next_spec(step, true) matches Ok(n) && is_forward(n) && mount_index(n) == mount_index(step) + 1,
{
}

/// Two different forward steps fail with different subcodes.
pub proof fn lemma_mount_codes_distinct(s: MountStep, t: MountStep)
    requires
        is_forward(s),
        is_forward(t),
        s != MountStep::Done,
        t != MountStep::Done,
        s != t,
    ensures
        mount_code(s) != mount_code(t),
{
}

/// A failure at any step from creating the new root through the pivot
/// leaves nothing on the host: the steps after it are exactly the undo
/// steps for what had been made (old root directory, bind, new root
/// directory), whatever their own outcomes, and the pivot then ends with
/// the failing step's own code.
pub proof fn lemma_failure_undoes_host_changes(step: MountStep, o1: bool, o2: bool, o3: bool)
    requires
        step == MountStep::CreateNewRoot || step == MountStep::BindSource
            || step == MountStep::CreateOldRoot || step == MountStep::PivotRoot,
    ensures
        step == MountStep::CreateNewRoot ==> mount_next_spec(step, false) == Err::<MountStep, Errcode>(
            Errcode::MountsError(2),
        ),
        step == MountStep::BindSource ==> mount_next_spec(step, false) == Ok::<MountStep, Errcode>(
            MountStep::RemoveNewRoot { code: 6 },
        ),
        step == MountStep::CreateOldRoot ==> mount_next_spec(step, false) == Ok::<MountStep, Errcode>(
            MountStep::UnbindNewRoot { code: 7 },
        ),
        step == MountStep::PivotRoot ==> mount_next_spec(step, false) == Ok::<MountStep, Errcode>(
            MountStep::RemovePutOld { code: 4 },
        ),
        forall|c: u8|
            mount_next_spec(MountStep::RemovePutOld { code: c }, o1) == Ok::<MountStep, Errcode>(
                MountStep::UnbindNewRoot { code: c },
            ),
        forall|c: u8|
            mount_next_spec(MountStep::UnbindNewRoot { code: c }, o2) == Ok::<MountStep, Errcode>(
                MountStep::RemoveNewRoot { code: c },
            ),
        forall|c: u8|
            mount_next_spec(MountStep::RemoveNewRoot { code: c }, o3) == Err::<MountStep, Errcode>(
                Errcode::MountsError(c),
            ),
{
}

/// Cleanup of the mount directory from the parent: nothing is left to do,
/// as the pivot already detached the old root inside the container.
pub fn clean_mounts(_rootpath: &[u8]) -> (r: Result<(), Errcode>)
    ensures
        r is Ok,
{
    Ok(())
}

} // verus!
