use crate::errors::Errcode;
use vstd::prelude::*;

verus! {

/// First outer id the user namespace's ids map to.
pub const USERNS_OFFSET: u32 = 10000;

/// How many ids the user namespace maps.
pub const USERNS_COUNT: u32 = 2000;

/// One line of a `uid_map`/`gid_map` file: `count` ids from `inside` map to
/// as many from `outside`.
#[derive(Debug, Clone, Copy, PartialEq, Eq, Structural)]
pub struct IdMapping {
    pub inside: u32,
    pub outside: u32,
    pub count: u32,
}

/// The outer id that inner id `id` stands for, if the mapping covers it.
pub open spec fn mapped(m: IdMapping, id: int) -> Option<int> {
    if m.inside <= id < m.inside + m.count {
        Some(m.outside + (id - m.inside))
    } else {
        None
    }
}

/// The decimal digits of `n`, in ASCII, without leading zeros.
pub open spec fn decimal(n: nat) -> Seq<u8>
    decreases n,
{
    if n < 10 {
        seq![(48 + n) as u8]
    } else {
        decimal(n / 10).push((48 + n % 10) as u8)
    }
}

/// The line of a map file for `m`: `<inside> <outside> <count>`.
pub open spec fn map_line_spec(m: IdMapping) -> Seq<u8> {
    decimal(m.inside as nat) + seq![32u8] + decimal(m.outside as nat) + seq![32u8] + decimal(
        m.count as nat,
    )
}

/// Appends the decimal digits of `n` to `out`.
fn push_decimal(out: &mut Vec<u8>, n: u32)
    ensures
        final(out)@ == old(out)@ + decimal(n as nat),
    decreases n,
{
    if n >= 10 {
        push_decimal(out, n / 10);
    }
    out.push(48 + (n % 10) as u8);
    assert(final(out)@ =~= old(out)@ + decimal(n as nat));
}

/// The runtime's mapping: inner ids 0..1999 to outer 10000..11999.
pub open spec fn default_mapping_spec() -> IdMapping {
    IdMapping { inside: 0, outside: USERNS_OFFSET, count: USERNS_COUNT }
}

impl IdMapping {
    /// The mapping written for every container.
    pub fn default_mapping() -> (r: IdMapping)
        ensures
            r == default_mapping_spec(),
    {
        IdMapping { inside: 0, outside: USERNS_OFFSET, count: USERNS_COUNT }
    }

    /// The bytes written to a `uid_map` or `gid_map` file for this mapping.
    pub fn map_line(&self) -> (r: Vec<u8>)
        ensures
            r@ == map_line_spec(*self),
    {
        let mut out: Vec<u8> = Vec::new();
        push_decimal(&mut out, self.inside);
        out.push(32);
        push_decimal(&mut out, self.outside);
        out.push(32);
        push_decimal(&mut out, self.count);
        assert(out@ =~= map_line_spec(*self));
        out
    }

    /// The outer id of inner id `id`, `None` where the mapping does not reach.
    pub fn map_id(&self, id: u32) -> (r: Option<u64>)
        ensures
            r matches Some(o) ==> mapped(*self, id as int) == Some(o as int),
            r is None ==> mapped(*self, id as int) is None,
    {
        if self.inside <= id && (id as u64) < self.inside as u64 + self.count as u64 {
            Some(self.outside as u64 + (id - self.inside) as u64)
        } else {
            None
        }
    }
}

/// Under the runtime's mapping, inner id `id` is outer id `10000 + id` for
/// ids below 2000, and unmapped from 2000 on.
pub proof fn lemma_default_mapping(id: int)
    requires
        id >= 0,
    ensures
        id < 2000 ==> mapped(default_mapping_spec(), id) == Some(10000 + id),
        id >= 2000 ==> mapped(default_mapping_spec(), id) is None,
{
}

/// What a setup step reported back to the state machine that asked for it.
#[derive(Debug, Clone, Copy, PartialEq, Eq, Structural)]
pub enum Outcome {
    Succeeded,
    Failed,
    /// A file could not be opened for writing.
    CannotOpen,
    /// A boolean message arrived on the channel.
    Received(bool),
}

/// Child side of the user-namespace handshake.
#[derive(Debug, Clone, Copy, PartialEq, Eq, Structural)]
pub enum ChildStep {
    Unshare,
    Report { supported: bool },
    AwaitParent { supported: bool },
    SetGroups,
    SetGid,
    SetUid,
    Done,
}

impl ChildStep {
    /// The step this side of the handshake starts with.
    pub fn first() -> (r: ChildStep)
        ensures
            r == ChildStep::Unshare,
    {
        ChildStep::Unshare
    }
}

/// What the child must do at a step.
#[derive(Debug, Clone, Copy, PartialEq, Eq, Structural)]
pub enum ChildAction {
    /// Try to move into a new user namespace.
    UnshareUserNamespace,
    /// Tell the parent whether that worked.
    Send(bool),
    /// Wait for the parent's error flag.
    Receive,
    /// Make `gid` the only supplementary group.
    SetGroups(u32),
    /// Set real, effective and saved group id.
    SetResGid(u32),
    /// Set real, effective and saved user id.
    SetResUid(u32),
    Finished,
}

pub open spec fn child_action_spec(step: ChildStep, uid: u32) -> ChildAction {
    match step {
        ChildStep::Unshare => ChildAction::UnshareUserNamespace,
        ChildStep::Report { supported } => ChildAction::Send(supported),
        ChildStep::AwaitParent { .. } => ChildAction::Receive,
        ChildStep::SetGroups => ChildAction::SetGroups(uid),
        ChildStep::SetGid => ChildAction::SetResGid(uid),
        ChildStep::SetUid => ChildAction::SetResUid(uid),
        ChildStep::Done => ChildAction::Finished,
    }
}

/// The child's transition table. A failed unshare is not fatal: it is
/// reported as "unsupported". A `true` from the parent, or any failure of
/// the channel or of the id switch, ends the handshake with its code.
pub open spec fn child_next_spec(step: ChildStep, o: Outcome) -> Result<ChildStep, Errcode> {
    match step {
        ChildStep::Unshare => Ok(ChildStep::Report { supported: o == Outcome::Succeeded }),
        ChildStep::Report { supported } => if o == Outcome::Succeeded {
            Ok(ChildStep::AwaitParent { supported })
        } else {
            Err(Errcode::SocketError(1))
        },
        ChildStep::AwaitParent { .. } => match o {
            Outcome::Received(true) => Err(Errcode::NamespacesError(0)),
            Outcome::Received(false) => Ok(ChildStep::SetGroups),
            _ => Err(Errcode::SocketError(2)),
        },
        ChildStep::SetGroups => if o == Outcome::Succeeded {
            Ok(ChildStep::SetGid)
        } else {
            Err(Errcode::NamespacesError(1))
        },
        ChildStep::SetGid => if o == Outcome::Succeeded {
            Ok(ChildStep::SetUid)
        } else {
            Err(Errcode::NamespacesError(2))
        },
        ChildStep::SetUid => if o == Outcome::Succeeded {
            Ok(ChildStep::Done)
        } else {
            Err(Errcode::NamespacesError(3))
        },
        ChildStep::Done => Ok(ChildStep::Done),
    }
}

/// The action the child performs at `step`, switching to `uid` (also used
/// as the gid).
pub fn child_action(step: ChildStep, uid: u32) -> (r: ChildAction)
    ensures
        r == child_action_spec(step, uid),
{
    match step {
        ChildStep::Unshare => ChildAction::UnshareUserNamespace,
        ChildStep::Report { supported } => ChildAction::Send(supported),
        ChildStep::AwaitParent { .. } => ChildAction::Receive,
        ChildStep::SetGroups => ChildAction::SetGroups(uid),
        ChildStep::SetGid => ChildAction::SetResGid(uid),
        ChildStep::SetUid => ChildAction::SetResUid(uid),
        ChildStep::Done => ChildAction::Finished,
    }
}

/// The child's next step after the action of `step` had outcome `o`.
pub fn child_next(step: ChildStep, o: Outcome) -> (r: Result<ChildStep, Errcode>)
    ensures
        r == child_next_spec(step, o),
{
    match step {
        ChildStep::Unshare => Ok(ChildStep::Report { supported: o == Outcome::Succeeded }),
        ChildStep::Report { supported } => if o == Outcome::Succeeded {
            Ok(ChildStep::AwaitParent { supported })
        } else {
            Err(Errcode::SocketError(1))
        },
        ChildStep::AwaitParent { .. } => match o {
            Outcome::Received(true) => Err(Errcode::NamespacesError(0)),
            Outcome::Received(false) => Ok(ChildStep::SetGroups),
            _ => Err(Errcode::SocketError(2)),
        },
        ChildStep::SetGroups => if o == Outcome::Succeeded {
            Ok(ChildStep::SetGid)
        } else {
            Err(Errcode::NamespacesError(1))
        },
        ChildStep::SetGid => if o == Outcome::Succeeded {
            Ok(ChildStep::SetUid)
        } else {
            Err(Errcode::NamespacesError(2))
        },
        ChildStep::SetUid => if o == Outcome::Succeeded {
            Ok(ChildStep::Done)
        } else {
            Err(Errcode::NamespacesError(3))
        },
        ChildStep::Done => Ok(ChildStep::Done),
    }
}

/// Parent side of the user-namespace handshake.
#[derive(Debug, Clone, Copy, PartialEq, Eq, Structural)]
pub enum ParentStep {
    AwaitSupport,
    WriteUidMap,
    WriteGidMap,
    Release,
    Done,
}

impl ParentStep {
    /// The step this side of the handshake starts with.
    pub fn first() -> (r: ParentStep)
        ensures
            r == ParentStep::AwaitSupport,
    {
        ParentStep::AwaitSupport
    }
}

/// Which of the child's mapping files a write goes to.
#[derive(Debug, Clone, Copy, PartialEq, Eq, Structural)]
pub enum MapFile {
    Uid,
    Gid,
}

/// What the parent must do at a step.
#[derive(Debug, Clone, Copy, PartialEq, Eq, Structural)]
pub enum ParentAction {
    /// Wait for the child's "user namespace supported" flag.
    Receive,
    /// Write `mapping` as the single line of the child's map file.
    WriteMap(MapFile, IdMapping),
    /// Send the error flag that lets the child go on.
    Send(bool),
    Finished,
}

pub open spec fn parent_action_spec(step: ParentStep) -> ParentAction {
    match step {
        ParentStep::AwaitSupport => ParentAction::Receive,
        ParentStep::WriteUidMap => ParentAction::WriteMap(MapFile::Uid, default_mapping_spec()),
        ParentStep::WriteGidMap => ParentAction::WriteMap(MapFile::Gid, default_mapping_spec()),
        ParentStep::Release => ParentAction::Send(false),
        ParentStep::Done => ParentAction::Finished,
    }
}

/// The parent's transition table: maps are written only after the child
/// said it has a user namespace; the child is always released with `false`.
pub open spec fn parent_next_spec(step: ParentStep, o: Outcome) -> Result<ParentStep, Errcode> {
    match step {
        ParentStep::AwaitSupport => match o {
            Outcome::Received(true) => Ok(ParentStep::WriteUidMap),
            Outcome::Received(false) => Ok(ParentStep::Release),
            _ => Err(Errcode::SocketError(2)),
        },
        ParentStep::WriteUidMap => match o {
            Outcome::Succeeded => Ok(ParentStep::WriteGidMap),
            Outcome::CannotOpen => Err(Errcode::NamespacesError(5)),
            _ => Err(Errcode::NamespacesError(4)),
        },
        ParentStep::WriteGidMap => match o {
            Outcome::Succeeded => Ok(ParentStep::Release),
            Outcome::CannotOpen => Err(Errcode::NamespacesError(7)),
            _ => Err(Errcode::NamespacesError(6)),
        },
        ParentStep::Release => if o == Outcome::Succeeded {
            Ok(ParentStep::Done)
        } else {
            Err(Errcode::SocketError(1))
        },
        ParentStep::Done => Ok(ParentStep::Done),
    }
}

/// The action the parent performs at `step`.
pub fn parent_action(step: ParentStep) -> (r: ParentAction)
    ensures
        r == parent_action_spec(step),
{
    match step {
        ParentStep::AwaitSupport => ParentAction::Receive,
        ParentStep::WriteUidMap => ParentAction::WriteMap(MapFile::Uid, IdMapping::default_mapping()),
        ParentStep::WriteGidMap => ParentAction::WriteMap(MapFile::Gid, IdMapping::default_mapping()),
        ParentStep::Release => ParentAction::Send(false),
        ParentStep::Done => ParentAction::Finished,
    }
}

/// The parent's next step after the action of `step` had outcome `o`.
pub fn parent_next(step: ParentStep, o: Outcome) -> (r: Result<ParentStep, Errcode>)
    ensures
        r == parent_next_spec(step, o),
{
    match step {
        ParentStep::AwaitSupport => match o {
            Outcome::Received(true) => Ok(ParentStep::WriteUidMap),
            Outcome::Received(false) => Ok(ParentStep::Release),
            _ => Err(Errcode::SocketError(2)),
        },
        ParentStep::WriteUidMap => match o {
            Outcome::Succeeded => Ok(ParentStep::WriteGidMap),
            Outcome::CannotOpen => Err(Errcode::NamespacesError(5)),
            _ => Err(Errcode::NamespacesError(4)),
        },
        ParentStep::WriteGidMap => match o {
            Outcome::Succeeded => Ok(ParentStep::Release),
            Outcome::CannotOpen => Err(Errcode::NamespacesError(7)),
            _ => Err(Errcode::NamespacesError(6)),
        },
        ParentStep::Release => if o == Outcome::Succeeded {
            Ok(ParentStep::Done)
        } else {
            Err(Errcode::SocketError(1))
        },
        ParentStep::Done => Ok(ParentStep::Done),
    }
}

/// The parent writes a map file only once the child reported user-namespace
/// support: after the child's flag `supported`, the next action is a map
/// write exactly when the flag is true, and without support the parent goes
/// straight to releasing the child with "no error". Whatever the child
/// reported, a "no error" reply moves it on to its id switch.
pub proof fn lemma_map_written_only_if_supported(supported: bool, reported: bool)
    ensures
        parent_next_spec(ParentStep::AwaitSupport, Outcome::Received(supported)) matches Ok(s)
            && (parent_action_spec(s) is WriteMap <==> supported),
        !supported ==> parent_action_spec(
            parent_next_spec(ParentStep::AwaitSupport, Outcome::Received(supported))->Ok_0,
        ) == ParentAction::Send(false),
        child_next_spec(ChildStep::AwaitParent { supported: reported }, Outcome::Received(false))
            == Ok::<ChildStep, Errcode>(ChildStep::SetGroups),
{
}

/// Once the id switch succeeds the child holds `uid` as group, gid and uid:
/// the three actions of the switch all carry the requested id.
pub proof fn lemma_switch_uses_requested_id(uid: u32)
    ensures
        child_action_spec(ChildStep::SetGroups, uid) == ChildAction::SetGroups(uid),
        child_action_spec(ChildStep::SetGid, uid) == ChildAction::SetResGid(uid),
        child_action_spec(ChildStep::SetUid, uid) == ChildAction::SetResUid(uid),
        child_next_spec(ChildStep::SetUid, Outcome::Succeeded) == Ok::<ChildStep, Errcode>(ChildStep::Done),
{
}

} // verus!
