use vstd::prelude::*;

verus! {

/// Real and effective user and group ids of the process.
#[derive(Clone, Copy, Debug, PartialEq, Eq, Structural)]
pub struct ProcessIds {
    pub uid: u32,
    pub gid: u32,
    pub euid: u32,
    pub egid: u32,
}

/// The process runs with root identity, really or effectively.
pub open spec fn elevated(ids: ProcessIds) -> bool {
    ids.uid == 0 || ids.euid == 0
}

/// Which of the two target principals a step concerns.
#[derive(Clone, Copy, Debug, PartialEq, Eq, Structural)]
pub enum Principal {
    User,
    Group,
}

/// Why privileges could not be dropped. Each is fatal.
#[derive(Clone, Copy, Debug, PartialEq, Eq, Structural)]
pub enum DropError {
    /// The name holds a NUL character and cannot be looked up.
    InvalidName(Principal),
    /// The name does not resolve to an id.
    UnknownPrincipal(Principal),
    /// The id transition was refused.
    PrivilegeDropFailed(Principal),
}

/// Where the drop stands.
#[derive(Clone, Copy, Debug, PartialEq, Eq, Structural)]
pub enum DropPhase {
    /// Waiting for the current ids.
    ReadIds,
    /// Waiting for the target names to be resolved.
    Lookup,
    /// Waiting for the group transition; the user id comes next.
    AwaitGid { uid: u32 },
    /// Waiting for the user transition.
    AwaitUid,
    /// Waiting for the ids after the transitions.
    ReadFinalIds,
    /// Finished; the process runs with these ids.
    Done(ProcessIds),
    /// Failed; the process must stop.
    Failed(DropError),
}

/// What the caller has observed since the last action.
#[derive(Clone, Copy, Debug, PartialEq, Eq, Structural)]
pub enum DropEvent {
    /// The current ids.
    Ids(ProcessIds),
    /// The ids the target user and group names resolve to, if they do.
    Resolved { uid: Option<u32>, gid: Option<u32> },
    /// Return code of the group transition.
    GidSet(i32),
    /// Return code of the user transition.
    UidSet(i32),
}

/// What the caller does next.
#[derive(Clone, Copy, Debug, PartialEq, Eq, Structural)]
pub enum DropAction {
    ReadIds,
    LookupPrincipals,
    SetGid(u32),
    SetUid(u32),
    /// Report the ids the process now runs with; the drop is over.
    Finish(ProcessIds),
    /// Stop the process with this error.
    Fail(DropError),
    /// The event does not fit the phase, or the drop is over: do nothing.
    Ignore,
}

/// A one-way drop from root identity to a configured user and group.
#[derive(Clone, Debug)]
pub struct PrivilegeDrop {
    pub user: String,
    pub group: String,
    pub phase: DropPhase,
}

/// The next phase and action, given whether each name is free of NUL.
pub open spec fn transition(p: DropPhase, e: DropEvent, user_ok: bool, group_ok: bool) -> (
    DropPhase,
    DropAction,
) {
    match (p, e) {
        (DropPhase::ReadIds, DropEvent::Ids(ids)) => if !elevated(ids) {
            (DropPhase::Done(ids), DropAction::Finish(ids))
        } else if !user_ok {
            let err = DropError::InvalidName(Principal::User);
            (DropPhase::Failed(err), DropAction::Fail(err))
        } else if !group_ok {
            let err = DropError::InvalidName(Principal::Group);
            (DropPhase::Failed(err), DropAction::Fail(err))
        } else {
            (DropPhase::Lookup, DropAction::LookupPrincipals)
        },
        (DropPhase::Lookup, DropEvent::Resolved { uid, gid }) => match (uid, gid) {
            (None, _) => {
                let err = DropError::UnknownPrincipal(Principal::User);
                (DropPhase::Failed(err), DropAction::Fail(err))
            },
            (Some(_), None) => {
                let err = DropError::UnknownPrincipal(Principal::Group);
                (DropPhase::Failed(err), DropAction::Fail(err))
            },
            (Some(u), Some(g)) => (DropPhase::AwaitGid { uid: u }, DropAction::SetGid(g)),
        },
        (DropPhase::AwaitGid { uid }, DropEvent::GidSet(rc)) => if rc < 0 {
            let err = DropError::PrivilegeDropFailed(Principal::Group);
            (DropPhase::Failed(err), DropAction::Fail(err))
        } else {
            (DropPhase::AwaitUid, DropAction::SetUid(uid))
        },
        (DropPhase::AwaitUid, DropEvent::UidSet(rc)) => if rc < 0 {
            let err = DropError::PrivilegeDropFailed(Principal::User);
            (DropPhase::Failed(err), DropAction::Fail(err))
        } else {
            (DropPhase::ReadFinalIds, DropAction::ReadIds)
        },
        (DropPhase::ReadFinalIds, DropEvent::Ids(ids)) => (
            DropPhase::Done(ids),
            DropAction::Finish(ids),
        ),
        _ => (p, DropAction::Ignore),
    }
}

/// Whether `s` holds a NUL character.
pub fn has_nul(s: &str) -> (r: bool)
    ensures
        r == s@.contains('\0'),
{
    let n = s.unicode_len();
    let mut i: usize = 0;
    while i < n
        invariant
            n == s@.len(),
            0 <= i <= n,
            forall|k: int| 0 <= k < i ==> s@[k] != '\0',
        decreases n - i,
    {
        if s.get_char(i) == '\0' {
            return true;
        }
        i = i + 1;
    }
    false
}

/// Starts a privilege drop to `user` and `group`; the first action is to read
/// the current ids.
pub fn check_drop_privs(user: &str, group: &str) -> (r: (PrivilegeDrop, DropAction))
    ensures
        r.0.user@ == user@,
        r.0.group@ == group@,
        r.0.phase == DropPhase::ReadIds,
        r.1 == DropAction::ReadIds,
{
    (
        PrivilegeDrop {
            user: String::from_str(user),
            group: String::from_str(group),
            phase: DropPhase::ReadIds,
        },
        DropAction::ReadIds,
    )
}

impl PrivilegeDrop {
    /// Takes in what was observed and says what to do next.
    pub fn step(&mut self, e: DropEvent) -> (a: DropAction)
        ensures
            final(self).user@ == old(self).user@,
            final(self).group@ == old(self).group@,
            (final(self).phase, a) == transition(
                old(self).phase,
                e,
                !old(self).user@.contains('\0'),
                !old(self).group@.contains('\0'),
            ),
    {
        let (p, a) = match (self.phase, e) {
            (DropPhase::ReadIds, DropEvent::Ids(ids)) => {
                if !(ids.uid == 0 || ids.euid == 0) {
                    (DropPhase::Done(ids), DropAction::Finish(ids))
                } else if has_nul(self.user.as_str()) {
                    let err = DropError::InvalidName(Principal::User);
                    (DropPhase::Failed(err), DropAction::Fail(err))
                } else if has_nul(self.group.as_str()) {
                    let err = DropError::InvalidName(Principal::Group);
                    (DropPhase::Failed(err), DropAction::Fail(err))
                } else {
                    (DropPhase::Lookup, DropAction::LookupPrincipals)
                }
            },
            (DropPhase::Lookup, DropEvent::Resolved { uid, gid }) => match (uid, gid) {
                (None, _) => {
                    let err = DropError::UnknownPrincipal(Principal::User);
                    (DropPhase::Failed(err), DropAction::Fail(err))
                },
                (Some(_), None) => {
                    let err = DropError::UnknownPrincipal(Principal::Group);
                    (DropPhase::Failed(err), DropAction::Fail(err))
                },
                (Some(u), Some(g)) => (DropPhase::AwaitGid { uid: u }, DropAction::SetGid(g)),
            },
            (DropPhase::AwaitGid { uid }, DropEvent::GidSet(rc)) => {
                if rc < 0 {
                    let err = DropError::PrivilegeDropFailed(Principal::Group);
                    (DropPhase::Failed(err), DropAction::Fail(err))
                } else {
                    (DropPhase::AwaitUid, DropAction::SetUid(uid))
                }
            },
            (DropPhase::AwaitUid, DropEvent::UidSet(rc)) => {
                if rc < 0 {
                    let err = DropError::PrivilegeDropFailed(Principal::User);
                    (DropPhase::Failed(err), DropAction::Fail(err))
                } else {
                    (DropPhase::ReadFinalIds, DropAction::ReadIds)
                }
            },
            (DropPhase::ReadFinalIds, DropEvent::Ids(ids)) => (
                DropPhase::Done(ids),
                DropAction::Finish(ids),
            ),
            _ => (self.phase, DropAction::Ignore),
        };
        self.phase = p;
        a
    }
}

/// The user transition is asked for only right after a group transition that
/// succeeded; a failed group transition fails the drop as a group failure and
/// never leads to the user transition; the group transition is asked for only
/// when entering the phase that waits for it; and a finished or failed drop
/// never acts again.
pub proof fn lemma_group_before_user(p: DropPhase, e: DropEvent, user_ok: bool, group_ok: bool)
    ensures
        transition(p, e, user_ok, group_ok).1 matches DropAction::SetUid(u) ==> (p
            == DropPhase::AwaitGid { uid: u } && (e is GidSet && e->GidSet_0 >= 0)),
        (p is AwaitGid && e is GidSet && e->GidSet_0 < 0) ==> transition(
            p,
            e,
            user_ok,
            group_ok,
        ) == (
            DropPhase::Failed(DropError::PrivilegeDropFailed(Principal::Group)),
            DropAction::Fail(DropError::PrivilegeDropFailed(Principal::Group)),
        ),
        (transition(p, e, user_ok, group_ok).0 is AwaitGid && !(p is AwaitGid)) <==> transition(
            p,
            e,
            user_ok,
            group_ok,
        ).1 is SetGid,
        (p is Done || p is Failed) ==> transition(p, e, user_ok, group_ok) == (
            p,
            DropAction::Ignore,
        ),
{
}

/// The actions taken from phase `p` as `events` are observed in turn.
pub open spec fn drop_actions(p: DropPhase, events: Seq<DropEvent>, user_ok: bool, group_ok: bool) -> Seq<
    DropAction,
>
    decreases events.len(),
{
    if events.len() == 0 {
        seq![]
    } else {
        let (n, a) = transition(p, events[0], user_ok, group_ok);
        seq![a] + drop_actions(n, events.drop_first(), user_ok, group_ok)
    }
}

/// Whether an action changes the process's ids.
pub open spec fn is_transition(a: DropAction) -> bool {
    a is SetGid || a is SetUid
}

proof fn lemma_settled_never_acts(p: DropPhase, events: Seq<DropEvent>, user_ok: bool, group_ok: bool)
    requires
        p is Done || p is Failed,
    ensures
        forall|i: int|
            0 <= i < drop_actions(p, events, user_ok, group_ok).len() ==> #[trigger] drop_actions(
                p,
                events,
                user_ok,
                group_ok,
            )[i] == DropAction::Ignore,
    decreases events.len(),
{
    if events.len() > 0 {
        let rest = drop_actions(p, events.drop_first(), user_ok, group_ok);
        lemma_settled_never_acts(p, events.drop_first(), user_ok, group_ok);
        assert(drop_actions(p, events, user_ok, group_ok) == seq![DropAction::Ignore] + rest);
        assert forall|i: int| 0 < i < rest.len() + 1 implies drop_actions(
            p,
            events,
            user_ok,
            group_ok,
        )[i] == rest[i - 1] by {}
    }
}

/// The id transitions are attempted exactly when the process runs elevated:
/// a process that is not elevated finishes on its first ids and never changes
/// them, whatever it observes later; an elevated one whose target names are
/// valid and resolve to `uid` and `gid` goes on to the group transition.
pub proof fn lemma_transition_iff_elevated(
    ids: ProcessIds,
    events: Seq<DropEvent>,
    user_ok: bool,
    group_ok: bool,
    uid: u32,
    gid: u32,
)
    requires
        events.len() > 0,
        events[0] == DropEvent::Ids(ids),
    ensures
        !elevated(ids) ==> drop_actions(DropPhase::ReadIds, events, user_ok, group_ok)[0]
            == DropAction::Finish(ids) && forall|i: int|
            0 <= i < drop_actions(DropPhase::ReadIds, events, user_ok, group_ok).len()
                ==> !is_transition(
                #[trigger] drop_actions(DropPhase::ReadIds, events, user_ok, group_ok)[i],
            ),
        (elevated(ids) && user_ok && group_ok && events.len() > 1 && events[1]
            == DropEvent::Resolved { uid: Some(uid), gid: Some(gid) }) ==> drop_actions(
            DropPhase::ReadIds,
            events,
            user_ok,
            group_ok,
        )[1] == DropAction::SetGid(gid),
{
    let rest = events.drop_first();
    if !elevated(ids) {
        let tail = drop_actions(DropPhase::Done(ids), rest, user_ok, group_ok);
        lemma_settled_never_acts(DropPhase::Done(ids), rest, user_ok, group_ok);
        let all = drop_actions(DropPhase::ReadIds, events, user_ok, group_ok);
        assert(all == seq![DropAction::Finish(ids)] + tail);
        assert forall|i: int| 0 <= i < all.len() implies !is_transition(#[trigger] all[i]) by {
            if i > 0 {
                assert(all[i] == tail[i - 1]);
            }
        }
    } else if user_ok && group_ok && events.len() > 1 {
        assert(rest[0] == events[1]);
        let tail = drop_actions(DropPhase::Lookup, rest, user_ok, group_ok);
        assert(drop_actions(DropPhase::ReadIds, events, user_ok, group_ok) == seq![
            DropAction::LookupPrincipals,
        ] + tail);
        assert(tail == seq![transition(DropPhase::Lookup, rest[0], user_ok, group_ok).1]
            + drop_actions(
            transition(DropPhase::Lookup, rest[0], user_ok, group_ok).0,
            rest.drop_first(),
            user_ok,
            group_ok,
        ));
    }
}

} // verus!
