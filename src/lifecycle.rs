use vstd::prelude::*;

verus! {

/// Where startup stands. Stages only move forward.
#[derive(Clone, Copy, Debug, PartialEq, Eq, Structural)]
pub enum Stage {
    Configured,
    ZonesResolved,
    CatalogPopulated,
    TransportsBound,
    PrivilegesDropped,
    Serving,
    /// Normal end: the engine stopped, or the configuration was validated.
    Stopped,
    /// A startup step failed.
    Failed,
    /// The running engine reported an error.
    Aborted,
}

/// The work to perform at a stage.
#[derive(Clone, Copy, Debug, PartialEq, Eq, Structural)]
pub enum LifecycleAction {
    /// Resolve every zone, one at a time, in order.
    ResolveZones,
    /// Insert each zone's authorities into the catalog.
    PopulateCatalog,
    /// Report that the configuration is valid; nothing is bound.
    ReportValid,
    /// Bind and register every planned listener.
    BindTransports,
    /// Drop privileges, once.
    DropPrivileges,
    /// Announce the server.
    StartServing,
    /// Hand control to the engine until it stops.
    RunEngine,
    /// Exit the process with this code.
    Exit(i32),
    /// Abort the process.
    Abort,
}

/// The work to perform at stage `s`.
pub open spec fn action_of(s: Stage, validate_only: bool) -> LifecycleAction {
    match s {
        Stage::Configured => LifecycleAction::ResolveZones,
        Stage::ZonesResolved => LifecycleAction::PopulateCatalog,
        Stage::CatalogPopulated => if validate_only {
            LifecycleAction::ReportValid
        } else {
            LifecycleAction::BindTransports
        },
        Stage::TransportsBound => LifecycleAction::DropPrivileges,
        Stage::PrivilegesDropped => LifecycleAction::StartServing,
        Stage::Serving => LifecycleAction::RunEngine,
        Stage::Stopped => LifecycleAction::Exit(0),
        Stage::Failed => LifecycleAction::Exit(1),
        Stage::Aborted => LifecycleAction::Abort,
    }
}

/// The stage after the work of stage `s` ended, well or not.
pub open spec fn after(s: Stage, ok: bool, validate_only: bool) -> Stage {
    match s {
        Stage::Configured => if ok {
            Stage::ZonesResolved
        } else {
            Stage::Failed
        },
        Stage::ZonesResolved => if ok {
            Stage::CatalogPopulated
        } else {
            Stage::Failed
        },
        Stage::CatalogPopulated => if validate_only {
            Stage::Stopped
        } else if ok {
            Stage::TransportsBound
        } else {
            Stage::Failed
        },
        Stage::TransportsBound => if ok {
            Stage::PrivilegesDropped
        } else {
            Stage::Failed
        },
        Stage::PrivilegesDropped => if ok {
            Stage::Serving
        } else {
            Stage::Failed
        },
        Stage::Serving => if ok {
            Stage::Stopped
        } else {
            Stage::Aborted
        },
        _ => s,
    }
}

/// The actions taken from stage `s` as the work ends with `outcomes` in turn.
pub open spec fn actions_taken(s: Stage, outcomes: Seq<bool>, validate_only: bool) -> Seq<
    LifecycleAction,
>
    decreases outcomes.len(),
{
    if outcomes.len() == 0 {
        seq![]
    } else {
        seq![action_of(s, validate_only)] + actions_taken(
            after(s, outcomes[0], validate_only),
            outcomes.drop_first(),
            validate_only,
        )
    }
}

/// The stage reached from `s` as the work ends with `outcomes` in turn.
pub open spec fn stage_after(s: Stage, outcomes: Seq<bool>, validate_only: bool) -> Stage
    decreases outcomes.len(),
{
    if outcomes.len() == 0 {
        s
    } else {
        stage_after(after(s, outcomes[0], validate_only), outcomes.drop_first(), validate_only)
    }
}

/// The startup sequence of the server process.
#[derive(Clone, Copy, Debug, PartialEq, Eq, Structural)]
pub struct Lifecycle {
    pub stage: Stage,
    pub validate_only: bool,
}

impl Lifecycle {
    /// A lifecycle at its start.
    pub fn new(validate_only: bool) -> (r: Lifecycle)
        ensures
            r.stage == Stage::Configured,
            r.validate_only == validate_only,
    {
        Lifecycle { stage: Stage::Configured, validate_only }
    }

    /// The work to perform now.
    pub fn action(&self) -> (r: LifecycleAction)
        ensures
            r == action_of(self.stage, self.validate_only),
    {
        match self.stage {
            Stage::Configured => LifecycleAction::ResolveZones,
            Stage::ZonesResolved => LifecycleAction::PopulateCatalog,
            Stage::CatalogPopulated => if self.validate_only {
                LifecycleAction::ReportValid
            } else {
                LifecycleAction::BindTransports
            },
            Stage::TransportsBound => LifecycleAction::DropPrivileges,
            Stage::PrivilegesDropped => LifecycleAction::StartServing,
            Stage::Serving => LifecycleAction::RunEngine,
            Stage::Stopped => LifecycleAction::Exit(0),
            Stage::Failed => LifecycleAction::Exit(1),
            Stage::Aborted => LifecycleAction::Abort,
        }
    }

    /// Moves on once the current work has ended, well or not.
    pub fn advance(&mut self, ok: bool)
        ensures
            final(self).validate_only == old(self).validate_only,
            final(self).stage == after(old(self).stage, ok, old(self).validate_only),
    {
        let next = match self.stage {
            Stage::Configured => if ok {
                Stage::ZonesResolved
            } else {
                Stage::Failed
            },
            Stage::ZonesResolved => if ok {
                Stage::CatalogPopulated
            } else {
                Stage::Failed
            },
            Stage::CatalogPopulated => if self.validate_only {
                Stage::Stopped
            } else if ok {
                Stage::TransportsBound
            } else {
                Stage::Failed
            },
            Stage::TransportsBound => if ok {
                Stage::PrivilegesDropped
            } else {
                Stage::Failed
            },
            Stage::PrivilegesDropped => if ok {
                Stage::Serving
            } else {
                Stage::Failed
            },
            Stage::Serving => if ok {
                Stage::Stopped
            } else {
                Stage::Aborted
            },
            s => s,
        };
        self.stage = next;
    }
}

/// Stages a validate-only run can be in.
pub open spec fn validate_stage(s: Stage) -> bool {
    s is Configured || s is ZonesResolved || s is CatalogPopulated || s is Stopped || s is Failed
}

proof fn lemma_validate_stages(s: Stage, outcomes: Seq<bool>)
    requires
        validate_stage(s),
    ensures
        validate_stage(stage_after(s, outcomes, true)),
        forall|i: int|
            0 <= i < actions_taken(s, outcomes, true).len() ==> {
                let a = #[trigger] actions_taken(s, outcomes, true)[i];
                a != LifecycleAction::BindTransports && a != LifecycleAction::DropPrivileges
                    && a != LifecycleAction::StartServing && a != LifecycleAction::RunEngine
            },
        s is Stopped ==> stage_after(s, outcomes, true) == Stage::Stopped,
    decreases outcomes.len(),
{
    if outcomes.len() > 0 {
        let n = after(s, outcomes[0], true);
        lemma_validate_stages(n, outcomes.drop_first());
        let rest = actions_taken(n, outcomes.drop_first(), true);
        assert(actions_taken(s, outcomes, true) == seq![action_of(s, true)] + rest);
        assert forall|i: int| 0 <= i < actions_taken(s, outcomes, true).len() implies {
            let a = #[trigger] actions_taken(s, outcomes, true)[i];
            a != LifecycleAction::BindTransports && a != LifecycleAction::DropPrivileges
                && a != LifecycleAction::StartServing && a != LifecycleAction::RunEngine
        } by {
            if i > 0 {
                assert(actions_taken(s, outcomes, true)[i] == rest[i - 1]);
            }
        }
    }
}

/// A validate-only run never binds a listener, never drops privileges and
/// never serves, whatever its steps report; and once zone resolution and
/// catalog population succeed it ends stopped, with success.
pub proof fn lemma_validate_only(outcomes: Seq<bool>)
    ensures
        forall|i: int|
            0 <= i < actions_taken(Stage::Configured, outcomes, true).len() ==> {
                let a = #[trigger] actions_taken(Stage::Configured, outcomes, true)[i];
                a != LifecycleAction::BindTransports && a != LifecycleAction::DropPrivileges
                    && a != LifecycleAction::StartServing && a != LifecycleAction::RunEngine
            },
        (outcomes.len() >= 3 && outcomes[0] && outcomes[1]) ==> (stage_after(
            Stage::Configured,
            outcomes,
            true,
        ) == Stage::Stopped && action_of(stage_after(Stage::Configured, outcomes, true), true)
            == LifecycleAction::Exit(0)),
{
    lemma_validate_stages(Stage::Configured, outcomes);
    if outcomes.len() >= 3 && outcomes[0] && outcomes[1] {
        let o1 = outcomes.drop_first();
        let o2 = o1.drop_first();
        let o3 = o2.drop_first();
        assert(o1[0] == outcomes[1]);
        assert(stage_after(Stage::Configured, outcomes, true) == stage_after(
            Stage::ZonesResolved,
            o1,
            true,
        ));
        assert(stage_after(Stage::ZonesResolved, o1, true) == stage_after(
            Stage::CatalogPopulated,
            o2,
            true,
        ));
        assert(stage_after(Stage::CatalogPopulated, o2, true) == stage_after(
            Stage::Stopped,
            o3,
            true,
        ));
        lemma_validate_stages(Stage::Stopped, o3);
    }
}

/// Position of a stage in the forward order; the ends share the last place.
pub open spec fn rank(s: Stage) -> int {
    match s {
        Stage::Configured => 0,
        Stage::ZonesResolved => 1,
        Stage::CatalogPopulated => 2,
        Stage::TransportsBound => 3,
        Stage::PrivilegesDropped => 4,
        Stage::Serving => 5,
        _ => 6,
    }
}

proof fn lemma_drop_position(s: Stage, outcomes: Seq<bool>, validate_only: bool)
    ensures
        forall|i: int|
            0 <= i < actions_taken(s, outcomes, validate_only).len() && #[trigger] actions_taken(
                s,
                outcomes,
                validate_only,
            )[i] == LifecycleAction::DropPrivileges ==> rank(s) <= 3 && i == 3 - rank(s) && (i
                > 0 ==> actions_taken(s, outcomes, validate_only)[i - 1]
                == LifecycleAction::BindTransports),
    decreases outcomes.len(),
{
    if outcomes.len() > 0 {
        let n = after(s, outcomes[0], validate_only);
        let rest = actions_taken(n, outcomes.drop_first(), validate_only);
        lemma_drop_position(n, outcomes.drop_first(), validate_only);
        let all = actions_taken(s, outcomes, validate_only);
        assert(all == seq![action_of(s, validate_only)] + rest);
        assert forall|i: int|
            0 <= i < all.len() && #[trigger] all[i] == LifecycleAction::DropPrivileges implies rank(
                s,
            ) <= 3 && i == 3 - rank(s) && (i > 0 ==> all[i - 1]
                == LifecycleAction::BindTransports) by {
            if i > 0 {
                assert(all[i] == rest[i - 1]);
                if i > 1 {
                    assert(all[i - 1] == rest[i - 2]);
                }
            }
        }
    }
}

/// In any run, privileges are dropped at most once, and only right after the
/// listeners were bound; a run that resolves zones, populates the catalog and
/// binds its listeners, not validating only, goes on to drop them.
pub proof fn lemma_drop_once(outcomes: Seq<bool>, validate_only: bool)
    ensures
        forall|i: int, j: int|
            0 <= i < j < actions_taken(Stage::Configured, outcomes, validate_only).len()
                && #[trigger] actions_taken(Stage::Configured, outcomes, validate_only)[i]
                == LifecycleAction::DropPrivileges ==> #[trigger] actions_taken(
                Stage::Configured,
                outcomes,
                validate_only,
            )[j] != LifecycleAction::DropPrivileges,
        forall|i: int|
            0 <= i < actions_taken(Stage::Configured, outcomes, validate_only).len() && #[trigger] actions_taken(
                Stage::Configured,
                outcomes,
                validate_only,
            )[i] == LifecycleAction::DropPrivileges ==> i == 3 && actions_taken(
                Stage::Configured,
                outcomes,
                validate_only,
            )[i - 1] == LifecycleAction::BindTransports,
        (!validate_only && outcomes.len() >= 4 && outcomes[0] && outcomes[1] && outcomes[2])
            ==> actions_taken(Stage::Configured, outcomes, validate_only)[3]
            == LifecycleAction::DropPrivileges,
{
    lemma_drop_position(Stage::Configured, outcomes, validate_only);
    if !validate_only && outcomes.len() >= 4 && outcomes[0] && outcomes[1] && outcomes[2] {
        let o1 = outcomes.drop_first();
        let o2 = o1.drop_first();
        let o3 = o2.drop_first();
        assert(o1[0] == outcomes[1] && o2[0] == outcomes[2]);
        let a3 = actions_taken(Stage::TransportsBound, o3, false);
        let a2 = actions_taken(Stage::CatalogPopulated, o2, false);
        let a1 = actions_taken(Stage::ZonesResolved, o1, false);
        let a0 = actions_taken(Stage::Configured, outcomes, false);
        assert(a3[0] == LifecycleAction::DropPrivileges);
        assert(a2 == seq![LifecycleAction::BindTransports] + a3);
        assert(a2[1] == a3[0]);
        assert(a1 == seq![LifecycleAction::PopulateCatalog] + a2);
        assert(a1[2] == a2[1]);
        assert(a0 == seq![LifecycleAction::ResolveZones] + a1);
        assert(a0[3] == a1[2]);
    }
}

} // verus!
