//! Supervision of the runs of several projects.
use vstd::prelude::*;
use vstd::string::*;

use crate::ids::{ProjectId, RunId, SupervisionId};
use crate::rpc::ThinkingLevel;

verus! {

#[derive(Clone, Copy, Debug, PartialEq, Eq, Structural)]
pub enum SupervisionStatus {
    Starting,
    Running,
    Completed,
    Stopped,
    Failed,
}

impl SupervisionStatus {
    /// Whether a supervision in this status has ended.
    pub fn is_terminal(self) -> (r: bool)
        ensures
            r == (self is Completed || self is Stopped || self is Failed),
    {
        match self {
            SupervisionStatus::Completed
            | SupervisionStatus::Stopped
            | SupervisionStatus::Failed => true,
            _ => false,
        }
    }
}

#[derive(Clone, Debug, PartialEq, Eq)]
pub struct SupervisionSnapshot {
    pub id: SupervisionId,
    pub project_ids: Vec<ProjectId>,
    pub host_project_id: ProjectId,
    pub supervisor_run_id: Option<RunId>,
    pub provider: Option<String>,
    pub model: Option<String>,
    pub thinking: Option<ThinkingLevel>,
    pub cycles: usize,
    pub watched_runs: usize,
    pub last_decision: Option<String>,
    pub status: SupervisionStatus,
    pub error: Option<String>,
}

/// Whether identities stand in order, each once.
pub open spec fn ascending(ids: Seq<ProjectId>) -> bool {
    forall|i: int, j: int|
        0 <= i < j < ids.len() ==> (#[trigger] ids[i]).value < (#[trigger] ids[j]).value
}

fn put_in_order(ids: &mut Vec<ProjectId>, id: ProjectId)
    requires
        ascending(old(ids)@),
    ensures
        ascending(final(ids)@),
        final(ids)@.to_set() == old(ids)@.to_set().insert(id),
{
    let ghost before = ids@;
    let mut at: usize = 0;
    while at < ids.len() && ids[at].value < id.value
        invariant
            at <= ids@.len(),
            ids@ == before,
            forall|k: int| 0 <= k < at ==> (#[trigger] ids@[k]).value < id.value,
        decreases ids@.len() - at,
    {
        at += 1;
    }
    if at < ids.len() && ids[at].value == id.value {
        proof {
            assert(before[at as int] == id);
            assert(before.to_set().contains(id));
            assert(before.to_set() =~= before.to_set().insert(id));
        }
        return;
    }
    ids.insert(at, id);
    proof {
        let after = ids@;
        assert(after == before.insert(at as int, id));
        assert forall|x: ProjectId| after.to_set().contains(x) == before.to_set().insert(
            id,
        ).contains(x) by {
            if after.contains(x) && x != id {
                let k = after.index_of(x);
                if k < at {
                    assert(before[k] == x);
                } else {
                    assert(before[k - 1] == x);
                }
            }
            if before.contains(x) {
                let k = before.index_of(x);
                if k < at {
                    assert(after[k] == x);
                } else {
                    assert(after[k + 1] == x);
                }
            }
            assert(after[at as int] == id);
        }
        assert(after.to_set() =~= before.to_set().insert(id));
    }
}

impl SupervisionSnapshot {
    /// A supervision that is starting. The projects stand in the order of their
    /// identities, each once.
    pub fn new(
        id: SupervisionId,
        project_ids: Vec<ProjectId>,
        host_project_id: ProjectId,
        provider: Option<String>,
        model: Option<String>,
        thinking: Option<ThinkingLevel>,
    ) -> (r: Self)
        ensures
            ascending(r.project_ids@),
            r.project_ids@.to_set() == project_ids@.to_set(),
            r == (SupervisionSnapshot {
                id,
                project_ids: r.project_ids,
                host_project_id,
                supervisor_run_id: None,
                provider,
                model,
                thinking,
                cycles: 0,
                watched_runs: 0,
                last_decision: None,
                status: SupervisionStatus::Starting,
                error: None,
            }),
    {
        let mut sorted: Vec<ProjectId> = Vec::new();
        let mut i: usize = 0;
        assert(sorted@.to_set() =~= project_ids@.take(0).to_set());
        while i < project_ids.len()
            invariant
                i <= project_ids@.len(),
                ascending(sorted@),
                sorted@.to_set() == project_ids@.take(i as int).to_set(),
            decreases project_ids@.len() - i,
        {
            let project_id = project_ids[i];
            proof {
                let taken = project_ids@.take(i as int);
                let next = project_ids@.take(i + 1);
                assert(next =~= taken.push(project_id));
                assert forall|x: ProjectId| next.to_set().contains(x) == taken.to_set().insert(
                    project_id,
                ).contains(x) by {
                    if next.contains(x) {
                        let k = next.index_of(x);
                        if k < i {
                            assert(taken[k] == x);
                        }
                    }
                    if taken.contains(x) {
                        let k = taken.index_of(x);
                        assert(next[k] == x);
                    }
                    assert(next[i as int] == project_id);
                }
                assert(next.to_set() =~= taken.to_set().insert(project_id));
            }
            put_in_order(&mut sorted, project_id);
            i += 1;
        }
        assert(project_ids@.take(i as int) =~= project_ids@);
        SupervisionSnapshot {
            id,
            project_ids: sorted,
            host_project_id,
            supervisor_run_id: None,
            provider,
            model,
            thinking,
            cycles: 0,
            watched_runs: 0,
            last_decision: None,
            status: SupervisionStatus::Starting,
            error: None,
        }
    }
}

} // verus!
