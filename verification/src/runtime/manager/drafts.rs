//! Drafts of sessions, as far as runs depend on them. The drafts themselves are kept
//! elsewhere.
use vstd::prelude::*;
use vstd::string::*;

use crate::draft::DraftDurability;
use crate::ids::RunId;
use crate::keyed::{strictly_ordered, KeyMap, OrderedKey};
use crate::runtime::manager::actions::{NoticeView, UiNotice};
use crate::runtime::manager::basics::{of_run, run_text};
use crate::runtime::manager::requests::lists_where;
use crate::runtime::manager::{ManagerView, ReplacementView, RuntimeManager};
use crate::runtime::state::RunFailureKind;
use crate::runtime::ui_queue::UiQueueView;
use crate::text::{join, sat_add_u64};

verus! {

/// All replacements.
pub open spec fn any_replacement() -> spec_fn(ReplacementView) -> bool {
    |pending: ReplacementView| true
}

impl ManagerView {
    /// Why the draft of a run cannot be changed by hand now, if it cannot.
    pub open spec fn draft_refusal(self, run_id: RunId) -> Option<Seq<char>> {
        if self.shutdown is Some {
            Some("runtime manager is shutting down"@)
        } else if !self.store.runs.contains_key(run_id) {
            Some(of_run(run_id, " is not registered"@))
        } else if self.replacements.contains_key(run_id) {
            Some("session replacement is waiting for draft durability"@)
        } else if self.restore_pending(run_id) {
            Some("session draft restore is still pending"@)
        } else {
            None
        }
    }

    /// A draft that is not stored is stored once it has rested for a while.
    pub open spec fn save_scheduled(
        self,
        run_id: RunId,
        draft: Option<DraftDurability>,
        now_ms: u64,
    ) -> Self {
        if self.persistence && draft == Some(DraftDurability::Dirty)
            && self.sessions.contains_key(run_id) {
            ManagerView {
                save_deadlines: self.save_deadlines.insert(
                    self.sessions[run_id],
                    sat_add_u64(now_ms, self.limits.draft_save_debounce_ms),
                ),
                ..self
            }
        } else {
            self
        }
    }

    /// With the text that an extension put into the editor of a run.
    pub open spec fn editor_text_kept(self, run_id: RunId, text: Seq<char>) -> Self {
        if self.renderers.contains_key(run_id) {
            ManagerView {
                renderers: self.renderers.insert(
                    run_id,
                    UiQueueView { pending_editor_text: Some(text), ..self.renderers[run_id] },
                ),
                ..self
            }
        } else {
            self
        }
    }

    /// These runs show a draft that has changed.
    pub open spec fn drafts_notified(self, run_ids: Seq<RunId>) -> Self
        decreases run_ids.len(),
    {
        if run_ids.len() == 0 {
            self
        } else {
            self.drafts_notified(run_ids.drop_last()).notified(
                run_ids.last(),
                NoticeView::DraftChanged,
            )
        }
    }

    /// No draft is stored or read any more.
    pub open spec fn unpersisted(self) -> Self {
        ManagerView {
            persistence: false,
            loads_pending: Map::empty(),
            save_deadlines: Map::empty(),
            ..self
        }
    }

    /// The replacements of these runs will not happen.
    pub open spec fn replacements_failed(self, run_ids: Seq<RunId>, detail: Seq<char>) -> Self
        decreases run_ids.len(),
    {
        if run_ids.len() == 0 {
            self
        } else {
            self.replacements_failed(run_ids.drop_last(), detail).replacement_failed(
                run_ids.last(),
                detail,
            )
        }
    }
}

pub(crate) fn all_keys<V: View>(map: &KeyMap<RunId, V>) -> (r: Vec<RunId>)
    ensures
        strictly_ordered::<RunId>(r@),
        r@.to_set() == map@.dom(),
        forall|i: int| 0 <= i < r@.len() ==> map@.contains_key(#[trigger] r@[i]),
        forall|id: RunId| #[trigger] map@.contains_key(id) ==> r@.contains(id),
        r@.len() == map@.dom().len(),
{
    let n: usize = map.len();
    let ghost keys = map.key_models();
    let mut r: Vec<RunId> = Vec::new();
    let mut i: usize = 0;
    while i < n
        invariant
            i <= n == keys.len(),
            keys == map.key_models(),
            r@ == keys.take(i as int),
        decreases n - i,
    {
        let id: RunId = *map.key_at(i);
        r.push(id);
        i += 1;
        assert(keys.take(i as int) =~= keys.take(i - 1).push(id));
    }
    proof {
        assert(keys.take(i as int) =~= keys);
        assert forall|k: int| 0 <= k < r@.len() implies map@.contains_key(#[trigger] r@[k]) by {
            assert(keys.to_set().contains(keys[k]));
        }
        assert forall|id: RunId| #[trigger] map@.contains_key(id) implies r@.contains(id) by {
            assert(keys.to_set().contains(id));
        }
    }
    r
}

impl RuntimeManager {
    /// Whether the draft of a run may be changed by hand now, or why not.
    pub fn check_draft_edit(&self, run_id: RunId) -> (r: Result<(), String>)
        ensures
            match self@.draft_refusal(run_id) {
                Some(text) => r is Err && r->Err_0@ == text,
                None => r is Ok,
            },
    {
        if self.shutdown.is_some() {
            Err("runtime manager is shutting down".to_owned())
        } else if self.store.get(run_id).is_none() {
            Err(run_text(run_id, " is not registered"))
        } else if self.replacements.contains_key(&run_id) {
            Err("session replacement is waiting for draft durability".to_owned())
        } else if self.draft_restore_pending(run_id) {
            Err("session draft restore is still pending".to_owned())
        } else {
            Ok(())
        }
    }

    /// Has the draft that a run shows stored later on, where it has to be. `draft`
    /// says how it stands with it, where there is one.
    pub fn schedule_draft_save(
        &mut self,
        run_id: RunId,
        draft: Option<DraftDurability>,
        now_ms: u64,
    )
        ensures
            final(self)@ == old(self)@.save_scheduled(run_id, draft, now_ms),
    {
        let dirty = match draft {
            Some(durability) => durability == DraftDurability::Dirty,
            None => false,
        };
        if !self.persistence || !dirty {
            return;
        }
        match self.sessions.get(&run_id) {
            Some(session_id) => {
                let session_id = session_id.clone();
                let deadline_ms: u64 = now_ms.saturating_add(self.limits.draft_save_debounce_ms);
                self.save_deadlines.insert(session_id, deadline_ms);
            },
            None => {},
        }
    }

    /// Takes note that the draft that a run shows was changed.
    pub fn draft_edited(&mut self, run_id: RunId, draft: Option<DraftDurability>, now_ms: u64)
        ensures
            final(self)@ == old(self)@.save_scheduled(run_id, draft, now_ms).notified(
                run_id,
                NoticeView::DraftChanged,
            ),
    {
        self.schedule_draft_save(run_id, draft, now_ms);
        self.notify(run_id, UiNotice::DraftChanged);
    }

    /// Takes note that the text of an extension became the draft that a run shows,
    /// or why it could not.
    pub fn editor_text_set(
        &mut self,
        run_id: RunId,
        text: String,
        result: Result<Option<DraftDurability>, String>,
        now_ms: u64,
        now_unix_ms: u64,
    )
        ensures
            final(self)@ == (match result {
                Ok(draft) => old(self)@.save_scheduled(run_id, draft, now_ms).editor_text_kept(
                    run_id,
                    text@,
                ).notified(run_id, NoticeView::EditorTextChanged),
                Err(error) => old(self)@.transport_failed(
                    run_id,
                    RunFailureKind::Internal,
                    "failed applying extension editor text to session draft: "@ + error@,
                    now_unix_ms,
                ),
            }),
    {
        match result {
            Err(error) => {
                let detail = join(
                    "failed applying extension editor text to session draft: ",
                    error.as_str(),
                );
                self.begin_transport_failure(
                    run_id,
                    RunFailureKind::Internal,
                    detail.as_str(),
                    now_unix_ms,
                );
            },
            Ok(draft) => {
                self.schedule_draft_save(run_id, draft, now_ms);
                self.keep_editor_text(run_id, text);
                self.notify(run_id, UiNotice::EditorTextChanged);
            },
        }
    }

    fn keep_editor_text(&mut self, run_id: RunId, text: String)
        ensures
            final(self)@ == old(self)@.editor_text_kept(run_id, text@),
    {
        let ghost before = self@;
        match self.renderers.remove(&run_id) {
            Some(mut queue) => {
                queue.set_editor_text(text);
                let ghost kept = queue@;
                self.renderers.insert(run_id, queue);
                assert(self.renderers@ =~= before.renderers.insert(run_id, kept));
            },
            None => {
                assert(self.renderers@ =~= before.renderers);
            },
        }
    }

    /// Tells the renderers of these runs that the draft they show has changed.
    pub fn signal_drafts(&mut self, run_ids: &Vec<RunId>)
        ensures
            final(self)@ == old(self)@.drafts_notified(run_ids@),
    {
        let ghost before = self@;
        let mut i: usize = 0;
        assert(run_ids@.take(0) =~= Seq::<RunId>::empty());
        while i < run_ids.len()
            invariant
                i <= run_ids@.len(),
                self@ == before.drafts_notified(run_ids@.take(i as int)),
            decreases run_ids@.len() - i,
        {
            assert(run_ids@.take(i + 1).drop_last() =~= run_ids@.take(i as int));
            let id: RunId = run_ids[i];
            self.notify(id, UiNotice::DraftChanged);
            i += 1;
        }
        assert(run_ids@.take(i as int) =~= run_ids@);
    }

    /// Takes note that the draft of a session was read, or that it cannot be;
    /// `run_ids` show it.
    pub fn draft_loaded(&mut self, session_id: &String, run_ids: &Vec<RunId>)
        ensures
            final(self)@ == (ManagerView {
                loads_pending: old(self)@.loads_pending.remove(session_id@),
                ..old(self)@
            }).drafts_notified(run_ids@),
    {
        let _ = self.loads_pending.remove(session_id);
        self.signal_drafts(run_ids);
    }

    /// Takes note that drafts cannot be stored any more.
    pub fn persistence_lost(&mut self, detail: &str)
        ensures
            exists|ids: Seq<RunId>|
                lists_where::<RunId, ReplacementView>(
                    ids,
                    old(self)@.replacements,
                    any_replacement(),
                ) && final(self)@ == #[trigger] old(self)@.unpersisted().replacements_failed(
                    ids,
                    detail@,
                ),
    {
        self.persistence = false;
        self.loads_pending.clear();
        self.save_deadlines.clear();
        let ghost before = self@;
        let ids = all_keys(&self.replacements);
        let mut i: usize = 0;
        assert(ids@.take(0) =~= Seq::<RunId>::empty());
        while i < ids.len()
            invariant
                i <= ids@.len(),
                self@ == before.replacements_failed(ids@.take(i as int), detail@),
            decreases ids@.len() - i,
        {
            assert(ids@.take(i + 1).drop_last() =~= ids@.take(i as int));
            let id: RunId = ids[i];
            self.fail_replacement(id, detail);
            i += 1;
        }
        assert(ids@.take(i as int) =~= ids@);
    }
}

} // verus!
