//! What a renderer is told about one run, and when it is woken for it.
use vstd::prelude::*;
use vstd::string::*;

use crate::events::ExtensionNotifyType;
use crate::ids::RunId;
use crate::limits::RuntimeLimits;
use crate::runtime::coalescing::{
    without_oldest, UiBacklogFrame, UiBacklogFrameView, UiCoalesceKey, UiCoalesceKeyView,
    UiEventBacklog, UiEventBacklogView,
};
use crate::runtime::projection::{
    AssistantContentSnapshot, DirectBashSnapshot, ToolPreviewSnapshot,
};
use crate::runtime::state::ProcessState;
use crate::text::optional_view;

verus! {

#[derive(Clone, Debug, PartialEq, Eq)]
pub enum RuntimeUiEvent {
    StateChanged { run_id: RunId, runtime_revision: u64 },
    AssistantMessageReset { run_id: RunId },
    AssistantBlockUpdated { run_id: RunId, block: AssistantContentSnapshot },
    ToolUpdated { run_id: RunId, tool: ToolPreviewSnapshot },
    DirectBashUpdated { run_id: RunId, bash: DirectBashSnapshot },
    ToolFinished {
        run_id: RunId,
        tool_call_id: String,
        tool_name: String,
        output: String,
        dropped_bytes: u64,
        is_error: bool,
    },
    CapabilitiesChanged { run_id: RunId, revision: u64 },
    SessionSyncChanged { run_id: RunId, revision: u64, resync_required: bool },
    ExtensionDialogsChanged { run_id: RunId },
    ExtensionNotification { run_id: RunId, message: String, notify_type: ExtensionNotifyType },
    ExtensionUiStateChanged { run_id: RunId },
    EditorTextChanged { run_id: RunId },
    DraftChanged { run_id: RunId },
    ComposerChanged { run_id: RunId },
    ProcessTerminal { run_id: RunId, process: ProcessState },
}

/// Wakes those who watch the runs.
#[derive(Clone, Copy, Debug, PartialEq, Eq, Structural)]
pub enum RuntimeManagerSignal {
    RunDirty { run_id: RunId },
}

/// What one visit of a renderer brings: encoded events, the text that an extension
/// put into the editor, and whether there is more to fetch or everything to read
/// anew.
#[derive(Clone, Debug, PartialEq, Eq)]
pub struct RuntimeUiDrain {
    pub events: Vec<Vec<u8>>,
    pub rehydrate_required: bool,
    pub pending_editor_text: Option<String>,
    pub has_more: bool,
}

/// Model of a [`RuntimeUiQueue`].
pub struct UiQueueView {
    pub backlog: UiEventBacklogView,
    pub rehydrate_required: bool,
    pub pending_editor_text: Option<Seq<char>>,
    pub dirty_signaled: bool,
}

/// The payload of a frame.
pub open spec fn frame_payload(frame: UiBacklogFrameView) -> Seq<u8> {
    match frame {
        UiBacklogFrameView::Semantic(payload) => payload,
        UiBacklogFrameView::Coalescible { payload, .. } => payload,
    }
}

impl UiQueueView {
    pub open spec fn empty(limits: RuntimeLimits) -> Self {
        UiQueueView {
            backlog: UiEventBacklogView::empty(limits.max_ui_backlog_bytes_per_run),
            rehydrate_required: false,
            pending_editor_text: None,
            dirty_signaled: false,
        }
    }

    /// With the renderer woken.
    pub open spec fn marked(self) -> Self {
        UiQueueView { dirty_signaled: true, ..self }
    }

    /// With a transition. One that finds no room, or that has no encoding, is made
    /// up for by reading everything anew.
    pub open spec fn with_semantic(self, payload: Option<Seq<u8>>) -> Self {
        match payload {
            Some(payload) => {
                let (backlog, pushed) = self.backlog.pushed_semantic(payload);
                UiQueueView {
                    backlog,
                    rehydrate_required: self.rehydrate_required || pushed is Err,
                    ..self.marked()
                }
            },
            None => UiQueueView { rehydrate_required: true, ..self.marked() },
        }
    }

    /// With progress to show; one that has no encoding is left out.
    pub open spec fn with_display(self, key: UiCoalesceKeyView, payload: Option<Seq<u8>>) -> Self {
        match payload {
            Some(payload) => UiQueueView {
                backlog: self.backlog.pushed_display(key, payload).0,
                ..self.marked()
            },
            None => self,
        }
    }

    pub open spec fn pending(self) -> bool {
        self.backlog.frames.len() > 0 || self.pending_editor_text is Some
            || self.rehydrate_required
    }

    /// After everything was read anew. The editor text is no part of what was
    /// read, and stays.
    pub open spec fn recovered(self) -> Self {
        UiQueueView {
            backlog: UiEventBacklogView {
                frames: Seq::empty(),
                resident_bytes: 0,
                ..self.backlog
            },
            rehydrate_required: false,
            dirty_signaled: false,
            ..self
        }
    }

    /// How many frames a visit takes.
    pub open spec fn taken(self, max_events: usize) -> nat {
        if self.backlog.frames.len() <= max_events {
            self.backlog.frames.len()
        } else {
            max_events as nat
        }
    }

    /// After a visit of a renderer.
    pub open spec fn drained(self, max_events: usize) -> Self {
        UiQueueView {
            backlog: without_oldest(self.backlog, self.taken(max_events)),
            pending_editor_text: None,
            dirty_signaled: self.dirty_signaled && self.backlog.frames.len() > max_events,
            ..self
        }
    }

    /// Whether this is what a visit brings: the oldest frames in order.
    pub open spec fn brings(self, max_events: usize, drain: RuntimeUiDrain) -> bool {
        &&& drain.events@.len() == self.taken(max_events)
        &&& forall|i: int|
            0 <= i < drain.events@.len() ==> (#[trigger] drain.events@[i])@ == frame_payload(
                self.backlog.frames[i],
            )
        &&& drain.rehydrate_required == self.rehydrate_required
        &&& optional_view(drain.pending_editor_text) == self.pending_editor_text
        &&& drain.has_more == (self.backlog.frames.len() > max_events)
    }
}

/// What waits for the renderer of one run.
#[derive(Debug)]
pub struct RuntimeUiQueue {
    backlog: UiEventBacklog,
    rehydrate_required: bool,
    pub pending_editor_text: Option<String>,
    dirty_signaled: bool,
}

impl View for RuntimeUiQueue {
    type V = UiQueueView;

    closed spec fn view(&self) -> UiQueueView {
        UiQueueView {
            backlog: self.backlog@,
            rehydrate_required: self.rehydrate_required,
            pending_editor_text: optional_view(self.pending_editor_text),
            dirty_signaled: self.dirty_signaled,
        }
    }
}

impl RuntimeUiQueue {
    pub fn new(limits: RuntimeLimits) -> (r: Self)
        requires
            limits.max_ui_backlog_bytes_per_run > 0,
        ensures
            r@ == UiQueueView::empty(limits),
            r@.backlog.wf(),
    {
        RuntimeUiQueue {
            backlog: UiEventBacklog::from_limits(limits),
            rehydrate_required: false,
            pending_editor_text: None,
            dirty_signaled: false,
        }
    }

    /// Takes a transition, encoded where it can be, and says whether the renderer
    /// has to be woken.
    pub fn push_semantic(&mut self, payload: Option<Vec<u8>>) -> (signal: bool)
        ensures
            final(self)@ == old(self)@.with_semantic(
                match payload {
                    Some(bytes) => Some(bytes@),
                    None => None,
                },
            ),
            signal == !old(self)@.dirty_signaled,
            old(self)@.backlog.wf() ==> final(self)@.backlog.wf(),
    {
        match payload {
            None => {
                self.rehydrate_required = true;
            },
            Some(bytes) => {
                if self.backlog.push_semantic(bytes).is_err() {
                    self.rehydrate_required = true;
                }
            },
        }
        self.mark_dirty()
    }

    /// Takes progress to show, encoded where it can be, and says whether the
    /// renderer has to be woken.
    pub fn push_coalescible(&mut self, key: UiCoalesceKey, payload: Option<Vec<u8>>) -> (signal:
        bool)
        ensures
            final(self)@ == old(self)@.with_display(
                key@,
                match payload {
                    Some(bytes) => Some(bytes@),
                    None => None,
                },
            ),
            signal == (payload is Some && !old(self)@.dirty_signaled),
            old(self)@.backlog.wf() ==> final(self)@.backlog.wf(),
    {
        match payload {
            None => false,
            Some(bytes) => {
                let _ = self.backlog.push_coalescible(key, bytes);
                self.mark_dirty()
            },
        }
    }

    /// Keeps a text that an extension put into the editor.
    pub fn set_editor_text(&mut self, text: String)
        ensures
            final(self)@ == (UiQueueView { pending_editor_text: Some(text@), ..old(self)@ }),
    {
        self.pending_editor_text = Some(text);
    }

    /// Whether there is anything to fetch.
    pub fn has_pending_delivery(&self) -> (r: bool)
        ensures
            r == self@.pending(),
    {
        self.backlog.stats().frame_count > 0 || self.pending_editor_text.is_some()
            || self.rehydrate_required
    }

    /// Forgets what reading everything anew has made up for, and says whether an
    /// editor text still waits.
    pub fn reset_after_recovery(&mut self) -> (r: bool)
        ensures
            final(self)@ == old(self)@.recovered(),
            r == (old(self)@.pending_editor_text is Some),
            final(self)@.backlog.wf(),
    {
        self.backlog.clear();
        self.rehydrate_required = false;
        self.dirty_signaled = false;
        self.pending_editor_text.is_some()
    }

    /// Hands out at most `max_events` encoded events. Once none is left, the next
    /// one wakes the renderer again.
    pub fn drain(&mut self, max_events: usize) -> (r: RuntimeUiDrain)
        ensures
            final(self)@ == old(self)@.drained(max_events),
            old(self)@.brings(max_events, r),
            old(self)@.backlog.wf() ==> final(self)@.backlog.wf(),
    {
        let ghost before = self@;
        let ghost all = before.backlog.frames;
        let mut events: Vec<Vec<u8>> = Vec::new();
        let mut open = true;
        assert(all.skip(0) =~= all);
        while open && events.len() < max_events
            invariant
                all == before.backlog.frames,
                events@.len() <= all.len(),
                events@.len() <= max_events,
                self.backlog@.frames == all.skip(events@.len() as int),
                without_oldest(before.backlog, before.taken(max_events)) == without_oldest(
                    self.backlog@,
                    (before.taken(max_events) - events@.len()) as nat,
                ),
                !open ==> events@.len() == all.len(),
                forall|i: int|
                    0 <= i < events@.len() ==> (#[trigger] events@[i])@ == frame_payload(all[i]),
                before.backlog.wf() ==> self.backlog@.wf(),
                self.rehydrate_required == before.rehydrate_required,
                optional_view(self.pending_editor_text) == before.pending_editor_text,
                self.dirty_signaled == before.dirty_signaled,
            decreases
                max_events - events.len(),
                (if open {
                    1int
                } else {
                    0int
                }),
        {
            let ghost held = self.backlog@;
            match self.backlog.pop_front() {
                None => {
                    open = false;
                },
                Some(frame) => {
                    assert(frame@ == all[events@.len() as int]);
                    assert(held.frames.remove(0) =~= all.skip(events@.len() as int + 1));
                    let payload = match frame {
                        UiBacklogFrame::Semantic(payload) => payload,
                        UiBacklogFrame::Coalescible { payload, .. } => payload,
                    };
                    events.push(payload);
                },
            }
        }
        assert(events@.len() == before.taken(max_events));
        let has_more = self.backlog.stats().frame_count > 0;
        let mut pending_editor_text: Option<String> = None;
        core::mem::swap(&mut pending_editor_text, &mut self.pending_editor_text);
        if !has_more {
            self.dirty_signaled = false;
        }
        RuntimeUiDrain {
            events,
            rehydrate_required: self.rehydrate_required,
            pending_editor_text,
            has_more,
        }
    }

    /// Notes that an encoded event could not be read back.
    pub fn note_unreadable(&mut self)
        ensures
            final(self)@ == (UiQueueView { rehydrate_required: true, ..old(self)@ }),
    {
        self.rehydrate_required = true;
    }

    /// Says whether the renderer has to be woken, and takes it that it was.
    pub fn mark_dirty(&mut self) -> (signal: bool)
        ensures
            final(self)@ == old(self)@.marked(),
            signal == !old(self)@.dirty_signaled,
    {
        if self.dirty_signaled {
            false
        } else {
            self.dirty_signaled = true;
            true
        }
    }
}

/// Between two visits of a renderer it is woken once: the first change wakes it,
/// the following do not, and after a visit that left nothing the next change wakes
/// it again.
pub proof fn one_wake_up_between_visits(
    queue: UiQueueView,
    first: Seq<u8>,
    second: Seq<u8>,
    max_events: usize,
)
    ensures
        queue.with_semantic(Some(first)).dirty_signaled,
        queue.with_semantic(Some(first)).with_semantic(Some(second)).dirty_signaled,
        queue.backlog.frames.len() <= max_events ==> !queue.drained(max_events).dirty_signaled,
{
}

/// Reading everything anew never loses the text that an extension put into the
/// editor.
pub proof fn recovery_keeps_editor_text(queue: UiQueueView)
    ensures
        queue.recovered().pending_editor_text == queue.pending_editor_text,
        queue.recovered().pending() == (queue.pending_editor_text is Some),
{
}

} // verus!
