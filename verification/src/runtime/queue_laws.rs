//! What is queued for a renderer, what is dropped, and what extensions may show.
use vstd::prelude::*;
use vstd::string::*;

use crate::rpc::{RpcResponse, RpcResponseOutcome};
use crate::runtime::coalescing::{
    display_frames, first_where, frames_with, UiBacklogError, UiBacklogFrameView, UiBacklogPush,
    UiCoalesceKeyView, UiEventBacklogView, FRAME_ACCOUNTING_OVERHEAD_BYTES,
};
use crate::runtime::extension_ui::{
    status_cost, widget_cost, ExtensionUiError, ExtensionUiView, ExtensionWidgetView,
};
use crate::rpc::all_bytes;
use crate::runtime::operations::{operation_after, ManagedOperation, OperationKind, OperationStage};
use crate::text::byte_len;
use crate::totals::{lemma_total_absent, lemma_total_insert, lemma_total_remove};

verus! {

/// A frame costs its payload, the identity of what it shows, and something for itself.
pub proof fn frames_cost_what_they_hold(
    key: UiCoalesceKeyView,
    id: Seq<char>,
    index: usize,
    payload: Seq<u8>,
)
    ensures
        FRAME_ACCOUNTING_OVERHEAD_BYTES == 32,
        32 + payload.len() <= usize::MAX ==> UiBacklogFrameView::Semantic(payload).cost() == 32
            + payload.len(),
        32 + byte_len(id) + payload.len() <= usize::MAX ==> (UiBacklogFrameView::Coalescible {
            key: UiCoalesceKeyView::ToolPreview(id),
            payload,
        }).cost() == 32 + byte_len(id) + payload.len(),
        32 + byte_len(id) + payload.len() <= usize::MAX ==> (UiBacklogFrameView::Coalescible {
            key: UiCoalesceKeyView::DirectBash(id),
            payload,
        }).cost() == 32 + byte_len(id) + payload.len(),
        32 + payload.len() > usize::MAX ==> UiBacklogFrameView::Semantic(payload).cost()
            == usize::MAX,
{
}

proof fn lemma_first(frames: Seq<UiBacklogFrameView>, p: spec_fn(UiBacklogFrameView) -> bool)
    ensures
        match first_where(frames, p) {
            Some(i) => 0 <= i < frames.len() && p(frames[i]) && forall|j: int|
                0 <= j < i ==> !p(#[trigger] frames[j]),
            None => forall|j: int| 0 <= j < frames.len() ==> !p(#[trigger] frames[j]),
        },
    decreases frames.len(),
{
    if frames.len() > 0 && !p(frames[0]) {
        let rest = frames.drop_first();
        lemma_first(rest, p);
        assert forall|j: int|
            0 <= j < frames.len() && (first_where(rest, p) is None || j < first_where(rest, p)->0
                + 1) implies !p(#[trigger] frames[j]) by {
            if j > 0 {
                assert(rest[j - 1] == frames[j]);
            }
        }
    }
}

/// Whether a frame shows the progress of one thing.
pub open spec fn shows(frame: UiBacklogFrameView, key: UiCoalesceKeyView) -> bool {
    frame is Coalescible && frame->key == key
}

/// Nothing is dropped while there is room. The oldest frame that shows progress is the first
/// to go, and where it makes enough room it is the only one.
pub proof fn the_oldest_progress_is_dropped_first(queue: UiEventBacklogView, incoming: usize)
    ensures
        queue.resident_bytes + incoming <= queue.max_bytes ==> queue.evicted(incoming) == queue,
        forall|i: int|
            #![trigger queue.frames.remove(i)]
            0 <= i < queue.frames.len() && queue.frames[i] is Coalescible && (forall|j: int|
                0 <= j < i ==> #[trigger] queue.frames[j] is Semantic) && queue.resident_bytes
                + incoming > queue.max_bytes && queue.resident_bytes + incoming <= usize::MAX
                && queue.resident_bytes >= queue.frames[i].cost() && queue.resident_bytes
                - queue.frames[i].cost() + incoming <= queue.max_bytes ==> {
                &&& queue.evicted(incoming).frames == queue.frames.remove(i)
                &&& queue.evicted(incoming).resident_bytes == queue.resident_bytes
                    - queue.frames[i].cost()
                &&& queue.dropped_display_frames < u64::MAX ==> queue.evicted(
                    incoming,
                ).dropped_display_frames == queue.dropped_display_frames + 1
            },
{
    lemma_first(queue.frames, display_frames());
    match first_where(queue.frames, display_frames()) {
        Some(k) => {
            assert(queue.frames[k] is Coalescible);
            let next = UiEventBacklogView {
                dropped_display_frames: crate::text::sat_add_u64(queue.dropped_display_frames, 1),
                ..queue.without(k)
            };
            assert(next.resident_bytes + incoming <= next.max_bytes ==> next.evicted(incoming)
                == next);
            assert forall|i: int|
                #![trigger queue.frames.remove(i)]
                0 <= i < queue.frames.len() && queue.frames[i] is Coalescible && (forall|j: int|
                    0 <= j < i ==> #[trigger] queue.frames[j] is Semantic) implies i == k by {
                if i < k {
                    assert(!display_frames()(queue.frames[i]));
                }
                if k < i {
                    assert(queue.frames[k] is Semantic);
                }
            }
        },
        None => {
            assert forall|j: int| 0 <= j < queue.frames.len() implies !(
            #[trigger] queue.frames[j] is Coalescible) by {
                assert(!display_frames()(queue.frames[j]));
            }
        },
    }
}

/// After frames were dropped there is room, or nothing is left that may be dropped.
pub proof fn dropping_makes_room_or_leaves_no_progress(queue: UiEventBacklogView, incoming: usize)
    ensures
        ({
            let after = queue.evicted(incoming);
            ||| after.resident_bytes + incoming <= after.max_bytes
            ||| forall|j: int| 0 <= j < after.frames.len() ==> #[trigger] after.frames[j] is Semantic
            ||| after.resident_bytes + incoming > usize::MAX && after.max_bytes == usize::MAX
        }),
        queue.evicted(incoming).max_bytes == queue.max_bytes,
        queue.evicted(incoming).coalesced_frames == queue.coalesced_frames,
        queue.evicted(incoming).frames.len() <= queue.frames.len(),
    decreases queue.frames.len(),
{
    lemma_first(queue.frames, display_frames());
    match first_where(queue.frames, display_frames()) {
        Some(i) => {
            if crate::text::sat_add_usize(queue.resident_bytes, incoming) > queue.max_bytes {
                let next = UiEventBacklogView {
                    dropped_display_frames: crate::text::sat_add_u64(
                        queue.dropped_display_frames,
                        1,
                    ),
                    ..queue.without(i)
                };
                dropping_makes_room_or_leaves_no_progress(next, incoming);
            }
        },
        None => {
            assert forall|j: int| 0 <= j < queue.frames.len() implies
            #[trigger] queue.frames[j] is Semantic by {
                assert(!display_frames()(queue.frames[j]));
            }
        },
    }
}

/// Progress takes the place of earlier progress of the same thing, and goes to the end. It is
/// told whether there was any.
pub proof fn progress_replaces_earlier_progress(
    queue: UiEventBacklogView,
    key: UiCoalesceKeyView,
    payload: Seq<u8>,
)
    ensures
        ({
            let (after, push) = queue.pushed_display(key, payload);
            let frame = UiBacklogFrameView::Coalescible { key, payload };
            let shown = exists|i: int|
                0 <= i < queue.frames.len() && shows(#[trigger] queue.frames[i], key);
            &&& push == UiBacklogPush::Queued ==> !shown
            &&& push == UiBacklogPush::Coalesced ==> shown
            &&& shown && queue.coalesced_frames < u64::MAX ==> after.coalesced_frames
                == queue.coalesced_frames + 1
            &&& !shown ==> after.coalesced_frames == queue.coalesced_frames
            &&& !shown && queue.resident_bytes + frame.cost() <= queue.max_bytes ==> push
                == UiBacklogPush::Queued && after.frames == queue.frames.push(frame)
                && after.resident_bytes == queue.resident_bytes + frame.cost()
                && after.dropped_display_frames == queue.dropped_display_frames
            &&& frame.cost() > queue.max_bytes ==> push == UiBacklogPush::DroppedDisplayFrame
            &&& push == UiBacklogPush::DroppedDisplayFrame && !shown && frame.cost()
                > queue.max_bytes ==> after.frames == queue.frames
        }),
        forall|i: int|
            #![trigger queue.frames.remove(i)]
            0 <= i < queue.frames.len() && shows(queue.frames[i], key) && (forall|j: int|
                0 <= j < i ==> !shows(#[trigger] queue.frames[j], key)) && queue.resident_bytes
                >= queue.frames[i].cost() && queue.resident_bytes - queue.frames[i].cost() + (
            UiBacklogFrameView::Coalescible { key, payload }).cost() <= queue.max_bytes ==> {
                let (after, push) = queue.pushed_display(key, payload);
                &&& push == UiBacklogPush::Coalesced
                &&& after.frames == queue.frames.remove(i).push(
                    UiBacklogFrameView::Coalescible { key, payload },
                )
            },
{
    let frame = UiBacklogFrameView::Coalescible { key, payload };
    let base = queue.superseded(key);
    lemma_first(queue.frames, frames_with(key));
    dropping_makes_room_or_leaves_no_progress(base, frame.cost());
    the_oldest_progress_is_dropped_first(base, frame.cost());
    match first_where(queue.frames, frames_with(key)) {
        Some(k) => {
            assert(shows(queue.frames[k], key));
            assert forall|i: int|
                #![trigger queue.frames.remove(i)]
                0 <= i < queue.frames.len() && shows(queue.frames[i], key) && (forall|j: int|
                    0 <= j < i ==> !shows(#[trigger] queue.frames[j], key)) implies i == k by {
                if i < k {
                    assert(!frames_with(key)(queue.frames[i]));
                }
                if k < i {
                    assert(shows(queue.frames[k], key));
                }
            }
        },
        None => {
            assert forall|j: int| 0 <= j < queue.frames.len() implies !shows(
                #[trigger] queue.frames[j],
                key,
            ) by {
                assert(!frames_with(key)(queue.frames[j]));
            }
        },
    }
}

/// A transition goes to the end. It is refused only if it is larger than the whole queue, or
/// if transitions alone fill it; the refusal says how much there was of what.
pub proof fn transitions_are_refused_only_without_room(queue: UiEventBacklogView, payload: Seq<u8>)
    requires
        queue.max_bytes < usize::MAX,
    ensures
        ({
            let (after, r) = queue.pushed_semantic(payload);
            let cost = UiBacklogFrameView::Semantic(payload).cost();
            &&& r is Ok ==> r == Ok::<UiBacklogPush, UiBacklogError>(UiBacklogPush::Queued)
                && after.frames.len() > 0 && after.frames.last() == UiBacklogFrameView::Semantic(
                payload,
            )
            &&& cost > queue.max_bytes <==> r is Err && r->Err_0 is FrameTooLarge
            &&& r is Err && r->Err_0 is FrameTooLarge ==> after == queue
                && r->Err_0->actual == cost && r->Err_0->FrameTooLarge_limit == queue.max_bytes
            &&& r is Err && r->Err_0 is SemanticCapacityExhausted ==> {
                &&& forall|j: int|
                    0 <= j < after.frames.len() ==> #[trigger] after.frames[j] is Semantic
                &&& r->Err_0->resident == after.resident_bytes
                &&& r->Err_0->incoming == cost
                &&& r->Err_0->SemanticCapacityExhausted_limit == queue.max_bytes
                &&& after.resident_bytes + cost > queue.max_bytes
            }
            &&& queue.resident_bytes + cost <= queue.max_bytes ==> r is Ok && after.frames
                == queue.frames.push(UiBacklogFrameView::Semantic(payload))
        }),
{
    let cost = UiBacklogFrameView::Semantic(payload).cost();
    dropping_makes_room_or_leaves_no_progress(queue, cost);
    the_oldest_progress_is_dropped_first(queue, cost);
}

/// What extensions show takes as many bytes as its keys and texts have: a status that is set
/// takes the place of the one before, and one that is cleared takes nothing.
pub proof fn shown_texts_take_their_bytes(
    ui: ExtensionUiView,
    key: Seq<char>,
    text: Seq<char>,
    widget: ExtensionWidgetView,
    title: Seq<char>,
)
    requires
        ui.statuses.dom().finite(),
        ui.widgets.dom().finite(),
    ensures
        !ui.statuses.contains_key(key) ==> ui.with_status(key, Some(text)).used() == ui.used()
            + byte_len(key) + byte_len(text),
        ui.statuses.contains_key(key) ==> ui.with_status(key, Some(text)).used() == ui.used()
            - byte_len(ui.statuses[key]) + byte_len(text),
        ui.statuses.contains_key(key) ==> ui.with_status(key, None).used() == ui.used() - byte_len(
            key,
        ) - byte_len(ui.statuses[key]),
        !ui.widgets.contains_key(key) ==> ui.with_widget(key, Some(widget)).used() == ui.used()
            + byte_len(key) + all_bytes(widget.lines),
        ui.widgets.contains_key(key) ==> ui.with_widget(key, Some(widget)).used() == ui.used()
            - all_bytes(ui.widgets[key].lines) + all_bytes(widget.lines),
        ui.widgets.contains_key(key) ==> ui.with_widget(key, None).used() == ui.used() - byte_len(
            key,
        ) - all_bytes(ui.widgets[key].lines),
        ui.title is None ==> ui.with_title(Some(title)).used() == ui.used() + byte_len(title),
        ui.title is Some ==> ui.with_title(Some(title)).used() == ui.used() - byte_len(ui.title->0)
            + byte_len(title),
{
    lemma_total_insert(ui.statuses, status_cost(), key, text);
    lemma_total_insert(ui.widgets, widget_cost(), key, widget);
    if ui.statuses.contains_key(key) {
        lemma_total_remove(ui.statuses, status_cost(), key);
    } else {
        lemma_total_absent(ui.statuses, status_cost(), key);
    }
    if ui.widgets.contains_key(key) {
        lemma_total_remove(ui.widgets, widget_cost(), key);
    } else {
        lemma_total_absent(ui.widgets, widget_cost(), key);
    }
}

/// What an extension sets is what is shown under its key, and everything else stays.
pub proof fn extensions_change_what_they_name(
    ui: ExtensionUiView,
    key: Seq<char>,
    text: Option<Seq<char>>,
    widget: Option<ExtensionWidgetView>,
    title: Option<Seq<char>>,
    other: Seq<char>,
)
    requires
        other != key,
    ensures
        ({
            let after = ui.with_status(key, text);
            &&& after.statuses.contains_key(key) <==> text is Some
            &&& text is Some ==> after.statuses[key] == text->0
            &&& after.statuses.contains_key(other) <==> ui.statuses.contains_key(other)
            &&& ui.statuses.contains_key(other) ==> after.statuses[other] == ui.statuses[other]
            &&& after.widgets == ui.widgets && after.title == ui.title
        }),
        ({
            let after = ui.with_widget(key, widget);
            &&& after.widgets.contains_key(key) <==> widget is Some
            &&& widget is Some ==> after.widgets[key] == widget->0
            &&& after.widgets.contains_key(other) <==> ui.widgets.contains_key(other)
            &&& ui.widgets.contains_key(other) ==> after.widgets[other] == ui.widgets[other]
            &&& after.statuses == ui.statuses && after.title == ui.title
        }),
        ({
            let after = ui.with_title(title);
            after.title == title && after.statuses == ui.statuses && after.widgets == ui.widgets
        }),
{
}

/// A new status is refused exactly where as many entries are shown as may be, or where its
/// bytes are too many; changing one that is shown is never refused for the number of entries.
pub proof fn statuses_are_refused_without_room(
    ui: ExtensionUiView,
    key: Seq<char>,
    text: Seq<char>,
)
    requires
        ui.statuses.dom().finite(),
        ui.widgets.dom().finite(),
    ensures
        ({
            let refusal = ui.refusal(ui.with_status(key, Some(text)));
            let full = ui.statuses.dom().len() + ui.widgets.dom().len() >= ui.max_entries;
            let fresh = !ui.statuses.contains_key(key);
            let used = if fresh {
                0int + ui.used() + byte_len(key) + byte_len(text)
            } else {
                ui.used() - byte_len(ui.statuses[key]) + byte_len(text)
            };
            &&& refusal is None <==> !(fresh && full) && used <= ui.max_bytes
            &&& fresh && full ==> refusal == Some(
                ExtensionUiError::EntryLimit { limit: ui.max_entries },
            )
            &&& !(fresh && full) && used > ui.max_bytes ==> refusal is Some && refusal->0
                is ByteLimit && refusal->0->ByteLimit_limit == ui.max_bytes
        }),
{
    let widget = ExtensionWidgetView {
        lines: Seq::empty(),
        placement: arbitrary(),
    };
    shown_texts_take_their_bytes(ui, key, text, widget, Seq::empty());
    let after = ui.with_status(key, Some(text));
    assert(after.statuses.dom() =~= ui.statuses.dom().insert(key));
}

/// A new widget is refused exactly where as many entries are shown as may be, or where its
/// bytes are too many.
pub proof fn widgets_are_refused_without_room(
    ui: ExtensionUiView,
    key: Seq<char>,
    widget: ExtensionWidgetView,
)
    requires
        ui.statuses.dom().finite(),
        ui.widgets.dom().finite(),
    ensures
        ({
            let refusal = ui.refusal(ui.with_widget(key, Some(widget)));
            let full = ui.statuses.dom().len() + ui.widgets.dom().len() >= ui.max_entries;
            let fresh = !ui.widgets.contains_key(key);
            let used = if fresh {
                0int + ui.used() + byte_len(key) + all_bytes(widget.lines)
            } else {
                ui.used() - all_bytes(ui.widgets[key].lines) + all_bytes(widget.lines)
            };
            &&& refusal is None <==> !(fresh && full) && used <= ui.max_bytes
            &&& fresh && full ==> refusal == Some(
                ExtensionUiError::EntryLimit { limit: ui.max_entries },
            )
        }),
{
    shown_texts_take_their_bytes(ui, key, Seq::empty(), widget, Seq::empty());
    let after = ui.with_widget(key, Some(widget));
    assert(after.widgets.dom() =~= ui.widgets.dom().insert(key));
}

/// An operation is sent as the command of its name, with what it was asked for.
pub proof fn operations_are_sent_as_asked_for(operation: ManagedOperation)
    ensures
        ({
            let (kind, command) = (operation.spec_kind(), operation.own_command());
            match operation {
                ManagedOperation::SetModel { provider, model_id } => kind
                    == OperationKind::SetModel && command is SetModel && command->provider
                    == provider && command->model_id == model_id,
                ManagedOperation::SetThinkingLevel { level } => kind
                    == OperationKind::SetThinkingLevel && command is SetThinkingLevel
                    && command->level == level,
                ManagedOperation::SetAutoCompaction { enabled } => kind
                    == OperationKind::SetAutoCompaction && command is SetAutoCompaction
                    && command->SetAutoCompaction_enabled == enabled,
                ManagedOperation::CompactSession => kind == OperationKind::CompactSession
                    && command is Compact && command->custom_instructions is None,
                ManagedOperation::SessionStats => kind == OperationKind::SessionStats && command
                    is GetSessionStats,
                ManagedOperation::SetSessionName { name } => kind == OperationKind::SetSessionName
                    && command is SetSessionName && command->name == name,
                ManagedOperation::CloneSession => kind == OperationKind::CloneSession && command
                    is Clone,
                ManagedOperation::ForkSession { entry_id } => kind == OperationKind::ForkSession
                    && command is Fork && command->entry_id == entry_id,
            }
        }),
{
}

/// An operation that Pi has accepted goes on until its outcome is known: after a change of the
/// model the levels of thinking are asked for, and after any change the state; only what asks
/// for numbers is done at once. One that Pi has not accepted fails, except that a session that
/// is not replaced because an extension said so is no failure.
pub proof fn operations_go_on_until_their_outcome_is_known(
    kind: OperationKind,
    stage: OperationStage,
    response: RpcResponse,
)
    ensures
        ({
            let step = operation_after(kind, stage, response);
            let outcome = response.spec_outcome();
            let accepted = outcome == RpcResponseOutcome::Accepted;
            let replacing = kind == OperationKind::CloneSession || kind
                == OperationKind::ForkSession;
            let kept = replacing && stage == OperationStage::Change && outcome
                == RpcResponseOutcome::Cancelled;
            &&& step is Fail <==> !accepted && !kept
            &&& kept ==> step is Replaced && step->Replaced_0.cancelled
            &&& step is Replaced && step->Replaced_0.cancelled ==> kept
            &&& step is Request ==> accepted && {
                ||| step->stage == OperationStage::Refresh && step->command
                    is GetAvailableThinkingLevels && kind == OperationKind::SetModel && stage
                    == OperationStage::Change
                ||| step->stage == OperationStage::State && step->command is GetState && stage
                    != OperationStage::State
            }
            &&& accepted && stage == OperationStage::Change ==> {
                &&& kind == OperationKind::SetModel ==> step is Request && step->stage
                    == OperationStage::Refresh
                &&& kind == OperationKind::SessionStats ==> step is Done
                &&& kind != OperationKind::SetModel && kind != OperationKind::SessionStats
                    ==> step is Request && step->stage == OperationStage::State
            }
            &&& accepted && stage == OperationStage::Refresh ==> step is Request && step->stage
                == OperationStage::State
            &&& accepted && stage == OperationStage::State ==> if replacing {
                step is Replaced && !step->Replaced_0.cancelled
            } else {
                step is Done
            }
        }),
{
}

} // verus!
