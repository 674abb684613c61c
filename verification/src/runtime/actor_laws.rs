//! What the owner of a process and the queue to a renderer pass on.
use vstd::prelude::*;

use crate::events::{ExtensionUiResponse, InboundMessage};
use crate::process::{PiProcessDiagnostics, PiProcessIdentity};
use crate::runtime::coalescing::{
    semantic_payloads, semantic_push_is_kept_or_refused, UiBacklogFrameView, UiCoalesceKeyView,
};
use crate::runtime::process_actor::{
    answered, written, ActorActionView, ActorInput, ActorStageView, CommandRoom, OfferOutcome,
    ProcessActorView, ProcessTerminationReport, RunProcessCommand, RunProcessCommandError,
    RunProcessEvent, RunProcessWriterEvent,
};
use crate::runtime::ui_queue::{frame_payload, UiQueueView};

verus! {

/// A message of the process is offered as it came, and what cannot be read fails the process
/// with what is wrong with it. When there is no more to read, the process is waited for.
pub proof fn messages_are_passed_on_as_they_came(
    actor: ProcessActorView,
    message: InboundMessage,
    detail: String,
)
    ensures
        actor.after(ActorInput::Message(Some(Ok(message)))).1 == ActorActionView::Offer(
            RunProcessEvent::Inbound(message),
        ),
        actor.after(ActorInput::Message(Some(Ok(message)))).0.stage is Offering,
        actor.after(ActorInput::Message(Some(Err(detail)))).1 == (ActorActionView::Terminate {
            deadline_ms: actor.limits.stop_termination_deadline_ms,
        }),
        actor.after(ActorInput::Message(Some(Err(detail)))).0.stage == (ActorStageView::Failing {
            detail: detail@,
        }),
        actor.after(ActorInput::Message(None)).1 is Wait,
        actor.after(ActorInput::Message(None)).0.stage is Waiting,
{
}

/// What was written, or could not be, is told of the request or of the question that it
/// belongs to. A request that was written is told only by its answer.
pub proof fn writes_are_told_of_what_they_belong_to(
    command: RunProcessCommand,
    outcome: Result<(), String>,
)
    ensures
        match command {
            RunProcessCommand::SendRequest { request } => match outcome {
                Ok(_) => written(command, outcome) is None,
                Err(detail) => written(command, outcome) == Some(
                    RunProcessWriterEvent::RequestWriteFailed { request_id: request.id, detail },
                ),
            },
            RunProcessCommand::SendExtensionUiResponse { response } => match outcome {
                Ok(_) => written(command, outcome) == Some(
                    RunProcessWriterEvent::ExtensionUiResponseWritten {
                        request_id: answered(response),
                    },
                ),
                Err(detail) => written(command, outcome) == Some(
                    RunProcessWriterEvent::ExtensionUiResponseWriteFailed {
                        request_id: answered(response),
                        detail,
                    },
                ),
            },
        },
        forall|response: ExtensionUiResponse|
            #![trigger answered(response)]
            match response {
                ExtensionUiResponse::Value { id, .. } => answered(response) == id,
                ExtensionUiResponse::Confirmation { id, .. } => answered(response) == id,
                ExtensionUiResponse::Cancelled { id } => answered(response) == id,
            },
{
}

/// What the writer tells is passed on as it is; that it is gone, or has nothing more to write
/// while the process lives, fails the process.
pub proof fn the_writer_is_passed_on(actor: ProcessActorView, event: RunProcessWriterEvent)
    ensures
        ({
            let action = actor.after(ActorInput::Writer(Some(event))).1;
            match event {
                RunProcessWriterEvent::RequestWriteFailed { request_id, detail } => action
                    == ActorActionView::Offer(
                    RunProcessEvent::RequestWriteFailed { request_id, detail },
                ),
                RunProcessWriterEvent::ExtensionUiResponseWritten { request_id } => action
                    == ActorActionView::Offer(
                    RunProcessEvent::ExtensionUiResponseWritten { request_id },
                ),
                RunProcessWriterEvent::ExtensionUiResponseWriteFailed { request_id, detail } =>
                    action == ActorActionView::Offer(
                    RunProcessEvent::ExtensionUiResponseWriteFailed { request_id, detail },
                ),
                RunProcessWriterEvent::CommandChannelClosed => action is Terminate && actor.after(
                    ActorInput::Writer(Some(event)),
                ).0.stage is Failing,
            }
        }),
        actor.after(ActorInput::Writer(None)).1 is Terminate,
        actor.after(ActorInput::Writer(None)).0.stage is Failing,
{
}

/// An event that was taken lets the owner listen again; one that found no room fails the
/// process, and where nobody listens any more the process is terminated.
pub proof fn events_that_are_not_taken_end_the_process(actor: ProcessActorView)
    ensures
        actor.after(ActorInput::Offered(OfferOutcome::Accepted)).1 == (ActorActionView::Listen {
            control_open: actor.control_open,
        }),
        actor.after(ActorInput::Offered(OfferOutcome::QueueFull)).0.stage is Failing,
        actor.after(ActorInput::Offered(OfferOutcome::QueueFull)).1 == (
        ActorActionView::Terminate { deadline_ms: actor.limits.stop_termination_deadline_ms }),
        actor.after(ActorInput::Offered(OfferOutcome::Closed)).0.stage is Abandoning,
        actor.after(ActorInput::Offered(OfferOutcome::Closed)).1 == (ActorActionView::Terminate {
            deadline_ms: actor.limits.stop_termination_deadline_ms,
        }),
{
}

/// A termination that is asked for gets the time that was given, and its outcome is told as it
/// is. One because of a failure tells the failure with it.
pub proof fn terminations_are_told(
    actor: ProcessActorView,
    deadline_ms: u64,
    result: Result<ProcessTerminationReport, String>,
    detail: Seq<char>,
)
    ensures
        actor.after(ActorInput::Control(Some(deadline_ms))).1 == (ActorActionView::Terminate {
            deadline_ms,
        }),
        actor.after(ActorInput::Control(Some(deadline_ms))).0.stage is Stopping,
        !actor.after(ActorInput::Control(None)).0.control_open,
        actor.stage is Stopping ==> actor.after(ActorInput::Terminated(result)).1
            == ActorActionView::Deliver(RunProcessEvent::TerminationFinished { result }),
        actor.stage == (ActorStageView::Failing { detail }) && result is Ok ==> actor.after(
            ActorInput::Terminated(result),
        ).1 == (ActorActionView::Fail { detail, termination: result->Ok_0 }),
        actor.stage == (ActorStageView::Failing { detail }) && result is Err ==> actor.after(
            ActorInput::Terminated(result),
        ).1 is Observe && actor.after(ActorInput::Terminated(result)).0.stage == (
        ActorStageView::Unconfirmed { detail }),
{
}

/// A process that exits by itself is told with its exit code, once the rest of its error
/// output was read; where that fails, the code is told with the failure. A process whose end is
/// not known is told as unconfirmed.
pub proof fn exits_are_told_with_their_code(
    actor: ProcessActorView,
    code: Option<i32>,
    diagnostics: PiProcessDiagnostics,
    identity: PiProcessIdentity,
    detail: Seq<char>,
    error: String,
)
    ensures
        actor.after(ActorInput::Waited(Ok(code))).0.stage == (ActorStageView::Draining { code }),
        actor.after(ActorInput::Waited(Ok(code))).1 == (ActorActionView::DrainDiagnostics {
            deadline_ms: actor.limits.stop_termination_deadline_ms,
        }),
        actor.after(ActorInput::Waited(Err(error))).0.stage is Unconfirmed,
        actor.stage == (ActorStageView::Draining { code }) ==> actor.after(
            ActorInput::Drained(Ok(diagnostics)),
        ).1 == ActorActionView::Deliver(RunProcessEvent::Exited { code, diagnostics }),
        actor.stage == (ActorStageView::Draining { code }) ==> actor.after(
            ActorInput::Drained(Err(error)),
        ).0.stage is Undrained && actor.after(
            ActorInput::Drained(Err(error)),
        ).0.stage->Undrained_code == code,
        actor.stage == (ActorStageView::Undrained { detail, code }) ==> actor.after(
            ActorInput::Observed { identity, diagnostics },
        ).1 == (ActorActionView::Fail {
            detail,
            termination: ProcessTerminationReport::Exited {
                code,
                diagnostics,
                kill_requested: false,
            },
        }),
        actor.stage == (ActorStageView::Unconfirmed { detail }) ==> actor.after(
            ActorInput::Observed { identity, diagnostics },
        ).1 == (ActorActionView::Fail {
            detail,
            termination: ProcessTerminationReport::Unconfirmed { identity, diagnostics },
        }),
        actor.after(ActorInput::Delivered).1 is End,
{
}

/// A command is taken if and only if there is a place for it, and takes exactly one.
pub proof fn a_command_takes_one_place(room: CommandRoom)
    ensures
        room == CommandRoom::Closed ==> room.refusal() == Some(RunProcessCommandError::ActorClosed),
        room == CommandRoom::Open(0) ==> room.refusal() == Some(
            RunProcessCommandError::CommandQueueFull,
        ),
        room is Open && room->Open_0 > 0 ==> room.refusal() is None && room.after_one() is Open
            && room.after_one()->Open_0 == room->Open_0 - 1,
{
}

/// A transition is never lost on the way to a renderer: it stands in the queue behind those
/// that were there, or everything has to be read anew. Either way the renderer is woken.
pub proof fn transitions_are_queued_or_everything_is_read_anew(
    queue: UiQueueView,
    payload: Seq<u8>,
)
    requires
        queue.backlog.wf(),
    ensures
        ({
            let after = queue.with_semantic(Some(payload));
            &&& after.dirty_signaled
            &&& after.rehydrate_required || semantic_payloads(after.backlog.frames)
                == semantic_payloads(queue.backlog.frames).push(payload)
            &&& queue.rehydrate_required ==> after.rehydrate_required
            &&& after.pending_editor_text == queue.pending_editor_text
        }),
        queue.with_semantic(None).rehydrate_required,
        queue.with_semantic(None).dirty_signaled,
        queue.with_semantic(None).backlog == queue.backlog,
{
    semantic_push_is_kept_or_refused(queue.backlog, payload);
}

/// Progress wakes a renderer and never asks it to read everything anew; progress without an
/// encoding changes nothing.
pub proof fn progress_never_asks_to_read_anew(
    queue: UiQueueView,
    key: UiCoalesceKeyView,
    payload: Seq<u8>,
)
    ensures
        queue.with_display(key, Some(payload)).dirty_signaled,
        queue.with_display(key, Some(payload)).rehydrate_required == queue.rehydrate_required,
        queue.with_display(key, Some(payload)).pending_editor_text == queue.pending_editor_text,
        queue.with_display(key, None) == queue,
{
}

/// Something waits for a renderer if and only if a frame, a text for the editor or the demand
/// to read anew does. A visit takes the oldest frames, as many as are asked for, and the text.
pub proof fn a_visit_takes_the_oldest_frames(queue: UiQueueView, max_events: usize)
    ensures
        queue.pending() <==> queue.backlog.frames.len() > 0 || queue.pending_editor_text is Some
            || queue.rehydrate_required,
        queue.taken(max_events) <= max_events,
        queue.taken(max_events) <= queue.backlog.frames.len(),
        queue.taken(max_events) == max_events || queue.taken(max_events)
            == queue.backlog.frames.len(),
        queue.drained(max_events).pending_editor_text is None,
        queue.drained(max_events).rehydrate_required == queue.rehydrate_required,
        queue.backlog.frames.len() <= max_events ==> !queue.drained(max_events).dirty_signaled,
        queue.backlog.frames.len() > max_events ==> queue.drained(max_events).dirty_signaled
            == queue.dirty_signaled,
        !queue.recovered().rehydrate_required,
        queue.recovered().backlog.frames.len() == 0,
        queue.recovered().pending_editor_text == queue.pending_editor_text,
{
}

/// A renderer gets what was queued, byte for byte.
pub proof fn frames_bring_their_payload(payload: Seq<u8>, key: UiCoalesceKeyView)
    ensures
        frame_payload(UiBacklogFrameView::Semantic(payload)) == payload,
        frame_payload(UiBacklogFrameView::Coalescible { key, payload }) == payload,
{
}

} // verus!
