//! The owner of one Pi process: what it does about each thing that happens.
//!
//! The actor asks for one piece of outside work at a time. Whoever holds the process
//! and the channels does it and hands back what came of it.
use vstd::prelude::*;
use vstd::string::*;

use crate::events::{ExtensionUiResponse, InboundMessage};
use crate::ids::{RequestId, RunId};
use crate::limits::RuntimeLimits;
use crate::process::{PiProcessDiagnostics, PiProcessIdentity};
use crate::rpc::RpcRequest;
use crate::text::join;

verus! {

#[derive(Clone, Debug, PartialEq, Eq)]
pub enum ProcessTerminationReport {
    Exited { code: Option<i32>, diagnostics: PiProcessDiagnostics, kill_requested: bool },
    Unconfirmed { identity: PiProcessIdentity, diagnostics: PiProcessDiagnostics },
}

#[allow(inconsistent_fields)]
#[derive(Debug, PartialEq, Eq)]
pub enum RunProcessEvent {
    Inbound(InboundMessage),
    RequestWriteFailed { request_id: RequestId, detail: String },
    ExtensionUiResponseWritten { request_id: String },
    ExtensionUiResponseWriteFailed { request_id: String, detail: String },
    Exited { code: Option<i32>, diagnostics: PiProcessDiagnostics },
    ProtocolFailure { detail: String, termination: ProcessTerminationReport },
    TerminationFinished { result: Result<ProcessTerminationReport, String> },
}

#[derive(Debug, PartialEq, Eq)]
pub struct RunProcessEnvelope {
    pub run_id: RunId,
    pub event: RunProcessEvent,
}

#[derive(Clone, Copy, Debug, PartialEq, Eq, Structural)]
pub enum RunProcessCommandError {
    ActorClosed,
    CommandQueueFull,
}

impl RunProcessCommandError {
    pub open spec fn text(self) -> Seq<char> {
        match self {
            RunProcessCommandError::ActorClosed => "run process actor is closed"@,
            RunProcessCommandError::CommandQueueFull => "run process actor command queue is full"@,
        }
    }

    /// The error as a sentence.
    pub fn message(self) -> (r: String)
        ensures
            r@ == self.text(),
    {
        match self {
            RunProcessCommandError::ActorClosed => "run process actor is closed".to_owned(),
            RunProcessCommandError::CommandQueueFull => {
                "run process actor command queue is full".to_owned()
            },
        }
    }
}

/// What the queue of a process can take at the moment.
#[derive(Clone, Copy, Debug, PartialEq, Eq, Structural)]
pub enum CommandRoom {
    /// So many commands.
    Open(usize),
    /// Nothing any more: the owner of the process is gone.
    Closed,
}

impl View for CommandRoom {
    type V = CommandRoom;

    open spec fn view(&self) -> CommandRoom {
        *self
    }
}

impl CommandRoom {
    /// Why a further command is not taken, if it is not.
    pub open spec fn refusal(self) -> Option<RunProcessCommandError> {
        match self {
            CommandRoom::Open(places) => if places == 0 {
                Some(RunProcessCommandError::CommandQueueFull)
            } else {
                None
            },
            CommandRoom::Closed => Some(RunProcessCommandError::ActorClosed),
        }
    }

    /// The room that a further command leaves.
    pub open spec fn after_one(self) -> Self {
        match self {
            CommandRoom::Open(places) => CommandRoom::Open((places - 1) as usize),
            CommandRoom::Closed => CommandRoom::Closed,
        }
    }

    /// Takes the place of one command, or says why there is none.
    pub fn take_place(self) -> (r: Result<CommandRoom, RunProcessCommandError>)
        ensures
            match self.refusal() {
                Some(error) => r == Err::<CommandRoom, RunProcessCommandError>(error),
                None => r == Ok::<CommandRoom, RunProcessCommandError>(self.after_one()),
            },
    {
        match self {
            CommandRoom::Open(places) => {
                if places == 0 {
                    Err(RunProcessCommandError::CommandQueueFull)
                } else {
                    Ok(CommandRoom::Open(places - 1))
                }
            },
            CommandRoom::Closed => Err(RunProcessCommandError::ActorClosed),
        }
    }
}

/// Something to be written to the process.
#[derive(Debug, PartialEq, Eq)]
pub enum RunProcessCommand {
    SendRequest { request: RpcRequest },
    SendExtensionUiResponse { response: ExtensionUiResponse },
}

/// What the writer to the process reports.
#[allow(inconsistent_fields)]
#[derive(Debug, PartialEq, Eq)]
pub enum RunProcessWriterEvent {
    RequestWriteFailed { request_id: RequestId, detail: String },
    ExtensionUiResponseWritten { request_id: String },
    ExtensionUiResponseWriteFailed { request_id: String, detail: String },
    CommandChannelClosed,
}

/// The question that a response answers.
pub open spec fn answered(response: ExtensionUiResponse) -> String {
    match response {
        ExtensionUiResponse::Value { id, .. } => id,
        ExtensionUiResponse::Confirmation { id, .. } => id,
        ExtensionUiResponse::Cancelled { id } => id,
    }
}

/// The question that a response answers.
pub fn extension_response_id(response: &ExtensionUiResponse) -> (r: &String)
    ensures
        *r == answered(*response),
{
    match response {
        ExtensionUiResponse::Value { id, .. } => id,
        ExtensionUiResponse::Confirmation { id, .. } => id,
        ExtensionUiResponse::Cancelled { id } => id,
    }
}

/// What the writer reports of a command, if anything, once it has tried to write
/// it.
pub open spec fn written(command: RunProcessCommand, outcome: Result<(), String>) -> Option<
    RunProcessWriterEvent,
> {
    match (command, outcome) {
        (RunProcessCommand::SendRequest { .. }, Ok(_)) => None,
        (RunProcessCommand::SendRequest { request }, Err(detail)) => Some(
            RunProcessWriterEvent::RequestWriteFailed { request_id: request.id, detail },
        ),
        (RunProcessCommand::SendExtensionUiResponse { response }, Ok(_)) => Some(
            RunProcessWriterEvent::ExtensionUiResponseWritten { request_id: answered(response) },
        ),
        (RunProcessCommand::SendExtensionUiResponse { response }, Err(detail)) => Some(
            RunProcessWriterEvent::ExtensionUiResponseWriteFailed {
                request_id: answered(response),
                detail,
            },
        ),
    }
}

/// What the writer does once it has tried to write a command: what it reports, and
/// whether it ends. After a failed write nothing more is written.
pub fn after_write(command: &RunProcessCommand, outcome: Result<(), String>) -> (r: (
    Option<RunProcessWriterEvent>,
    bool,
))
    ensures
        r.0 == written(*command, outcome),
        r.1 == (outcome is Err),
{
    match command {
        RunProcessCommand::SendRequest { request } => match outcome {
            Ok(_) => (None, false),
            Err(detail) => (
                Some(
                    RunProcessWriterEvent::RequestWriteFailed {
                        request_id: request.id.clone(),
                        detail,
                    },
                ),
                true,
            ),
        },
        RunProcessCommand::SendExtensionUiResponse { response } => {
            let request_id = extension_response_id(response).clone();
            match outcome {
                Ok(_) => (
                    Some(RunProcessWriterEvent::ExtensionUiResponseWritten { request_id }),
                    false,
                ),
                Err(detail) => (
                    Some(
                        RunProcessWriterEvent::ExtensionUiResponseWriteFailed {
                            request_id,
                            detail,
                        },
                    ),
                    true,
                ),
            }
        },
    }
}

/// What became of an event that was offered without waiting.
#[derive(Clone, Copy, Debug, PartialEq, Eq, Structural)]
pub enum OfferOutcome {
    Accepted,
    QueueFull,
    Closed,
}

/// Something that happened.
#[derive(Debug, PartialEq, Eq)]
pub enum ActorInput {
    /// The deadline of a termination that is asked for, or that nobody can ask any
    /// more.
    Control(Option<u64>),
    /// What the writer reports, or that it is gone.
    Writer(Option<RunProcessWriterEvent>),
    /// A message of the process, why it could not be read, or that there are no
    /// more.
    Message(Option<Result<InboundMessage, String>>),
    Offered(OfferOutcome),
    Terminated(Result<ProcessTerminationReport, String>),
    Observed { identity: PiProcessIdentity, diagnostics: PiProcessDiagnostics },
    Waited(Result<Option<i32>, String>),
    Drained(Result<PiProcessDiagnostics, String>),
    Delivered,
}

/// Outside work that the actor asks for.
#[derive(Debug, PartialEq, Eq)]
pub enum ActorAction {
    /// Wait for the control, where it is still open, or else the writer, or else
    /// the process.
    Listen { control_open: bool },
    /// Hand an event on, if there is room for it at once.
    Offer(RunProcessEvent),
    /// Hand an event on, however long it takes.
    Deliver(RunProcessEvent),
    Terminate { deadline_ms: u64 },
    /// Look which process it is and what it wrote last.
    Observe,
    Wait,
    /// Read the rest of what the process wrote to its standard error.
    DrainDiagnostics { deadline_ms: u64 },
    End,
}

/// Model of an [`ActorAction`]. What is told in words is told in these.
pub enum ActorActionView {
    Listen { control_open: bool },
    Offer(RunProcessEvent),
    /// A failure of the transport.
    Fail { detail: Seq<char>, termination: ProcessTerminationReport },
    /// Any other event.
    Deliver(RunProcessEvent),
    Terminate { deadline_ms: u64 },
    Observe,
    Wait,
    DrainDiagnostics { deadline_ms: u64 },
    End,
}

impl View for ActorAction {
    type V = ActorActionView;

    open spec fn view(&self) -> ActorActionView {
        match *self {
            ActorAction::Listen { control_open } => ActorActionView::Listen { control_open },
            ActorAction::Offer(event) => ActorActionView::Offer(event),
            ActorAction::Deliver(RunProcessEvent::ProtocolFailure { detail, termination }) => {
                ActorActionView::Fail { detail: detail@, termination }
            },
            ActorAction::Deliver(event) => ActorActionView::Deliver(event),
            ActorAction::Terminate { deadline_ms } => ActorActionView::Terminate { deadline_ms },
            ActorAction::Observe => ActorActionView::Observe,
            ActorAction::Wait => ActorActionView::Wait,
            ActorAction::DrainDiagnostics { deadline_ms } => ActorActionView::DrainDiagnostics {
                deadline_ms,
            },
            ActorAction::End => ActorActionView::End,
        }
    }
}

/// What the actor waits for.
#[derive(Debug)]
pub enum ActorStage {
    Listening,
    Offering,
    /// A termination that was asked for.
    Stopping,
    /// A termination because of a failure that is to be told.
    Failing { detail: String },
    /// A termination because nobody listens any more.
    Abandoning,
    /// A look at a process whose termination was not confirmed.
    Unconfirmed { detail: String },
    Waiting,
    Draining { code: Option<i32> },
    /// A look at a process that has exited.
    Undrained { detail: String, code: Option<i32> },
    Delivering,
    Ended,
}

/// Model of an [`ActorStage`].
pub enum ActorStageView {
    Listening,
    Offering,
    Stopping,
    Failing { detail: Seq<char> },
    Abandoning,
    Unconfirmed { detail: Seq<char> },
    Waiting,
    Draining { code: Option<i32> },
    Undrained { detail: Seq<char>, code: Option<i32> },
    Delivering,
    Ended,
}

impl View for ActorStage {
    type V = ActorStageView;

    open spec fn view(&self) -> ActorStageView {
        match *self {
            ActorStage::Listening => ActorStageView::Listening,
            ActorStage::Offering => ActorStageView::Offering,
            ActorStage::Stopping => ActorStageView::Stopping,
            ActorStage::Failing { detail } => ActorStageView::Failing { detail: detail@ },
            ActorStage::Abandoning => ActorStageView::Abandoning,
            ActorStage::Unconfirmed { detail } => ActorStageView::Unconfirmed { detail: detail@ },
            ActorStage::Waiting => ActorStageView::Waiting,
            ActorStage::Draining { code } => ActorStageView::Draining { code },
            ActorStage::Undrained { detail, code } => ActorStageView::Undrained {
                detail: detail@,
                code,
            },
            ActorStage::Delivering => ActorStageView::Delivering,
            ActorStage::Ended => ActorStageView::Ended,
        }
    }
}

/// Model of a [`ProcessActor`].
pub struct ProcessActorView {
    pub stage: ActorStageView,
    pub control_open: bool,
    pub limits: RuntimeLimits,
}

/// The event that passes on what the writer reports; that it has nothing more to
/// write is not passed on.
pub open spec fn passed_on(event: RunProcessWriterEvent) -> Option<RunProcessEvent> {
    match event {
        RunProcessWriterEvent::RequestWriteFailed { request_id, detail } => Some(
            RunProcessEvent::RequestWriteFailed { request_id, detail },
        ),
        RunProcessWriterEvent::ExtensionUiResponseWritten { request_id } => Some(
            RunProcessEvent::ExtensionUiResponseWritten { request_id },
        ),
        RunProcessWriterEvent::ExtensionUiResponseWriteFailed { request_id, detail } => Some(
            RunProcessEvent::ExtensionUiResponseWriteFailed { request_id, detail },
        ),
        RunProcessWriterEvent::CommandChannelClosed => None,
    }
}

impl ProcessActorView {
    pub open spec fn begun(limits: RuntimeLimits) -> Self {
        ProcessActorView { stage: ActorStageView::Listening, control_open: true, limits }
    }

    pub open spec fn at(self, stage: ActorStageView) -> Self {
        ProcessActorView { stage, ..self }
    }

    pub open spec fn listening(self) -> (Self, ActorActionView) {
        (
            self.at(ActorStageView::Listening),
            ActorActionView::Listen { control_open: self.control_open },
        )
    }

    /// Terminates the process because of a failure, which is then told.
    pub open spec fn failing(self, detail: Seq<char>) -> (Self, ActorActionView) {
        (
            self.at(ActorStageView::Failing { detail }),
            ActorActionView::Terminate { deadline_ms: self.limits.stop_termination_deadline_ms },
        )
    }

    pub open spec fn delivering(self, action: ActorActionView) -> (Self, ActorActionView) {
        (self.at(ActorStageView::Delivering), action)
    }

    /// Whether the actor can take this now.
    pub open spec fn expects(self, input: ActorInput) -> bool {
        match input {
            ActorInput::Control(_) => self.stage is Listening && self.control_open,
            ActorInput::Writer(_) | ActorInput::Message(_) => self.stage is Listening,
            ActorInput::Offered(_) => self.stage is Offering,
            ActorInput::Terminated(_) => self.stage is Stopping || self.stage is Failing
                || self.stage is Abandoning,
            ActorInput::Observed { .. } => self.stage is Unconfirmed || self.stage is Undrained,
            ActorInput::Waited(_) => self.stage is Waiting,
            ActorInput::Drained(_) => self.stage is Draining,
            ActorInput::Delivered => self.stage is Delivering,
        }
    }

    pub open spec fn after_writer(self, event: Option<RunProcessWriterEvent>) -> (
        Self,
        ActorActionView,
    ) {
        match event {
            None => self.failing("Pi stdin writer task ended unexpectedly"@),
            Some(event) => match passed_on(event) {
                None => self.failing("Pi stdin command channel closed while child was live"@),
                Some(passed) => (
                    self.at(ActorStageView::Offering),
                    ActorActionView::Offer(passed),
                ),
            },
        }
    }

    pub open spec fn after_message(self, message: Option<Result<InboundMessage, String>>) -> (
        Self,
        ActorActionView,
    ) {
        match message {
            Some(Ok(message)) => (
                self.at(ActorStageView::Offering),
                ActorActionView::Offer(RunProcessEvent::Inbound(message)),
            ),
            Some(Err(detail)) => self.failing(detail@),
            None => (self.at(ActorStageView::Waiting), ActorActionView::Wait),
        }
    }

    pub open spec fn after_offer(self, outcome: OfferOutcome) -> (Self, ActorActionView) {
        match outcome {
            OfferOutcome::Accepted => self.listening(),
            OfferOutcome::QueueFull => self.failing("bounded internal Pi event queue exhausted"@),
            OfferOutcome::Closed => (
                self.at(ActorStageView::Abandoning),
                ActorActionView::Terminate {
                    deadline_ms: self.limits.stop_termination_deadline_ms,
                },
            ),
        }
    }

    pub open spec fn after_termination(self, result: Result<ProcessTerminationReport, String>) -> (
        Self,
        ActorActionView,
    ) {
        match (self.stage, result) {
            (ActorStageView::Failing { detail }, Ok(termination)) => self.delivering(
                ActorActionView::Fail { detail, termination },
            ),
            (ActorStageView::Failing { detail }, Err(_)) => (
                self.at(ActorStageView::Unconfirmed { detail }),
                ActorActionView::Observe,
            ),
            (ActorStageView::Abandoning, _) => (
                self.at(ActorStageView::Ended),
                ActorActionView::End,
            ),
            _ => self.delivering(
                ActorActionView::Deliver(RunProcessEvent::TerminationFinished { result }),
            ),
        }
    }

    pub open spec fn after_wait(self, status: Result<Option<i32>, String>) -> (
        Self,
        ActorActionView,
    ) {
        match status {
            Ok(code) => (
                self.at(ActorStageView::Draining { code }),
                ActorActionView::DrainDiagnostics {
                    deadline_ms: self.limits.stop_termination_deadline_ms,
                },
            ),
            Err(error) => (
                self.at(
                    ActorStageView::Unconfirmed {
                        detail: "Pi stdout closed and process wait failed: "@ + error@,
                    },
                ),
                ActorActionView::Observe,
            ),
        }
    }

    pub open spec fn after_drain(
        self,
        code: Option<i32>,
        drained: Result<PiProcessDiagnostics, String>,
    ) -> (Self, ActorActionView) {
        match drained {
            Ok(diagnostics) => self.delivering(
                ActorActionView::Deliver(RunProcessEvent::Exited { code, diagnostics }),
            ),
            Err(error) => (
                self.at(
                    ActorStageView::Undrained {
                        detail: "Pi process exited but stderr drain failed: "@ + error@,
                        code,
                    },
                ),
                ActorActionView::Observe,
            ),
        }
    }

    pub open spec fn after_look(
        self,
        identity: PiProcessIdentity,
        diagnostics: PiProcessDiagnostics,
    ) -> (Self, ActorActionView) {
        match self.stage {
            ActorStageView::Undrained { detail, code } => self.delivering(
                ActorActionView::Fail {
                    detail,
                    termination: ProcessTerminationReport::Exited {
                        code,
                        diagnostics,
                        kill_requested: false,
                    },
                },
            ),
            ActorStageView::Unconfirmed { detail } => self.delivering(
                ActorActionView::Fail {
                    detail,
                    termination: ProcessTerminationReport::Unconfirmed { identity, diagnostics },
                },
            ),
            _ => self.listening(),
        }
    }

    /// What the actor does about what happened.
    pub open spec fn after(self, input: ActorInput) -> (Self, ActorActionView) {
        match input {
            ActorInput::Control(Some(deadline_ms)) => (
                self.at(ActorStageView::Stopping),
                ActorActionView::Terminate { deadline_ms },
            ),
            ActorInput::Control(None) => ProcessActorView {
                control_open: false,
                ..self
            }.listening(),
            ActorInput::Writer(event) => self.after_writer(event),
            ActorInput::Message(message) => self.after_message(message),
            ActorInput::Offered(outcome) => self.after_offer(outcome),
            ActorInput::Terminated(result) => self.after_termination(result),
            ActorInput::Observed { identity, diagnostics } => self.after_look(
                identity,
                diagnostics,
            ),
            ActorInput::Waited(status) => self.after_wait(status),
            ActorInput::Drained(drained) => match self.stage {
                ActorStageView::Draining { code } => self.after_drain(code, drained),
                _ => self.listening(),
            },
            ActorInput::Delivered => (self.at(ActorStageView::Ended), ActorActionView::End),
        }
    }
}

/// The owner of one Pi process.
#[derive(Debug)]
pub struct ProcessActor {
    stage: ActorStage,
    control_open: bool,
    limits: RuntimeLimits,
}

impl View for ProcessActor {
    type V = ProcessActorView;

    closed spec fn view(&self) -> ProcessActorView {
        ProcessActorView {
            stage: self.stage@,
            control_open: self.control_open,
            limits: self.limits,
        }
    }
}

impl ProcessActor {
    /// The owner of a process that was just started, and what it does first.
    pub fn new(limits: RuntimeLimits) -> (r: (Self, ActorAction))
        ensures
            r.0@ == ProcessActorView::begun(limits),
            r.1@ == (ActorActionView::Listen { control_open: true }),
    {
        (
            ProcessActor { stage: ActorStage::Listening, control_open: true, limits },
            ActorAction::Listen { control_open: true },
        )
    }

    fn listen(&mut self) -> (r: ActorAction)
        ensures
            (final(self)@, r@) == old(self)@.listening(),
    {
        self.stage = ActorStage::Listening;
        ActorAction::Listen { control_open: self.control_open }
    }

    fn fail(&mut self, detail: String) -> (r: ActorAction)
        ensures
            (final(self)@, r@) == old(self)@.failing(detail@),
    {
        self.stage = ActorStage::Failing { detail };
        ActorAction::Terminate { deadline_ms: self.limits.stop_termination_deadline_ms }
    }

    fn on_writer(&mut self, event: Option<RunProcessWriterEvent>) -> (r: ActorAction)
        ensures
            (final(self)@, r@) == old(self)@.after_writer(event),
    {
        let passed = match event {
            None => {
                return self.fail("Pi stdin writer task ended unexpectedly".to_owned());
            },
            Some(RunProcessWriterEvent::CommandChannelClosed) => {
                return self.fail("Pi stdin command channel closed while child was live".to_owned());
            },
            Some(RunProcessWriterEvent::RequestWriteFailed { request_id, detail }) => {
                RunProcessEvent::RequestWriteFailed { request_id, detail }
            },
            Some(RunProcessWriterEvent::ExtensionUiResponseWritten { request_id }) => {
                RunProcessEvent::ExtensionUiResponseWritten { request_id }
            },
            Some(RunProcessWriterEvent::ExtensionUiResponseWriteFailed { request_id, detail }) => {
                RunProcessEvent::ExtensionUiResponseWriteFailed { request_id, detail }
            },
        };
        self.stage = ActorStage::Offering;
        ActorAction::Offer(passed)
    }

    fn on_message(&mut self, message: Option<Result<InboundMessage, String>>) -> (r: ActorAction)
        ensures
            (final(self)@, r@) == old(self)@.after_message(message),
    {
        match message {
            Some(Ok(message)) => {
                self.stage = ActorStage::Offering;
                ActorAction::Offer(RunProcessEvent::Inbound(message))
            },
            Some(Err(detail)) => self.fail(detail),
            None => {
                self.stage = ActorStage::Waiting;
                ActorAction::Wait
            },
        }
    }

    fn on_offer(&mut self, outcome: OfferOutcome) -> (r: ActorAction)
        ensures
            (final(self)@, r@) == old(self)@.after_offer(outcome),
    {
        match outcome {
            OfferOutcome::Accepted => self.listen(),
            OfferOutcome::QueueFull => self.fail(
                "bounded internal Pi event queue exhausted".to_owned(),
            ),
            OfferOutcome::Closed => {
                self.stage = ActorStage::Abandoning;
                ActorAction::Terminate { deadline_ms: self.limits.stop_termination_deadline_ms }
            },
        }
    }

    fn on_termination(&mut self, result: Result<ProcessTerminationReport, String>) -> (r:
        ActorAction)
        ensures
            (final(self)@, r@) == old(self)@.after_termination(result),
    {
        let mut stage = ActorStage::Delivering;
        core::mem::swap(&mut stage, &mut self.stage);
        match stage {
            ActorStage::Failing { detail } => match result {
                Ok(termination) => ActorAction::Deliver(
                    RunProcessEvent::ProtocolFailure { detail, termination },
                ),
                Err(_) => {
                    self.stage = ActorStage::Unconfirmed { detail };
                    ActorAction::Observe
                },
            },
            ActorStage::Abandoning => {
                self.stage = ActorStage::Ended;
                ActorAction::End
            },
            _ => ActorAction::Deliver(RunProcessEvent::TerminationFinished { result }),
        }
    }

    fn on_wait(&mut self, status: Result<Option<i32>, String>) -> (r: ActorAction)
        ensures
            (final(self)@, r@) == old(self)@.after_wait(status),
    {
        match status {
            Ok(code) => {
                self.stage = ActorStage::Draining { code };
                ActorAction::DrainDiagnostics {
                    deadline_ms: self.limits.stop_termination_deadline_ms,
                }
            },
            Err(error) => {
                self.stage =
                ActorStage::Unconfirmed {
                    detail: join("Pi stdout closed and process wait failed: ", error.as_str()),
                };
                ActorAction::Observe
            },
        }
    }

    fn on_drain(&mut self, code: Option<i32>, drained: Result<PiProcessDiagnostics, String>) -> (r:
        ActorAction)
        ensures
            (final(self)@, r@) == old(self)@.after_drain(code, drained),
    {
        match drained {
            Ok(diagnostics) => {
                self.stage = ActorStage::Delivering;
                ActorAction::Deliver(RunProcessEvent::Exited { code, diagnostics })
            },
            Err(error) => {
                self.stage =
                ActorStage::Undrained {
                    detail: join("Pi process exited but stderr drain failed: ", error.as_str()),
                    code,
                };
                ActorAction::Observe
            },
        }
    }

    fn on_look(&mut self, identity: PiProcessIdentity, diagnostics: PiProcessDiagnostics) -> (r:
        ActorAction)
        ensures
            (final(self)@, r@) == old(self)@.after_look(identity, diagnostics),
    {
        let mut stage = ActorStage::Delivering;
        core::mem::swap(&mut stage, &mut self.stage);
        match stage {
            ActorStage::Undrained { detail, code } => ActorAction::Deliver(
                RunProcessEvent::ProtocolFailure {
                    detail,
                    termination: ProcessTerminationReport::Exited {
                        code,
                        diagnostics,
                        kill_requested: false,
                    },
                },
            ),
            ActorStage::Unconfirmed { detail } => ActorAction::Deliver(
                RunProcessEvent::ProtocolFailure {
                    detail,
                    termination: ProcessTerminationReport::Unconfirmed { identity, diagnostics },
                },
            ),
            _ => self.listen(),
        }
    }

    /// Takes what happened, and says what is to be done about it.
    pub fn advance(&mut self, input: ActorInput) -> (r: ActorAction)
        requires
            old(self)@.expects(input),
        ensures
            (final(self)@, r@) == old(self)@.after(input),
    {
        match input {
            ActorInput::Control(Some(deadline_ms)) => {
                self.stage = ActorStage::Stopping;
                ActorAction::Terminate { deadline_ms }
            },
            ActorInput::Control(None) => {
                self.control_open = false;
                self.listen()
            },
            ActorInput::Writer(event) => self.on_writer(event),
            ActorInput::Message(message) => self.on_message(message),
            ActorInput::Offered(outcome) => self.on_offer(outcome),
            ActorInput::Terminated(result) => self.on_termination(result),
            ActorInput::Observed { identity, diagnostics } => self.on_look(identity, diagnostics),
            ActorInput::Waited(status) => self.on_wait(status),
            ActorInput::Drained(drained) => {
                let code = match &self.stage {
                    ActorStage::Draining { code } => *code,
                    _ => {
                        return self.listen();
                    },
                };
                self.on_drain(code, drained)
            },
            ActorInput::Delivered => {
                self.stage = ActorStage::Ended;
                ActorAction::End
            },
        }
    }
}

/// Whether this action tells how the process ended.
pub open spec fn tells_the_end(action: ActorActionView) -> bool {
    action is Fail || (action is Deliver && (action->Deliver_0 is Exited
        || action->Deliver_0 is TerminationFinished))
}

/// The actor ends in one of two ways: it has told how its process ended, or nobody
/// listens any more and the process was terminated first.
pub proof fn the_end_is_told(actor: ProcessActorView, input: ActorInput)
    requires
        actor.expects(input),
    ensures
        actor.after(input).1 is End ==> actor.stage is Delivering || actor.stage is Abandoning,
        actor.after(input).0.stage is Delivering && !(actor.stage is Delivering) ==> tells_the_end(
            actor.after(input).1,
        ),
        actor.after(input).0.stage is Abandoning && !(actor.stage is Abandoning)
            ==> actor.after(input).1 is Terminate,
{
}

/// A failure is told only once the process was terminated, has exited, or was found
/// beyond reach; so no process is left running behind a failure.
pub proof fn failures_follow_the_termination(actor: ProcessActorView, input: ActorInput)
    requires
        actor.expects(input),
        actor.after(input).1 is Fail,
    ensures
        input is Terminated || input is Observed,
        actor.stage is Failing || actor.stage is Unconfirmed || actor.stage is Undrained,
{
}

} // verus!
