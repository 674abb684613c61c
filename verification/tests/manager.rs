use std::cell::RefCell;
use std::collections::{BTreeMap, VecDeque};

use pi_wizard_core::draft::{DraftClearing, DraftDurability, DraftImageSummary, DraftSnapshot};
use pi_wizard_core::events::{
    AssistantMessageBlockKind, AssistantMessageEnd, AssistantMessageUpdate, ExtensionDialogMethod,
    ExtensionDialogRequest, ExtensionFireAndForget, ExtensionNotifyType, ExtensionUiRequest,
    ExtensionUiResponse, InboundMessage, RpcEvent,
};
use pi_wizard_core::launch::ProjectTrustPolicy;
use pi_wizard_core::process::{PiProcessDiagnostics, PiProcessIdentity};
use pi_wizard_core::rpc::{
    AssistantStopReason, ClearQueueResult, CommandSummary, ImageContent, ModelSummary, QueueMode,
    RpcCommand, RpcRequest, RpcResponse, RpcResponseOutcome, RpcResponsePayload, RpcStateSnapshot,
    ThinkingLevel,
};
use pi_wizard_core::runtime::composer::DraftSubmission;
use pi_wizard_core::runtime::manager::actions::{ManagerAction, ManagerReply};
use pi_wizard_core::runtime::manager::commands::{
    CommandOutcome, RuntimeManagerCommand, RuntimeManagerControlCommand,
};
use pi_wizard_core::runtime::manager::lifecycle::{ShutdownProgress, StartupIds};
use pi_wizard_core::runtime::manager::surface::{ui_event, EventIds};
use pi_wizard_core::runtime::operations::{
    continue_operation, ManagedOperation, OperationStage, OperationStep,
};
use pi_wizard_core::runtime::stop_recovery::{plan_draft_recovery, DraftRecovery};
use pi_wizard_core::runtime::{
    ActivityState, CommandRoom, ComposerAction, ComposerAvailability, ComposerSubmitResult, ExecutionIsolation,
    GitWorktreeIdentity, ManagedRpcCompletion, ProcessState, ProcessTerminationReport,
    RunFailureKind, RunProcessEnvelope, RunProcessEvent, RunStartSpec, RuntimeHydrationSnapshot,
    RuntimeManager, RuntimeManagerError, RuntimeShutdownReport, RuntimeStopResult, RuntimeUiEvent,
    SessionReplacementResult,
};
use pi_wizard_core::{DraftImageId, ProjectId, RequestId, RunId, RuntimeLimits};

/// What Pi would answer, without a process.
struct FakePi {
    working: bool,
    session_id: String,
    provider: String,
    model_id: String,
    model_name: String,
    thinking_level: ThinkingLevel,
    session_name: String,
    auto_compaction: bool,
    silent: bool,
    held: Vec<RpcRequest>,
    received: Vec<RpcCommand>,
}

impl FakePi {
    fn new() -> FakePi {
        FakePi {
            working: false,
            session_id: "fake-session".to_owned(),
            provider: "fake".to_owned(),
            model_id: "fake-model".to_owned(),
            model_name: "Fake Model".to_owned(),
            thinking_level: ThinkingLevel::Medium,
            session_name: "Fake Session".to_owned(),
            auto_compaction: true,
            silent: false,
            held: Vec::new(),
            received: Vec::new(),
        }
    }

    fn accept(&self, request: &RpcRequest, payload: RpcResponsePayload) -> InboundMessage {
        InboundMessage::Response(RpcResponse {
            id: Some(request.id.as_str().to_owned()),
            command: request.command.kind().wire_name().to_owned(),
            success: true,
            cancelled: false,
            payload,
            error: None,
        })
    }

    fn stream(out: &mut Vec<InboundMessage>) {
        let kind = AssistantMessageBlockKind::Text;
        out.push(InboundMessage::Event(RpcEvent::MessageStart));
        for update in [
            AssistantMessageUpdate::Start { content_index: 0, kind },
            AssistantMessageUpdate::Delta { content_index: 0, kind, delta: "Hello ".to_owned() },
            AssistantMessageUpdate::Delta { content_index: 0, kind, delta: "world".to_owned() },
            AssistantMessageUpdate::End {
                content_index: 0,
                kind,
                content: Some("Hello world".to_owned()),
            },
        ] {
            out.push(InboundMessage::Event(RpcEvent::MessageUpdate(update)));
        }
        out.push(InboundMessage::Event(RpcEvent::MessageEnd(Some(AssistantMessageEnd {
            stop_reason: AssistantStopReason::Stop,
            error_message: None,
            blocks: vec![(0, kind, "Hello world".to_owned())],
        }))));
    }

    fn handle(&mut self, request: &RpcRequest) -> Vec<InboundMessage> {
        self.received.push(request.command.clone());
        let mut out = Vec::new();
        if self.silent {
            return out;
        }
        match &request.command {
            RpcCommand::GetState => {
                let images = self.model_id != "alt-model";
                out.push(self.accept(
                    request,
                    RpcResponsePayload::State(RpcStateSnapshot {
                        model: Some(ModelSummary {
                            provider: self.provider.clone(),
                            id: self.model_id.clone(),
                            name: Some(self.model_name.clone()),
                            supports_images: Some(images),
                        }),
                        thinking_level: self.thinking_level,
                        is_streaming: self.working,
                        is_compacting: false,
                        steering_mode: QueueMode::All,
                        follow_up_mode: QueueMode::OneAtATime,
                        session_file: None,
                        session_id: self.session_id.clone(),
                        session_name: Some(self.session_name.clone()),
                        auto_compaction_enabled: self.auto_compaction,
                        message_count: 1,
                        pending_message_count: 0,
                    }),
                ));
            }
            RpcCommand::GetAvailableModels => {
                let model = |provider: &str, id: &str, name: &str, images: bool| ModelSummary {
                    provider: provider.to_owned(),
                    id: id.to_owned(),
                    name: Some(name.to_owned()),
                    supports_images: Some(images),
                };
                out.push(self.accept(
                    request,
                    RpcResponsePayload::Models(vec![
                        model("fake", "fake-model", "Fake Model", true),
                        model("fake-alt", "alt-model", "Alternate Model", false),
                    ]),
                ));
            }
            RpcCommand::GetAvailableThinkingLevels => out.push(self.accept(
                request,
                RpcResponsePayload::ThinkingLevels(vec![
                    ThinkingLevel::Off,
                    ThinkingLevel::Medium,
                    ThinkingLevel::High,
                ]),
            )),
            RpcCommand::GetCommands => out.push(self.accept(
                request,
                RpcResponsePayload::Commands(vec![CommandSummary {
                    name: "fake-command".to_owned(),
                    description: Some("fixture".to_owned()),
                    source: "extension".to_owned(),
                }]),
            )),
            RpcCommand::SetModel { provider, model_id } => {
                self.provider = provider.clone();
                self.model_id = model_id.clone();
                self.model_name =
                    if model_id == "alt-model" { "Alternate Model".to_owned() } else { model_id.clone() };
                out.push(self.accept(request, RpcResponsePayload::Other));
            }
            RpcCommand::SetThinkingLevel { level } => {
                self.thinking_level = *level;
                out.push(self.accept(request, RpcResponsePayload::Empty));
                out.push(InboundMessage::Event(RpcEvent::ThinkingLevelChanged(*level)));
            }
            RpcCommand::SetAutoCompaction { enabled } => {
                self.auto_compaction = *enabled;
                out.push(self.accept(request, RpcResponsePayload::Empty));
            }
            RpcCommand::SetSessionName { name } => {
                self.session_name = name.clone();
                out.push(self.accept(request, RpcResponsePayload::Empty));
                out.push(InboundMessage::Event(RpcEvent::SessionInfoChanged {
                    name: Some(name.clone()),
                }));
            }
            RpcCommand::Compact { .. } => {
                out.push(InboundMessage::Event(RpcEvent::CompactionStart {
                    reason: "manual".to_owned(),
                }));
                out.push(self.accept(request, RpcResponsePayload::Other));
                out.push(InboundMessage::Event(RpcEvent::CompactionEnd {
                    reason: "manual".to_owned(),
                    aborted: false,
                    will_retry: false,
                    error_message: None,
                }));
            }
            RpcCommand::Clone => {
                self.session_id = "cloned-session".to_owned();
                out.push(self.accept(request, RpcResponsePayload::Other));
            }
            RpcCommand::Fork { .. } => {
                self.session_id = "forked-session".to_owned();
                out.push(self.accept(request, RpcResponsePayload::Other));
            }
            RpcCommand::SwitchSession { session_path } => {
                if session_path.contains("cancel") {
                    out.push(InboundMessage::Response(RpcResponse {
                        id: Some(request.id.as_str().to_owned()),
                        command: "switch_session".to_owned(),
                        success: true,
                        cancelled: true,
                        payload: RpcResponsePayload::Other,
                        error: None,
                    }));
                } else {
                    let next =
                        if session_path.contains("original") { "fake-session" } else { "switched-session" };
                    self.session_id = next.to_owned();
                    out.push(self.accept(request, RpcResponsePayload::Other));
                }
            }
            RpcCommand::Prompt { message, .. } => match message.as_str() {
                "reject" => out.push(InboundMessage::Response(RpcResponse {
                    id: Some(request.id.as_str().to_owned()),
                    command: "prompt".to_owned(),
                    success: false,
                    cancelled: false,
                    payload: RpcResponsePayload::Empty,
                    error: Some("fixture prompt rejection".to_owned()),
                })),
                "delayed-accept" => self.held.push(request.clone()),
                text => {
                    out.push(self.accept(request, RpcResponsePayload::Empty));
                    self.working = true;
                    out.push(InboundMessage::Event(RpcEvent::AgentStart));
                    self.turn(text, &mut out);
                }
            },
            RpcCommand::ClearQueue => {
                out.push(self.accept(
                    request,
                    RpcResponsePayload::ClearedQueue(ClearQueueResult {
                        steering: vec!["recover steering".to_owned()],
                        follow_up: vec!["recover follow up".to_owned()],
                    }),
                ));
                out.push(InboundMessage::Event(RpcEvent::QueueUpdate(ClearQueueResult::default())));
            }
            RpcCommand::Abort => {
                out.push(self.accept(request, RpcResponsePayload::Empty));
                self.working = false;
                out.push(InboundMessage::Event(RpcEvent::AgentSettled));
            }
            _ => out.push(self.accept(request, RpcResponsePayload::Empty)),
        }
        out
    }

    fn turn(&mut self, text: &str, out: &mut Vec<InboundMessage>) {
        let shown = |request: ExtensionUiRequest| {
            InboundMessage::Event(RpcEvent::ExtensionUiRequest(request))
        };
        match text {
            "notify" => out.push(shown(ExtensionUiRequest::FireAndForget(
                ExtensionFireAndForget::Notify {
                    message: "fixture notification".to_owned(),
                    notify_type: ExtensionNotifyType::Info,
                },
            ))),
            "dialog" => {
                out.push(shown(ExtensionUiRequest::Dialog(ExtensionDialogRequest {
                    id: "dialog-1".to_owned(),
                    method: ExtensionDialogMethod::Confirm,
                    title: "Continue?".to_owned(),
                    message: Some("Fixture dialog".to_owned()),
                    options: Vec::new(),
                    text: None,
                    timeout_ms: Some(30_000),
                })));
                return;
            }
            "editor" => out.push(shown(ExtensionUiRequest::FireAndForget(
                ExtensionFireAndForget::SetEditorText { text: "extension draft".to_owned() },
            ))),
            _ => {
                FakePi::stream(out);
                if text == "hold" {
                    out.push(InboundMessage::Event(RpcEvent::QueueUpdate(ClearQueueResult {
                        steering: vec!["recover steering".to_owned()],
                        follow_up: vec!["recover follow up".to_owned()],
                    })));
                    return;
                }
            }
        }
        self.working = false;
        out.push(InboundMessage::Event(RpcEvent::AgentSettled));
    }

    /// Answers what was held back.
    fn release(&mut self) -> Vec<InboundMessage> {
        let mut out = Vec::new();
        for request in std::mem::take(&mut self.held) {
            out.push(self.accept(&request, RpcResponsePayload::Empty));
            out.push(InboundMessage::Event(RpcEvent::AgentStart));
            FakePi::stream(&mut out);
            out.push(InboundMessage::Event(RpcEvent::AgentSettled));
        }
        out
    }
}

#[derive(Clone)]
struct Draft {
    text: String,
    images: Vec<(String, String, String)>,
    generation: u64,
    durability: DraftDurability,
    error: Option<String>,
}

impl Draft {
    fn empty() -> Draft {
        Draft {
            text: String::new(),
            images: Vec::new(),
            generation: 0,
            durability: DraftDurability::Saved,
            error: None,
        }
    }
}

#[derive(Debug)]
enum Answer {
    Reply(ManagerReply),
    Submitted(ComposerSubmitResult),
    Stopped(RuntimeStopResult),
}

/// Stored drafts: text and images by session.
type Disk = BTreeMap<String, (String, Vec<(String, String, String)>)>;

/// The owner of processes, drafts and the clock.
struct World {
    manager: RuntimeManager,
    limits: RuntimeLimits,
    persistence: bool,
    now: u64,
    count: u64,
    room: CommandRoom,
    pis: BTreeMap<u128, FakePi>,
    inbox: VecDeque<RunProcessEnvelope>,
    drafts: BTreeMap<String, Draft>,
    bound: BTreeMap<u128, String>,
    disk: Disk,
    disk_fails: bool,
    bind_fails: bool,
    clear_fails: bool,
    corrupt: Vec<String>,
    answers: BTreeMap<u64, Answer>,
    signals: Vec<RunId>,
    events: Vec<RuntimeUiEvent>,
}

impl World {
    fn new(limits: RuntimeLimits) -> World {
        World {
            manager: RuntimeManager::new(limits, false),
            limits,
            persistence: false,
            now: 1_000,
            count: 0,
            room: CommandRoom::Open(64),
            pis: BTreeMap::new(),
            inbox: VecDeque::new(),
            drafts: BTreeMap::new(),
            bound: BTreeMap::new(),
            disk: BTreeMap::new(),
            disk_fails: false,
            bind_fails: false,
            clear_fails: false,
            corrupt: Vec::new(),
            answers: BTreeMap::new(),
            signals: Vec::new(),
            events: Vec::new(),
        }
    }

    fn persistent(limits: RuntimeLimits, disk: Disk) -> World {
        let mut world = World::new(limits);
        world.manager = RuntimeManager::new(limits, true);
        world.persistence = true;
        world.disk = disk;
        world
    }

    fn ticket(&mut self) -> u64 {
        self.count += 1;
        self.count
    }

    fn request_id(&mut self) -> RequestId {
        let count = self.ticket();
        RequestId::from_wire(&format!("internal-{count}"))
    }

    fn event_ids(&mut self) -> EventIds {
        EventIds { sync: self.request_id(), abort: self.request_id(), state: self.request_id() }
    }

    fn spec(&self) -> RunStartSpec {
        RunStartSpec {
            project_id: ProjectId { value: 7 },
            execution_isolation: ExecutionIsolation::LocalCheckout,
            worktree: None,
            execution_root: "/fixture/root".to_owned(),
            project_trust: ProjectTrustPolicy::Ignore,
            session_id: None,
        }
    }

    fn start_with(&mut self, spec: RunStartSpec, pi: FakePi) -> Result<RunId, RuntimeManagerError> {
        match self.manager.handle_command(RuntimeManagerCommand::StartRun, self.now) {
            CommandOutcome::Granted => {}
            other => panic!("start refused: {other:?}"),
        }
        let run_id = RunId { value: 1 + self.pis.len() as u128 };
        let root = spec.execution_root.clone();
        let session_id = spec.session_id.clone();
        let canonical = spec.worktree.as_ref().map(|identity| (root, identity.worktree_root.clone()));
        let record = self.manager.check_start(run_id, spec, canonical, self.now)?;
        self.pis.insert(run_id.value, pi);
        self.bind(run_id, &format!("run-{}", run_id.value));
        let ids = StartupIds {
            state: self.request_id(),
            models: self.request_id(),
            thinking_levels: self.request_id(),
            commands: self.request_id(),
        };
        self.manager
            .register_run(record, session_id, self.room, ids, self.now, self.now)
            .expect("a new run");
        self.settle();
        Ok(run_id)
    }

    fn start(&mut self) -> RunId {
        self.start_with(self.spec(), FakePi::new()).expect("start run")
    }

    fn bind(&mut self, run_id: RunId, session_id: &str) {
        self.bound.insert(run_id.value, session_id.to_owned());
        self.drafts.entry(session_id.to_owned()).or_insert_with(Draft::empty);
    }

    fn draft(&self, run_id: RunId) -> &Draft {
        &self.drafts[&self.bound[&run_id.value]]
    }

    fn durability(&self, run_id: RunId) -> Option<DraftDurability> {
        Some(self.draft(run_id).durability)
    }

    fn change(&mut self, run_id: RunId, change: impl FnOnce(&mut Draft)) {
        let session = self.bound[&run_id.value].clone();
        let draft = self.drafts.get_mut(&session).expect("bound draft");
        change(draft);
        draft.generation += 1;
        draft.durability = DraftDurability::Dirty;
        draft.error = None;
    }

    fn runs_of(&self, session_id: &str) -> Vec<RunId> {
        self.bound
            .iter()
            .filter(|(_, session)| *session == session_id)
            .map(|(run, _)| RunId { value: *run })
            .collect()
    }

    fn save(&mut self, session_id: String) {
        if !self.persistence {
            return;
        }
        let runs = self.runs_of(&session_id);
        let Some(draft) = self.drafts.get_mut(&session_id) else {
            return;
        };
        if draft.durability == DraftDurability::Saved {
            return;
        }
        draft.durability = DraftDurability::Saving;
        if self.disk_fails {
            draft.durability = DraftDurability::Failed;
            draft.error = Some("could not write session draft".to_owned());
        } else {
            self.disk.insert(session_id.clone(), (draft.text.clone(), draft.images.clone()));
            draft.durability = DraftDurability::Saved;
            draft.error = None;
        }
        let durability = draft.durability;
        let error = draft.error.clone();
        self.manager.signal_drafts(&runs);
        self.manager.signal_drafts(&runs);
        self.manager.continue_pending_session_replacements(
            &session_id,
            Some(durability),
            error.as_deref(),
        );
    }

    fn load(&mut self, session_id: String) {
        let runs = self.runs_of(&session_id);
        let stored = self.disk.get(&session_id).cloned();
        let corrupt = self.corrupt.contains(&session_id);
        if let Some(draft) = self.drafts.get_mut(&session_id) {
            if corrupt {
                draft.durability = DraftDurability::Failed;
                draft.error = Some("corrupt draft was quarantined".to_owned());
            } else if let Some((text, images)) = stored {
                if draft.generation == 0 {
                    draft.text = text;
                    draft.images = images;
                }
            }
        }
        self.manager.draft_loaded(&session_id, &runs);
    }

    fn perform(&mut self, action: ManagerAction) {
        match action {
            ManagerAction::SendRequest { run_id, request } => {
                if let Some(pi) = self.pis.get_mut(&run_id.value) {
                    for message in pi.handle(&request) {
                        self.inbox.push_back(RunProcessEnvelope {
                            run_id,
                            event: RunProcessEvent::Inbound(message),
                        });
                    }
                }
            }
            ManagerAction::SendExtensionResponse { run_id, response } => {
                let id = match &response {
                    ExtensionUiResponse::Value { id, .. } => id,
                    ExtensionUiResponse::Confirmation { id, .. } => id,
                    ExtensionUiResponse::Cancelled { id } => id,
                };
                self.inbox.push_back(RunProcessEnvelope {
                    run_id,
                    event: RunProcessEvent::ExtensionUiResponseWritten { request_id: id.clone() },
                });
                if let Some(pi) = self.pis.get_mut(&run_id.value) {
                    pi.working = false;
                    self.inbox.push_back(RunProcessEnvelope {
                        run_id,
                        event: RunProcessEvent::Inbound(InboundMessage::Event(
                            RpcEvent::AgentSettled,
                        )),
                    });
                }
            }
            ManagerAction::Terminate { run_id, .. } => {
                self.inbox.push_back(RunProcessEnvelope {
                    run_id,
                    event: RunProcessEvent::TerminationFinished {
                        result: Ok(ProcessTerminationReport::Exited {
                            code: None,
                            diagnostics: diagnostics(),
                            kill_requested: true,
                        }),
                    },
                });
            }
            ManagerAction::Reply { ticket, reply } => {
                self.answers.insert(ticket, Answer::Reply(reply));
            }
            ManagerAction::Notify { run_id, notice } => {
                let key = notice.coalesce_key();
                if let Some(event) = ui_event(run_id, notice, self.manager.controller(run_id)) {
                    let payload = (self.events.len() as u64).to_le_bytes().to_vec();
                    self.events.push(event);
                    self.manager.deliver(run_id, key, Some(payload));
                }
            }
            ManagerAction::Wake { run_id } => self.signals.push(run_id),
            ManagerAction::LoadDraft { session_id } => self.load(session_id),
            ManagerAction::SaveDraft { session_id } => self.save(session_id),
            ManagerAction::SetDraft { run_id, text } => {
                let shown = text.clone();
                self.change(run_id, |draft| draft.text = shown);
                let draft = self.durability(run_id);
                self.manager.editor_text_set(run_id, text, Ok(draft), self.now, self.now);
            }
            ManagerAction::AnswerSender { ticket, result } => {
                self.answers.insert(ticket, Answer::Submitted(result));
            }
            ManagerAction::FinishStop { run_id, ticket, mut result } => {
                let pending = self.manager.draft_restore_pending(run_id);
                let text = self.draft(run_id).text.clone();
                match plan_draft_recovery(
                    &result.recovered_steering,
                    &result.recovered_follow_up,
                    Some(&text),
                    pending,
                    self.limits,
                ) {
                    DraftRecovery::Unneeded => result.draft_restored = true,
                    DraftRecovery::Refused { detail } => result.draft_restore_error = Some(detail),
                    DraftRecovery::Replace { text } => {
                        self.change(run_id, |draft| draft.text = text);
                        result.draft_restored = true;
                        let draft = self.durability(run_id);
                        self.manager.draft_edited(run_id, draft, self.now);
                    }
                }
                self.answers.insert(ticket, Answer::Stopped(result));
            }
        }
    }

    /// Does all that is to be done until nothing is left.
    fn settle(&mut self) {
        loop {
            let actions = self.manager.take_actions();
            if !actions.is_empty() {
                for action in actions {
                    self.perform(action);
                }
                continue;
            }
            let Some(envelope) = self.inbox.pop_front() else {
                return;
            };
            self.manager.observe_room(envelope.run_id, self.room);
            let ids = self.event_ids();
            let run = envelope.run_id.value;
            let keeper =
                RefCell::new((std::mem::take(&mut self.drafts), std::mem::take(&mut self.bound)));
            let (bind_fails, clear_fails) = (self.bind_fails, self.clear_fails);
            self.manager.handle_process_event(
                envelope,
                ids,
                self.now,
                self.now,
                |session| {
                    if bind_fails {
                        return Err("no such draft store".to_owned());
                    }
                    let mut keeper = keeper.borrow_mut();
                    keeper.1.insert(run, session.clone());
                    Ok(Some(keeper.0.entry(session).or_insert_with(Draft::empty).durability))
                },
                |generation| {
                    if clear_fails {
                        return Err("draft store is locked".to_owned());
                    }
                    let mut keeper = keeper.borrow_mut();
                    let session = keeper.1[&run].clone();
                    let draft = keeper.0.get_mut(&session).expect("bound draft");
                    let cleared = draft.generation == generation;
                    if cleared {
                        draft.text = String::new();
                        draft.images = Vec::new();
                        draft.generation += 1;
                        draft.durability = DraftDurability::Dirty;
                    }
                    Ok(DraftClearing { cleared, durability: Some(draft.durability) })
                },
            );
            (self.drafts, self.bound) = keeper.into_inner();
        }
    }

    fn advance(&mut self, ms: u64) {
        self.now += ms;
        self.manager.handle_deadlines(self.now, self.now);
        self.settle();
    }

    fn request_as(&mut self, run_id: RunId, id: &str, command: RpcCommand) -> u64 {
        let ticket = self.ticket();
        let request = RpcRequest::with_id(RequestId::from_wire(id), command);
        let draft = self.durability(run_id);
        self.manager.observe_room(run_id, self.room);
        self.manager.handle_command(
            RuntimeManagerCommand::Request { run_id, request, ticket, draft },
            self.now,
        );
        self.settle();
        ticket
    }

    fn request(&mut self, run_id: RunId, id: &str, command: RpcCommand) -> Result<ManagedRpcCompletion, String> {
        let ticket = self.request_as(run_id, id, command);
        match self.answers.remove(&ticket) {
            Some(Answer::Reply(ManagerReply::Completed(completion))) => Ok(completion),
            Some(Answer::Reply(ManagerReply::Refused(detail))) => Err(detail),
            other => panic!("no answer to a request: {other:?}"),
        }
    }

    fn prompt(&mut self, run_id: RunId, id: &str, message: &str) -> ManagedRpcCompletion {
        let command = RpcCommand::Prompt {
            message: message.to_owned(),
            images: Vec::new(),
            streaming_behavior: None,
        };
        self.request(run_id, id, command).expect("prompt accepted")
    }

    fn synchronize(&mut self, run_id: RunId, suffix: &str) {
        let completion = self
            .request(run_id, &format!("sync-{suffix}"), RpcCommand::GetState)
            .expect("synchronize through get_state");
        assert_eq!(completion.response.outcome(), RpcResponseOutcome::Accepted);
    }

    fn operate(&mut self, run_id: RunId, operation: ManagedOperation) -> Result<Option<SessionReplacementResult>, RuntimeManagerError> {
        let (kind, mut command) = operation.begin();
        let mut stage = OperationStage::Change;
        loop {
            let id = self.request_id();
            let completion =
                self.request(run_id, id.as_str(), command).map_err(RuntimeManagerError::Operation)?;
            match continue_operation(kind, stage, &completion) {
                OperationStep::Request { stage: next, command: following } => {
                    stage = next;
                    command = following;
                }
                OperationStep::Done => return Ok(None),
                OperationStep::Replaced(result) => return Ok(Some(result)),
                OperationStep::Fail(error) => return Err(error),
            }
        }
    }

    fn may_change_draft(&mut self, run_id: RunId) -> Result<(), String> {
        match self.manager.handle_command(RuntimeManagerCommand::ChangeDraft { run_id }, self.now) {
            CommandOutcome::Granted => Ok(()),
            CommandOutcome::Refused(detail) => Err(detail),
            other => panic!("{other:?}"),
        }
    }

    fn edit(&mut self, run_id: RunId, text: &str) -> Result<(), String> {
        self.may_change_draft(run_id)?;
        self.change(run_id, |draft| draft.text = text.to_owned());
        let draft = self.durability(run_id);
        self.manager.draft_edited(run_id, draft, self.now);
        self.settle();
        Ok(())
    }

    fn attach(&mut self, run_id: RunId, name: &str, mime: &str, data: &str) -> Result<(), String> {
        self.may_change_draft(run_id)?;
        self.change(run_id, |draft| {
            draft.images.push((name.to_owned(), mime.to_owned(), data.to_owned()))
        });
        let draft = self.durability(run_id);
        self.manager.draft_edited(run_id, draft, self.now);
        self.settle();
        Ok(())
    }

    fn submit_later(&mut self, run_id: RunId, action: ComposerAction) -> u64 {
        let ticket = self.ticket();
        let request_id = self.request_id();
        let draft = self.draft(run_id);
        let draft = Ok(DraftSubmission {
            text: draft.text.clone(),
            images: draft
                .images
                .iter()
                .map(|(_, mime, data)| ImageContent { data: data.clone(), mime_type: mime.clone() })
                .collect(),
            generation: draft.generation,
        });
        self.manager.observe_room(run_id, self.room);
        self.manager.handle_command(
            RuntimeManagerCommand::SubmitDraft { run_id, action, draft, ticket, request_id },
            self.now,
        );
        self.settle();
        ticket
    }

    fn submitted(&mut self, ticket: u64) -> Result<ComposerSubmitResult, String> {
        match self.answers.remove(&ticket) {
            Some(Answer::Submitted(result)) => Ok(result),
            Some(Answer::Reply(ManagerReply::Refused(detail))) => Err(detail),
            other => panic!("no answer to a submission: {other:?}"),
        }
    }

    fn submit(&mut self, run_id: RunId, action: ComposerAction) -> Result<ComposerSubmitResult, String> {
        let ticket = self.submit_later(run_id, action);
        self.submitted(ticket)
    }

    fn release(&mut self, run_id: RunId) {
        let messages = self.pis.get_mut(&run_id.value).expect("a Pi").release();
        for message in messages {
            self.inbox
                .push_back(RunProcessEnvelope { run_id, event: RunProcessEvent::Inbound(message) });
        }
        self.settle();
    }

    fn deliver(&mut self, run_id: RunId, event: RunProcessEvent) {
        self.inbox.push_back(RunProcessEnvelope { run_id, event });
        self.settle();
    }

    fn stop_later(&mut self, run_id: RunId) -> u64 {
        let ticket = self.ticket();
        let clear_queue_id = self.request_id();
        self.manager.observe_room(run_id, self.room);
        self.manager.handle_control(
            RuntimeManagerControlCommand::StopRun { run_id, ticket, clear_queue_id },
            self.now,
            self.now,
        );
        self.settle();
        ticket
    }

    fn stopped(&mut self, ticket: u64) -> Result<RuntimeStopResult, String> {
        match self.answers.remove(&ticket) {
            Some(Answer::Stopped(result)) => Ok(result),
            Some(Answer::Reply(ManagerReply::Refused(detail))) => Err(detail),
            other => panic!("no answer to a stop: {other:?}"),
        }
    }

    fn hydrate(&mut self) -> RuntimeHydrationSnapshot {
        let outcome = self.manager.handle_command(RuntimeManagerCommand::Hydrate, self.now);
        self.settle();
        self.fill(outcome)
    }

    fn fill(&mut self, outcome: CommandOutcome) -> RuntimeHydrationSnapshot {
        let CommandOutcome::Hydrated(mut snapshot) = outcome else {
            panic!("no picture");
        };
        for run in &mut snapshot.runs {
            let draft = self.draft(run.run.id());
            run.draft = Some(DraftSnapshot {
                text: draft.text.clone(),
                images: draft
                    .images
                    .iter()
                    .enumerate()
                    .map(|(index, (name, mime, data))| DraftImageSummary {
                        id: DraftImageId { value: index as u128 },
                        file_name: name.clone(),
                        mime_type: mime.clone(),
                        decoded_bytes: data.trim_end_matches('=').len() * 3 / 4,
                    })
                    .collect(),
                generation: draft.generation,
                durability: draft.durability,
                persistence_error: draft.error.clone(),
            });
        }
        snapshot
    }

    fn drain_all(&mut self, run_id: RunId) -> Vec<RuntimeUiEvent> {
        let mut events = Vec::new();
        loop {
            let command = RuntimeManagerCommand::DrainUi { run_id, max_events: 64 };
            let CommandOutcome::Drained(drained) = self.manager.handle_command(command, self.now)
            else {
                panic!("drain refused");
            };
            self.settle();
            for payload in drained.events {
                let mut bytes = [0u8; 8];
                bytes.copy_from_slice(&payload);
                events.push(self.events[u64::from_le_bytes(bytes) as usize].clone());
            }
            if !drained.has_more {
                return events;
            }
        }
    }

    fn shutdown(&mut self) -> RuntimeShutdownReport {
        let ticket = self.ticket();
        let sessions: Vec<String> = self
            .drafts
            .iter()
            .filter(|(_, draft)| draft.durability != DraftDurability::Saved)
            .map(|(session, _)| session.clone())
            .collect();
        let sessions = if self.persistence { sessions } else { Vec::new() };
        self.manager.handle_control(
            RuntimeManagerControlCommand::Shutdown { ticket, sessions },
            self.now,
            self.now,
        );
        self.settle();
        loop {
            match self.manager.check_shutdown(false, self.now) {
                ShutdownProgress::NotYet => self.advance(1_000),
                ShutdownProgress::DraftsLate | ShutdownProgress::Done => break,
            }
        }
        let failed =
            self.drafts.values().filter(|draft| draft.durability == DraftDurability::Failed).count();
        self.manager.finish_shutdown(failed);
        self.settle();
        match self.answers.remove(&ticket) {
            Some(Answer::Reply(ManagerReply::ShutDown(report))) => report,
            other => panic!("no report: {other:?}"),
        }
    }
}

fn diagnostics() -> PiProcessDiagnostics {
    PiProcessDiagnostics { stderr_tail: String::new(), stderr_dropped_bytes: 0 }
}

fn switch_to(path: &str) -> RpcCommand {
    RpcCommand::SwitchSession { session_path: path.to_owned() }
}

#[test]
fn startup_rpc_handshake_must_succeed_before_ready_and_is_deadline_bounded() {
    let limits = RuntimeLimits {
        startup_rpc_deadline_ms: 40,
        stop_termination_deadline_ms: 500,
        ..RuntimeLimits::default()
    };
    let mut world = World::new(limits);
    let mut pi = FakePi::new();
    pi.silent = true;
    let run_id = world.start_with(world.spec(), pi).expect("spawn silent child");
    let starting = world.hydrate();
    assert_eq!(starting.runs[0].run.process_state(), ProcessState::Starting);
    assert_eq!(starting.runs[0].run.composer_availability(), ComposerAvailability::Unavailable);
    let _ = world.drain_all(run_id);
    assert_eq!(world.manager.next_deadline(), Some(world.now + 40));
    world.advance(39);
    assert_eq!(world.hydrate().runs[0].run.process_state(), ProcessState::Starting);
    world.advance(1);
    let events = world.drain_all(run_id);
    assert!(events.iter().any(|event| matches!(
        event,
        RuntimeUiEvent::ProcessTerminal { process: ProcessState::Failed, .. }
    )));
    assert_eq!(world.hydrate().runs[0].run.process_state(), ProcessState::Failed);
}

#[test]
fn manager_hydration_survives_renderer_style_reload_without_restarting_child() {
    let mut world = World::new(RuntimeLimits::default());
    let run_id = world.start();
    assert_eq!(world.signals.first(), Some(&run_id));
    world.synchronize(run_id, "startup");
    let first = world.hydrate();
    let second = world.hydrate();
    assert_eq!(first, second);
    assert_eq!(first.runs.len(), 1);
    let run = &first.runs[0];
    assert_eq!(run.run.id(), run_id);
    assert_eq!(run.run.process_state(), ProcessState::Ready);
    assert_eq!(run.run.activity_state(), ActivityState::Idle);
    assert_eq!(run.run.session_state().session_id.as_deref(), Some("fake-session"));
    let rpc = run.rpc.as_ref().expect("live RPC hydration");
    assert_eq!(rpc.capabilities.models().expect("models")[0].id, "fake-model");
    assert_eq!(rpc.capabilities.commands().expect("commands")[0].name, "fake-command");
    let prompt = world.prompt(run_id, "prompt-after-reload", "after reload");
    assert_eq!(prompt.response.outcome(), RpcResponseOutcome::Accepted);
    world.synchronize(run_id, "post-reload");
    assert_eq!(world.hydrate().runs[0].run.process_state(), ProcessState::Ready);
    assert_eq!(world.shutdown().terminal_runs, 1);
}

#[test]
fn composer_acceptance_clears_only_the_submitted_draft_generation() {
    let mut world = World::new(RuntimeLimits::default());
    let run_id = world.start();
    world.synchronize(run_id, "composer-generation-startup");
    world.edit(run_id, "delayed-accept").expect("initial draft");
    let _ = world.drain_all(run_id);
    world.signals.clear();
    let ticket = world.submit_later(run_id, ComposerAction::Send);
    assert_eq!(world.signals, [run_id]);
    assert!(world.hydrate().runs[0].composer_submission_pending);
    world.edit(run_id, "typed while sending").expect("newer draft");
    world.release(run_id);
    let result = world.submitted(ticket).expect("submission result");
    assert!(result.accepted);
    assert!(!result.draft_cleared);
    let after = world.hydrate();
    assert!(!after.runs[0].composer_submission_pending);
    assert_eq!(after.runs[0].draft.as_ref().expect("draft").text, "typed while sending");
    world.shutdown();
}

fn worktree_spec(world: &World, branch: &str) -> RunStartSpec {
    let mut spec = world.spec();
    spec.execution_isolation = ExecutionIsolation::GitWorktree;
    spec.worktree = Some(GitWorktreeIdentity {
        repository_root: "/fixture/root".to_owned(),
        worktree_root: "/fixture/root".to_owned(),
        branch: branch.to_owned(),
        base_commit: "abc123".to_owned(),
    });
    spec
}

#[test]
fn second_live_run_cannot_reuse_same_worktree_execution_root() {
    let mut world = World::new(RuntimeLimits::default());
    let spec = worktree_spec(&world, "agent/exclusive");
    let first = world.start_with(spec.clone(), FakePi::new()).expect("first worktree run");
    world.synchronize(first, "worktree-exclusive-startup");
    let second = world.start_with(spec, FakePi::new());
    assert!(second
        .expect_err("the worktree is taken")
        .message()
        .contains("already owned by a live run"));
    assert_eq!(world.hydrate().runs.len(), 1);
    world.shutdown();
}

#[test]
fn text_only_model_rejects_image_submission_without_clearing_draft() {
    let mut world = World::new(RuntimeLimits::default());
    let run_id = world.start();
    world.synchronize(run_id, "text-only-image-startup");
    world
        .operate(
            run_id,
            ManagedOperation::SetModel {
                provider: "fake-alt".to_owned(),
                model_id: "alt-model".to_owned(),
            },
        )
        .expect("set text-only model");
    world
        .attach(run_id, "diagram.png", "image/png", "YWJj")
        .expect("attachment remains valid draft data");
    let error = world
        .submit(run_id, ComposerAction::Send)
        .expect_err("text-only model must not silently omit draft image");
    assert!(error.contains("text-only input"));
    let after = world.hydrate();
    assert_eq!(after.runs[0].draft.as_ref().expect("draft").images.len(), 1);
    assert_eq!(
        after.runs[0].run.session_state().model.as_ref().and_then(|model| model.supports_images),
        Some(false)
    );
    world.shutdown();
}

#[test]
fn image_only_composer_submission_is_accepted_and_clears_attachment() {
    let mut world = World::new(RuntimeLimits::default());
    let run_id = world.start();
    world.synchronize(run_id, "image-only-startup");
    world.attach(run_id, "screen.png", "image/png", "aGVsbG8=").expect("attach image");
    assert_eq!(world.draft(run_id).images.len(), 1);
    assert!(world.draft(run_id).text.is_empty());
    let submitted = world.submit(run_id, ComposerAction::Send).expect("submit image-only draft");
    assert!(submitted.accepted);
    assert!(submitted.draft_cleared);
    assert!(world.hydrate().runs[0].draft.as_ref().expect("draft").images.is_empty());
    world.shutdown();
}

#[test]
fn attachment_added_while_submission_is_pending_survives_acceptance() {
    let mut world = World::new(RuntimeLimits::default());
    let run_id = world.start();
    world.synchronize(run_id, "image-generation-startup");
    world.edit(run_id, "delayed-accept").expect("draft");
    let ticket = world.submit_later(run_id, ComposerAction::Send);
    world.attach(run_id, "new.png", "image/png", "YWJj").expect("newer attachment");
    world.release(run_id);
    let result = world.submitted(ticket).expect("submission result");
    assert!(result.accepted);
    assert!(!result.draft_cleared);
    let after = world.hydrate();
    let draft = after.runs[0].draft.as_ref().expect("draft");
    assert_eq!(draft.text, "delayed-accept");
    assert_eq!(draft.images.len(), 1);
    world.shutdown();
}

#[test]
fn fork_session_returns_only_after_new_session_identity_is_observable() {
    let mut world = World::new(RuntimeLimits::default());
    let run_id = world.start();
    world.synchronize(run_id, "fork-control-startup");
    let result = world
        .operate(run_id, ManagedOperation::ForkSession { entry_id: "fork-entry".to_owned() })
        .expect("fork session")
        .expect("a replacement");
    assert!(!result.cancelled);
    assert_eq!(
        world.hydrate().runs[0].run.session_state().session_id.as_deref(),
        Some("forked-session")
    );
    world.shutdown();
}

#[test]
fn run_controls_reconcile_model_thinking_and_session_name_from_pi() {
    let mut world = World::new(RuntimeLimits::default());
    let run_id = world.start();
    world.synchronize(run_id, "run-controls-startup");
    for operation in [
        ManagedOperation::SetModel {
            provider: "fake-alt".to_owned(),
            model_id: "alt-model".to_owned(),
        },
        ManagedOperation::SetThinkingLevel { level: ThinkingLevel::High },
        ManagedOperation::SetAutoCompaction { enabled: false },
        ManagedOperation::SetSessionName { name: "Control Surface".to_owned() },
    ] {
        assert_eq!(world.operate(run_id, operation).expect("operation"), None);
    }
    let snapshot = world.hydrate();
    let run = &snapshot.runs[0];
    let model = run.run.session_state().model.as_ref().expect("authoritative model");
    assert_eq!(model.provider, "fake-alt");
    assert_eq!(model.id, "alt-model");
    assert_eq!(model.supports_images, Some(false));
    assert_eq!(run.run.session_state().thinking_level, Some(ThinkingLevel::High));
    assert_eq!(run.run.session_state().session_name.as_deref(), Some("Control Surface"));
    assert_eq!(run.run.session_state().auto_compaction_enabled, Some(false));
    assert_eq!(
        run.rpc.as_ref().expect("rpc").capabilities.thinking_levels().expect("thinking levels"),
        [ThinkingLevel::Off, ThinkingLevel::Medium, ThinkingLevel::High]
    );
    world.shutdown();
}

#[test]
fn a_compaction_ends_with_an_idle_run() {
    let mut world = World::new(RuntimeLimits::default());
    let run_id = world.start();
    world.synchronize(run_id, "manual-compaction-startup");
    world.operate(run_id, ManagedOperation::CompactSession).expect("native Pi compaction");
    let snapshot = world.hydrate();
    assert!(!snapshot.runs[0].run.is_compacting());
    assert_eq!(snapshot.runs[0].run.composer_availability(), ComposerAvailability::Ready);
    world.shutdown();
}

#[test]
fn worktree_launch_retains_branch_base_and_root_identity_in_hydration() {
    let mut world = World::new(RuntimeLimits::default());
    let spec = worktree_spec(&world, "agent/feature");
    let identity = spec.worktree.clone();
    let run_id = world.start_with(spec, FakePi::new()).expect("start worktree run");
    world.synchronize(run_id, "worktree-identity-startup");
    let snapshot = world.hydrate();
    let run = snapshot.runs.iter().find(|run| run.run.id() == run_id).expect("run");
    assert_eq!(run.run.worktree_identity(), identity.as_ref());
    assert_eq!(run.run.execution_root(), "/fixture/root");
    world.shutdown();
}

#[test]
fn clone_session_returns_only_after_new_session_identity_is_observable() {
    let mut world = World::new(RuntimeLimits::default());
    let run_id = world.start();
    world.synchronize(run_id, "clone-control-startup");
    let result = world
        .operate(run_id, ManagedOperation::CloneSession)
        .expect("clone session")
        .expect("a replacement");
    assert!(!result.cancelled);
    assert_eq!(
        world.hydrate().runs[0].run.session_state().session_id.as_deref(),
        Some("cloned-session")
    );
    world.shutdown();
}

#[test]
fn working_extension_commands_use_prompt_instead_of_queue_rpcs() {
    let mut world = World::new(RuntimeLimits::default());
    let run_id = world.start();
    world.synchronize(run_id, "extension-command-startup");
    world.prompt(run_id, "extension-command-hold", "hold");
    world.synchronize(run_id, "extension-command-working");
    world.edit(run_id, " /fake-command inspect").expect("extension command draft");
    let queued = world
        .submit(run_id, ComposerAction::Steer)
        .expect_err("extension command must not use steer");
    assert!(queued.contains("cannot be queued"));
    assert_eq!(
        world.hydrate().runs[0].draft.as_ref().expect("draft").text,
        " /fake-command inspect"
    );
    let executed = world
        .submit(run_id, ComposerAction::RunCommand)
        .expect("extension command prompt accepted");
    assert!(executed.accepted);
    assert!(executed.draft_cleared);
    assert_eq!(executed.action, ComposerAction::RunCommand);
    world.shutdown();
}

#[test]
fn composer_rejection_preserves_submitted_text_and_reports_failure() {
    let mut world = World::new(RuntimeLimits::default());
    let run_id = world.start();
    world.synchronize(run_id, "composer-reject-startup");
    world.edit(run_id, "reject").expect("draft");
    let result = world
        .submit(run_id, ComposerAction::Send)
        .expect("protocol rejection is a completed composer result");
    assert!(!result.accepted);
    assert!(!result.draft_cleared);
    assert_eq!(result.error.as_deref(), Some("fixture prompt rejection"));
    assert_eq!(world.hydrate().runs[0].draft.as_ref().expect("draft").text, "reject");
    world.shutdown();
}

#[test]
fn persistent_manager_restores_session_draft_across_manager_restart() {
    let limits = RuntimeLimits {
        draft_save_debounce_ms: 20,
        draft_flush_deadline_ms: 500,
        ..RuntimeLimits::default()
    };
    let mut first = World::persistent(limits, BTreeMap::new());
    let run_id = first.start();
    first.synchronize(run_id, "draft-restart-first");
    assert_eq!(first.durability(run_id), Some(DraftDurability::Saved));
    first.edit(run_id, "survive restart").expect("edit persistent draft");
    assert_eq!(first.durability(run_id), Some(DraftDurability::Dirty));
    first.advance(20);
    let snapshot = first.hydrate();
    let saved = snapshot.runs[0].draft.as_ref().expect("draft");
    assert_eq!(saved.durability, DraftDurability::Saved);
    assert_eq!(saved.text, "survive restart");
    assert_eq!(first.shutdown().draft_flush_failed_sessions, 0);

    let mut second = World::persistent(limits, first.disk);
    let run_id = second.start();
    second.synchronize(run_id, "draft-restart-second");
    let snapshot = second.hydrate();
    assert!(!snapshot.runs[0].draft_restore_pending);
    let restored = snapshot.runs[0].draft.as_ref().expect("draft");
    assert_eq!(restored.text, "survive restart");
    assert!(restored.persistence_error.is_none());
    second.shutdown();
}

#[test]
fn persistent_manager_restores_image_attachment_across_restart() {
    let limits = RuntimeLimits {
        draft_save_debounce_ms: 20,
        draft_flush_deadline_ms: 500,
        ..RuntimeLimits::default()
    };
    let mut first = World::persistent(limits, BTreeMap::new());
    let run_id = first.start();
    first.synchronize(run_id, "image-restart-first");
    first.attach(run_id, "persist.png", "image/png", "aGVsbG8=").expect("attach image");
    first.advance(20);
    assert_eq!(first.durability(run_id), Some(DraftDurability::Saved));
    assert_eq!(first.draft(run_id).images.len(), 1);
    first.shutdown();

    let mut second = World::persistent(limits, first.disk);
    let run_id = second.start();
    second.synchronize(run_id, "image-restart-second");
    let snapshot = second.hydrate();
    let restored = snapshot.runs[0].draft.as_ref().expect("draft");
    assert_eq!(restored.images.len(), 1);
    assert_eq!(restored.images[0].file_name, "persist.png");
    assert_eq!(restored.images[0].decoded_bytes, 5);
    second.shutdown();
}

#[test]
fn shutdown_flushes_dirty_draft_without_waiting_for_normal_debounce() {
    let limits = RuntimeLimits {
        draft_save_debounce_ms: 60_000,
        draft_flush_deadline_ms: 1_000,
        ..RuntimeLimits::default()
    };
    let mut world = World::persistent(limits, BTreeMap::new());
    let run_id = world.start();
    world.synchronize(run_id, "draft-shutdown-startup");
    world.edit(run_id, "flush on exit").expect("dirty draft");
    let report = world.shutdown();
    assert_eq!(report.draft_flush_failed_sessions, 0);
    assert_eq!(
        world.disk.get("fake-session").map(|(text, _)| text.as_str()),
        Some("flush on exit")
    );
}

#[test]
fn corrupt_persisted_draft_is_visible_failure_without_failing_pi_runtime() {
    let limits = RuntimeLimits { draft_save_debounce_ms: 20, ..RuntimeLimits::default() };
    let mut world = World::persistent(limits, BTreeMap::new());
    world.corrupt.push("fake-session".to_owned());
    let run_id = world.start();
    world.synchronize(run_id, "draft-corrupt-startup");
    let snapshot = world.hydrate();
    let failed = snapshot.runs[0].draft.as_ref().expect("draft");
    assert_eq!(failed.durability, DraftDurability::Failed);
    assert!(failed
        .persistence_error
        .as_deref()
        .is_some_and(|detail| detail.contains("quarantined")));
    assert_eq!(snapshot.runs[0].run.process_state(), ProcessState::Ready);
    world.shutdown();
}

#[test]
fn session_replacement_flushes_current_draft_before_pi_switches_sessions() {
    let limits = RuntimeLimits {
        draft_save_debounce_ms: 60_000,
        draft_flush_deadline_ms: 1_000,
        ..RuntimeLimits::default()
    };
    let mut world = World::persistent(limits, BTreeMap::new());
    let run_id = world.start();
    world.synchronize(run_id, "durable-switch-startup");
    world.edit(run_id, "old session draft").expect("dirty old-session draft");
    let replacement = world
        .request(run_id, "durable-switch", switch_to("switched-session.jsonl"))
        .expect("replacement waits for persistence then succeeds");
    assert_eq!(replacement.response.outcome(), RpcResponseOutcome::Accepted);
    assert_eq!(
        world.disk.get("fake-session").map(|(text, _)| text.as_str()),
        Some("old session draft")
    );
    world.synchronize(run_id, "durable-switch-reconciled");
    let after = world.hydrate();
    assert_eq!(
        after.runs[0].run.session_state().session_id.as_deref(),
        Some("switched-session")
    );
    assert_eq!(after.runs[0].draft.as_ref().expect("new draft").text, "");
    world.shutdown();
}

#[test]
fn failed_draft_flush_blocks_session_replacement_and_preserves_old_binding() {
    let limits = RuntimeLimits {
        draft_save_debounce_ms: 60_000,
        draft_flush_deadline_ms: 1_000,
        ..RuntimeLimits::default()
    };
    let mut world = World::persistent(limits, BTreeMap::new());
    let run_id = world.start();
    world.synchronize(run_id, "failed-switch-startup");
    world.edit(run_id, "must not be lost").expect("dirty draft");
    world.disk_fails = true;
    let error = world
        .request(run_id, "blocked-switch", switch_to("switched-session.jsonl"))
        .expect_err("replacement must fail when old draft cannot be persisted");
    assert!(error.contains("draft"));
    world.synchronize(run_id, "blocked-switch-still-old");
    let after = world.hydrate();
    assert_eq!(after.runs[0].run.session_state().session_id.as_deref(), Some("fake-session"));
    let draft = after.runs[0].draft.as_ref().expect("preserved draft");
    assert_eq!(draft.text, "must not be lost");
    assert_eq!(draft.durability, DraftDurability::Failed);
    assert!(!world.pis[&run_id.value].received.contains(&switch_to("switched-session.jsonl")));
    assert_eq!(world.shutdown().draft_flush_failed_sessions, 1);
}

#[test]
fn composer_actions_follow_runtime_activity_instead_of_renderer_intent() {
    let mut world = World::new(RuntimeLimits::default());
    let run_id = world.start();
    world.synchronize(run_id, "composer-actions-startup");
    world.edit(run_id, "not yet").expect("idle draft");
    assert!(world
        .submit(run_id, ComposerAction::Steer)
        .expect_err("idle steer must be rejected")
        .contains("not valid"));
    world.prompt(run_id, "composer-hold", "hold");
    world.synchronize(run_id, "composer-working");
    assert_eq!(
        world.hydrate().runs[0].run.composer_availability(),
        ComposerAvailability::AgentWorking
    );
    world.edit(run_id, "change direction").expect("steer draft");
    let steered = world.submit(run_id, ComposerAction::Steer).expect("steer accepted");
    assert!(steered.accepted);
    assert!(steered.draft_cleared);
    world.shutdown();
}

#[test]
fn ordinary_hydration_preserves_transient_delivery_and_rewakes_late_subscriber() {
    let mut world = World::new(RuntimeLimits::default());
    let run_id = world.start();
    world.synchronize(run_id, "hydrate-delivery-startup");
    let _ = world.drain_all(run_id);
    world.prompt(run_id, "notify-prompt", "notify");
    world.synchronize(run_id, "notify-delivered-to-manager");
    world.signals.clear();
    let snapshot = world.hydrate();
    assert_eq!(snapshot.runs.len(), 1);
    assert_eq!(world.signals, [run_id]);
    let events = world.drain_all(run_id);
    assert!(events.iter().any(|event| matches!(
        event,
        RuntimeUiEvent::ExtensionNotification { message, .. } if message == "fixture notification"
    )));
    world.shutdown();
}

#[test]
fn extension_editor_text_is_session_scoped_across_runtime_session_switches() {
    let mut world = World::new(RuntimeLimits::default());
    let run_id = world.start();
    world.synchronize(run_id, "draft-startup");
    world.prompt(run_id, "editor-prompt", "editor");
    world.synchronize(run_id, "editor-applied");
    assert_eq!(
        world.hydrate().runs[0].draft.as_ref().expect("session draft").text,
        "extension draft"
    );
    world
        .request(run_id, "switch-draft-session", switch_to("switched-session.jsonl"))
        .expect("switch session");
    world
        .request(run_id, "after-draft-switch", RpcCommand::GetCommands)
        .expect("order after switch");
    assert_eq!(world.hydrate().runs[0].draft.as_ref().expect("new session draft").text, "");
    world
        .request(run_id, "switch-original-session", switch_to("original-session.jsonl"))
        .expect("switch original session");
    world
        .request(run_id, "after-original-switch", RpcCommand::GetCommands)
        .expect("order after original switch");
    assert_eq!(
        world.hydrate().runs[0].draft.as_ref().expect("restored draft").text,
        "extension draft"
    );
    world.shutdown();
}

#[test]
fn accepted_session_replacement_automatically_reconciles_new_session_identity() {
    let mut world = World::new(RuntimeLimits::default());
    let run_id = world.start();
    world.synchronize(run_id, "replacement-startup");
    assert_eq!(
        world.hydrate().runs[0].run.session_state().session_id.as_deref(),
        Some("fake-session")
    );
    let replacement = world
        .request(run_id, "switch-session", switch_to("switched-session.jsonl"))
        .expect("switch session response");
    assert_eq!(replacement.response.outcome(), RpcResponseOutcome::Accepted);
    world
        .request(run_id, "after-switch-capabilities", RpcCommand::GetCommands)
        .expect("post-switch command");
    assert_eq!(
        world.hydrate().runs[0].run.session_state().session_id.as_deref(),
        Some("switched-session")
    );
    world.shutdown();
}

#[test]
fn explicit_ui_recovery_is_the_operation_that_discards_stale_run_backlog() {
    let mut world = World::new(RuntimeLimits::default());
    let run_id = world.start();
    world.synchronize(run_id, "recover-startup");
    world.prompt(run_id, "recover-stream", "stream before recover");
    world.synchronize(run_id, "recover-stream-settled");
    let outcome =
        world.manager.handle_command(RuntimeManagerCommand::RecoverUi { run_id }, world.now);
    let recovered = world.fill(outcome);
    assert_eq!(recovered.runs[0].run.id(), run_id);
    let command = RuntimeManagerCommand::DrainUi { run_id, max_events: 64 };
    let CommandOutcome::Drained(drained) = world.manager.handle_command(command, world.now) else {
        panic!("drain refused");
    };
    assert!(drained.events.is_empty());
    assert!(!drained.rehydrate_required);
    assert!(!drained.has_more);
    world.settle();
    world.shutdown();
}

#[test]
fn manager_coalesces_stream_wakeup_and_drains_latest_assistant_projection() {
    let mut world = World::new(RuntimeLimits::default());
    let run_id = world.start();
    world.synchronize(run_id, "stream-startup");
    let _ = world.drain_all(run_id);
    world.signals.clear();
    let prompt = world.prompt(run_id, "stream-prompt", "stream");
    assert_eq!(prompt.response.outcome(), RpcResponseOutcome::Accepted);
    world.synchronize(run_id, "stream-finished");
    assert_eq!(world.signals, [run_id]);
    let events = world.drain_all(run_id);
    let latest = events.iter().find_map(|event| match event {
        RuntimeUiEvent::AssistantBlockUpdated { block, .. } => Some(block),
        _ => None,
    });
    assert_eq!(latest.expect("assistant block event").text, "Hello world");
    world.signals.clear();
    let second = world.prompt(run_id, "second-prompt", "second");
    assert_eq!(second.response.outcome(), RpcResponseOutcome::Accepted);
    assert_eq!(world.signals, [run_id]);
    world.shutdown();
}

#[test]
fn manager_stop_recovers_queue_then_keeps_normal_child_reusable() {
    let mut world = World::new(RuntimeLimits::default());
    let run_id = world.start();
    world.synchronize(run_id, "stop-startup");
    world.prompt(run_id, "hold-prompt", "hold");
    world.synchronize(run_id, "holding");
    assert_eq!(world.hydrate().runs[0].run.activity_state(), ActivityState::Working);
    world.edit(run_id, "already typed").expect("unsent editor draft");
    let ticket = world.stop_later(run_id);
    let stopped = world.stopped(ticket).expect("normal Stop");
    assert_eq!(stopped.recovered_steering, ["recover steering"]);
    assert_eq!(stopped.recovered_follow_up, ["recover follow up"]);
    assert!(stopped.draft_restored);
    assert!(stopped.draft_restore_error.is_none());
    assert!(!stopped.process_terminated);
    assert!(!stopped.quarantined);
    let idle = world.hydrate();
    assert_eq!(idle.runs[0].run.process_state(), ProcessState::Ready);
    assert_eq!(idle.runs[0].run.activity_state(), ActivityState::Idle);
    assert_eq!(
        idle.runs[0].draft.as_ref().expect("restored draft").text,
        "recover steering\nrecover follow up\nalready typed"
    );
    let after_stop = world.prompt(run_id, "after-stop", "after stop");
    assert_eq!(after_stop.response.outcome(), RpcResponseOutcome::Accepted);
    world.shutdown();
}

#[test]
fn stop_never_destroys_existing_draft_when_recovered_queue_would_overflow_it() {
    let limits = RuntimeLimits {
        max_draft_bytes_per_session: 64,
        max_recovered_queue_bytes_per_run: 64,
        ..RuntimeLimits::default()
    };
    let mut world = World::new(limits);
    let run_id = world.start();
    world.synchronize(run_id, "stop-overflow-startup");
    world.prompt(run_id, "stop-overflow-hold", "hold");
    world.synchronize(run_id, "stop-overflow-working");
    let original = "x".repeat(48);
    world.edit(run_id, &original).expect("bounded existing draft");
    let ticket = world.stop_later(run_id);
    let stopped = world.stopped(ticket).expect("Stop completes");
    assert!(!stopped.draft_restored);
    assert!(stopped
        .draft_restore_error
        .as_deref()
        .is_some_and(|detail| detail.contains("exceeding draft limit")));
    assert_eq!(world.hydrate().runs[0].draft.as_ref().expect("draft").text, original);
    world.shutdown();
}

#[test]
fn extension_dialog_response_uses_control_plane_and_clears_backend_ownership() {
    let mut world = World::new(RuntimeLimits::default());
    let run_id = world.start();
    world.synchronize(run_id, "dialog-startup");
    world.prompt(run_id, "dialog-prompt", "dialog");
    world.synchronize(run_id, "dialog-visible");
    let waiting = world.hydrate();
    let rpc = waiting.runs[0].rpc.as_ref().expect("RPC state");
    assert_eq!(rpc.pending_dialogs.len(), 1);
    assert_eq!(waiting.runs[0].run.activity_state(), ActivityState::WaitingForInput);
    let ticket = world.ticket();
    world.manager.observe_room(run_id, world.room);
    world.manager.handle_control(
        RuntimeManagerControlCommand::RespondExtensionUi {
            run_id,
            response: ExtensionUiResponse::Confirmation {
                id: "dialog-1".to_owned(),
                confirmed: true,
            },
            ticket,
        },
        world.now,
        world.now,
    );
    world.settle();
    assert!(matches!(
        world.answers.remove(&ticket),
        Some(Answer::Reply(ManagerReply::Done))
    ));
    world.synchronize(run_id, "dialog-resolved");
    let resolved = world.hydrate();
    assert!(resolved.runs[0].rpc.as_ref().expect("RPC state").pending_dialogs.is_empty());
    assert_eq!(resolved.runs[0].run.activity_state(), ActivityState::Idle);
    world.shutdown();
}

#[test]
fn a_dialog_that_nobody_answers_expires() {
    let mut world = World::new(RuntimeLimits::default());
    let run_id = world.start();
    world.prompt(run_id, "dialog-prompt", "dialog");
    assert_eq!(world.manager.next_deadline(), Some(world.now + 30_000));
    world.advance(30_000);
    let after = world.hydrate();
    assert!(after.runs[0].rpc.as_ref().expect("RPC state").pending_dialogs.is_empty());
    assert_eq!(world.manager.next_deadline(), None);
}

#[test]
fn shutdown_waits_for_all_owned_children_and_closes_manager() {
    let mut world = World::new(RuntimeLimits::default());
    let first = world.start();
    let mut spec = world.spec();
    spec.execution_root = "/fixture/second".to_owned();
    let second = world.start_with(spec, FakePi::new()).expect("second run");
    world.synchronize(first, "shutdown-a");
    world.synchronize(second, "shutdown-b");
    let report = world.shutdown();
    assert_eq!(report.terminal_runs, 2);
    assert_eq!(report.quarantined_runs, 0);
}

#[test]
fn a_shutdown_refuses_all_that_is_new() {
    let mut world = World::new(RuntimeLimits::default());
    let run_id = world.start();
    world.manager.handle_control(
        RuntimeManagerControlCommand::Shutdown { ticket: 900, sessions: Vec::new() },
        world.now,
        world.now,
    );
    assert!(matches!(
        world.manager.handle_command(RuntimeManagerCommand::StartRun, world.now),
        CommandOutcome::Refused(detail) if detail == "runtime manager is shutting down"
    ));
    assert!(world.may_change_draft(run_id).is_err());
    world.manager.handle_control(
        RuntimeManagerControlCommand::Shutdown { ticket: 901, sessions: Vec::new() },
        world.now,
        world.now,
    );
    let ticket = world.stop_later(run_id);
    assert!(world.stopped(ticket).is_err());
    assert!(matches!(
        world.answers.remove(&901),
        Some(Answer::Reply(ManagerReply::Refused(detail)))
            if detail == "runtime manager is already shutting down"
    ));
}

#[test]
fn a_process_that_ends_by_itself_fails_its_run_and_all_who_wait() {
    let mut world = World::new(RuntimeLimits::default());
    let run_id = world.start();
    world.edit(run_id, "delayed-accept").expect("draft");
    let ticket = world.submit_later(run_id, ComposerAction::Send);
    world.deliver(run_id, RunProcessEvent::Exited { code: Some(3), diagnostics: diagnostics() });
    assert!(world.submitted(ticket).is_err());
    let after = world.hydrate();
    assert!(after.runs[0].run.process_state().is_terminal());
    assert_eq!(after.runs[0].run.exit_code(), Some(3));
    let failure = after.runs[0].run.failure().expect("a failure");
    assert_eq!(failure.kind, RunFailureKind::UnexpectedExit);
    assert!(failure.detail.contains("Some(3)"));
    let refused = world.request(run_id, "late", RpcCommand::GetState);
    assert!(refused.is_err());
}

#[test]
fn an_end_that_cannot_be_confirmed_is_quarantine() {
    let mut world = World::new(RuntimeLimits::default());
    let run_id = world.start();
    world.deliver(
        run_id,
        RunProcessEvent::TerminationFinished {
            result: Ok(ProcessTerminationReport::Unconfirmed {
                identity: PiProcessIdentity { pid: Some(4) },
                diagnostics: diagnostics(),
            }),
        },
    );
    let after = world.hydrate();
    assert_eq!(after.runs[0].run.process_state(), ProcessState::Quarantined);
    assert_eq!(world.shutdown().terminal_runs, 0);
}

#[test]
fn a_protocol_failure_names_its_cause() {
    let mut world = World::new(RuntimeLimits::default());
    let run_id = world.start();
    world.deliver(
        run_id,
        RunProcessEvent::ProtocolFailure {
            detail: "not JSON".to_owned(),
            termination: ProcessTerminationReport::Exited {
                code: None,
                diagnostics: diagnostics(),
                kill_requested: true,
            },
        },
    );
    let after = world.hydrate();
    assert_eq!(after.runs[0].run.process_state(), ProcessState::Failed);
    let failure = after.runs[0].run.failure().expect("a failure");
    assert_eq!(failure.kind, RunFailureKind::Protocol);
    assert!(failure.detail.contains("not JSON"));
}

#[test]
fn a_full_command_queue_refuses_a_request_and_keeps_the_run() {
    let mut world = World::new(RuntimeLimits::default());
    let run_id = world.start();
    world.room = CommandRoom::Open(0);
    let refused = world.request(run_id, "no-room", RpcCommand::GetState);
    assert_eq!(refused, Err("run process actor command queue is full".to_owned()));
    world.room = CommandRoom::Open(64);
    world.synchronize(run_id, "room-again");
    assert_eq!(world.hydrate().runs[0].run.process_state(), ProcessState::Ready);
}

#[test]
fn a_closed_command_queue_says_that_its_owner_is_gone() {
    let mut world = World::new(RuntimeLimits::default());
    let run_id = world.start();
    world.room = CommandRoom::Closed;
    let refused = world.request(run_id, "closed", RpcCommand::GetState);
    assert_eq!(refused, Err("run process actor is closed".to_owned()));
    assert_eq!(world.hydrate().runs[0].run.process_state(), ProcessState::Ready);
    world.room = CommandRoom::Open(64);
    world.synchronize(run_id, "open-again");
}

#[test]
fn a_stop_that_pi_does_not_answer_ends_the_process() {
    let mut world = World::new(RuntimeLimits::default());
    let run_id = world.start();
    world.prompt(run_id, "hold-prompt", "hold");
    world.pis.get_mut(&run_id.value).expect("a Pi").silent = true;
    let ticket = world.stop_later(run_id);
    assert!(world.answers.is_empty());
    let deadline = world.manager.next_deadline().expect("a deadline");
    world.advance(deadline - world.now);
    let stopped = world.stopped(ticket).expect("hard Stop");
    assert!(stopped.process_terminated);
    assert!(!stopped.quarantined);
    assert!(world.hydrate().runs[0].run.process_state().is_terminal());
}

#[test]
fn a_replacement_whose_draft_is_not_stored_in_time_is_refused() {
    let limits = RuntimeLimits {
        draft_save_debounce_ms: 60_000,
        draft_flush_deadline_ms: 1_000,
        ..RuntimeLimits::default()
    };
    let mut world = World::persistent(limits, BTreeMap::new());
    let run_id = world.start();
    world.edit(run_id, "slow").expect("draft");
    world.persistence = false;
    let ticket = world.request_as(run_id, "slow-switch", switch_to("switched-session.jsonl"));
    assert!(world.answers.is_empty());
    assert!(world.may_change_draft(run_id).is_err());
    world.advance(1_000);
    assert!(matches!(
        world.answers.remove(&ticket),
        Some(Answer::Reply(ManagerReply::Refused(detail)))
            if detail == "draft flush deadline expired before session replacement"
    ));
    assert!(world.may_change_draft(run_id).is_ok());
}

#[test]
fn a_failed_write_of_a_request_fails_who_waits_for_it() {
    let mut world = World::new(RuntimeLimits::default());
    let run_id = world.start();
    world.pis.get_mut(&run_id.value).expect("a Pi").silent = true;
    let ticket = world.request_as(run_id, "lost", RpcCommand::GetState);
    world.deliver(
        run_id,
        RunProcessEvent::RequestWriteFailed {
            request_id: RequestId::from_wire("lost"),
            detail: "broken pipe".to_owned(),
        },
    );
    assert!(matches!(
        world.answers.remove(&ticket),
        Some(Answer::Reply(ManagerReply::Refused(detail))) if detail.contains("broken pipe")
    ));
}

#[test]
fn lost_persistence_fails_waiting_replacements() {
    let limits = RuntimeLimits { draft_save_debounce_ms: 60_000, ..RuntimeLimits::default() };
    let mut world = World::persistent(limits, BTreeMap::new());
    let run_id = world.start();
    world.edit(run_id, "slow").expect("draft");
    world.persistence = false;
    let ticket = world.request_as(run_id, "slow-switch", switch_to("switched-session.jsonl"));
    world.manager.persistence_lost("draft persistence worker closed");
    world.settle();
    assert!(matches!(
        world.answers.remove(&ticket),
        Some(Answer::Reply(ManagerReply::Refused(detail)))
            if detail == "draft persistence worker closed"
    ));
}

#[test]
fn a_draft_store_that_refuses_the_session_keeps_the_run_from_being_ready() {
    let mut world = World::new(RuntimeLimits::default());
    world.bind_fails = true;
    let run_id = world.start();
    let after = world.hydrate();
    assert_eq!(after.runs[0].run.process_state(), ProcessState::Failed);
    let failure = after.runs[0].run.failure().expect("a failure");
    assert_eq!(failure.kind, RunFailureKind::Protocol);
    let events = world.drain_all(run_id);
    assert!(!events
        .iter()
        .any(|event| matches!(event, RuntimeUiEvent::CapabilitiesChanged { .. })));
}

#[test]
fn a_draft_that_cannot_be_cleared_fails_its_run() {
    let mut world = World::new(RuntimeLimits::default());
    let run_id = world.start();
    world.edit(run_id, "hold").expect("draft");
    world.clear_fails = true;
    let ticket = world.submit_later(run_id, ComposerAction::Send);
    assert!(matches!(
        world.answers.remove(&ticket),
        Some(Answer::Reply(ManagerReply::Dropped))
    ));
    let after = world.hydrate();
    assert_eq!(after.runs[0].run.process_state(), ProcessState::Failed);
    assert_eq!(world.draft(run_id).text, "hold");
}
