//! What may be sent from the composer of a run, and what becomes of it.
use vstd::prelude::*;
use vstd::string::*;

use crate::rpc::{CommandSummary, ImageContent, RpcCommand, RpcResponseOutcome};
use crate::runtime::capabilities::{RunCapabilities, RunCapabilitiesView};
use crate::runtime::state::ComposerAvailability;
use crate::text::{
    chars_of, copy_optional, is_white, optional_view, same_text, skip_white, text_of, trim_start,
    trim_text, trimmed, white,
};

verus! {

#[derive(Clone, Copy, Debug, PartialEq, Eq, Structural)]
pub enum ComposerAction {
    Send,
    Steer,
    FollowUp,
    /// Runs a command of a Pi extension as a prompt while the agent works: Pi
    /// refuses such commands where they steer or follow up.
    RunCommand,
}

#[derive(Clone, Debug, PartialEq, Eq)]
pub struct ComposerSubmitResult {
    pub action: ComposerAction,
    pub accepted: bool,
    pub draft_cleared: bool,
    pub error: Option<String>,
}

/// `s` up to its first white space.
pub open spec fn first_word(s: Seq<char>) -> Seq<char>
    decreases s.len(),
{
    if s.len() == 0 || is_white(s[0]) {
        Seq::empty()
    } else {
        seq![s[0]] + first_word(s.drop_first())
    }
}

/// The command that a text calls with a slash, if it calls one.
pub open spec fn called_command(text: Seq<char>) -> Option<Seq<char>> {
    let rest = trim_start(text);
    if rest.len() == 0 || rest[0] != '/' || first_word(rest.skip(1)).len() == 0 {
        None
    } else {
        Some(first_word(rest.skip(1)))
    }
}

/// The command that a text calls with a slash, if it calls one.
pub fn slash_command_name(text: &str) -> (r: Option<String>)
    ensures
        optional_view(r) == called_command(text@),
{
    let chars = chars_of(text);
    assert(chars@.skip(0) =~= chars@);
    let start: usize = skip_white(&chars, 0);
    let ghost rest = chars@.skip(start as int);
    if start >= chars.len() || chars[start] != '/' {
        assert(start < chars@.len() ==> rest[0] == chars@[start as int]);
        return None;
    }
    assert(rest[0] == chars@[start as int]);
    let from: usize = start + 1;
    let mut end: usize = from;
    assert(rest.skip(1) =~= chars@.skip(from as int));
    assert(chars@.subrange(from as int, from as int) + first_word(chars@.skip(from as int))
        =~= first_word(chars@.skip(from as int)));
    while end < chars.len() && !white(chars[end])
        invariant
            from <= end <= chars@.len(),
            first_word(chars@.skip(from as int)) == chars@.subrange(from as int, end as int)
                + first_word(chars@.skip(end as int)),
        decreases chars@.len() - end,
    {
        assert(chars@.skip(end as int)[0] == chars@[end as int]);
        assert(chars@.skip(end as int).drop_first() =~= chars@.skip(end + 1));
        assert(chars@.subrange(from as int, end as int) + (seq![chars@[end as int]] + first_word(
            chars@.skip(end + 1),
        )) =~= chars@.subrange(from as int, end + 1) + first_word(chars@.skip(end + 1)));
        end += 1;
    }
    assert(end < chars@.len() ==> chars@.skip(end as int)[0] == chars@[end as int]);
    assert(first_word(chars@.skip(end as int)) =~= Seq::<char>::empty());
    assert(first_word(chars@.skip(from as int)) =~= chars@.subrange(from as int, end as int));
    if end == from {
        return None;
    }
    Some(text_of(chars.as_slice(), from, end))
}

/// Whether a command of an extension has this name.
pub open spec fn offers_extension_command(commands: Seq<CommandSummary>, name: Seq<char>) -> bool {
    exists|i: int|
        0 <= i < commands.len() && (#[trigger] commands[i]).source@ == "extension"@
            && commands[i].name@ == name
}

/// Whether a text calls a command of an extension that Pi has reported.
pub open spec fn calls_extension(text: Seq<char>, capabilities: RunCapabilitiesView) -> bool {
    called_command(text) is Some && capabilities.commands is Some && offers_extension_command(
        capabilities.commands->0,
        called_command(text)->0,
    )
}

/// Whether a text calls a command of an extension that Pi has reported.
pub fn draft_is_extension_command(text: &str, capabilities: &RunCapabilities) -> (r: bool)
    ensures
        r == calls_extension(text@, capabilities@),
{
    let name = match slash_command_name(text) {
        Some(name) => name,
        None => {
            return false;
        },
    };
    let commands = match capabilities.commands() {
        Some(commands) => commands,
        None => {
            return false;
        },
    };
    let mut i: usize = 0;
    while i < commands.len()
        invariant
            i <= commands@.len(),
            called_command(text@) == Some(name@),
            capabilities@.commands == Some(commands@),
            forall|k: int|
                0 <= k < i ==> !((#[trigger] commands@[k]).source@ == "extension"@
                    && commands@[k].name@ == name@),
        decreases commands@.len() - i,
    {
        if same_text(commands[i].source.as_str(), "extension") && same_text(
            commands[i].name.as_str(),
            name.as_str(),
        ) {
            assert(commands@[i as int].name@ == name@);
            return true;
        }
        i += 1;
    }
    false
}

/// Whether an action may be taken now.
pub open spec fn action_allowed(
    action: ComposerAction,
    availability: ComposerAvailability,
    is_extension_command: bool,
) -> bool {
    match availability {
        ComposerAvailability::Ready => action == ComposerAction::Send,
        ComposerAvailability::AgentWorking => if is_extension_command {
            action == ComposerAction::RunCommand
        } else {
            action == ComposerAction::Steer || action == ComposerAction::FollowUp
        },
        ComposerAvailability::BlockedByCompaction | ComposerAvailability::Unavailable => false,
    }
}

pub open spec fn action_name(action: ComposerAction) -> Seq<char> {
    match action {
        ComposerAction::Send => "Send"@,
        ComposerAction::Steer => "Steer"@,
        ComposerAction::FollowUp => "FollowUp"@,
        ComposerAction::RunCommand => "RunCommand"@,
    }
}

pub open spec fn availability_name(availability: ComposerAvailability) -> Seq<char> {
    match availability {
        ComposerAvailability::Ready => "Ready"@,
        ComposerAvailability::AgentWorking => "AgentWorking"@,
        ComposerAvailability::BlockedByCompaction => "BlockedByCompaction"@,
        ComposerAvailability::Unavailable => "Unavailable"@,
    }
}

fn write_action(action: ComposerAction) -> (r: &'static str)
    ensures
        r@ == action_name(action),
{
    match action {
        ComposerAction::Send => "Send",
        ComposerAction::Steer => "Steer",
        ComposerAction::FollowUp => "FollowUp",
        ComposerAction::RunCommand => "RunCommand",
    }
}

fn write_availability(availability: ComposerAvailability) -> (r: &'static str)
    ensures
        r@ == availability_name(availability),
{
    match availability {
        ComposerAvailability::Ready => "Ready",
        ComposerAvailability::AgentWorking => "AgentWorking",
        ComposerAvailability::BlockedByCompaction => "BlockedByCompaction",
        ComposerAvailability::Unavailable => "Unavailable",
    }
}

/// What a draft holds when it is sent.
#[derive(Debug, PartialEq, Eq)]
pub struct DraftSubmission {
    pub text: String,
    pub images: Vec<ImageContent>,
    pub generation: u64,
}

/// Why a draft cannot be sent, if it cannot.
pub open spec fn submission_refusal(
    action: ComposerAction,
    availability: ComposerAvailability,
    model_supports_images: Option<bool>,
    is_extension_command: bool,
    draft: DraftSubmission,
) -> Option<Seq<char>> {
    if trimmed(draft.text@).len() == 0 && draft.images@.len() == 0 {
        Some("composer draft is empty"@)
    } else if draft.images@.len() > 0 && model_supports_images == Some(false) {
        Some(
            "current Pi model is configured for text-only input; remove images or switch to an image-capable model"@,
        )
    } else if action_allowed(action, availability, is_extension_command) {
        None
    } else if availability == ComposerAvailability::AgentWorking && is_extension_command {
        Some("Pi extension commands cannot be queued through steer/follow-up; use Run command"@)
    } else if availability == ComposerAvailability::AgentWorking && action
        == ComposerAction::RunCommand {
        Some(
            "Run command is reserved for discovered Pi extension commands while the agent is working"@,
        )
    } else {
        Some(
            "composer action "@ + action_name(action) + " is not valid while availability is "@
                + availability_name(availability),
        )
    }
}

/// The command that sends a draft.
pub open spec fn submission_command(action: ComposerAction, draft: DraftSubmission) -> RpcCommand {
    match action {
        ComposerAction::Send | ComposerAction::RunCommand => RpcCommand::Prompt {
            message: draft.text,
            images: draft.images,
            streaming_behavior: None,
        },
        ComposerAction::Steer => RpcCommand::Steer { message: draft.text, images: draft.images },
        ComposerAction::FollowUp => RpcCommand::FollowUp {
            message: draft.text,
            images: draft.images,
        },
    }
}

/// The command that sends a draft, or why it cannot be sent now.
pub fn compose_command(
    action: ComposerAction,
    availability: ComposerAvailability,
    model_supports_images: Option<bool>,
    is_extension_command: bool,
    draft: DraftSubmission,
) -> (r: Result<RpcCommand, String>)
    ensures
        match submission_refusal(
            action,
            availability,
            model_supports_images,
            is_extension_command,
            draft,
        ) {
            Some(text) => r is Err && r->Err_0@ == text,
            None => r == Ok::<RpcCommand, String>(submission_command(action, draft)),
        },
{
    let words = trim_text(draft.text.as_str());
    if words.as_str().is_empty() && draft.images.len() == 0 {
        return Err("composer draft is empty".to_owned());
    }
    let text_only = match model_supports_images {
        Some(supported) => !supported,
        None => false,
    };
    if draft.images.len() > 0 && text_only {
        return Err(
            "current Pi model is configured for text-only input; remove images or switch to an image-capable model".to_owned(),
        );
    }
    let working = availability == ComposerAvailability::AgentWorking;
    let allowed = match availability {
        ComposerAvailability::Ready => action == ComposerAction::Send,
        ComposerAvailability::AgentWorking => if is_extension_command {
            action == ComposerAction::RunCommand
        } else {
            action == ComposerAction::Steer || action == ComposerAction::FollowUp
        },
        ComposerAvailability::BlockedByCompaction | ComposerAvailability::Unavailable => false,
    };
    if !allowed {
        if working && is_extension_command {
            return Err(
                "Pi extension commands cannot be queued through steer/follow-up; use Run command".to_owned(),
            );
        }
        if working && action == ComposerAction::RunCommand {
            return Err(
                "Run command is reserved for discovered Pi extension commands while the agent is working".to_owned(),
            );
        }
        let mut detail = "composer action ".to_owned();
        detail.append(write_action(action));
        detail.append(" is not valid while availability is ");
        detail.append(write_availability(availability));
        return Err(detail);
    }
    let DraftSubmission { text, images, generation: _ } = draft;
    match action {
        ComposerAction::Send | ComposerAction::RunCommand => Ok(
            RpcCommand::Prompt { message: text, images, streaming_behavior: None },
        ),
        ComposerAction::Steer => Ok(RpcCommand::Steer { message: text, images }),
        ComposerAction::FollowUp => Ok(RpcCommand::FollowUp { message: text, images }),
    }
}

/// What the sender of a draft is told once Pi has answered. `draft_cleared` says
/// whether the draft was still the one that was sent, and was cleared.
pub fn submit_result(
    action: ComposerAction,
    outcome: RpcResponseOutcome,
    error: &Option<String>,
    draft_cleared: bool,
) -> (r: ComposerSubmitResult)
    ensures
        r.action == action,
        r.accepted == (outcome == RpcResponseOutcome::Accepted),
        r.draft_cleared == (r.accepted && draft_cleared),
        optional_view(r.error) == (if r.accepted {
            None
        } else {
            optional_view(*error)
        }),
{
    let accepted = outcome == RpcResponseOutcome::Accepted;
    ComposerSubmitResult {
        action,
        accepted,
        draft_cleared: accepted && draft_cleared,
        error: if accepted {
            None
        } else {
            copy_optional(error)
        },
    }
}

/// While the agent works, a command of an extension is never queued to steer or to
/// follow up, and nothing else is run as a command.
pub proof fn extension_commands_are_never_queued(
    action: ComposerAction,
    is_extension_command: bool,
)
    ensures
        action_allowed(action, ComposerAvailability::AgentWorking, is_extension_command)
            && is_extension_command ==> action == ComposerAction::RunCommand,
        action_allowed(action, ComposerAvailability::AgentWorking, is_extension_command)
            && !is_extension_command ==> action == ComposerAction::Steer || action
            == ComposerAction::FollowUp,
{
}

} // verus!
