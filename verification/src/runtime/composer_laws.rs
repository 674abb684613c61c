//! What a draft is sent as, and when.
use vstd::prelude::*;
use vstd::string::*;

use crate::runtime::capabilities::RunCapabilitiesView;
use crate::runtime::composer::{
    called_command, calls_extension, first_word, submission_command, submission_refusal,
    ComposerAction, DraftSubmission,
};
use crate::runtime::state::ComposerAvailability;
use crate::text::{is_white, trim_start, trimmed};
use crate::text_laws::trimming_takes_only_the_white_space_around;

verus! {

/// Each action sends the draft as a command of its own kind, with its text and its images:
/// steering as steering, a follow-up as a follow-up, and everything else as a prompt.
pub proof fn drafts_are_sent_as_what_was_asked_for(action: ComposerAction, draft: DraftSubmission)
    ensures
        ({
            let command = submission_command(action, draft);
            &&& command is Steer <==> action == ComposerAction::Steer
            &&& command is FollowUp <==> action == ComposerAction::FollowUp
            &&& command is Prompt <==> action == ComposerAction::Send || action
                == ComposerAction::RunCommand
            &&& command is Steer ==> command->Steer_message == draft.text && command->Steer_images
                == draft.images
            &&& command is FollowUp ==> command->FollowUp_message == draft.text
                && command->FollowUp_images == draft.images
            &&& command is Prompt ==> command->Prompt_message == draft.text
                && command->Prompt_images == draft.images && command->streaming_behavior is None
        }),
{
}

/// Steering and following up with one draft are never the same command.
pub proof fn steering_is_no_follow_up(draft: DraftSubmission, other: DraftSubmission)
    ensures
        submission_command(ComposerAction::Steer, draft) != submission_command(
            ComposerAction::FollowUp,
            other,
        ),
        submission_command(ComposerAction::Send, draft) != submission_command(
            ComposerAction::Steer,
            other,
        ),
        submission_command(ComposerAction::Send, draft) != submission_command(
            ComposerAction::FollowUp,
            other,
        ),
{
}

/// A draft is sent if and only if it holds something, the model takes the images that it
/// holds, and the action fits the run: sending while it is idle, steering and following up
/// while the agent works, and running a command only for a command of an extension while the
/// agent works.
pub proof fn a_draft_is_sent_when_the_action_fits(
    action: ComposerAction,
    availability: ComposerAvailability,
    model_supports_images: Option<bool>,
    is_extension_command: bool,
    draft: DraftSubmission,
)
    ensures
        ({
            let says_something = exists|i: int|
                0 <= i < draft.text@.len() && !is_white(#[trigger] draft.text@[i]);
            let fits = match action {
                ComposerAction::Send => availability == ComposerAvailability::Ready,
                ComposerAction::Steer => availability == ComposerAvailability::AgentWorking
                    && !is_extension_command,
                ComposerAction::FollowUp => availability == ComposerAvailability::AgentWorking
                    && !is_extension_command,
                ComposerAction::RunCommand => availability == ComposerAvailability::AgentWorking
                    && is_extension_command,
            };
            submission_refusal(
                action,
                availability,
                model_supports_images,
                is_extension_command,
                draft,
            ) is None <==> (says_something || draft.images@.len() > 0) && !(draft.images@.len() > 0
                && model_supports_images == Some(false)) && fits
        }),
{
    trimming_takes_only_the_white_space_around(draft.text@);
}

/// Why a draft is not sent: that it is empty goes before the images, and the images before
/// the action.
pub proof fn refusals_of_drafts_say_why(
    action: ComposerAction,
    availability: ComposerAvailability,
    model_supports_images: Option<bool>,
    is_extension_command: bool,
    draft: DraftSubmission,
)
    ensures
        ({
            let refused = submission_refusal(
                action,
                availability,
                model_supports_images,
                is_extension_command,
                draft,
            );
            let empty = trimmed(draft.text@).len() == 0 && draft.images@.len() == 0;
            let unfit = draft.images@.len() > 0 && model_supports_images == Some(false);
            let working = availability == ComposerAvailability::AgentWorking;
            &&& empty ==> refused == Some("composer draft is empty"@)
            &&& unfit ==> refused == Some(
                "current Pi model is configured for text-only input; remove images or switch to an image-capable model"@,
            )
            &&& !empty && !unfit && working && is_extension_command && action
                != ComposerAction::RunCommand ==> refused == Some(
                "Pi extension commands cannot be queued through steer/follow-up; use Run command"@,
            )
            &&& !empty && !unfit && working && !is_extension_command && action
                == ComposerAction::RunCommand ==> refused == Some(
                "Run command is reserved for discovered Pi extension commands while the agent is working"@,
            )
        }),
{
}

/// Whether a text calls the command `name`: behind white space stand a slash and the name,
/// and the name ends with the text or before white space.
pub open spec fn calls(text: Seq<char>, name: Seq<char>) -> bool {
    &&& name.len() > 0
    &&& forall|k: int| 0 <= k < name.len() ==> !is_white(#[trigger] name[k])
    &&& exists|at: int|
        {
            &&& 0 <= at && at + 1 + name.len() <= text.len()
            &&& forall|k: int| 0 <= k < at ==> is_white(#[trigger] text[k])
            &&& text[at] == '/'
            &&& #[trigger] text.subrange(at + 1, at + 1 + name.len()) == name
            &&& at + 1 + name.len() < text.len() ==> is_white(text[at + 1 + name.len()])
        }
}

proof fn lemma_first_word(s: Seq<char>)
    ensures
        first_word(s).len() <= s.len(),
        first_word(s) == s.subrange(0, first_word(s).len() as int),
        forall|k: int| 0 <= k < first_word(s).len() ==> !is_white(#[trigger] s[k]),
        first_word(s).len() < s.len() ==> is_white(s[first_word(s).len() as int]),
    decreases s.len(),
{
    if s.len() == 0 || is_white(s[0]) {
        assert(s.subrange(0, 0) =~= Seq::<char>::empty());
    } else {
        let rest = s.drop_first();
        lemma_first_word(rest);
        let n = first_word(rest).len() as int;
        assert(first_word(s) =~= s.subrange(0, n + 1));
        assert forall|k: int| 0 <= k < n + 1 implies !is_white(#[trigger] s[k]) by {
            if k > 0 {
                assert(rest[k - 1] == s[k]);
            }
        }
        if n < rest.len() {
            assert(rest[n] == s[n + 1]);
        }
    }
}

proof fn lemma_leading(s: Seq<char>) -> (from: int)
    ensures
        0 <= from <= s.len(),
        trim_start(s) == s.subrange(from, s.len() as int),
        forall|k: int| 0 <= k < from ==> is_white(#[trigger] s[k]),
        from < s.len() ==> !is_white(s[from]),
    decreases s.len(),
{
    if s.len() > 0 && is_white(s[0]) {
        let rest = s.drop_first();
        let from = lemma_leading(rest);
        assert(rest.subrange(from, rest.len() as int) =~= s.subrange(from + 1, s.len() as int));
        assert forall|k: int| 0 <= k < from + 1 implies is_white(#[trigger] s[k]) by {
            if k > 0 {
                assert(rest[k - 1] == s[k]);
            }
        }
        from + 1
    } else {
        assert(s.subrange(0, s.len() as int) =~= s);
        0
    }
}

/// The command that is found in a text is the one that the text calls, and one is found if
/// the text calls any.
pub proof fn the_called_command_is_found(text: Seq<char>, name: Seq<char>)
    ensures
        called_command(text) == Some(name) <==> calls(text, name),
{
    let from = lemma_leading(text);
    let rest = text.subrange(from, text.len() as int);
    if rest.len() > 0 && rest[0] == '/' {
        let tail = rest.skip(1);
        lemma_first_word(tail);
        let word = first_word(tail);
        let n = word.len() as int;
        assert(tail =~= text.subrange(from + 1, text.len() as int));
        assert(text.subrange(from + 1, from + 1 + n) =~= word);
        assert(n < tail.len() ==> tail[n] == text[from + 1 + n]);
        if called_command(text) == Some(name) {
            assert forall|k: int| 0 <= k < name.len() implies !is_white(#[trigger] name[k]) by {
                assert(tail[k] == name[k]);
            }
            assert(text.subrange(from + 1, from + 1 + name.len()) == name);
        }
    }
    if calls(text, name) {
        let at = choose|at: int|
            {
                &&& 0 <= at && at + 1 + name.len() <= text.len()
                &&& forall|k: int| 0 <= k < at ==> is_white(#[trigger] text[k])
                &&& text[at] == '/'
                &&& #[trigger] text.subrange(at + 1, at + 1 + name.len()) == name
                &&& at + 1 + name.len() < text.len() ==> is_white(text[at + 1 + name.len()])
            };
        assert(at == from) by {
            if at < from {
                assert(is_white(text[at]));
            } else if from < at {
                assert(is_white(text[from]));
            }
        }
        let tail = rest.skip(1);
        lemma_first_word(tail);
        let n = first_word(tail).len() as int;
        assert(tail =~= text.subrange(from + 1, text.len() as int));
        assert(n == name.len()) by {
            if n < name.len() {
                assert(tail[n] == name[n]);
            } else if n > name.len() {
                assert(tail[name.len() as int] == text[from + 1 + name.len()]);
            }
        }
        assert(first_word(tail) =~= name);
    }
}

/// A text calls a command of an extension if and only if Pi has reported a command of that
/// name which an extension brought.
pub proof fn only_reported_commands_are_of_extensions(
    text: Seq<char>,
    capabilities: RunCapabilitiesView,
)
    ensures
        calls_extension(text, capabilities) <==> capabilities.commands is Some && exists|i: int|
            0 <= i < capabilities.commands->0.len() && calls(
                text,
                (#[trigger] capabilities.commands->0[i]).name@,
            ) && capabilities.commands->0[i].source@ == "extension"@,
{
    if capabilities.commands is Some {
        let commands = capabilities.commands->0;
        assert forall|i: int| 0 <= i < commands.len() implies (calls(
            text,
            (#[trigger] commands[i]).name@,
        ) <==> called_command(text) == Some(commands[i].name@)) by {
            the_called_command_is_found(text, commands[i].name@);
        }
    }
}

} // verus!
