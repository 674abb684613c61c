//! What a Stop gives back: queued messages go into the draft, where they fit.
use vstd::prelude::*;
use vstd::string::*;

use crate::limits::RuntimeLimits;
use crate::numbers::{decimal, decimal_text};
use crate::rpc::{all_bytes, count_bytes, counted, ClearQueueResult};
use crate::text::{
    byte_len, copy_texts, lemma_encode_concat, lemma_encode_first, sat_add_usize, sat_sub_usize, text_bytes, texts_view,
};

verus! {

#[derive(Clone, Debug, PartialEq, Eq)]
pub struct RuntimeStopResult {
    pub recovered_steering: Vec<String>,
    pub recovered_follow_up: Vec<String>,
    pub draft_restored: bool,
    pub draft_restore_error: Option<String>,
    pub process_terminated: bool,
    pub quarantined: bool,
}

impl RuntimeStopResult {
    /// The process lives on.
    pub fn normal(recovered: ClearQueueResult) -> (r: Self)
        ensures
            r == (RuntimeStopResult {
                recovered_steering: recovered.steering,
                recovered_follow_up: recovered.follow_up,
                draft_restored: false,
                draft_restore_error: None,
                process_terminated: false,
                quarantined: false,
            }),
    {
        RuntimeStopResult {
            recovered_steering: recovered.steering,
            recovered_follow_up: recovered.follow_up,
            draft_restored: false,
            draft_restore_error: None,
            process_terminated: false,
            quarantined: false,
        }
    }

    /// The process was terminated, or is out of reach.
    pub fn terminated(recovered: Option<&ClearQueueResult>, quarantined: bool) -> (r: Self)
        ensures
            r.recovered_steering@ == (match recovered {
                Some(queue) => queue@.steering,
                None => Seq::empty(),
            }),
            r.recovered_follow_up@ == (match recovered {
                Some(queue) => queue@.follow_up,
                None => Seq::empty(),
            }),
            !r.draft_restored,
            r.draft_restore_error is None,
            r.process_terminated,
            r.quarantined == quarantined,
    {
        let (recovered_steering, recovered_follow_up) = match recovered {
            Some(queue) => (copy_texts(&queue.steering), copy_texts(&queue.follow_up)),
            None => (Vec::new(), Vec::new()),
        };
        RuntimeStopResult {
            recovered_steering,
            recovered_follow_up,
            draft_restored: false,
            draft_restore_error: None,
            process_terminated: true,
            quarantined,
        }
    }
}

/// Texts with a line feed between each two.
pub open spec fn joined_lines(parts: Seq<Seq<char>>) -> Seq<char>
    decreases parts.len(),
{
    if parts.len() == 0 {
        Seq::empty()
    } else if parts.len() == 1 {
        parts[0]
    } else {
        joined_lines(parts.drop_last()).push('\n') + parts.last()
    }
}

/// The messages that were recovered, in order, and behind them the draft as it
/// was.
pub open spec fn recovered_parts(
    steering: Seq<String>,
    follow_up: Seq<String>,
    draft: Seq<char>,
) -> Seq<Seq<char>> {
    let messages = texts_view(steering) + texts_view(follow_up);
    if draft.len() == 0 {
        messages
    } else {
        messages.push(draft)
    }
}

/// Bytes of the recovered messages and the draft together.
pub open spec fn recovered_bytes(
    steering: Seq<String>,
    follow_up: Seq<String>,
    draft: Seq<char>,
) -> usize {
    let count = counted((steering.len() + follow_up.len()) as nat);
    let separators = sat_add_usize(
        sat_sub_usize(count, 1),
        if draft.len() == 0 {
            0
        } else {
            1
        },
    );
    sat_add_usize(
        sat_add_usize(
            sat_add_usize(counted(all_bytes(steering)), counted(all_bytes(follow_up))),
            separators,
        ),
        byte_len(draft) as usize,
    )
}

/// What is to be done with the draft after a Stop.
#[derive(Debug, PartialEq, Eq)]
pub enum DraftRecovery {
    /// There is nothing to give back.
    Unneeded,
    /// The draft becomes this text.
    Replace { text: String },
    /// The draft stays as it is.
    Refused { detail: String },
}

/// What a refusal to restore says.
pub open spec fn overflow_text(attempted: usize, limit: usize) -> Seq<char> {
    "recovered queue plus current draft is "@ + decimal(attempted as nat)
        + " bytes, exceeding draft limit "@ + decimal(limit as nat)
}

fn append_parts(parts: &Vec<String>, text: &mut String, first: bool, Ghost(before): Ghost<
    Seq<Seq<char>>,
>)
    requires
        first == (before.len() == 0),
        old(text)@ == joined_lines(before),
    ensures
        final(text)@ == joined_lines(before + texts_view(parts@)),
{
    let ghost texts = texts_view(parts@);
    let mut i: usize = 0;
    let mut leading = first;
    assert(before + texts.take(0) =~= before);
    while i < parts.len()
        invariant
            i <= parts@.len(),
            texts == texts_view(parts@),
            leading == (before.len() + i == 0),
            text@ == joined_lines(before + texts.take(i as int)),
        decreases parts@.len() - i,
    {
        let ghost next = before + texts.take(i + 1);
        assert(next.drop_last() =~= before + texts.take(i as int));
        assert(next.last() == parts@[i as int]@);
        if !leading {
            text.push('\n');
        } else {
            assert(text@ + next.last() =~= next.last());
        }
        text.append(parts[i].as_str());
        leading = false;
        i += 1;
    }
    assert(texts.take(i as int) =~= texts);
}

/// Decides what becomes of the draft after a Stop: the recovered messages stand
/// before it, unless that would be more than a draft may hold. `draft` is the text
/// of the draft, where there is one, and `restore_pending` whether it is still being
/// read.
pub fn plan_draft_recovery(
    steering: &Vec<String>,
    follow_up: &Vec<String>,
    draft: Option<&str>,
    restore_pending: bool,
    limits: RuntimeLimits,
) -> (r: DraftRecovery)
    ensures
        if steering@.len() + follow_up@.len() == 0 {
            r is Unneeded
        } else if restore_pending {
            r is Refused && r->detail@ == "session draft restore is still pending"@
        } else {
            match draft {
                None => r is Refused && r->detail@ == "active session draft is unavailable"@,
                Some(draft) => {
                    let attempted = recovered_bytes(steering@, follow_up@, draft@);
                    if attempted > limits.max_draft_bytes_per_session {
                        r is Refused && r->detail@ == overflow_text(
                            attempted,
                            limits.max_draft_bytes_per_session,
                        )
                    } else {
                        r is Replace && r->text@ == joined_lines(
                            recovered_parts(steering@, follow_up@, draft@),
                        )
                    }
                },
            }
        },
{
    let count: usize = steering.len().saturating_add(follow_up.len());
    if count == 0 {
        return DraftRecovery::Unneeded;
    }
    if restore_pending {
        return DraftRecovery::Refused {
            detail: "session draft restore is still pending".to_owned(),
        };
    }
    let draft = match draft {
        Some(draft) => draft,
        None => {
            return DraftRecovery::Refused {
                detail: "active session draft is unavailable".to_owned(),
            };
        },
    };
    let last: usize = if draft.is_empty() {
        0
    } else {
        1
    };
    let separators: usize = count.saturating_sub(1).saturating_add(last);
    let attempted: usize = count_bytes(steering).saturating_add(
        count_bytes(follow_up),
    ).saturating_add(separators).saturating_add(text_bytes(draft));
    if attempted > limits.max_draft_bytes_per_session {
        let mut detail = "recovered queue plus current draft is ".to_owned();
        detail.append(decimal_text(attempted as u64).as_str());
        detail.append(" bytes, exceeding draft limit ");
        detail.append(decimal_text(limits.max_draft_bytes_per_session as u64).as_str());
        return DraftRecovery::Refused { detail };
    }
    let mut text = String::new();
    assert(text@ =~= joined_lines(Seq::empty()));
    append_parts(steering, &mut text, true, Ghost(Seq::empty()));
    let ghost first = texts_view(steering@);
    assert(Seq::<Seq<char>>::empty() + first =~= first);
    append_parts(follow_up, &mut text, steering.len() == 0, Ghost(first));
    let ghost messages = first + texts_view(follow_up@);
    if !draft.is_empty() {
        assert(messages.push(draft@).drop_last() =~= messages);
        text.push('\n');
        text.append(draft);
    }
    DraftRecovery::Replace { text }
}

/// Bytes of all texts together.
pub open spec fn sum_of_bytes(parts: Seq<Seq<char>>) -> nat
    decreases parts.len(),
{
    if parts.len() == 0 {
        0
    } else {
        sum_of_bytes(parts.drop_last()) + byte_len(parts.last())
    }
}

/// Texts with line feeds between them have the bytes of all texts and one for each
/// line feed.
pub proof fn joined_lines_bytes(parts: Seq<Seq<char>>)
    ensures
        byte_len(joined_lines(parts)) == sum_of_bytes(parts) + (if parts.len() == 0 {
            0
        } else {
            (parts.len() - 1) as nat
        }),
    decreases parts.len(),
{
    if parts.len() > 1 {
        let rest = parts.drop_last();
        joined_lines_bytes(rest);
        let line = seq!['\n'];
        assert(joined_lines(rest).push('\n') =~= joined_lines(rest) + line);
        lemma_encode_concat(joined_lines(rest), line);
        lemma_encode_first(line);
        assert(line.drop_first() =~= Seq::<char>::empty());
        lemma_encode_concat(joined_lines(rest).push('\n'), parts.last());
    } else if parts.len() == 1 {
        assert(sum_of_bytes(parts.drop_last()) == 0);
        assert(parts.last() == parts[0]);
    } else {
        assert(byte_len(Seq::<char>::empty()) == 0);
    }
}

proof fn lemma_sum_concat(a: Seq<Seq<char>>, b: Seq<Seq<char>>)
    ensures
        sum_of_bytes(a + b) == sum_of_bytes(a) + sum_of_bytes(b),
    decreases b.len(),
{
    if b.len() == 0 {
        assert(a + b =~= a);
    } else {
        assert((a + b).drop_last() =~= a + b.drop_last());
        lemma_sum_concat(a, b.drop_last());
    }
}

proof fn lemma_sum_texts(texts: Seq<String>)
    ensures
        sum_of_bytes(texts_view(texts)) == all_bytes(texts),
    decreases texts.len(),
{
    if texts.len() > 0 {
        assert(texts_view(texts).drop_last() =~= texts_view(texts.drop_last()));
        lemma_sum_texts(texts.drop_last());
    }
}

/// A Stop never makes a draft longer than it may be: a text that is put in its
/// place has exactly the bytes that were counted against the limit.
pub proof fn recovered_draft_is_bounded(
    steering: Seq<String>,
    follow_up: Seq<String>,
    draft: Seq<char>,
    limit: usize,
)
    requires
        0 < steering.len() + follow_up.len() <= usize::MAX,
        byte_len(draft) <= usize::MAX,
        recovered_bytes(steering, follow_up, draft) <= limit < usize::MAX,
    ensures
        byte_len(joined_lines(recovered_parts(steering, follow_up, draft))) == recovered_bytes(
            steering,
            follow_up,
            draft,
        ),
        byte_len(joined_lines(recovered_parts(steering, follow_up, draft))) <= limit,
{
    let parts = recovered_parts(steering, follow_up, draft);
    let messages = texts_view(steering) + texts_view(follow_up);
    joined_lines_bytes(parts);
    lemma_sum_concat(texts_view(steering), texts_view(follow_up));
    lemma_sum_texts(steering);
    lemma_sum_texts(follow_up);
    if draft.len() > 0 {
        assert(parts.drop_last() =~= messages);
    } else {
        assert(byte_len(draft) == 0) by {
            assert(draft =~= Seq::<char>::empty());
        }
    }
}

} // verus!
