//! Byte-bounded queue between runtime state and its delivery to a renderer.
use std::collections::VecDeque;

use vstd::prelude::*;
use vstd::string::*;

use crate::ids::RequestId;
use crate::limits::RuntimeLimits;
use crate::text::{byte_len, sat_add_u64, sat_add_usize, sat_sub_usize, same_text, text_bytes};

verus! {

/// Bytes that each frame is charged beside its key and payload.
pub const FRAME_ACCOUNTING_OVERHEAD_BYTES: usize = 32;

/// What a display frame shows: only its newest value matters.
#[derive(Debug, PartialEq, Eq)]
pub enum UiCoalesceKey {
    AssistantBlock(usize),
    ToolPreview(String),
    DirectBash(RequestId),
}

/// Model of a [`UiCoalesceKey`].
pub enum UiCoalesceKeyView {
    AssistantBlock(usize),
    ToolPreview(Seq<char>),
    DirectBash(Seq<char>),
}

impl View for UiCoalesceKey {
    type V = UiCoalesceKeyView;

    open spec fn view(&self) -> UiCoalesceKeyView {
        match self {
            UiCoalesceKey::AssistantBlock(index) => UiCoalesceKeyView::AssistantBlock(*index),
            UiCoalesceKey::ToolPreview(id) => UiCoalesceKeyView::ToolPreview(id@),
            UiCoalesceKey::DirectBash(id) => UiCoalesceKeyView::DirectBash(id@),
        }
    }
}

impl UiCoalesceKeyView {
    pub open spec fn bytes(self) -> nat {
        match self {
            UiCoalesceKeyView::AssistantBlock(_) => (usize::BITS / 8) as nat,
            UiCoalesceKeyView::ToolPreview(id) => byte_len(id),
            UiCoalesceKeyView::DirectBash(id) => byte_len(id),
        }
    }
}

impl UiCoalesceKey {
    fn byte_len(&self) -> (n: usize)
        ensures
            n == self@.bytes(),
    {
        match self {
            UiCoalesceKey::AssistantBlock(_) => (usize::BITS / 8) as usize,
            UiCoalesceKey::ToolPreview(id) => text_bytes(id.as_str()),
            UiCoalesceKey::DirectBash(id) => text_bytes(id.as_str()),
        }
    }

    fn same(&self, other: &UiCoalesceKey) -> (r: bool)
        ensures
            r == (self@ == other@),
    {
        match (self, other) {
            (UiCoalesceKey::AssistantBlock(a), UiCoalesceKey::AssistantBlock(b)) => *a == *b,
            (UiCoalesceKey::ToolPreview(a), UiCoalesceKey::ToolPreview(b)) => same_text(
                a.as_str(),
                b.as_str(),
            ),
            (UiCoalesceKey::DirectBash(a), UiCoalesceKey::DirectBash(b)) => a.same(b),
            _ => false,
        }
    }
}

#[derive(Debug, PartialEq, Eq)]
pub enum UiBacklogFrame {
    /// A transition that must not be discarded to make room for display progress.
    Semantic(Vec<u8>),
    /// A display-only frame of which only the newest value for a key matters.
    Coalescible { key: UiCoalesceKey, payload: Vec<u8> },
}

/// Model of a [`UiBacklogFrame`].
pub enum UiBacklogFrameView {
    Semantic(Seq<u8>),
    Coalescible { key: UiCoalesceKeyView, payload: Seq<u8> },
}

impl View for UiBacklogFrame {
    type V = UiBacklogFrameView;

    open spec fn view(&self) -> UiBacklogFrameView {
        match self {
            UiBacklogFrame::Semantic(payload) => UiBacklogFrameView::Semantic(payload@),
            UiBacklogFrame::Coalescible { key, payload } => UiBacklogFrameView::Coalescible {
                key: key@,
                payload: payload@,
            },
        }
    }
}

impl UiBacklogFrameView {
    /// What the frame is charged, at most `usize::MAX`.
    pub open spec fn cost(self) -> usize {
        let exact = FRAME_ACCOUNTING_OVERHEAD_BYTES + match self {
            UiBacklogFrameView::Semantic(payload) => payload.len(),
            UiBacklogFrameView::Coalescible { key, payload } => key.bytes() + payload.len(),
        };
        if exact > usize::MAX {
            usize::MAX
        } else {
            exact as usize
        }
    }

    pub open spec fn is_display(self) -> bool {
        self is Coalescible
    }

    pub open spec fn has_key(self, key: UiCoalesceKeyView) -> bool {
        self is Coalescible && self->key == key
    }
}

impl UiBacklogFrame {
    fn cost(&self) -> (n: usize)
        ensures
            n == self@.cost(),
    {
        match self {
            UiBacklogFrame::Semantic(payload) => FRAME_ACCOUNTING_OVERHEAD_BYTES.saturating_add(
                payload.len(),
            ),
            UiBacklogFrame::Coalescible { key, payload } =>
                FRAME_ACCOUNTING_OVERHEAD_BYTES.saturating_add(key.byte_len()).saturating_add(
                payload.len(),
            ),
        }
    }

    fn is_coalescible(&self) -> (r: bool)
        ensures
            r == self@.is_display(),
    {
        match self {
            UiBacklogFrame::Semantic(_) => false,
            UiBacklogFrame::Coalescible { .. } => true,
        }
    }
}

#[derive(Clone, Copy, Debug, PartialEq, Eq, Structural)]
pub enum UiBacklogPush {
    Queued,
    Coalesced,
    DroppedDisplayFrame,
}

#[derive(Clone, Copy, Debug, PartialEq, Eq, Structural)]
pub struct UiBacklogStats {
    pub resident_bytes: usize,
    pub frame_count: usize,
    pub coalesced_frames: u64,
    pub dropped_display_frames: u64,
}

#[derive(Clone, Copy, Debug, PartialEq, Eq, Structural)]
pub enum UiBacklogError {
    FrameTooLarge { actual: usize, limit: usize },
    SemanticCapacityExhausted { resident: usize, incoming: usize, limit: usize },
}

/// The frames that only show progress.
pub open spec fn display_frames() -> spec_fn(UiBacklogFrameView) -> bool {
    |frame: UiBacklogFrameView| frame.is_display()
}

/// The frames that show `key`.
pub open spec fn frames_with(key: UiCoalesceKeyView) -> spec_fn(UiBacklogFrameView) -> bool {
    |frame: UiBacklogFrameView| frame.has_key(key)
}

/// The position of the first frame with property `p`.
pub open spec fn first_where(
    frames: Seq<UiBacklogFrameView>,
    p: spec_fn(UiBacklogFrameView) -> bool,
) -> Option<int>
    decreases frames.len(),
{
    if frames.len() == 0 {
        None
    } else if p(frames[0]) {
        Some(0int)
    } else {
        match first_where(frames.drop_first(), p) {
            Some(i) => Some(i + 1),
            None => None,
        }
    }
}

/// What all frames are charged together.
pub open spec fn total_cost(frames: Seq<UiBacklogFrameView>) -> nat
    decreases frames.len(),
{
    if frames.len() == 0 {
        0
    } else {
        frames[0].cost() as nat + total_cost(frames.drop_first())
    }
}

/// The payloads of the semantic frames, in order.
pub open spec fn semantic_payloads(frames: Seq<UiBacklogFrameView>) -> Seq<Seq<u8>>
    decreases frames.len(),
{
    if frames.len() == 0 {
        Seq::empty()
    } else {
        let rest = semantic_payloads(frames.drop_first());
        match frames[0] {
            UiBacklogFrameView::Semantic(payload) => seq![payload] + rest,
            UiBacklogFrameView::Coalescible { .. } => rest,
        }
    }
}

/// Model of a [`UiEventBacklog`].
pub struct UiEventBacklogView {
    pub max_bytes: usize,
    pub resident_bytes: usize,
    pub frames: Seq<UiBacklogFrameView>,
    pub coalesced_frames: u64,
    pub dropped_display_frames: u64,
}

impl UiEventBacklogView {
    pub open spec fn empty(max_bytes: usize) -> Self {
        UiEventBacklogView {
            max_bytes,
            resident_bytes: 0,
            frames: Seq::empty(),
            coalesced_frames: 0,
            dropped_display_frames: 0,
        }
    }

    /// Whether the bytes charged are those of the frames.
    pub open spec fn counts_exactly(self) -> bool {
        self.resident_bytes == total_cost(self.frames)
    }

    /// The bytes charged stay within the bound and are those of the frames
    /// (exactly, where the bound leaves room to count them), and no two frames
    /// show the same thing.
    pub open spec fn wf(self) -> bool {
        &&& self.resident_bytes <= self.max_bytes
        &&& self.resident_bytes <= total_cost(self.frames)
        &&& self.max_bytes < usize::MAX ==> self.counts_exactly()
        &&& forall|i: int, j: int|
            0 <= i < j < self.frames.len() && (#[trigger] self.frames[i]) is Coalescible ==> !(
            #[trigger] self.frames[j]).has_key(self.frames[i]->key)
    }

    /// Without the frame at position `i`.
    pub open spec fn without(self, i: int) -> Self {
        UiEventBacklogView {
            frames: self.frames.remove(i),
            resident_bytes: sat_sub_usize(self.resident_bytes, self.frames[i].cost()),
            ..self
        }
    }

    /// Without the oldest display frames that have to go before `incoming` more
    /// bytes fit.
    pub open spec fn evicted(self, incoming: usize) -> Self
        decreases self.frames.len(),
    {
        match first_where(self.frames, display_frames()) {
            Some(i) => if sat_add_usize(self.resident_bytes, incoming) > self.max_bytes && 0 <= i
                < self.frames.len() {
                UiEventBacklogView {
                    dropped_display_frames: sat_add_u64(self.dropped_display_frames, 1),
                    ..self.without(i)
                }.evicted(incoming)
            } else {
                self
            },
            None => self,
        }
    }

    /// With one more frame at the end.
    pub open spec fn with_frame(self, frame: UiBacklogFrameView) -> Self {
        UiEventBacklogView {
            frames: self.frames.push(frame),
            resident_bytes: sat_add_usize(self.resident_bytes, frame.cost()),
            ..self
        }
    }

    /// Without the frame that shows `key`, which a newer one supersedes.
    pub open spec fn superseded(self, key: UiCoalesceKeyView) -> Self {
        match first_where(self.frames, frames_with(key)) {
            Some(i) => UiEventBacklogView {
                coalesced_frames: sat_add_u64(self.coalesced_frames, 1),
                ..self.without(i)
            },
            None => self,
        }
    }

    pub open spec fn shows_key(self, key: UiCoalesceKeyView) -> bool {
        first_where(self.frames, frames_with(key)) is Some
    }

    /// What pushing a display frame does, and what it reports.
    pub open spec fn pushed_display(self, key: UiCoalesceKeyView, payload: Seq<u8>) -> (
        Self,
        UiBacklogPush,
    ) {
        let frame = UiBacklogFrameView::Coalescible { key, payload };
        let base = self.superseded(key);
        let room = base.evicted(frame.cost());
        if frame.cost() > self.max_bytes {
            (base.one_dropped(), UiBacklogPush::DroppedDisplayFrame)
        } else if sat_add_usize(room.resident_bytes, frame.cost()) > self.max_bytes {
            (room.one_dropped(), UiBacklogPush::DroppedDisplayFrame)
        } else if self.shows_key(key) {
            (room.with_frame(frame), UiBacklogPush::Coalesced)
        } else {
            (room.with_frame(frame), UiBacklogPush::Queued)
        }
    }

    pub open spec fn one_dropped(self) -> Self {
        UiEventBacklogView {
            dropped_display_frames: sat_add_u64(self.dropped_display_frames, 1),
            ..self
        }
    }

    /// What pushing a semantic frame does, and what it reports.
    pub open spec fn pushed_semantic(self, payload: Seq<u8>) -> (
        Self,
        Result<UiBacklogPush, UiBacklogError>,
    ) {
        let frame = UiBacklogFrameView::Semantic(payload);
        let room = self.evicted(frame.cost());
        if frame.cost() > self.max_bytes {
            (
                self,
                Err(UiBacklogError::FrameTooLarge { actual: frame.cost(), limit: self.max_bytes }),
            )
        } else if sat_add_usize(room.resident_bytes, frame.cost()) > self.max_bytes {
            (
                room,
                Err(
                    UiBacklogError::SemanticCapacityExhausted {
                        resident: room.resident_bytes,
                        incoming: frame.cost(),
                        limit: self.max_bytes,
                    },
                ),
            )
        } else {
            (room.with_frame(frame), Ok(UiBacklogPush::Queued))
        }
    }
}

proof fn lemma_first_where(
    frames: Seq<UiBacklogFrameView>,
    p: spec_fn(UiBacklogFrameView) -> bool,
)
    ensures
        match first_where(frames, p) {
            Some(i) => 0 <= i < frames.len() && p(frames[i]) && forall|k: int|
                0 <= k < i ==> !p(#[trigger] frames[k]),
            None => forall|k: int| 0 <= k < frames.len() ==> !p(#[trigger] frames[k]),
        },
    decreases frames.len(),
{
    if frames.len() > 0 && !p(frames[0]) {
        let rest = frames.drop_first();
        lemma_first_where(rest, p);
        assert forall|k: int|
            0 <= k < frames.len() && (first_where(frames, p) is Some ==> k < first_where(
                frames,
                p,
            )->0) implies !p(#[trigger] frames[k]) by {
            if k > 0 {
                assert(rest[k - 1] == frames[k]);
            }
        }
    }
}

proof fn lemma_first_where_is(
    frames: Seq<UiBacklogFrameView>,
    p: spec_fn(UiBacklogFrameView) -> bool,
    i: int,
)
    requires
        0 <= i < frames.len(),
        p(frames[i]),
        forall|k: int| 0 <= k < i ==> !p(#[trigger] frames[k]),
    ensures
        first_where(frames, p) == Some(i),
{
    lemma_first_where(frames, p);
    match first_where(frames, p) {
        Some(j) => {
            if j < i {
                assert(!p(frames[j]));
            } else if i < j {
                assert(!p(frames[i]));
            }
        },
        None => {
            assert(!p(frames[i]));
        },
    }
}

proof fn lemma_first_where_none(
    frames: Seq<UiBacklogFrameView>,
    p: spec_fn(UiBacklogFrameView) -> bool,
)
    requires
        forall|k: int| 0 <= k < frames.len() ==> !p(#[trigger] frames[k]),
    ensures
        first_where(frames, p) is None,
{
    lemma_first_where(frames, p);
}

proof fn lemma_total_remove(frames: Seq<UiBacklogFrameView>, i: int)
    requires
        0 <= i < frames.len(),
    ensures
        total_cost(frames) == total_cost(frames.remove(i)) + frames[i].cost(),
    decreases frames.len(),
{
    if i == 0 {
        assert(frames.remove(0) =~= frames.drop_first());
    } else {
        lemma_total_remove(frames.drop_first(), i - 1);
        assert(frames.remove(i).drop_first() =~= frames.drop_first().remove(i - 1));
        assert(frames.remove(i)[0] == frames[0]);
    }
}

proof fn lemma_total_push(frames: Seq<UiBacklogFrameView>, frame: UiBacklogFrameView)
    ensures
        total_cost(frames.push(frame)) == total_cost(frames) + frame.cost(),
    decreases frames.len(),
{
    if frames.len() == 0 {
        assert(frames.push(frame).drop_first() =~= frames);
    } else {
        assert(frames.push(frame).drop_first() =~= frames.drop_first().push(frame));
        lemma_total_push(frames.drop_first(), frame);
    }
}

proof fn lemma_semantic_remove(frames: Seq<UiBacklogFrameView>, i: int)
    requires
        0 <= i < frames.len(),
        frames[i].is_display(),
    ensures
        semantic_payloads(frames.remove(i)) == semantic_payloads(frames),
    decreases frames.len(),
{
    if i == 0 {
        assert(frames.remove(0) =~= frames.drop_first());
    } else {
        lemma_semantic_remove(frames.drop_first(), i - 1);
        assert(frames.remove(i).drop_first() =~= frames.drop_first().remove(i - 1));
        assert(frames.remove(i)[0] == frames[0]);
    }
}

proof fn lemma_semantic_push(frames: Seq<UiBacklogFrameView>, frame: UiBacklogFrameView)
    ensures
        semantic_payloads(frames.push(frame)) == (match frame {
            UiBacklogFrameView::Semantic(payload) => semantic_payloads(frames).push(payload),
            UiBacklogFrameView::Coalescible { .. } => semantic_payloads(frames),
        }),
    decreases frames.len(),
{
    if frames.len() == 0 {
        assert(frames.push(frame).drop_first() =~= frames);
        assert(semantic_payloads(frames.push(frame)) =~= (match frame {
            UiBacklogFrameView::Semantic(payload) => semantic_payloads(frames).push(payload),
            UiBacklogFrameView::Coalescible { .. } => semantic_payloads(frames),
        }));
    } else {
        assert(frames.push(frame).drop_first() =~= frames.drop_first().push(frame));
        lemma_semantic_push(frames.drop_first(), frame);
        assert(semantic_payloads(frames.push(frame)) =~= (match frame {
            UiBacklogFrameView::Semantic(payload) => semantic_payloads(frames).push(payload),
            UiBacklogFrameView::Coalescible { .. } => semantic_payloads(frames),
        }));
    }
}

/// Taking a frame out keeps the queue well-formed.
pub proof fn lemma_without_wf(queue: UiEventBacklogView, i: int)
    requires
        queue.wf(),
        0 <= i < queue.frames.len(),
    ensures
        queue.without(i).wf(),
{
    lemma_total_remove(queue.frames, i);
    let after = queue.without(i);
    assert forall|x: int, y: int|
        0 <= x < y < after.frames.len() && (#[trigger] after.frames[x]) is Coalescible implies !(
    #[trigger] after.frames[y]).has_key(after.frames[x]->key) by {
        let p = if x < i { x } else { x + 1 };
        let q = if y < i { y } else { y + 1 };
        assert(after.frames[x] == queue.frames[p]);
        assert(after.frames[y] == queue.frames[q]);
    }
}

/// Making room drops display frames only: the queue stays well-formed, every
/// semantic frame stays, and what shows no longer only loses members.
pub proof fn eviction_keeps_semantic_frames(queue: UiEventBacklogView, incoming: usize)
    ensures
        queue.wf() ==> queue.evicted(incoming).wf(),
        semantic_payloads(queue.evicted(incoming).frames) == semantic_payloads(queue.frames),
        queue.evicted(incoming).max_bytes == queue.max_bytes,
        queue.evicted(incoming).coalesced_frames == queue.coalesced_frames,
        queue.evicted(incoming).dropped_display_frames >= queue.dropped_display_frames,
        forall|key: UiCoalesceKeyView|
            !queue.shows_key(key) ==> !(#[trigger] queue.evicted(incoming).shows_key(key)),
    decreases queue.frames.len(),
{
    let display = display_frames();
    lemma_first_where(queue.frames, display);
    match first_where(queue.frames, display) {
        Some(i) => {
            if sat_add_usize(queue.resident_bytes, incoming) > queue.max_bytes {
                let next = queue.without(i).one_dropped();
                assert(queue.evicted(incoming) == next.evicted(incoming));
                if queue.wf() {
                    lemma_without_wf(queue, i);
                    assert(next.wf());
                }
                lemma_semantic_remove(queue.frames, i);
                eviction_keeps_semantic_frames(next, incoming);
                assert forall|key: UiCoalesceKeyView| !queue.shows_key(key) implies !(
                #[trigger] queue.evicted(incoming).shows_key(key)) by {
                    let p = frames_with(key);
                    lemma_first_where(queue.frames, p);
                    assert forall|k: int| 0 <= k < next.frames.len() implies !p(
                        #[trigger] next.frames[k],
                    ) by {
                        let q = if k < i { k } else { k + 1 };
                        assert(next.frames[k] == queue.frames[q]);
                    }
                    lemma_first_where_none(next.frames, p);
                    assert(!next.shows_key(key));
                }
            }
        },
        None => {},
    }
}

/// Putting a frame at the end, where it fits and nothing else shows its key,
/// keeps the queue well-formed.
pub proof fn lemma_with_frame_wf(queue: UiEventBacklogView, frame: UiBacklogFrameView)
    requires
        queue.wf(),
        sat_add_usize(queue.resident_bytes, frame.cost()) <= queue.max_bytes,
        frame is Coalescible ==> !queue.shows_key(frame->key),
    ensures
        queue.with_frame(frame).wf(),
{
    lemma_total_push(queue.frames, frame);
    let after = queue.with_frame(frame);
    assert forall|x: int, y: int|
        0 <= x < y < after.frames.len() && (#[trigger] after.frames[x]) is Coalescible implies !(
    #[trigger] after.frames[y]).has_key(after.frames[x]->key) by {
        if y < queue.frames.len() {
            assert(after.frames[x] == queue.frames[x]);
            assert(after.frames[y] == queue.frames[y]);
        } else if frame is Coalescible {
            let p = frames_with(frame->key);
            lemma_first_where(queue.frames, p);
            assert(!p(queue.frames[x]));
        }
    }
}

/// Taking out what a key shows keeps the queue well-formed, every semantic frame
/// in it, and nothing left that shows the key.
pub proof fn superseding_keeps_semantic_frames(queue: UiEventBacklogView, key: UiCoalesceKeyView)
    requires
        queue.wf(),
    ensures
        queue.superseded(key).wf(),
        !queue.superseded(key).shows_key(key),
        semantic_payloads(queue.superseded(key).frames) == semantic_payloads(queue.frames),
        queue.superseded(key).max_bytes == queue.max_bytes,
{
    let p = frames_with(key);
    lemma_first_where(queue.frames, p);
    match first_where(queue.frames, p) {
        Some(i) => {
            lemma_without_wf(queue, i);
            lemma_semantic_remove(queue.frames, i);
            let after = queue.superseded(key);
            assert forall|k: int| 0 <= k < after.frames.len() implies !p(
                #[trigger] after.frames[k],
            ) by {
                if k < i {
                    assert(after.frames[k] == queue.frames[k]);
                    assert(!p(queue.frames[k]));
                } else {
                    assert(after.frames[k] == queue.frames[k + 1]);
                    assert(!queue.frames[k + 1].has_key(queue.frames[i]->key));
                }
            }
            lemma_first_where_none(after.frames, p);
        },
        None => {},
    }
}

/// Display traffic never costs a semantic frame: pushing a display frame keeps
/// every semantic frame in order and the queue within its bound, whatever
/// becomes of the frame; where it is taken, it stands last and alone shows its key.
pub proof fn display_push_keeps_semantic_frames(
    queue: UiEventBacklogView,
    key: UiCoalesceKeyView,
    payload: Seq<u8>,
)
    requires
        queue.wf(),
    ensures
        queue.pushed_display(key, payload).0.wf(),
        semantic_payloads(queue.pushed_display(key, payload).0.frames) == semantic_payloads(
            queue.frames,
        ),
        queue.pushed_display(key, payload).1 != UiBacklogPush::DroppedDisplayFrame
            ==> queue.pushed_display(key, payload).0.frames.last() == (
        UiBacklogFrameView::Coalescible { key, payload }),
        queue.pushed_display(key, payload).1 == UiBacklogPush::DroppedDisplayFrame
            ==> !queue.pushed_display(key, payload).0.shows_key(key),
{
    let frame = UiBacklogFrameView::Coalescible { key, payload };
    superseding_keeps_semantic_frames(queue, key);
    let base = queue.superseded(key);
    eviction_keeps_semantic_frames(base, frame.cost());
    let room = base.evicted(frame.cost());
    assert(!room.shows_key(key));
    if frame.cost() <= queue.max_bytes && sat_add_usize(room.resident_bytes, frame.cost())
        <= queue.max_bytes {
        lemma_with_frame_wf(room, frame);
        lemma_semantic_push(room.frames, frame);
    }
}

/// A semantic frame is either taken, behind all the semantic frames that were
/// there, or refused with an error while those stay as they were.
pub proof fn semantic_push_is_kept_or_refused(queue: UiEventBacklogView, payload: Seq<u8>)
    requires
        queue.wf(),
    ensures
        queue.pushed_semantic(payload).0.wf(),
        queue.pushed_semantic(payload).1 is Ok ==> semantic_payloads(
            queue.pushed_semantic(payload).0.frames,
        ) == semantic_payloads(queue.frames).push(payload),
        queue.pushed_semantic(payload).1 is Err ==> semantic_payloads(
            queue.pushed_semantic(payload).0.frames,
        ) == semantic_payloads(queue.frames),
{
    let frame = UiBacklogFrameView::Semantic(payload);
    eviction_keeps_semantic_frames(queue, frame.cost());
    let room = queue.evicted(frame.cost());
    if frame.cost() <= queue.max_bytes && sat_add_usize(room.resident_bytes, frame.cost())
        <= queue.max_bytes {
        lemma_with_frame_wf(room, frame);
        lemma_semantic_push(room.frames, frame);
    }
}

/// The frames of a queue and what they are charged.
#[derive(Debug)]
struct BacklogState {
    max_bytes: usize,
    resident_bytes: usize,
    frames: VecDeque<UiBacklogFrame>,
    coalesced_frames: u64,
    dropped_display_frames: u64,
}

/// The models of queued frames.
pub open spec fn frame_views(frames: Seq<UiBacklogFrame>) -> Seq<UiBacklogFrameView> {
    frames.map_values(|frame: UiBacklogFrame| frame@)
}

impl View for BacklogState {
    type V = UiEventBacklogView;

    closed spec fn view(&self) -> UiEventBacklogView {
        UiEventBacklogView {
            max_bytes: self.max_bytes,
            resident_bytes: self.resident_bytes,
            frames: frame_views(self.frames@),
            coalesced_frames: self.coalesced_frames,
            dropped_display_frames: self.dropped_display_frames,
        }
    }
}

impl BacklogState {
    fn new(max_bytes: usize) -> (r: Self)
        ensures
            r@ == UiEventBacklogView::empty(max_bytes),
            r@.wf(),
    {
        let r = BacklogState {
            max_bytes,
            resident_bytes: 0,
            frames: VecDeque::new(),
            coalesced_frames: 0,
            dropped_display_frames: 0,
        };
        assert(r@.frames =~= Seq::<UiBacklogFrameView>::empty());
        r
    }

    fn push_semantic(&mut self, payload: Vec<u8>) -> (r: Result<UiBacklogPush, UiBacklogError>)
        ensures
            (final(self)@, r) == old(self)@.pushed_semantic(payload@),
            old(self)@.wf() ==> final(self)@.wf(),
    {
        let ghost before = self@;
        proof {
            if before.wf() {
                semantic_push_is_kept_or_refused(before, payload@);
            }
            eviction_keeps_semantic_frames(
                before,
                UiBacklogFrameView::Semantic(payload@).cost(),
            );
        }
        let frame = UiBacklogFrame::Semantic(payload);
        let cost: usize = frame.cost();
        if cost > self.max_bytes {
            return Err(UiBacklogError::FrameTooLarge { actual: cost, limit: self.max_bytes });
        }
        self.evict_display_frames_until(cost);
        if self.resident_bytes.saturating_add(cost) > self.max_bytes {
            return Err(
                UiBacklogError::SemanticCapacityExhausted {
                    resident: self.resident_bytes,
                    incoming: cost,
                    limit: self.max_bytes,
                },
            );
        }
        let ghost room = self@;
        self.resident_bytes = self.resident_bytes.saturating_add(cost);
        let ghost model = frame@;
        self.frames.push_back(frame);
        assert(self@.frames =~= room.frames.push(model));
        Ok(UiBacklogPush::Queued)
    }

    fn push_coalescible(&mut self, key: UiCoalesceKey, payload: Vec<u8>) -> (r: UiBacklogPush)
        ensures
            (final(self)@, r) == old(self)@.pushed_display(key@, payload@),
            old(self)@.wf() ==> final(self)@.wf(),
    {
        let ghost before = self@;
        let ghost key_view = key@;
        proof {
            if before.wf() {
                display_push_keeps_semantic_frames(before, key@, payload@);
            }
        }
        let had_previous = self.remove_matching_key(&key);
        if had_previous {
            self.coalesced_frames = self.coalesced_frames.saturating_add(1);
        }
        assert(self@ == before.superseded(key_view));
        let frame = UiBacklogFrame::Coalescible { key, payload };
        let cost: usize = frame.cost();
        proof {
            eviction_keeps_semantic_frames(before.superseded(key_view), cost);
        }
        if cost > self.max_bytes {
            self.dropped_display_frames = self.dropped_display_frames.saturating_add(1);
            return UiBacklogPush::DroppedDisplayFrame;
        }
        self.evict_display_frames_until(cost);
        if self.resident_bytes.saturating_add(cost) > self.max_bytes {
            self.dropped_display_frames = self.dropped_display_frames.saturating_add(1);
            return UiBacklogPush::DroppedDisplayFrame;
        }
        let ghost room = self@;
        self.resident_bytes = self.resident_bytes.saturating_add(cost);
        let ghost model = frame@;
        self.frames.push_back(frame);
        assert(self@.frames =~= room.frames.push(model));
        if had_previous {
            UiBacklogPush::Coalesced
        } else {
            UiBacklogPush::Queued
        }
    }

    fn pop_front(&mut self) -> (r: Option<UiBacklogFrame>)
        ensures
            match r {
                Some(frame) => old(self)@.frames.len() > 0 && frame@ == old(self)@.frames[0]
                    && final(self)@ == old(self)@.without(0),
                None => old(self)@.frames.len() == 0 && final(self)@ == old(self)@,
            },
            old(self)@.wf() ==> final(self)@.wf(),
    {
        let ghost before = self@;
        match self.frames.pop_front() {
            Some(frame) => {
                proof {
                    if before.wf() {
                        lemma_without_wf(before, 0);
                    }
                }
                assert(frame@ == before.frames[0]);
                self.resident_bytes = self.resident_bytes.saturating_sub(frame.cost());
                assert(self@.frames =~= before.frames.remove(0));
                Some(frame)
            },
            None => {
                assert(self@.frames =~= before.frames);
                None
            },
        }
    }

    fn clear(&mut self)
        ensures
            final(self)@ == (UiEventBacklogView {
                frames: Seq::empty(),
                resident_bytes: 0,
                ..old(self)@
            }),
            final(self)@.wf(),
    {
        self.frames.clear();
        self.resident_bytes = 0;
        assert(self@.frames =~= Seq::<UiBacklogFrameView>::empty());
    }

    fn stats(&self) -> (r: UiBacklogStats)
        ensures
            r == (UiBacklogStats {
                resident_bytes: self@.resident_bytes,
                frame_count: self@.frames.len() as usize,
                coalesced_frames: self@.coalesced_frames,
                dropped_display_frames: self@.dropped_display_frames,
            }),
            r.frame_count == self@.frames.len(),
    {
        UiBacklogStats {
            resident_bytes: self.resident_bytes,
            frame_count: self.frames.len(),
            coalesced_frames: self.coalesced_frames,
            dropped_display_frames: self.dropped_display_frames,
        }
    }

    fn remove_matching_key(&mut self, key: &UiCoalesceKey) -> (r: bool)
        ensures
            r == old(self)@.shows_key(key@),
            final(self)@ == (UiEventBacklogView {
                coalesced_frames: old(self)@.coalesced_frames,
                ..old(self)@.superseded(key@)
            }),
    {
        let ghost before = self@;
        let ghost p = frames_with(key@);
        let mut i: usize = 0;
        while i < self.frames.len()
            invariant
                i <= self.frames@.len(),
                before == old(self)@,
                self@ == before,
                before.frames == frame_views(self.frames@),
                p == frames_with(key@),
                forall|k: int| 0 <= k < i ==> !p(#[trigger] before.frames[k]),
            decreases self.frames@.len() - i,
        {
            let matching = match &self.frames[i] {
                UiBacklogFrame::Semantic(_) => false,
                UiBacklogFrame::Coalescible { key: existing, .. } => existing.same(key),
            };
            assert(matching == p(before.frames[i as int]));
            if matching {
                proof {
                    lemma_first_where_is(before.frames, p, i as int);
                }
                match self.frames.remove(i) {
                    Some(removed) => {
                        self.resident_bytes = self.resident_bytes.saturating_sub(removed.cost());
                        assert(self@.frames =~= before.frames.remove(i as int));
                    },
                    None => {},
                }
                return true;
            }
            i += 1;
        }
        proof {
            lemma_first_where_none(before.frames, p);
        }
        false
    }

    fn evict_display_frames_until(&mut self, incoming_cost: usize)
        ensures
            final(self)@ == old(self)@.evicted(incoming_cost),
    {
        let ghost start = self@;
        while self.resident_bytes.saturating_add(incoming_cost) > self.max_bytes
            invariant
                start == old(self)@,
                start.evicted(incoming_cost) == self@.evicted(incoming_cost),
            decreases self.frames@.len(),
        {
            let ghost before = self@;
            let ghost p = display_frames();
            let mut i: usize = 0;
            while i < self.frames.len() && !self.frames[i].is_coalescible()
                invariant
                    i <= self.frames@.len(),
                    self@ == before,
                    before.frames == frame_views(self.frames@),
                    p == display_frames(),
                    forall|k: int| 0 <= k < i ==> !p(#[trigger] before.frames[k]),
                decreases self.frames@.len() - i,
            {
                assert(!p(before.frames[i as int]));
                i += 1;
            }
            if i == self.frames.len() {
                proof {
                    lemma_first_where_none(before.frames, p);
                }
                return;
            }
            proof {
                assert(p(before.frames[i as int]));
                lemma_first_where_is(before.frames, p, i as int);
            }
            match self.frames.remove(i) {
                Some(removed) => {
                    self.resident_bytes = self.resident_bytes.saturating_sub(removed.cost());
                    self.dropped_display_frames = self.dropped_display_frames.saturating_add(1);
                    assert(self@.frames =~= before.frames.remove(i as int));
                    assert(self@ == before.without(i as int).one_dropped());
                },
                None => {},
            }
        }
    }
}

/// Byte-bounded queue of one run. Semantic frames are never evicted: where they
/// alone exhaust the bound, the caller gets an error and has to rehydrate the
/// renderer. Every queue is well-formed.
#[derive(Debug)]
pub struct UiEventBacklog {
    state: BacklogState,
}

impl View for UiEventBacklog {
    type V = UiEventBacklogView;

    closed spec fn view(&self) -> UiEventBacklogView {
        self.state@
    }
}

impl UiEventBacklog {
    #[verifier::type_invariant]
    closed spec fn keeps_its_bound(&self) -> bool {
        self.state@.wf()
    }

    pub fn new(max_bytes: usize) -> (r: Self)
        requires
            max_bytes > 0,
        ensures
            r@ == UiEventBacklogView::empty(max_bytes),
            r@.wf(),
    {
        UiEventBacklog { state: BacklogState::new(max_bytes) }
    }

    pub fn from_limits(limits: RuntimeLimits) -> (r: Self)
        requires
            limits.max_ui_backlog_bytes_per_run > 0,
        ensures
            r@ == UiEventBacklogView::empty(limits.max_ui_backlog_bytes_per_run),
            r@.wf(),
    {
        Self::new(limits.max_ui_backlog_bytes_per_run)
    }

    pub fn push_semantic(&mut self, payload: Vec<u8>) -> (r: Result<UiBacklogPush, UiBacklogError>)
        ensures
            (final(self)@, r) == old(self)@.pushed_semantic(payload@),
            old(self)@.wf(),
            final(self)@.wf(),
    {
        proof {
            use_type_invariant(&*self);
        }
        let mut state = BacklogState::new(self.state.max_bytes);
        core::mem::swap(&mut state, &mut self.state);
        let r = state.push_semantic(payload);
        self.state = state;
        r
    }

    pub fn push_coalescible(&mut self, key: UiCoalesceKey, payload: Vec<u8>) -> (r: UiBacklogPush)
        ensures
            (final(self)@, r) == old(self)@.pushed_display(key@, payload@),
            old(self)@.wf(),
            final(self)@.wf(),
    {
        proof {
            use_type_invariant(&*self);
        }
        let mut state = BacklogState::new(self.state.max_bytes);
        core::mem::swap(&mut state, &mut self.state);
        let r = state.push_coalescible(key, payload);
        self.state = state;
        r
    }

    /// Takes out the oldest frame.
    pub fn pop_front(&mut self) -> (r: Option<UiBacklogFrame>)
        ensures
            match r {
                Some(frame) => old(self)@.frames.len() > 0 && frame@ == old(self)@.frames[0]
                    && final(self)@ == old(self)@.without(0),
                None => old(self)@.frames.len() == 0 && final(self)@ == old(self)@,
            },
            old(self)@.wf(),
            final(self)@.wf(),
    {
        proof {
            use_type_invariant(&*self);
        }
        let mut state = BacklogState::new(self.state.max_bytes);
        core::mem::swap(&mut state, &mut self.state);
        let r = state.pop_front();
        self.state = state;
        r
    }

    pub fn clear(&mut self)
        ensures
            final(self)@ == (UiEventBacklogView {
                frames: Seq::empty(),
                resident_bytes: 0,
                ..old(self)@
            }),
            final(self)@.wf(),
    {
        let mut state = BacklogState::new(self.state.max_bytes);
        core::mem::swap(&mut state, &mut self.state);
        state.clear();
        self.state = state;
    }

    pub fn stats(&self) -> (r: UiBacklogStats)
        ensures
            r == (UiBacklogStats {
                resident_bytes: self@.resident_bytes,
                frame_count: self@.frames.len() as usize,
                coalesced_frames: self@.coalesced_frames,
                dropped_display_frames: self@.dropped_display_frames,
            }),
            r.frame_count == self@.frames.len(),
            self@.wf(),
            r.resident_bytes <= self@.max_bytes,
            r.resident_bytes <= total_cost(self@.frames),
            self@.max_bytes < usize::MAX ==> self@.counts_exactly(),
            self@.counts_exactly() ==> FRAME_ACCOUNTING_OVERHEAD_BYTES * r.frame_count
                <= r.resident_bytes,
    {
        proof {
            use_type_invariant(self);
            lemma_overhead(self@.frames);
        }
        self.state.stats()
    }
}

proof fn lemma_overhead(frames: Seq<UiBacklogFrameView>)
    ensures
        FRAME_ACCOUNTING_OVERHEAD_BYTES * frames.len() <= total_cost(frames),
    decreases frames.len(),
{
    if frames.len() > 0 {
        lemma_overhead(frames.drop_first());
        assert(FRAME_ACCOUNTING_OVERHEAD_BYTES * frames.len() == FRAME_ACCOUNTING_OVERHEAD_BYTES
            * frames.drop_first().len() + FRAME_ACCOUNTING_OVERHEAD_BYTES) by (nonlinear_arith)
            requires
                frames.len() == frames.drop_first().len() + 1,
        ;
    }
}

/// A queue without its oldest `count` frames.
pub open spec fn without_oldest(queue: UiEventBacklogView, count: nat) -> UiEventBacklogView
    decreases count,
{
    if count == 0 || queue.frames.len() == 0 {
        queue
    } else {
        without_oldest(queue.without(0), (count - 1) as nat)
    }
}

/// A queue is emptied by taking out as many frames as it counts, and no fewer; then
/// nothing is charged any more. Each frame is charged its overhead at least.
pub proof fn as_many_frames_as_counted(queue: UiEventBacklogView, count: nat)
    requires
        queue.wf(),
        queue.counts_exactly(),
        count <= queue.frames.len(),
    ensures
        without_oldest(queue, count).wf(),
        without_oldest(queue, count).counts_exactly(),
        without_oldest(queue, count).frames == queue.frames.skip(count as int),
        without_oldest(queue, count).frames.len() == queue.frames.len() - count,
        count == queue.frames.len() ==> without_oldest(queue, count).resident_bytes == 0,
        FRAME_ACCOUNTING_OVERHEAD_BYTES * queue.frames.len() <= queue.resident_bytes,
        queue.resident_bytes <= queue.max_bytes,
    decreases count,
{
    lemma_overhead(queue.frames);
    if count == 0 {
        assert(queue.frames.skip(0) =~= queue.frames);
    } else {
        lemma_without_wf(queue, 0);
        lemma_total_remove(queue.frames, 0);
        as_many_frames_as_counted(queue.without(0), (count - 1) as nat);
        assert(queue.frames.remove(0).skip(count - 1) =~= queue.frames.skip(count as int));
    }
}

proof fn lemma_evicted_count(queue: UiEventBacklogView, incoming: usize)
    requires
        queue.counts_exactly(),
    ensures
        queue.evicted(incoming).counts_exactly(),
    decreases queue.frames.len(),
{
    let display = display_frames();
    lemma_first_where(queue.frames, display);
    match first_where(queue.frames, display) {
        Some(i) => {
            if sat_add_usize(queue.resident_bytes, incoming) > queue.max_bytes {
                lemma_total_remove(queue.frames, i);
                lemma_evicted_count(queue.without(i).one_dropped(), incoming);
            }
        },
        None => {},
    }
}

/// Under every bound the bytes charged stay those of the frames, from the empty queue
/// on, as long as the bytes of all frames can be counted in a `usize` at all.
pub proof fn frames_stay_counted(
    queue: UiEventBacklogView,
    key: UiCoalesceKeyView,
    payload: Seq<u8>,
)
    requires
        queue.counts_exactly(),
    ensures
        UiEventBacklogView::empty(queue.max_bytes).counts_exactly(),
        queue.frames.len() > 0 ==> queue.without(0).counts_exactly(),
        ({
            let after = queue.pushed_semantic(payload).0;
            total_cost(after.frames) <= usize::MAX ==> after.counts_exactly()
        }),
        ({
            let after = queue.pushed_display(key, payload).0;
            total_cost(after.frames) <= usize::MAX ==> after.counts_exactly()
        }),
{
    if queue.frames.len() > 0 {
        lemma_total_remove(queue.frames, 0);
    }
    let semantic = UiBacklogFrameView::Semantic(payload);
    lemma_evicted_count(queue, semantic.cost());
    lemma_total_push(queue.evicted(semantic.cost()).frames, semantic);
    let display = UiBacklogFrameView::Coalescible { key, payload };
    let shown = frames_with(key);
    lemma_first_where(queue.frames, shown);
    match first_where(queue.frames, shown) {
        Some(i) => {
            lemma_total_remove(queue.frames, i);
        },
        None => {},
    }
    let base = queue.superseded(key);
    lemma_evicted_count(base, display.cost());
    lemma_total_push(base.evicted(display.cost()).frames, display);
}

/// What was coalesced and what was dropped is counted for good: no step makes either
/// number smaller, and clearing the queue keeps them.
pub proof fn backlog_counts_never_go_back(
    queue: UiEventBacklogView,
    key: UiCoalesceKeyView,
    payload: Seq<u8>,
)
    ensures
        queue.pushed_semantic(payload).0.coalesced_frames >= queue.coalesced_frames,
        queue.pushed_semantic(payload).0.dropped_display_frames >= queue.dropped_display_frames,
        queue.pushed_display(key, payload).0.coalesced_frames >= queue.coalesced_frames,
        queue.pushed_display(key, payload).0.dropped_display_frames
            >= queue.dropped_display_frames,
        queue.without(0).coalesced_frames == queue.coalesced_frames,
        queue.without(0).dropped_display_frames == queue.dropped_display_frames,
{
    eviction_keeps_semantic_frames(queue, UiBacklogFrameView::Semantic(payload).cost());
    eviction_keeps_semantic_frames(
        queue.superseded(key),
        UiBacklogFrameView::Coalescible { key, payload }.cost(),
    );
}

} // verus!
