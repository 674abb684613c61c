//! Lines of a file from its end towards its start, in bounded reads.
use vstd::prelude::*;

verus! {

/// Bytes that one read takes at most.
pub const REVERSE_SCAN_BLOCK_BYTES: usize = 65536;

/// Model of a [`ReverseLineReader`].
pub struct ReverseView {
    /// The bytes of the file from `buffer_start` on.
    pub buffer: Seq<u8>,
    pub buffer_start: u64,
    /// What lies before this position of the buffer has not been returned.
    pub cursor: int,
    /// Where the line that comes next ends, its terminator included: it can be read
    /// again from there.
    pub line_end: u64,
    pub scanned_bytes: usize,
    pub max_scan_bytes: usize,
    pub max_line_bytes: usize,
}

/// What the reader has, or what it needs.
pub enum ReverseOutcome {
    /// `start..end` of the buffer is a line.
    Line { start: int, end: int },
    /// A line is longer than the bound.
    LineTooLarge,
    /// `len` bytes from `offset` have to be read; `keep` bytes of the buffer
    /// belong to the line that goes on in them.
    NeedBlock { offset: u64, len: usize, keep: int },
    BudgetExhausted,
    Eof,
}

/// The position of the last line feed before `end`, or -1.
pub open spec fn last_newline(buffer: Seq<u8>, end: int) -> int
    decreases end,
{
    if end <= 0 {
        -1
    } else if buffer[end - 1] == 10 {
        end - 1
    } else {
        last_newline(buffer, end - 1)
    }
}

/// Whether a byte is part of the end of a line.
pub open spec fn ends_lines(byte: u8) -> bool {
    byte == 10 || byte == 13
}

/// Where the line that ends at `cursor` ends once its terminator is cut off.
pub open spec fn content_end(buffer: Seq<u8>, cursor: int) -> int {
    let unfed = if cursor > 0 && buffer[cursor - 1] == 10 {
        cursor - 1
    } else {
        cursor
    };
    if unfed > 0 && buffer[unfed - 1] == 13 {
        unfed - 1
    } else {
        unfed
    }
}

impl ReverseView {
    /// A reader of what lies before `before_offset`, of which nothing is read yet.
    pub open spec fn begun(
        before_offset: u64,
        max_scan_bytes: usize,
        max_line_bytes: usize,
    ) -> Self {
        ReverseView {
            buffer: Seq::empty(),
            buffer_start: before_offset,
            cursor: 0,
            line_end: before_offset,
            scanned_bytes: 0,
            max_scan_bytes,
            max_line_bytes,
        }
    }

    pub open spec fn wf(self) -> bool {
        &&& 0 <= self.cursor <= self.buffer.len()
        &&& self.buffer_start + self.buffer.len() <= u64::MAX
        &&& self.before_offset() <= self.line_end
        &&& self.scanned_bytes <= self.max_scan_bytes
    }

    /// The offset before which nothing has been returned.
    pub open spec fn before_offset(self) -> int {
        self.buffer_start + self.cursor
    }

    /// How much may still be read.
    pub open spec fn block_len(self) -> usize {
        let left = (self.max_scan_bytes - self.scanned_bytes) as usize;
        let most = if left < REVERSE_SCAN_BLOCK_BYTES {
            left
        } else {
            REVERSE_SCAN_BLOCK_BYTES
        };
        if self.buffer_start < most {
            self.buffer_start as usize
        } else {
            most
        }
    }

    /// What to do where the buffer does not hold the start of the line.
    pub open spec fn needs(self, keep: int) -> ReverseOutcome {
        if self.buffer_start == 0 {
            ReverseOutcome::Eof
        } else if self.scanned_bytes == self.max_scan_bytes {
            ReverseOutcome::BudgetExhausted
        } else {
            ReverseOutcome::NeedBlock {
                offset: (self.buffer_start - self.block_len()) as u64,
                len: self.block_len(),
                keep,
            }
        }
    }

    /// The next line towards the start, or what is needed for it.
    pub open spec fn next(self) -> ReverseOutcome {
        if self.cursor == 0 {
            self.needs(0)
        } else {
            let end = content_end(self.buffer, self.cursor);
            let newline = last_newline(self.buffer, end);
            if newline >= 0 || self.buffer_start == 0 {
                if end - (newline + 1) > self.max_line_bytes {
                    ReverseOutcome::LineTooLarge
                } else {
                    ReverseOutcome::Line { start: newline + 1, end }
                }
            } else if end > self.max_line_bytes {
                ReverseOutcome::LineTooLarge
            } else {
                self.needs(end)
            }
        }
    }

    /// After the line that starts at `start` was returned.
    pub open spec fn at(self, start: int) -> Self {
        ReverseView { cursor: start, line_end: (self.buffer_start + start) as u64, ..self }
    }

    /// After the block that was needed was read.
    pub open spec fn supplied(self, block: Seq<u8>, keep: int) -> Self {
        ReverseView {
            buffer: block + self.buffer.take(keep),
            buffer_start: (self.buffer_start - block.len()) as u64,
            cursor: block.len() + keep,
            scanned_bytes: (self.scanned_bytes + block.len()) as usize,
            ..self
        }
    }

    /// Whether the buffer holds what `file` holds there.
    pub open spec fn agrees(self, file: Seq<u8>) -> bool {
        &&& self.buffer_start + self.buffer.len() <= file.len()
        &&& self.buffer == file.subrange(
            self.buffer_start as int,
            self.buffer_start + self.buffer.len(),
        )
    }
}

pub(crate) proof fn lemma_last_newline(buffer: Seq<u8>, end: int)
    requires
        0 <= end <= buffer.len(),
    ensures
        -1 <= last_newline(buffer, end) < end || (end == 0 && last_newline(buffer, end) == -1),
        last_newline(buffer, end) >= 0 ==> buffer[last_newline(buffer, end)] == 10,
        forall|k: int| last_newline(buffer, end) < k < end ==> buffer[k] != 10,
    decreases end,
{
    if end > 0 && buffer[end - 1] != 10 {
        lemma_last_newline(buffer, end - 1);
    }
}

/// What was needed and read keeps the buffer in agreement with the file, and loses
/// nothing but ends of lines.
pub proof fn supplied_block_agrees(
    reader: ReverseView,
    file: Seq<u8>,
    offset: u64,
    len: usize,
    keep: int,
)
    requires
        reader.wf(),
        reader.agrees(file),
        reader.next() == (ReverseOutcome::NeedBlock { offset, len, keep }),
    ensures
        offset + len == reader.buffer_start,
        0 < len,
        reader.supplied(file.subrange(offset as int, offset + len), keep).wf(),
        reader.supplied(file.subrange(offset as int, offset + len), keep).agrees(file),
        reader.supplied(file.subrange(offset as int, offset + len), keep).scanned_bytes
            == reader.scanned_bytes + len,
        reader.supplied(file.subrange(offset as int, offset + len), keep).before_offset()
            == reader.buffer_start + keep,
        keep <= reader.cursor,
        forall|k: int|
            reader.buffer_start + keep <= k < reader.before_offset() ==> ends_lines(
                #[trigger] file[k],
            ),
{
    let after = reader.supplied(file.subrange(offset as int, offset + len), keep);
    if reader.cursor > 0 {
        lemma_last_newline(reader.buffer, content_end(reader.buffer, reader.cursor));
    }
    assert(0 <= keep <= reader.buffer.len());
    assert forall|k: int| reader.buffer_start + keep <= k < reader.before_offset() implies ends_lines(
        #[trigger] file[k],
    ) by {
        assert(reader.buffer[k - reader.buffer_start] == file[k]);
    }
    assert(after.buffer =~= file.subrange(
        after.buffer_start as int,
        after.buffer_start + after.buffer.len(),
    ));
}

/// A line that is returned is a line of the file: it starts the file or follows a
/// line feed, holds none, and what remains to be read ends where it starts. Nothing but
/// ends of lines lies between it and what was returned before.
pub proof fn returned_line_is_a_line(reader: ReverseView, file: Seq<u8>, start: int, end: int)
    requires
        reader.wf(),
        reader.agrees(file),
        reader.next() == (ReverseOutcome::Line { start, end }),
    ensures
        0 <= start <= end <= reader.buffer.len(),
        start < reader.cursor,
        end - start <= reader.max_line_bytes,
        ({
            let from = reader.buffer_start + start;
            let to = reader.buffer_start + end;
            &&& reader.buffer.subrange(start, end) == file.subrange(from, to)
            &&& from == 0 || file[from - 1] == 10
            &&& forall|k: int| from <= k < to ==> file[k] != 10
            &&& to <= reader.before_offset()
            &&& forall|k: int|
                to <= k < reader.before_offset() ==> ends_lines(#[trigger] file[k])
            &&& reader.at(start).before_offset() == from
            &&& reader.at(start).wf()
            &&& reader.at(start).agrees(file)
        }),
{
    let cut = content_end(reader.buffer, reader.cursor);
    lemma_last_newline(reader.buffer, cut);
    let from = reader.buffer_start + start;
    let to = reader.buffer_start + end;
    assert(reader.buffer.subrange(start, end) =~= file.subrange(from, to));
    assert forall|k: int| from <= k < to implies file[k] != 10 by {
        assert(reader.buffer[k - reader.buffer_start] == file[k]);
    }
    assert forall|k: int| to <= k < reader.before_offset() implies ends_lines(
        #[trigger] file[k],
    ) by {
        assert(reader.buffer[k - reader.buffer_start] == file[k]);
    }
    if from > 0 && start > 0 {
        assert(reader.buffer[start - 1] == file[from - 1]);
    }
}

/// Reads never exceed the scan budget.
pub proof fn scan_stays_within_budget(reader: ReverseView, offset: u64, len: usize, keep: int)
    requires
        reader.wf(),
        reader.next() == (ReverseOutcome::NeedBlock { offset, len, keep }),
    ensures
        reader.scanned_bytes + len <= reader.max_scan_bytes,
        len <= REVERSE_SCAN_BLOCK_BYTES,
{
}

/// What the owner of the file has to do next, or what it gets.
#[derive(Debug, PartialEq, Eq)]
pub enum ReverseRead {
    Line(Vec<u8>),
    LineTooLarge { limit: usize },
    /// Read `len` bytes from `offset` and hand them in.
    NeedBlock { offset: u64, len: usize },
    BudgetExhausted,
    Eof,
}

/// Yields the lines of a file from its end. It does not read: it says which bytes
/// it needs, and its owner reads them.
#[derive(Debug)]
pub struct ReverseLineReader {
    buffer: Vec<u8>,
    buffer_start: u64,
    cursor: usize,
    line_end: u64,
    scanned_bytes: usize,
    max_scan_bytes: usize,
    max_line_bytes: usize,
    kept: usize,
}

impl View for ReverseLineReader {
    type V = ReverseView;

    closed spec fn view(&self) -> ReverseView {
        ReverseView {
            buffer: self.buffer@,
            buffer_start: self.buffer_start,
            cursor: self.cursor as int,
            line_end: self.line_end,
            scanned_bytes: self.scanned_bytes,
            max_scan_bytes: self.max_scan_bytes,
            max_line_bytes: self.max_line_bytes,
        }
    }
}

fn find_last_newline(buffer: &Vec<u8>, end: usize) -> (r: Option<usize>)
    requires
        end <= buffer@.len(),
    ensures
        match r {
            Some(at) => at == last_newline(buffer@, end as int) && at < end,
            None => last_newline(buffer@, end as int) == -1,
        },
{
    let mut i: usize = end;
    while i > 0
        invariant
            i <= end <= buffer@.len(),
            last_newline(buffer@, i as int) == last_newline(buffer@, end as int),
        decreases i,
    {
        if buffer[i - 1] == 10 {
            return Some(i - 1);
        }
        i -= 1;
    }
    None
}

/// A copy of `bytes[from..to]`.
pub fn copy_bytes(bytes: &[u8], from: usize, to: usize) -> (r: Vec<u8>)
    requires
        from <= to <= bytes@.len(),
    ensures
        r@ == bytes@.subrange(from as int, to as int),
{
    let mut r: Vec<u8> = Vec::with_capacity(to - from);
    let mut i: usize = from;
    while i < to
        invariant
            from <= i <= to <= bytes@.len(),
            r@ =~= bytes@.subrange(from as int, i as int),
        decreases to - i,
    {
        r.push(bytes[i]);
        i += 1;
    }
    r
}

impl ReverseLineReader {
    /// A reader of what lies before `before_offset`.
    pub fn new(before_offset: u64, max_scan_bytes: usize, max_line_bytes: usize) -> (r: Self)
        ensures
            r@ == ReverseView::begun(before_offset, max_scan_bytes, max_line_bytes),
            r@.wf(),
            r@.before_offset() == before_offset,
    {
        let r = ReverseLineReader {
            buffer: Vec::new(),
            buffer_start: before_offset,
            cursor: 0,
            line_end: before_offset,
            scanned_bytes: 0,
            max_scan_bytes,
            max_line_bytes,
            kept: 0,
        };
        assert(r.buffer@ =~= Seq::<u8>::empty());
        r
    }

    /// The bytes of the present buffer that the block to be read continues.
    pub closed spec fn keeps(&self) -> int {
        self.kept as int
    }

    pub fn before_offset(&self) -> (r: u64)
        requires
            self@.wf(),
        ensures
            r == self@.before_offset(),
    {
        self.buffer_start + self.cursor as u64
    }

    /// Where the line that comes next ends, its terminator included.
    pub fn line_end(&self) -> (r: u64)
        ensures
            r == self@.line_end,
    {
        self.line_end
    }

    pub fn scanned_bytes(&self) -> (r: usize)
        ensures
            r == self@.scanned_bytes,
    {
        self.scanned_bytes
    }

    fn needed(&mut self, keep: usize) -> (r: ReverseRead)
        requires
            old(self)@.wf(),
        ensures
            final(self)@ == old(self)@,
            final(self).keeps() == keep,
            match old(self)@.needs(keep as int) {
                ReverseOutcome::NeedBlock { offset, len, keep } => r
                    == (ReverseRead::NeedBlock { offset, len }),
                ReverseOutcome::BudgetExhausted => r == ReverseRead::BudgetExhausted,
                _ => r == ReverseRead::Eof,
            },
    {
        self.kept = keep;
        if self.buffer_start == 0 {
            return ReverseRead::Eof;
        }
        let left: usize = self.max_scan_bytes - self.scanned_bytes;
        if left == 0 {
            return ReverseRead::BudgetExhausted;
        }
        let most: usize = if left < REVERSE_SCAN_BLOCK_BYTES {
            left
        } else {
            REVERSE_SCAN_BLOCK_BYTES
        };
        let len: usize = if self.buffer_start < most as u64 {
            self.buffer_start as usize
        } else {
            most
        };
        ReverseRead::NeedBlock { offset: self.buffer_start - len as u64, len }
    }

    /// The next line towards the start, or what is needed for it.
    pub fn next_line(&mut self) -> (r: ReverseRead)
        requires
            old(self)@.wf(),
        ensures
            final(self)@.wf(),
            match old(self)@.next() {
                ReverseOutcome::Line { start, end } => r is Line
                    && r->Line_0@ == old(self)@.buffer.subrange(start, end)
                    && final(self)@ == old(self)@.at(start) && start
                    < old(self)@.cursor,
                ReverseOutcome::LineTooLarge => r == (ReverseRead::LineTooLarge {
                    limit: old(self)@.max_line_bytes,
                }) && final(self)@ == old(self)@,
                ReverseOutcome::NeedBlock { offset, len, keep } => r == (ReverseRead::NeedBlock {
                    offset,
                    len,
                }) && final(self)@ == old(self)@ && final(self).keeps() == keep,
                ReverseOutcome::BudgetExhausted => {
                    r == ReverseRead::BudgetExhausted && final(self)@ == old(self)@
                },
                ReverseOutcome::Eof => r == ReverseRead::Eof && final(self)@ == old(self)@,
            },
    {
        if self.cursor == 0 {
            return self.needed(0);
        }
        let mut end: usize = self.cursor;
        if self.buffer[end - 1] == 10 {
            end -= 1;
        }
        if end > 0 && self.buffer[end - 1] == 13 {
            end -= 1;
        }
        proof {
            lemma_last_newline(self.buffer@, end as int);
        }
        let start: usize = match find_last_newline(&self.buffer, end) {
            Some(newline) => newline + 1,
            None => {
                if self.buffer_start == 0 {
                    0
                } else {
                    if end > self.max_line_bytes {
                        return ReverseRead::LineTooLarge { limit: self.max_line_bytes };
                    }
                    return self.needed(end);
                }
            },
        };
        if end - start > self.max_line_bytes {
            return ReverseRead::LineTooLarge { limit: self.max_line_bytes };
        }
        let line = copy_bytes(self.buffer.as_slice(), start, end);
        self.cursor = start;
        self.line_end = self.buffer_start + start as u64;
        ReverseRead::Line(line)
    }

    /// Takes the block that was asked for.
    pub fn supply(&mut self, block: Vec<u8>)
        requires
            old(self)@.wf(),
            old(self)@.next() == (ReverseOutcome::NeedBlock {
                offset: (old(self)@.buffer_start - block@.len()) as u64,
                len: block@.len() as usize,
                keep: old(self).keeps(),
            }),
        ensures
            final(self)@ == old(self)@.supplied(block@, old(self).keeps()),
            final(self)@.wf(),
    {
        proof {
            if self.cursor > 0 {
                lemma_last_newline(self.buffer@, content_end(self.buffer@, self.cursor as int));
            }
        }
        let len: usize = block.len();
        let kept: usize = self.kept;
        let mut combined = block;
        let mut fragment = copy_bytes(self.buffer.as_slice(), 0, kept);
        assert(fragment@ =~= self.buffer@.take(kept as int));
        combined.append(&mut fragment);
        self.scanned_bytes = self.scanned_bytes + len;
        self.buffer_start = self.buffer_start - len as u64;
        self.cursor = combined.len();
        self.buffer = combined;
        self.kept = 0;
    }
}

} // verus!
