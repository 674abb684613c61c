//! JSON with comments and trailing commas, made plain.
use vstd::prelude::*;

verus! {

/// Where a byte of a document stands.
#[derive(Clone, Copy, Debug, PartialEq, Eq, Structural)]
pub enum JsoncMode {
    Code,
    Text,
    /// In a text, behind a backslash.
    Escaped,
    LineComment,
    BlockComment,
}

/// Where the byte after `byte` stands, inside a text.
pub open spec fn after_text_byte(mode: JsoncMode, byte: u8) -> JsoncMode {
    if mode == JsoncMode::Escaped {
        JsoncMode::Text
    } else if byte == 92 {
        JsoncMode::Escaped
    } else if byte == 34 {
        JsoncMode::Code
    } else {
        JsoncMode::Text
    }
}

/// The document with every byte of a comment, but its line feeds, blanked.
pub open spec fn uncommented(bytes: Seq<u8>, mode: JsoncMode) -> Seq<u8>
    decreases bytes.len(), (if mode == JsoncMode::LineComment { 1int } else { 0int }),
{
    if bytes.len() == 0 {
        Seq::empty()
    } else {
        let byte = bytes[0];
        let rest = bytes.drop_first();
        match mode {
            JsoncMode::Text | JsoncMode::Escaped => seq![byte] + uncommented(
                rest,
                after_text_byte(mode, byte),
            ),
            JsoncMode::Code => if byte == 34 {
                seq![byte] + uncommented(rest, JsoncMode::Text)
            } else if byte == 47 && rest.len() > 0 && rest[0] == 47 {
                seq![32u8, 32u8] + uncommented(rest.drop_first(), JsoncMode::LineComment)
            } else if byte == 47 && rest.len() > 0 && rest[0] == 42 {
                seq![32u8, 32u8] + uncommented(rest.drop_first(), JsoncMode::BlockComment)
            } else {
                seq![byte] + uncommented(rest, JsoncMode::Code)
            },
            JsoncMode::LineComment => if byte == 10 {
                uncommented(bytes, JsoncMode::Code)
            } else {
                seq![32u8] + uncommented(rest, JsoncMode::LineComment)
            },
            JsoncMode::BlockComment => if byte == 42 && rest.len() > 0 && rest[0] == 47 {
                seq![32u8, 32u8] + uncommented(rest.drop_first(), JsoncMode::Code)
            } else {
                seq![
                    if byte == 10 {
                        10u8
                    } else {
                        32u8
                    },
                ] + uncommented(rest, JsoncMode::BlockComment)
            },
        }
    }
}

/// ASCII white space: tab, line feed, form feed, carriage return, space.
pub open spec fn blank(byte: u8) -> bool {
    byte == 9 || byte == 10 || byte == 12 || byte == 13 || byte == 32
}

/// The first byte that is no white space.
pub open spec fn first_solid(bytes: Seq<u8>) -> Option<u8>
    decreases bytes.len(),
{
    if bytes.len() == 0 {
        None
    } else if blank(bytes[0]) {
        first_solid(bytes.drop_first())
    } else {
        Some(bytes[0])
    }
}

/// Whether what follows a comma closes an object or a list.
pub open spec fn closes_next(rest: Seq<u8>) -> bool {
    first_solid(rest) == Some(125u8) || first_solid(rest) == Some(93u8)
}

/// The document without the commas that stand before a closing bracket.
pub open spec fn without_trailing_commas(bytes: Seq<u8>, mode: JsoncMode) -> Seq<u8>
    decreases bytes.len(),
{
    if bytes.len() == 0 {
        Seq::empty()
    } else {
        let byte = bytes[0];
        let rest = bytes.drop_first();
        if mode == JsoncMode::Text || mode == JsoncMode::Escaped {
            seq![byte] + without_trailing_commas(rest, after_text_byte(mode, byte))
        } else if byte == 34 {
            seq![byte] + without_trailing_commas(rest, JsoncMode::Text)
        } else if byte == 44 && closes_next(rest) {
            without_trailing_commas(rest, JsoncMode::Code)
        } else {
            seq![byte] + without_trailing_commas(rest, JsoncMode::Code)
        }
    }
}

/// The plain JSON of a document with comments and trailing commas.
pub open spec fn plain_json(bytes: Seq<u8>) -> Seq<u8> {
    without_trailing_commas(uncommented(bytes, JsoncMode::Code), JsoncMode::Code)
}

fn text_mode_after(mode: JsoncMode, byte: u8) -> (r: JsoncMode)
    ensures
        r == after_text_byte(mode, byte),
{
    if mode == JsoncMode::Escaped {
        JsoncMode::Text
    } else if byte == 92 {
        JsoncMode::Escaped
    } else if byte == 34 {
        JsoncMode::Code
    } else {
        JsoncMode::Text
    }
}

fn blank_comments(bytes: &[u8]) -> (out: Vec<u8>)
    ensures
        out@ == uncommented(bytes@, JsoncMode::Code),
{
    let mut out: Vec<u8> = Vec::with_capacity(bytes.len());
    let mut mode = JsoncMode::Code;
    let mut i: usize = 0;
    let ghost whole = uncommented(bytes@, JsoncMode::Code);
    assert(bytes@.skip(0) =~= bytes@);
    assert(out@ + whole =~= whole);
    while i < bytes.len()
        invariant
            i <= bytes@.len(),
            whole == out@ + uncommented(bytes@.skip(i as int), mode),
        decreases bytes@.len() - i, (if mode == JsoncMode::LineComment { 1int } else { 0int }),
    {
        let byte: u8 = bytes[i];
        let ghost here = bytes@.skip(i as int);
        let ghost before = out@;
        assert(here[0] == byte);
        assert(here.drop_first() =~= bytes@.skip(i + 1));
        let pair = i + 1 < bytes.len();
        assert(pair ==> here.drop_first()[0] == bytes@[i + 1]);
        assert(pair ==> here.drop_first().drop_first() =~= bytes@.skip(i + 2));
        match mode {
            JsoncMode::Text | JsoncMode::Escaped => {
                out.push(byte);
                mode = text_mode_after(mode, byte);
                i += 1;
                assert(whole =~= out@ + uncommented(bytes@.skip(i as int), mode));
            },
            JsoncMode::Code => {
                if byte == 34 {
                    out.push(byte);
                    mode = JsoncMode::Text;
                    i += 1;
                } else if byte == 47 && pair && bytes[i + 1] == 47 {
                    out.push(32);
                    out.push(32);
                    mode = JsoncMode::LineComment;
                    i += 2;
                } else if byte == 47 && pair && bytes[i + 1] == 42 {
                    out.push(32);
                    out.push(32);
                    mode = JsoncMode::BlockComment;
                    i += 2;
                } else {
                    out.push(byte);
                    i += 1;
                }
                assert(whole =~= out@ + uncommented(bytes@.skip(i as int), mode));
            },
            JsoncMode::LineComment => {
                if byte == 10 {
                    mode = JsoncMode::Code;
                } else {
                    out.push(32);
                    i += 1;
                }
                assert(whole =~= out@ + uncommented(bytes@.skip(i as int), mode));
            },
            JsoncMode::BlockComment => {
                if byte == 42 && pair && bytes[i + 1] == 47 {
                    out.push(32);
                    out.push(32);
                    mode = JsoncMode::Code;
                    i += 2;
                } else {
                    out.push(
                        if byte == 10 {
                            10
                        } else {
                            32
                        },
                    );
                    i += 1;
                }
                assert(whole =~= out@ + uncommented(bytes@.skip(i as int), mode));
            },
        }
    }
    assert(bytes@.skip(i as int).len() == 0);
    assert(whole =~= out@);
    out
}

fn next_closes(bytes: &Vec<u8>, from: usize) -> (r: bool)
    requires
        from <= bytes@.len(),
    ensures
        r == closes_next(bytes@.skip(from as int)),
{
    let mut i: usize = from;
    while i < bytes.len()
        invariant
            from <= i <= bytes@.len(),
            first_solid(bytes@.skip(from as int)) == first_solid(bytes@.skip(i as int)),
        decreases bytes@.len() - i,
    {
        let byte: u8 = bytes[i];
        assert(bytes@.skip(i as int)[0] == byte);
        assert(bytes@.skip(i as int).drop_first() =~= bytes@.skip(i + 1));
        if !(byte == 9 || byte == 10 || byte == 12 || byte == 13 || byte == 32) {
            return byte == 125 || byte == 93;
        }
        i += 1;
    }
    false
}

fn drop_trailing_commas(bytes: &Vec<u8>) -> (out: Vec<u8>)
    ensures
        out@ == without_trailing_commas(bytes@, JsoncMode::Code),
{
    let mut out: Vec<u8> = Vec::with_capacity(bytes.len());
    let mut mode = JsoncMode::Code;
    let mut i: usize = 0;
    let ghost whole = without_trailing_commas(bytes@, JsoncMode::Code);
    assert(bytes@.skip(0) =~= bytes@);
    assert(out@ + whole =~= whole);
    while i < bytes.len()
        invariant
            i <= bytes@.len(),
            mode == JsoncMode::Code || mode == JsoncMode::Text || mode == JsoncMode::Escaped,
            whole == out@ + without_trailing_commas(bytes@.skip(i as int), mode),
        decreases bytes@.len() - i,
    {
        let byte: u8 = bytes[i];
        let ghost here = bytes@.skip(i as int);
        assert(here[0] == byte);
        assert(here.drop_first() =~= bytes@.skip(i + 1));
        if mode == JsoncMode::Text || mode == JsoncMode::Escaped {
            out.push(byte);
            mode = text_mode_after(mode, byte);
        } else if byte == 34 {
            out.push(byte);
            mode = JsoncMode::Text;
        } else if byte == 44 && next_closes(bytes, i + 1) {
        } else {
            out.push(byte);
        }
        i += 1;
        assert(whole =~= out@ + without_trailing_commas(bytes@.skip(i as int), mode));
    }
    assert(bytes@.skip(i as int).len() == 0);
    assert(whole =~= out@);
    out
}

/// Blanks the comments of a document and drops its trailing commas. Texts stay as
/// they are.
pub fn remove_jsonc_comments_and_trailing_commas(input: &str) -> (out: Vec<u8>)
    ensures
        out@ == plain_json(vstd::utf8::encode_utf8(input@)),
{
    let without_comments = blank_comments(input.as_bytes());
    drop_trailing_commas(&without_comments)
}

/// Blanking comments moves nothing: the document keeps its length, and its lines
/// end where they ended.
pub proof fn blanking_keeps_positions(bytes: Seq<u8>, mode: JsoncMode)
    ensures
        uncommented(bytes, mode).len() == bytes.len(),
        forall|i: int|
            0 <= i < bytes.len() && #[trigger] bytes[i] == 10 ==> uncommented(bytes, mode)[i] == 10,
    decreases bytes.len(), (if mode == JsoncMode::LineComment { 1int } else { 0int }),
{
    if bytes.len() > 0 {
        let byte = bytes[0];
        let rest = bytes.drop_first();
        let out = uncommented(bytes, mode);
        match mode {
            JsoncMode::Text | JsoncMode::Escaped => {
                let next = after_text_byte(mode, byte);
                blanking_keeps_positions(rest, next);
                assert forall|i: int|
                    0 <= i < bytes.len() && #[trigger] bytes[i] == 10 implies out[i] == 10 by {
                    if i > 0 {
                        assert(rest[i - 1] == 10);
                    }
                }
            },
            JsoncMode::LineComment => {
                if byte == 10 {
                    blanking_keeps_positions(bytes, JsoncMode::Code);
                } else {
                    blanking_keeps_positions(rest, JsoncMode::LineComment);
                    assert forall|i: int|
                        0 <= i < bytes.len() && #[trigger] bytes[i] == 10 implies out[i] == 10 by {
                        assert(rest[i - 1] == 10);
                    }
                }
            },
            JsoncMode::Code => {
                if byte == 47 && rest.len() > 0 && (rest[0] == 47 || rest[0] == 42) {
                    let next = if rest[0] == 47 {
                        JsoncMode::LineComment
                    } else {
                        JsoncMode::BlockComment
                    };
                    blanking_keeps_positions(rest.drop_first(), next);
                    assert forall|i: int|
                        0 <= i < bytes.len() && #[trigger] bytes[i] == 10 implies out[i] == 10 by {
                        assert(rest.drop_first()[i - 2] == 10);
                    }
                } else {
                    let next = if byte == 34 {
                        JsoncMode::Text
                    } else {
                        JsoncMode::Code
                    };
                    blanking_keeps_positions(rest, next);
                    assert forall|i: int|
                        0 <= i < bytes.len() && #[trigger] bytes[i] == 10 implies out[i] == 10 by {
                        if i > 0 {
                            assert(rest[i - 1] == 10);
                        }
                    }
                }
            },
            JsoncMode::BlockComment => {
                if byte == 42 && rest.len() > 0 && rest[0] == 47 {
                    blanking_keeps_positions(rest.drop_first(), JsoncMode::Code);
                    assert forall|i: int|
                        0 <= i < bytes.len() && #[trigger] bytes[i] == 10 implies out[i] == 10 by {
                        assert(rest.drop_first()[i - 2] == 10);
                    }
                } else {
                    blanking_keeps_positions(rest, JsoncMode::BlockComment);
                    assert forall|i: int|
                        0 <= i < bytes.len() && #[trigger] bytes[i] == 10 implies out[i] == 10 by {
                        if i > 0 {
                            assert(rest[i - 1] == 10);
                        }
                    }
                }
            },
        }
    }
}

} // verus!
