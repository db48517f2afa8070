//! File content as lines of text: splitting, decoding, trimming, sniffing.

use vstd::prelude::*;
use vstd::utf8::{decode_utf8, valid_utf8};

use crate::config::views;

verus! {

/// The byte that ends a line.
pub const NEWLINE: u8 = 10;

/// The byte that, before a `NEWLINE`, belongs to the line ending too.
pub const CARRIAGE_RETURN: u8 = 13;

/// The content split at each `NEWLINE`: one more piece than there are newlines.
pub open spec fn segments(b: Seq<u8>) -> Seq<Seq<u8>>
    decreases b.len(),
{
    if b.len() == 0 {
        seq![Seq::empty()]
    } else {
        let s = segments(b.drop_last());
        if b.last() == NEWLINE {
            s.push(Seq::empty())
        } else {
            s.update(s.len() - 1, s.last().push(b.last()))
        }
    }
}

/// A line that was ended by a newline, without a carriage return before it.
pub open spec fn strip_cr(l: Seq<u8>) -> Seq<u8> {
    if l.len() > 0 && l.last() == CARRIAGE_RETURN {
        l.drop_last()
    } else {
        l
    }
}

/// The physical lines of the content, without their line endings: every
/// newline ends a line, and what follows the last newline is a line when it
/// is not empty.
pub open spec fn byte_lines(b: Seq<u8>) -> Seq<Seq<u8>> {
    let s = segments(b);
    let ended = s.drop_last().map_values(|l: Seq<u8>| strip_cr(l));
    if s.last().len() == 0 {
        ended
    } else {
        ended.push(s.last())
    }
}

/// The lines of the content as text, or `None` when one of them is not UTF-8.
pub open spec fn text_lines(b: Seq<u8>) -> Option<Seq<Seq<char>>> {
    let ls = byte_lines(b);
    if forall|i: int| 0 <= i < ls.len() ==> valid_utf8(#[trigger] ls[i]) {
        Some(ls.map_values(|l: Seq<u8>| decode_utf8(l)))
    } else {
        None
    }
}

/// The characters that Unicode gives the White_Space property.
pub open spec fn is_white_space(c: char) -> bool {
    let u = c as u32;
    ||| 0x09 <= u <= 0x0D
    ||| u == 0x20
    ||| u == 0x85
    ||| u == 0xA0
    ||| u == 0x1680
    ||| 0x2000 <= u <= 0x200A
    ||| u == 0x2028
    ||| u == 0x2029
    ||| u == 0x202F
    ||| u == 0x205F
    ||| u == 0x3000
}

/// The text without its leading white space.
pub open spec fn trim_leading(s: Seq<char>) -> Seq<char>
    decreases s.len(),
{
    if s.len() > 0 && is_white_space(s[0]) {
        trim_leading(s.drop_first())
    } else {
        s
    }
}

/// The mimetype that the content's leading bytes show.
pub uninterp spec fn sniffed_mimetype(content: Seq<u8>) -> Seq<char>;

/// Relies on mimetype_detector::detect: the mimetype is read from the
/// content's leading bytes (magic numbers, text heuristics) by a fixed table,
/// so it depends on the bytes alone.
#[verifier::external_body]
pub(crate) fn sniff_mimetype(content: &[u8]) -> (r: String)
    ensures
        r@ == sniffed_mimetype(content@),
{
    mimetype_detector::detect(content).mime().to_string()
}

/// Relies on String::from_utf8: it accepts exactly the valid UTF-8 byte
/// sequences and decodes them.
#[verifier::external_body]
fn decode_line(bytes: Vec<u8>) -> (r: Option<String>)
    ensures
        match r {
            Some(s) => valid_utf8(bytes@) && s@ == decode_utf8(bytes@),
            None => !valid_utf8(bytes@),
        },
{
    String::from_utf8(bytes).ok()
}

/// Relies on str::trim_start: it removes the leading characters that have
/// the Unicode White_Space property.
#[verifier::external_body]
pub(crate) fn trim_start(s: &str) -> (r: String)
    ensures
        r@ == trim_leading(s@),
{
    s.trim_start().to_string()
}

/// `segments` never returns an empty sequence.
pub proof fn lemma_segments_nonempty(b: Seq<u8>)
    ensures
        segments(b).len() >= 1,
    decreases b.len(),
{
    if b.len() > 0 {
        lemma_segments_nonempty(b.drop_last());
    }
}

/// A segment that is complete in a prefix of the content is a complete
/// segment of the whole content, the same one.
pub proof fn lemma_segments_prefix(b: Seq<u8>, j: int, k: int)
    requires
        0 <= j <= b.len(),
        0 <= k < segments(b.take(j)).len() - 1,
    ensures
        k < segments(b).len() - 1,
        segments(b)[k] == segments(b.take(j))[k],
    decreases b.len() - j,
{
    if j < b.len() {
        let t = b.take(j + 1);
        assert(t.drop_last() =~= b.take(j));
        lemma_segments_prefix(b, j + 1, k);
    } else {
        assert(b.take(j) =~= b);
    }
}

fn without_cr(line: Vec<u8>) -> (r: Vec<u8>)
    ensures
        r@ == strip_cr(line@),
{
    let mut line = line;
    let n = line.len();
    if n > 0 && line[n - 1] == CARRIAGE_RETURN {
        line.pop();
    }
    line
}

/// The lines of `content` as text, with their line endings removed; `None`
/// when a line is not valid UTF-8.
pub fn decode_lines(content: &[u8]) -> (r: Option<Vec<String>>)
    ensures
        match r {
            Some(v) => text_lines(content@) == Some(views(v@)),
            None => text_lines(content@) is None,
        },
{
    let ghost b = content@;
    let mut lines: Vec<String> = Vec::new();
    let mut current: Vec<u8> = Vec::new();
    let mut i: usize = 0;
    proof {
        assert(b.take(0) =~= Seq::<u8>::empty());
    }
    while i < content.len()
        invariant
            0 <= i <= b.len(),
            b == content@,
            segments(b.take(i as int)).len() >= 1,
            current@ == segments(b.take(i as int)).last(),
            lines@.len() == segments(b.take(i as int)).len() - 1,
            forall|k: int|
                0 <= k < lines@.len() ==> valid_utf8(
                    #[trigger] strip_cr(segments(b.take(i as int))[k]),
                ) && lines@[k]@ == decode_utf8(strip_cr(segments(b.take(i as int))[k])),
        decreases b.len() - i,
    {
        let ghost s0 = segments(b.take(i as int));
        let ghost t = b.take(i + 1);
        assert(t.drop_last() =~= b.take(i as int));
        assert(t.last() == b[i as int]);
        if content[i] == NEWLINE {
            let done = without_cr(current);
            match decode_line(done) {
                Some(text) => {
                    lines.push(text);
                },
                None => {
                    proof {
                        let k = s0.len() - 1;
                        lemma_segments_prefix(b, i as int + 1, k);
                        assert(!valid_utf8(byte_lines(b)[k]));
                    }
                    return None;
                },
            }
            current = Vec::new();
        } else {
            current.push(content[i]);
        }
        i += 1;
        proof {
            lemma_segments_nonempty(t);
        }
    }
    proof {
        assert(b.take(b.len() as int) =~= b);
    }
    if current.len() > 0 {
        match decode_line(current) {
            Some(text) => {
                lines.push(text);
            },
            None => {
                proof {
                    let ls = byte_lines(b);
                    assert(!valid_utf8(ls[ls.len() - 1]));
                }
                return None;
            },
        }
    }
    let ghost ls = byte_lines(b);
    assert(views(lines@) =~= ls.map_values(|l: Seq<u8>| decode_utf8(l)));
    Some(lines)
}

} // verus!
