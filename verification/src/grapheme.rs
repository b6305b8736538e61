//! Grapheme clusters, byte offsets and display widths of a line of text.

use vstd::prelude::*;
use vstd::utf8::{encode_utf8, is_char_boundary};
use unicode_segmentation::UnicodeSegmentation;
use unicode_width::UnicodeWidthStr;

verus! {

/// The extended grapheme clusters of `text`, in order, as the segmentation
/// crate finds them.
pub uninterp spec fn grapheme_clusters(text: Seq<char>) -> Seq<Seq<char>>;

/// The number of terminal columns that `text` takes, as the width crate
/// computes it for a string outside an East Asian context.
pub uninterp spec fn display_width(text: Seq<char>) -> nat;

/// The number of bytes that `text` takes in UTF-8.
pub open spec fn byte_len(text: Seq<char>) -> nat {
    encode_utf8(text).len()
}

/// The text made of the first `count` of `units`, or of all of them where
/// there are fewer.
pub open spec fn text_before(units: Seq<Seq<char>>, count: int) -> Seq<char> {
    if 0 <= count < units.len() {
        units.take(count).flatten()
    } else {
        units.flatten()
    }
}

/// The byte offset in `text` at which the grapheme cluster of index
/// `cursor` starts; the length of `text` in bytes where it has no such
/// cluster.
pub open spec fn byte_offset(text: Seq<char>, cursor: int) -> nat {
    byte_len(text_before(grapheme_clusters(text), cursor))
}

/// Wraps `UnicodeSegmentation::graphemes` with extended clusters: the result
/// holds the clusters of `s` in order, each as a string of its own. The
/// iterator hands out consecutive slices of `s` from its start to its end,
/// so the clusters put together again are `s`.
#[verifier::external_body]
pub(crate) fn split_graphemes(s: &str) -> (units: Vec<String>)
    ensures
        units.deep_view() == grapheme_clusters(s@),
        units.deep_view().flatten() == s@,
{
    s.graphemes(true).map(|g| g.to_string()).collect()
}

/// Wraps `UnicodeWidthStr::width`: the result is the display width of `s`.
#[verifier::external_body]
pub(crate) fn str_width(s: &str) -> (width: usize)
    ensures
        width == display_width(s@),
{
    UnicodeWidthStr::width(s)
}

/// The UTF-8 encoding of two texts put together is their encodings put
/// together.
pub proof fn lemma_encode_concat(a: Seq<char>, b: Seq<char>)
    ensures
        encode_utf8(a + b) == encode_utf8(a) + encode_utf8(b),
        byte_len(a + b) == byte_len(a) + byte_len(b),
    decreases a.len(),
{
    if a.len() == 0 {
        assert(a + b =~= b);
        assert(encode_utf8(a) + encode_utf8(b) =~= encode_utf8(b));
    } else {
        lemma_encode_concat(a.drop_first(), b);
        assert((a + b).drop_first() =~= a.drop_first() + b);
        assert((a + b)[0] == a[0]);
        assert(encode_utf8(a + b) =~= encode_utf8(a) + encode_utf8(b));
    }
}

/// Where the encoding of a text's front part ends, a character of the text
/// ends too.
pub proof fn lemma_prefix_ends_on_boundary(a: Seq<char>, b: Seq<char>)
    ensures
        is_char_boundary(encode_utf8(a + b), byte_len(a) as int),
    decreases a.len(),
{
    let bytes = encode_utf8(a + b);
    vstd::utf8::encode_utf8_valid_utf8(a + b);
    if a.len() > 0 {
        let rest = a.drop_first() + b;
        lemma_prefix_ends_on_boundary(a.drop_first(), b);
        lemma_encode_concat(a, b);
        vstd::utf8::encode_utf8_first_scalar(a + b);
        assert((a + b).drop_first() =~= rest);
        assert((a + b)[0] == a[0]);
        assert(vstd::utf8::pop_first_scalar(bytes) =~= encode_utf8(rest));
    }
}

/// Taking one more unit adds that unit's text at the end.
pub proof fn lemma_take_one_more(units: Seq<Seq<char>>, count: int)
    requires
        0 <= count < units.len(),
    ensures
        units.take(count + 1).flatten() == units.take(count).flatten() + units[count],
{
    assert(units.take(count + 1) =~= units.take(count).push(units[count]));
    units.take(count).lemma_flatten_push(units[count]);
}

/// The text before a position is a prefix of the whole text, so it takes
/// no more bytes.
pub proof fn lemma_prefix_bytes(units: Seq<Seq<char>>, count: int)
    requires
        0 <= count <= units.len(),
    ensures
        byte_len(units.take(count).flatten()) <= byte_len(units.flatten()),
{
    let head = units.take(count);
    let tail = units.skip(count);
    assert(units =~= head + tail);
    vstd::seq_lib::lemma_flatten_concat(head, tail);
    lemma_encode_concat(head.flatten(), tail.flatten());
}

/// The number of bytes that the first `count` of `units` take together.
fn bytes_before(units: &Vec<String>, count: usize) -> (offset: usize)
    requires
        count <= units.len(),
        byte_len(units.deep_view().flatten()) <= usize::MAX,
    ensures
        offset == byte_len(units.deep_view().take(count as int).flatten()),
{
    let ghost texts = units.deep_view();
    let mut offset: usize = 0;
    let mut k: usize = 0;
    proof {
        assert(texts.take(0) =~= Seq::<Seq<char>>::empty());
    }
    while k < count
        invariant
            texts == units.deep_view(),
            k <= count <= units.len(),
            byte_len(texts.flatten()) <= usize::MAX,
            offset == byte_len(texts.take(k as int).flatten()),
        decreases count - k,
    {
        proof {
            lemma_take_one_more(texts, k as int);
            lemma_encode_concat(texts.take(k as int).flatten(), texts[k as int]);
            lemma_prefix_bytes(texts, k + 1);
        }
        offset = offset + units[k].as_str().as_bytes().len();
        k += 1;
    }
    offset
}

/// The byte offset in `s` at which the grapheme cluster of index
/// `cursor_pos` starts. A position past the last cluster gives the length
/// of `s` in bytes.
pub fn cursor_byte_index(s: &str, cursor_pos: usize) -> (offset: usize)
    ensures
        offset == byte_offset(s@, cursor_pos as int),
        offset <= byte_len(s@),
        is_char_boundary(encode_utf8(s@), offset as int),
        text_before(grapheme_clusters(s@), cursor_pos as int).is_prefix_of(s@),
{
    let units = split_graphemes(s);
    let whole: usize = s.as_bytes().len();
    if cursor_pos < units.len() {
        proof {
            let texts = units.deep_view();
            let head = texts.take(cursor_pos as int);
            let tail = texts.skip(cursor_pos as int);
            lemma_prefix_bytes(texts, cursor_pos as int);
            assert(texts =~= head + tail);
            vstd::seq_lib::lemma_flatten_concat(head, tail);
            lemma_prefix_ends_on_boundary(head.flatten(), tail.flatten());
        }
        bytes_before(&units, cursor_pos)
    } else {
        proof {
            vstd::utf8::encode_utf8_valid_utf8(s@);
            vstd::utf8::is_char_boundary_start_end_of_seq(encode_utf8(s@));
        }
        whole
    }
}

/// The terminal column in front of the grapheme cluster of index
/// `cursor_pos` of `s`: the display width of the text before that cluster,
/// and of all of `s` where it has no such cluster.
pub fn display_column(s: &str, cursor_pos: usize) -> (column: usize)
    ensures
        column == display_width(text_before(grapheme_clusters(s@), cursor_pos as int)),
{
    let offset = cursor_byte_index(s, cursor_pos);
    let (front, _) = s.split_at(offset);
    proof {
        let head = text_before(grapheme_clusters(s@), cursor_pos as int);
        let rest = s@.skip(head.len() as int);
        assert(s@ =~= head + rest);
        lemma_encode_concat(head, rest);
        assert(encode_utf8(front@) =~= encode_utf8(head));
        vstd::utf8::encode_utf8_decode_utf8(front@);
        vstd::utf8::encode_utf8_decode_utf8(head);
    }
    str_width(front)
}

} // verus!
