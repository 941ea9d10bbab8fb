//! Cursor movement over a UTF-8 string: byte indices are clamped to
//! character boundaries and stepped one grapheme cluster at a time.
use unicode_segmentation::UnicodeSegmentation;
use vstd::prelude::*;
use vstd::string::*;
use vstd::utf8::*;

verus! {

broadcast use vstd::utf8::group_utf8_lib;

/// Byte offset at which the last extended grapheme cluster of a string starts,
/// as computed by `unicode_segmentation` (`None` for the empty string).
pub uninterp spec fn last_grapheme_start(s: Seq<char>) -> Option<usize>;

/// Byte offset at which the second extended grapheme cluster of a string
/// starts, as computed by `unicode_segmentation` (`None` when the string has
/// fewer than two clusters).
pub uninterp spec fn second_grapheme_start(s: Seq<char>) -> Option<usize>;

/// Calls `UnicodeSegmentation::grapheme_indices(s, true).next_back()` and
/// keeps the offset. The result is named by `last_grapheme_start`; the crate's
/// source shows that the iterator yields nothing exactly for the empty string,
/// and that an offset it yields is a character boundary strictly inside the
/// string (it slices the string there).
#[verifier::external_body]
fn grapheme_start_of_last(s: &str) -> (start: Option<usize>)
    ensures
        start == last_grapheme_start(s@),
        start is Some <==> s@.len() > 0,
        start matches Some(p) ==> p < s.spec_bytes().len() && is_char_boundary(
            s.spec_bytes(),
            p as int,
        ),
{
    s.grapheme_indices(true).next_back().map(|(start, _)| start)
}

/// Calls `UnicodeSegmentation::grapheme_indices(s, true).nth(1)` and keeps the
/// offset. The result is named by `second_grapheme_start`; the crate's source
/// shows that an empty string yields nothing, and that a yielded offset is a
/// character boundary strictly between the start and the end of the string
/// (the first cluster is never empty).
#[verifier::external_body]
fn grapheme_start_of_second(s: &str) -> (start: Option<usize>)
    ensures
        start == second_grapheme_start(s@),
        s@.len() == 0 ==> start is None,
        start matches Some(p) ==> 0 < p < s.spec_bytes().len() && is_char_boundary(
            s.spec_bytes(),
            p as int,
        ),
{
    s.grapheme_indices(true).nth(1).map(|(offset, _)| offset)
}

/// The last character boundary of `bytes` at or before `i` (0 when `i <= 0`).
pub open spec fn boundary_at_or_before(bytes: Seq<u8>, i: int) -> int
    decreases i,
{
    if i <= 0 {
        0
    } else if is_char_boundary(bytes, i) {
        i
    } else {
        boundary_at_or_before(bytes, i - 1)
    }
}

/// Where a cursor at byte `index` of `s` lands once it is pulled back onto the
/// string: the last character boundary at or before `min(index, len)`.
pub open spec fn clamped_cursor(s: Seq<char>, index: int) -> int {
    let bytes = encode_utf8(s);
    boundary_at_or_before(bytes, if index < bytes.len() { index } else { bytes.len() as int })
}

/// Where the cursor goes when it steps one grapheme back from `index`.
pub open spec fn previous_boundary(s: Seq<char>, index: int) -> int {
    let bytes = encode_utf8(s);
    let c = clamped_cursor(s, index);
    match last_grapheme_start(decode_utf8(bytes.subrange(0, c))) {
        Some(start) => start as int,
        None => 0,
    }
}

/// Where the cursor goes when it steps one grapheme forward from `index`.
pub open spec fn next_boundary(s: Seq<char>, index: int) -> int {
    let bytes = encode_utf8(s);
    let c = clamped_cursor(s, index);
    match second_grapheme_start(decode_utf8(bytes.subrange(c, bytes.len() as int))) {
        Some(offset) => c + offset,
        None => bytes.len() as int,
    }
}

/// `boundary_at_or_before` is the largest character boundary not after `i`.
pub proof fn lemma_boundary_at_or_before(bytes: Seq<u8>, i: int)
    requires
        valid_utf8(bytes),
        i <= bytes.len(),
    ensures
        0 <= boundary_at_or_before(bytes, i),
        i >= 0 ==> boundary_at_or_before(bytes, i) <= i,
        is_char_boundary(bytes, boundary_at_or_before(bytes, i)),
        forall|j: int|
            boundary_at_or_before(bytes, i) < j <= i ==> !#[trigger] is_char_boundary(bytes, j),
    decreases i,
{
    if i > 0 && !is_char_boundary(bytes, i) {
        lemma_boundary_at_or_before(bytes, i - 1);
    }
}

/// A boundary of a prefix cut at a character boundary is a boundary of the
/// whole string.
proof fn lemma_prefix_boundary(bytes: Seq<u8>, c: int, r: int)
    requires
        valid_utf8(bytes),
        0 <= r <= c <= bytes.len(),
        is_char_boundary(bytes, c),
        is_char_boundary(bytes.subrange(0, c), r),
    ensures
        is_char_boundary(bytes, r),
{
    let prefix = bytes.subrange(0, c);
    assert(valid_utf8(prefix));
    if r < c {
        assert(prefix[r] == bytes[r]);
        assert(is_char_boundary(prefix, r) <==> !is_continuation_byte(prefix[r]));
        assert(is_char_boundary(bytes, r) <==> !is_continuation_byte(bytes[r]));
    }
}

/// A boundary of a suffix cut at a character boundary, shifted by the cut,
/// is a boundary of the whole string.
proof fn lemma_suffix_boundary(bytes: Seq<u8>, c: int, o: int)
    requires
        valid_utf8(bytes),
        0 <= c <= bytes.len(),
        0 <= o <= bytes.len() - c,
        is_char_boundary(bytes, c),
        is_char_boundary(bytes.subrange(c, bytes.len() as int), o),
    ensures
        is_char_boundary(bytes, c + o),
{
    let suffix = bytes.subrange(c, bytes.len() as int);
    assert(valid_utf8(suffix));
    if c + o < bytes.len() {
        assert(suffix[o] == bytes[c + o]);
        assert(is_char_boundary(suffix, o) <==> !is_continuation_byte(suffix[o]));
        assert(is_char_boundary(bytes, c + o) <==> !is_continuation_byte(bytes[c + o]));
    }
}

/// Clamps a byte index to the string and moves it back onto a character
/// boundary.
pub fn clamp_cursor_index(value: &str, index: usize) -> (clamped: usize)
    requires
        value.spec_bytes().len() <= usize::MAX,
    ensures
        clamped == clamped_cursor(value@, index as int),
        clamped <= index,
        clamped <= value.spec_bytes().len(),
        is_char_boundary(value.spec_bytes(), clamped as int),
{
    let ghost bytes = value.spec_bytes();
    let len = value.len();
    let mut cursor = if index < len { index } else { len };
    let ghost start = cursor as int;
    assert(start == (if index < bytes.len() { index as int } else { bytes.len() as int }));
    while cursor > 0 && !value.is_char_boundary(cursor)
        invariant
            cursor <= start <= bytes.len(),
            bytes == value.spec_bytes(),
            boundary_at_or_before(bytes, cursor as int) == boundary_at_or_before(bytes, start),
        decreases cursor,
    {
        cursor -= 1;
    }
    proof {
        lemma_boundary_at_or_before(bytes, cursor as int);
        lemma_boundary_at_or_before(bytes, start);
        assert(boundary_at_or_before(bytes, cursor as int) == cursor);
    }
    cursor
}

/// The byte index one grapheme cluster before `index` (after clamping it).
pub fn previous_char_boundary(value: &str, index: usize) -> (previous: usize)
    requires
        value.spec_bytes().len() <= usize::MAX,
    ensures
        previous == previous_boundary(value@, index as int),
        previous <= clamped_cursor(value@, index as int),
        clamped_cursor(value@, index as int) > 0 ==> previous < clamped_cursor(
            value@,
            index as int,
        ),
        is_char_boundary(value.spec_bytes(), previous as int),
{
    let ghost bytes = value.spec_bytes();
    let index = clamp_cursor_index(value, index);
    let (prefix, _) = value.split_at(index);
    proof {
        assert(encode_utf8(prefix@) == bytes.subrange(0, index as int));
        assert(decode_utf8(encode_utf8(prefix@)) == prefix@);
        assert(bytes.subrange(0, index as int).len() == index);
    }
    match grapheme_start_of_last(prefix) {
        Some(start) => {
            proof {
                lemma_prefix_boundary(bytes, index as int, start as int);
            }
            start
        },
        None => 0,
    }
}

/// The byte index one grapheme cluster after `index` (after clamping it).
pub fn next_char_boundary(value: &str, index: usize) -> (next: usize)
    requires
        value.spec_bytes().len() <= usize::MAX,
    ensures
        next == next_boundary(value@, index as int),
        clamped_cursor(value@, index as int) <= next <= value.spec_bytes().len(),
        clamped_cursor(value@, index as int) < value.spec_bytes().len() ==> clamped_cursor(
            value@,
            index as int,
        ) < next,
        is_char_boundary(value.spec_bytes(), next as int),
{
    let ghost bytes = value.spec_bytes();
    let index = clamp_cursor_index(value, index);
    let (_, suffix) = value.split_at(index);
    proof {
        assert(encode_utf8(suffix@) == bytes.subrange(index as int, bytes.len() as int));
        assert(decode_utf8(encode_utf8(suffix@)) == suffix@);
        assert(suffix.spec_bytes().len() == bytes.len() - index);
    }
    match grapheme_start_of_second(suffix) {
        Some(offset) => {
            proof {
                lemma_suffix_boundary(bytes, index as int, offset as int);
            }
            index + offset
        },
        None => value.len(),
    }
}

/// Clamping is idempotent: a clamped cursor stays where it is.
pub proof fn lemma_clamp_is_idempotent(s: Seq<char>, index: int)
    ensures
        clamped_cursor(s, clamped_cursor(s, index)) == clamped_cursor(s, index),
{
    let bytes = encode_utf8(s);
    let m = if index < bytes.len() { index } else { bytes.len() as int };
    lemma_boundary_at_or_before(bytes, m);
    let c = clamped_cursor(s, index);
    if m < 0 {
        assert(c == 0);
    }
    assert(0 <= c <= bytes.len());
    assert(is_char_boundary(bytes, c));
    assert(boundary_at_or_before(bytes, c) == c);
}

/// A clamped cursor is the last character boundary at or before the
/// cursor, the cursor first pulled back to the end of the string: it lies on
/// the string, on a character boundary, not after the cursor, and no
/// boundary lies between it and the cursor.
pub proof fn lemma_clamped_cursor_is_the_last_boundary_before(s: Seq<char>, index: int)
    ensures
        ({
            let bytes = encode_utf8(s);
            let c = clamped_cursor(s, index);
            let m = if index < bytes.len() {
                index
            } else {
                bytes.len() as int
            };
            &&& 0 <= c <= bytes.len()
            &&& index >= 0 ==> c <= index
            &&& is_char_boundary(bytes, c)
            &&& forall|j: int| c < j <= m ==> !#[trigger] is_char_boundary(bytes, j)
        }),
{
    let bytes = encode_utf8(s);
    let m = if index < bytes.len() { index } else { bytes.len() as int };
    lemma_boundary_at_or_before(bytes, m);
}

} // verus!
