//! Display width of text in terminal columns, and cutting text to a width.
use unicode_width::UnicodeWidthChar;
use vstd::prelude::*;

verus! {

/// Columns that `unicode-width` gives a character, `None` for a control
/// character.
pub uninterp spec fn char_width(c: char) -> Option<usize>;

/// Calls `UnicodeWidthChar::width(c)`. The result is named by `char_width`;
/// the crate's source shows that control characters (below U+0020 and from
/// U+007F to U+009F) have no width, that printable ASCII is one column wide,
/// and that no character is wider than three columns.
#[verifier::external_body]
fn width_of_char(c: char) -> (width: Option<usize>)
    ensures
        width == char_width(c),
        width is None <==> ((c as u32) < 0x20 || (0x7F <= (c as u32) && (c as u32) < 0xA0)),
        (0x20 <= (c as u32) && (c as u32) < 0x7F) ==> width == Some(1usize),
        width matches Some(w) ==> w <= 3,
{
    UnicodeWidthChar::width(c)
}

/// Calls `String::push`, which appends one character.
#[verifier::external_body]
pub(crate) fn push_char(s: &mut String, c: char)
    ensures
        final(s)@ == old(s)@.push(c),
{
    s.push(c)
}

/// Columns a character takes; a control character takes none.
pub open spec fn columns(c: char) -> nat {
    match char_width(c) {
        Some(w) => w as nat,
        None => 0,
    }
}

/// Columns taken by the characters of `text` before position `j`.
pub open spec fn columns_before(text: Seq<char>, j: int) -> nat
    decreases j,
{
    if j <= 0 || j > text.len() {
        0
    } else {
        columns_before(text, j - 1) + columns(text[j - 1])
    }
}

/// Where `text` is cut when it is written from position `i` with `budget`
/// columns left: at the first character that no longer fits, or at the end.
pub open spec fn fit_end(text: Seq<char>, i: int, budget: int) -> int
    decreases text.len() - i,
{
    if i < 0 || i >= text.len() {
        i
    } else if columns(text[i]) <= budget {
        fit_end(text, i + 1, budget - columns(text[i]))
    } else {
        i
    }
}

proof fn lemma_fit_end(text: Seq<char>, i: int, budget: int)
    requires
        0 <= i <= text.len(),
        budget >= 0,
    ensures
        i <= fit_end(text, i, budget) <= text.len(),
        columns_before(text, fit_end(text, i, budget)) - columns_before(text, i) <= budget,
    decreases text.len() - i,
{
    if i < text.len() && columns(text[i]) <= budget {
        lemma_fit_end(text, i + 1, budget - columns(text[i]));
    }
}

proof fn lemma_fit_end_is_maximal(text: Seq<char>, i: int, budget: int)
    requires
        0 <= i <= text.len(),
        budget >= 0,
    ensures
        fit_end(text, i, budget) < text.len() ==> columns_before(text, fit_end(text, i, budget) + 1)
            - columns_before(text, i) > budget,
    decreases text.len() - i,
{
    if i < text.len() {
        assert(columns_before(text, i + 1) == columns_before(text, i) + columns(text[i]));
        if columns(text[i]) <= budget {
            lemma_fit_end_is_maximal(text, i + 1, budget - columns(text[i]));
        }
    }
}

/// Cutting text to a width keeps the longest start of it that fits: what is
/// kept takes at most `budget` columns, and keeping one more character
/// would take more.
pub proof fn lemma_cut_keeps_the_longest_fitting_start(text: Seq<char>, budget: nat)
    ensures
        0 <= fit_end(text, 0, budget as int) <= text.len(),
        columns_before(text, fit_end(text, 0, budget as int)) <= budget,
        fit_end(text, 0, budget as int) < text.len() ==> columns_before(
            text,
            fit_end(text, 0, budget as int) + 1,
        ) > budget,
{
    lemma_fit_end(text, 0, budget as int);
    lemma_fit_end_is_maximal(text, 0, budget as int);
}

/// The columns before a position add up the columns of the characters
/// before it, one character at a time; nothing comes before the start.
pub proof fn lemma_columns_add_up(text: Seq<char>, j: int)
    requires
        0 <= j < text.len(),
    ensures
        columns_before(text, 0) == 0,
        columns_before(text, j + 1) == columns_before(text, j) + columns(text[j]),
{
}

/// The longest start of `text` that fits in `budget` columns, and the
/// columns it takes. Tells whether all of `text` fit.
pub fn fit_to_width(text: &str, budget: usize) -> (fitted: (String, usize, bool))
    ensures
        fitted.0@ == text@.take(fit_end(text@, 0, budget as int)),
        fitted.1 == columns_before(text@, fit_end(text@, 0, budget as int)),
        fitted.1 <= budget,
        fitted.2 == (fit_end(text@, 0, budget as int) == text@.len()),
        fit_end(text@, 0, budget as int) <= text@.len(),
{
    let len = text.unicode_len();
    let mut kept = String::new();
    let mut used: usize = 0;
    let mut i: usize = 0;
    proof {
        lemma_fit_end(text@, 0, budget as int);
    }
    while i < len
        invariant
            len == text@.len(),
            i <= len,
            used <= budget,
            used == columns_before(text@, i as int),
            kept@ == text@.take(i as int),
            fit_end(text@, 0, budget as int) == fit_end(text@, i as int, budget - used),
        decreases len - i,
    {
        let c = text.get_char(i);
        let width = match width_of_char(c) {
            Some(w) => w,
            None => 0,
        };
        if width > budget - used {
            proof {
                assert(text@.take(i as int) == text@.take(fit_end(text@, 0, budget as int)));
            }
            return (kept, used, false);
        }
        push_char(&mut kept, c);
        assert(kept@ =~= text@.take(i + 1));
        used = used + width;
        i += 1;
    }
    assert(text@.take(len as int) =~= text@);
    (kept, used, true)
}

/// A character takes the columns `unicode-width` gives it, and a control
/// character takes none.
pub proof fn lemma_character_columns(c: char)
    ensures
        char_width(c) matches Some(w) ==> columns(c) == w,
        char_width(c) is None ==> columns(c) == 0,
{
}

proof fn lemma_fit_end_whole(text: Seq<char>, i: int, budget: int)
    requires
        0 <= i <= text.len(),
        columns_before(text, text.len() as int) - columns_before(text, i) <= budget,
    ensures
        fit_end(text, i, budget) == text.len(),
    decreases text.len() - i,
{
    if i < text.len() {
        lemma_columns_before_grows(text, i + 1, text.len() as int);
        assert(columns_before(text, i + 1) == columns_before(text, i) + columns(text[i]));
        lemma_fit_end_whole(text, i + 1, budget - columns(text[i]));
    }
}

proof fn lemma_columns_before_grows(text: Seq<char>, i: int, j: int)
    requires
        0 <= i <= j <= text.len(),
    ensures
        columns_before(text, i) <= columns_before(text, j),
    decreases j - i,
{
    if i < j {
        lemma_columns_before_grows(text, i, j - 1);
    }
}

/// Text that fits in the budget is kept whole, and what is kept of any text
/// is a start of it.
pub proof fn lemma_fitting_text_is_kept_whole(text: Seq<char>, budget: nat)
    ensures
        columns_before(text, text.len() as int) <= budget ==> fit_end(text, 0, budget as int)
            == text.len(),
        text.take(fit_end(text, 0, budget as int)).is_prefix_of(text),
{
    lemma_fit_end(text, 0, budget as int);
    if columns_before(text, text.len() as int) <= budget {
        lemma_fit_end_whole(text, 0, budget as int);
    }
}

} // verus!
