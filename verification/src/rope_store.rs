//! Trusted boundary around `ropey::Rope`, the rope that backs the text
//! store. The contents of a rope are named by `rope_text`; each wrapper
//! states, over that name and the line model of `text_model`, what the ropey
//! call it relies on is documented and implemented to do. Ropey is built
//! without its extended line-break features, so a line break is exactly
//! `'\n'`, as in the model.

use crate::text_model::{
    char_to_line, line_start_clamped, num_lines, remove_span, splice,
};
use vstd::prelude::*;

verus! {

#[verifier::external_type_specification]
#[verifier::external_body]
pub struct ExRope(ropey::Rope);

/// The sequence of characters a rope holds.
pub uninterp spec fn rope_text(r: ropey::Rope) -> Seq<char>;

/// Relies on `Rope::new`: a fresh rope is empty.
#[verifier::external_body]
pub(crate) fn rope_new() -> (r: ropey::Rope)
    ensures
        rope_text(r) == Seq::<char>::empty(),
{
    ropey::Rope::new()
}

/// Relies on `Rope::from_str`: the rope holds exactly the characters of `s`.
#[verifier::external_body]
pub(crate) fn rope_from_str(s: &str) -> (r: ropey::Rope)
    ensures
        rope_text(r) == s@,
{
    ropey::Rope::from_str(s)
}

/// Relies on `Rope::len_chars`: the total number of chars.
#[verifier::external_body]
pub(crate) fn rope_len_chars(r: &ropey::Rope) -> (n: usize)
    ensures
        n == rope_text(*r).len(),
{
    r.len_chars()
}

/// Relies on `Rope::len_lines`: one more than the number of line breaks.
#[verifier::external_body]
pub(crate) fn rope_len_lines(r: &ropey::Rope) -> (n: usize)
    ensures
        n == num_lines(rope_text(*r)),
{
    r.len_lines()
}

/// Relies on `Rope::line_to_char`: the char index where the given line
/// starts, with the one-past-the-end line giving the text length.
#[verifier::external_body]
pub(crate) fn rope_line_to_char(r: &ropey::Rope, line: usize) -> (n: usize)
    requires
        line <= num_lines(rope_text(*r)),
    ensures
        n == line_start_clamped(rope_text(*r), line as nat),
{
    r.line_to_char(line)
}

/// Relies on `Rope::char_to_line`: the line on which the given char falls,
/// with the one-past-the-end index giving the last line.
#[verifier::external_body]
pub(crate) fn rope_char_to_line(r: &ropey::Rope, char_idx: usize) -> (l: usize)
    requires
        char_idx <= rope_text(*r).len(),
    ensures
        l == char_to_line(rope_text(*r), char_idx as int),
{
    r.char_to_line(char_idx)
}

/// Relies on `Rope::insert`: splices `text` in at the given char index.
#[verifier::external_body]
pub(crate) fn rope_insert(r: &mut ropey::Rope, char_idx: usize, text: &str)
    requires
        char_idx <= rope_text(*old(r)).len(),
    ensures
        rope_text(*final(r)) == splice(rope_text(*old(r)), char_idx as int, text@),
{
    r.insert(char_idx, text)
}

/// Relies on `Rope::remove`: removes the chars in `[start, end)`.
#[verifier::external_body]
pub(crate) fn rope_remove(r: &mut ropey::Rope, start: usize, end: usize)
    requires
        start <= end,
        end <= rope_text(*old(r)).len(),
    ensures
        rope_text(*final(r)) == remove_span(rope_text(*old(r)), start as int, end as int),
{
    r.remove(start..end)
}

/// Relies on ropey's `Display` for `Rope`: writes out the full contents.
#[verifier::external_body]
pub(crate) fn rope_to_string(r: &ropey::Rope) -> (s: String)
    ensures
        s@ == rope_text(*r),
{
    r.to_string()
}

/// Relies on `Rope::slice` and ropey's `Display` for `RopeSlice`: the chars
/// in `[start, end)`.
#[verifier::external_body]
pub(crate) fn rope_slice_to_string(r: &ropey::Rope, start: usize, end: usize) -> (s: String)
    requires
        start <= end,
        end <= rope_text(*r).len(),
    ensures
        s@ == rope_text(*r).subrange(start as int, end as int),
{
    r.slice(start..end).to_string()
}

} // verus!
