//! The mathematical model of document text: a text is a `Seq<char>`, lines are
//! separated by `'\n'`, and a position is a (line, character) pair. These spec
//! functions define line starts, line lengths and the mapping between raw
//! character offsets and positions; the lemmas establish that the two
//! directions of that mapping are mutual inverses on in-bounds inputs.

use vstd::prelude::*;

verus! {

/// Number of newline characters in `s`.
pub open spec fn count_nl(s: Seq<char>) -> nat
    decreases s.len(),
{
    if s.len() == 0 {
        0
    } else {
        count_nl(s.drop_last()) + if s.last() == '\n' {
            1nat
        } else {
            0nat
        }
    }
}

/// Index of the first newline at or after `from`, or `s.len()` if there is none.
pub open spec fn find_nl(s: Seq<char>, from: int) -> int
    decreases s.len() - from,
{
    if from < 0 || from >= s.len() {
        s.len() as int
    } else if s[from] == '\n' {
        from
    } else {
        find_nl(s, from + 1)
    }
}

/// Character index at which line `l` starts: line 0 starts at 0, and line
/// `l + 1` starts one past the newline that ends line `l`.
pub open spec fn line_start(s: Seq<char>, l: nat) -> int
    decreases l,
{
    if l == 0 {
        0
    } else {
        find_nl(s, line_start(s, (l - 1) as nat)) + 1
    }
}

/// Total number of lines: one more than the number of newlines (a trailing
/// newline opens a final empty line).
pub open spec fn num_lines(s: Seq<char>) -> nat {
    count_nl(s) + 1
}

/// One past the last character of line `l`, counting its newline when present.
pub open spec fn line_end(s: Seq<char>, l: nat) -> int {
    let f = find_nl(s, line_start(s, l));
    if f < s.len() {
        f + 1
    } else {
        s.len() as int
    }
}

/// Characters on line `l`, counting its terminating newline when present.
pub open spec fn line_len_at(s: Seq<char>, l: nat) -> int {
    line_end(s, l) - line_start(s, l)
}

/// The line on which the character at index `i` falls; `i == s.len()` gives
/// the last line.
pub open spec fn char_to_line(s: Seq<char>, i: int) -> nat {
    count_nl(s.subrange(0, i))
}

/// Start of line `l`, taking every line index past the end to the text length.
pub open spec fn line_start_clamped(s: Seq<char>, l: nat) -> int {
    if l <= count_nl(s) {
        line_start(s, l)
    } else {
        s.len() as int
    }
}

/// Start of the last line: one past the last newline, or 0 with no newline.
pub open spec fn last_line_start(s: Seq<char>) -> int
    decreases s.len(),
{
    if s.len() == 0 {
        0
    } else if s.last() == '\n' {
        s.len() as int
    } else {
        last_line_start(s.drop_last())
    }
}

/// The raw character offset of position (`l`, `c`).
pub open spec fn pos_offset(s: Seq<char>, l: nat, c: nat) -> int {
    line_start(s, l) + c
}

/// Position (`l`, `c`) addresses a character of `s` or the one slot past the
/// end of a line (its newline, or end of text on the last line).
pub open spec fn pos_in_bounds(s: Seq<char>, l: nat, c: nat) -> bool {
    &&& l < num_lines(s)
    &&& line_start(s, l) + c <= find_nl(s, line_start(s, l))
}

/// `s` with `t` inserted at character index `i`.
pub open spec fn splice(s: Seq<char>, i: int, t: Seq<char>) -> Seq<char> {
    s.subrange(0, i) + t + s.subrange(i, s.len() as int)
}

/// `s` with the span `[a, b)` removed.
pub open spec fn remove_span(s: Seq<char>, a: int, b: int) -> Seq<char> {
    s.subrange(0, a) + s.subrange(b, s.len() as int)
}

/// Newline counts add over concatenation.
pub proof fn lemma_count_nl_append(a: Seq<char>, b: Seq<char>)
    ensures
        count_nl(a + b) == count_nl(a) + count_nl(b),
    decreases b.len(),
{
    if b.len() == 0 {
        assert(a + b =~= a);
    } else {
        assert((a + b).drop_last() =~= a + b.drop_last());
        lemma_count_nl_append(a, b.drop_last());
    }
}

/// Extending a prefix by one character adds that character's newline count.
pub proof fn lemma_count_nl_step(s: Seq<char>, i: int)
    requires
        0 <= i < s.len(),
    ensures
        count_nl(s.subrange(0, i + 1)) == count_nl(s.subrange(0, i)) + if s[i] == '\n' {
            1nat
        } else {
            0nat
        },
{
    assert(s.subrange(0, i + 1).drop_last() =~= s.subrange(0, i));
    assert(s.subrange(0, i + 1).last() == s[i]);
}

/// Newline counts of prefixes grow with the prefix.
pub proof fn lemma_count_nl_prefix_mono(s: Seq<char>, i: int, j: int)
    requires
        0 <= i <= j <= s.len(),
    ensures
        count_nl(s.subrange(0, i)) <= count_nl(s.subrange(0, j)),
{
    assert(s.subrange(0, j) =~= s.subrange(0, i) + s.subrange(i, j));
    lemma_count_nl_append(s.subrange(0, i), s.subrange(i, j));
}

/// What `find_nl` returns: the first newline at or after `from`, if any.
pub proof fn lemma_find_nl_props(s: Seq<char>, from: int)
    requires
        0 <= from <= s.len(),
    ensures
        from <= find_nl(s, from) <= s.len(),
        find_nl(s, from) < s.len() ==> s[find_nl(s, from)] == '\n',
        forall|j: int| from <= j < find_nl(s, from) ==> s[j] != '\n',
    decreases s.len() - from,
{
    if from < s.len() && s[from] != '\n' {
        lemma_find_nl_props(s, from + 1);
    }
}

/// A stretch with no newline does not change the prefix newline count.
pub proof fn lemma_count_nl_flat(s: Seq<char>, from: int, i: int)
    requires
        0 <= from <= i,
        i <= find_nl(s, from),
        i <= s.len(),
    ensures
        count_nl(s.subrange(0, i)) == count_nl(s.subrange(0, from)),
    decreases i - from,
{
    if i > from {
        lemma_find_nl_props(s, from);
        lemma_count_nl_step(s, i - 1);
        lemma_count_nl_flat(s, from, i - 1);
    }
}

/// Line starts are in bounds, sit just past a newline, and the prefix up to
/// the start of line `l` holds exactly `l` newlines.
pub proof fn lemma_line_start_props(s: Seq<char>, l: nat)
    requires
        l <= count_nl(s),
    ensures
        0 <= line_start(s, l) <= s.len(),
        count_nl(s.subrange(0, line_start(s, l))) == l,
        l > 0 ==> line_start(s, l) >= 1 && s[line_start(s, l) - 1] == '\n',
    decreases l,
{
    if l == 0 {
        assert(s.subrange(0, 0) =~= Seq::<char>::empty());
    } else {
        lemma_line_start_props(s, (l - 1) as nat);
        let p = line_start(s, (l - 1) as nat);
        let f = find_nl(s, p);
        lemma_find_nl_props(s, p);
        lemma_count_nl_flat(s, p, f);
        if f == s.len() {
            assert(s.subrange(0, s.len() as int) =~= s);
        }
        assert(f < s.len());
        lemma_count_nl_step(s, f);
    }
}

/// Every index from a line's start through the slot that ends it maps back to
/// that line.
pub proof fn lemma_char_to_line_in_line(s: Seq<char>, l: nat, i: int)
    requires
        l <= count_nl(s),
        line_start(s, l) <= i,
        i <= find_nl(s, line_start(s, l)),
        i <= s.len(),
    ensures
        char_to_line(s, i) == l,
{
    lemma_line_start_props(s, l);
    lemma_count_nl_flat(s, line_start(s, l), i);
}

/// Every in-bounds offset falls on a valid line, at or past that line's start
/// and not past the slot that ends it.
pub proof fn lemma_char_to_line_bounds(s: Seq<char>, i: int)
    requires
        0 <= i <= s.len(),
    ensures
        char_to_line(s, i) <= count_nl(s),
        line_start(s, char_to_line(s, i)) <= i,
        i <= find_nl(s, line_start(s, char_to_line(s, i))),
{
    let l = char_to_line(s, i);
    assert(s.subrange(0, s.len() as int) =~= s);
    lemma_count_nl_prefix_mono(s, i, s.len() as int);
    lemma_line_start_props(s, l);
    let p = line_start(s, l);
    if l > 0 && p > i {
        lemma_count_nl_step(s, p - 1);
        lemma_count_nl_prefix_mono(s, i, p - 1);
        assert(false);
    }
    let f = find_nl(s, p);
    lemma_find_nl_props(s, p);
    if i > f {
        lemma_count_nl_flat(s, p, f);
        lemma_count_nl_step(s, f);
        lemma_count_nl_prefix_mono(s, f + 1, i);
        assert(false);
    }
}

/// Offset-of-position followed by position-of-offset returns the position.
pub proof fn lemma_position_offset_round_trip(s: Seq<char>, l: nat, c: nat)
    requires
        pos_in_bounds(s, l, c),
    ensures
        0 <= pos_offset(s, l, c) <= s.len(),
        char_to_line(s, pos_offset(s, l, c)) == l,
        pos_offset(s, l, c) - line_start(s, l) == c,
{
    lemma_line_start_props(s, l);
    lemma_find_nl_props(s, line_start(s, l));
    lemma_char_to_line_in_line(s, l, pos_offset(s, l, c));
}

/// Position-of-offset followed by offset-of-position returns the offset, and
/// the position it passes through is in bounds.
pub proof fn lemma_offset_position_round_trip(s: Seq<char>, i: int)
    requires
        0 <= i <= s.len(),
    ensures
        pos_in_bounds(s, char_to_line(s, i), (i - line_start(s, char_to_line(s, i))) as nat),
        pos_offset(
            s,
            char_to_line(s, i),
            (i - line_start(s, char_to_line(s, i))) as nat,
        ) == i,
{
    lemma_char_to_line_bounds(s, i);
}

/// Line starts grow strictly with the line index.
pub proof fn lemma_line_start_mono(s: Seq<char>, l1: nat, l2: nat)
    requires
        l1 <= l2,
        l2 <= count_nl(s),
    ensures
        line_start(s, l1) <= line_start(s, l2),
        l1 < l2 ==> line_start(s, l1) < line_start(s, l2),
    decreases l2 - l1,
{
    if l1 < l2 {
        lemma_line_start_mono(s, l1, (l2 - 1) as nat);
        lemma_line_start_props(s, (l2 - 1) as nat);
        lemma_find_nl_props(s, line_start(s, (l2 - 1) as nat));
    }
}

/// A line ends exactly where the next line starts, with the last line ending
/// at the end of the text.
pub proof fn lemma_line_end_next_start(s: Seq<char>, l: nat)
    requires
        l <= count_nl(s),
    ensures
        line_start_clamped(s, (l + 1) as nat) == line_end(s, l),
        line_start(s, l) <= line_end(s, l) <= s.len(),
        l == count_nl(s) ==> find_nl(s, line_start(s, l)) == s.len(),
{
    lemma_line_start_props(s, l);
    let p = line_start(s, l);
    let f = find_nl(s, p);
    lemma_find_nl_props(s, p);
    if l + 1 <= count_nl(s) {
        lemma_line_start_props(s, (l + 1) as nat);
    } else {
        if f < s.len() {
            lemma_count_nl_flat(s, p, f);
            lemma_count_nl_step(s, f);
            lemma_count_nl_prefix_mono(s, f + 1, s.len() as int);
            assert(s.subrange(0, s.len() as int) =~= s);
            assert(false);
        }
    }
}

/// A position in bounds of one text is in bounds of every text that shares
/// the characters up to its offset, at the same offset.
pub proof fn lemma_pos_bounds_common_prefix(s: Seq<char>, t: Seq<char>, l: nat, c: nat)
    requires
        pos_in_bounds(s, l, c),
        pos_offset(s, l, c) <= t.len(),
        t.subrange(0, pos_offset(s, l, c)) == s.subrange(0, pos_offset(s, l, c)),
    ensures
        pos_in_bounds(t, l, c),
        pos_offset(t, l, c) == pos_offset(s, l, c),
        line_start(t, l) == line_start(s, l),
{
    let a = pos_offset(s, l, c);
    lemma_position_offset_round_trip(s, l, c);
    assert(char_to_line(t, a) == char_to_line(s, a));
    lemma_char_to_line_bounds(t, a);
    lemma_line_start_props(s, l);
    lemma_line_start_props(t, l);
    let p1 = line_start(t, l);
    let p2 = line_start(s, l);
    if p1 < p2 {
        assert(t[p2 - 1] == s.subrange(0, a)[p2 - 1]);
        assert(t.subrange(0, p2) =~= s.subrange(0, p2));
        lemma_count_nl_step(t, p2 - 1);
        lemma_count_nl_prefix_mono(t, p1, p2 - 1);
        assert(false);
    }
    if p2 < p1 {
        assert(s[p1 - 1] == t.subrange(0, a)[p1 - 1]);
        assert(s.subrange(0, p1) =~= t.subrange(0, p1));
        lemma_count_nl_step(s, p1 - 1);
        lemma_count_nl_prefix_mono(s, p2, p1 - 1);
        assert(false);
    }
}

/// A text without newlines has none at any index.
pub proof fn lemma_count_nl_zero_no_nl(s: Seq<char>)
    requires
        count_nl(s) == 0,
    ensures
        forall|j: int| 0 <= j < s.len() ==> s[j] != '\n',
    decreases s.len(),
{
    if s.len() > 0 {
        lemma_count_nl_zero_no_nl(s.drop_last());
        assert forall|j: int| 0 <= j < s.len() implies s[j] != '\n' by {
            if j < s.len() - 1 {
                assert(s[j] == s.drop_last()[j]);
            } else {
                assert(s[j] == s.last());
            }
        }
    }
}

/// A stretch with no newline pushes the first newline past it.
pub proof fn lemma_find_nl_at_least(s: Seq<char>, from: int, k: int)
    requires
        0 <= from <= k <= s.len(),
        forall|j: int| from <= j < k ==> s[j] != '\n',
    ensures
        find_nl(s, from) >= k,
    decreases k - from,
{
    lemma_find_nl_props(s, from);
    if from < k {
        assert(s[from] != '\n');
        lemma_find_nl_at_least(s, from + 1, k);
        assert(find_nl(s, from) == find_nl(s, from + 1));
    }
}

/// The index just past a line's delimiting newline determines the line: a
/// prefix holding exactly `l` newlines that ends right after a newline (or
/// at 0) ends exactly where line `l` starts.
pub proof fn lemma_line_start_unique(s: Seq<char>, l: nat, u: int)
    requires
        l <= count_nl(s),
        0 <= u <= s.len(),
        count_nl(s.subrange(0, u)) == l,
        u > 0 ==> s[u - 1] == '\n',
    ensures
        line_start(s, l) == u,
{
    lemma_line_start_props(s, l);
    let p = line_start(s, l);
    if u < p {
        lemma_count_nl_step(s, p - 1);
        lemma_count_nl_prefix_mono(s, u, p - 1);
        assert(false);
    }
    if p < u {
        lemma_count_nl_step(s, u - 1);
        lemma_count_nl_prefix_mono(s, p, u - 1);
        assert(false);
    }
}

/// All of a text's newlines lie before its last line start, which sits just
/// past a newline whenever the text holds one.
pub proof fn lemma_last_line_start_nl(s: Seq<char>)
    ensures
        count_nl(s.subrange(0, last_line_start(s))) == count_nl(s),
        count_nl(s) > 0 ==> last_line_start(s) >= 1 && s[last_line_start(s) - 1] == '\n',
        forall|j: int| last_line_start(s) <= j < s.len() ==> s[j] != '\n',
    decreases s.len(),
{
    lemma_last_line_start_bounds(s);
    if s.len() == 0 {
        assert(s.subrange(0, 0) =~= s);
    } else if s.last() == '\n' {
        assert(s.subrange(0, s.len() as int) =~= s);
    } else {
        lemma_last_line_start_nl(s.drop_last());
        lemma_last_line_start_bounds(s.drop_last());
        assert(s.subrange(0, last_line_start(s)) =~= s.drop_last().subrange(
            0,
            last_line_start(s.drop_last()),
        ));
        if count_nl(s) > 0 {
            assert(s[last_line_start(s) - 1] == s.drop_last()[last_line_start(s.drop_last()) - 1]);
        }
        assert forall|j: int| last_line_start(s) <= j < s.len() implies s[j] != '\n' by {
            if j < s.len() - 1 {
                assert(s[j] == s.drop_last()[j]);
            } else {
                assert(s[j] == s.last());
            }
        }
    }
}

/// Where the slot one past an inserted text lands: on the line of the
/// insertion point advanced by the text's newlines, at the length of the
/// text after its last newline (added to the point's character when the
/// text holds no newline).
pub proof fn lemma_splice_advanced(s: Seq<char>, l: nat, c: nat, t: Seq<char>)
    requires
        pos_in_bounds(s, l, c),
    ensures
        ({
            let a = pos_offset(s, l, c);
            let s2 = splice(s, a, t);
            let l2 = (l + count_nl(t)) as nat;
            let c2 = (if count_nl(t) == 0 {
                (c + t.len()) as int
            } else {
                t.len() - last_line_start(t)
            }) as nat;
            &&& pos_in_bounds(s2, l2, c2)
            &&& pos_offset(s2, l2, c2) == a + t.len()
        }),
{
    let a = pos_offset(s, l, c);
    lemma_position_offset_round_trip(s, l, c);
    let s2 = splice(s, a, t);
    let i = a + t.len();
    let ls = line_start(s, l);
    lemma_line_start_props(s, l);
    lemma_find_nl_props(s, ls);
    lemma_last_line_start_bounds(t);
    lemma_last_line_start_nl(t);
    assert(s2.subrange(0, a) =~= s.subrange(0, a));
    assert(s2.subrange(0, i) =~= s.subrange(0, a) + t);
    lemma_count_nl_append(s.subrange(0, a), t);
    assert(s2.subrange(0, s2.len() as int) =~= s2);
    lemma_count_nl_prefix_mono(s2, i, s2.len() as int);
    let l2 = (l + count_nl(t)) as nat;
    assert(count_nl(s2.subrange(0, i)) == l2);
    if count_nl(t) == 0 {
        lemma_pos_bounds_common_prefix(s, s2, l, c);
        lemma_count_nl_zero_no_nl(t);
        let ls2 = line_start(s2, l);
        assert forall|j: int| ls2 <= j < i implies s2[j] != '\n' by {
            if j < a {
                assert(s2[j] == s.subrange(0, a)[j]);
            } else {
                assert(s2[j] == t[j - a]);
            }
        }
        lemma_find_nl_at_least(s2, ls2, i);
        lemma_count_nl_prefix_mono(s2, a, s2.len() as int);
    } else {
        let lls = last_line_start(t);
        let u = a + lls;
        assert(s2.subrange(0, u) =~= s.subrange(0, a) + t.subrange(0, lls));
        lemma_count_nl_append(s.subrange(0, a), t.subrange(0, lls));
        assert(count_nl(s2.subrange(0, u)) == l2);
        lemma_count_nl_prefix_mono(s2, u, s2.len() as int);
        assert(s2[u - 1] == t[lls - 1]);
        lemma_line_start_unique(s2, l2, u);
        assert forall|j: int| u <= j < i implies s2[j] != '\n' by {
            assert(s2[j] == t[j - a]);
        }
        lemma_find_nl_at_least(s2, u, i);
    }
}

/// Any stretch of an ASCII text is ASCII.
pub proof fn lemma_ascii_subrange(s: Seq<char>, i: int, j: int)
    requires
        vstd::utf8::is_ascii_chars(s),
        0 <= i <= j <= s.len(),
    ensures
        vstd::utf8::is_ascii_chars(s.subrange(i, j)),
{
    assert forall|k: int| 0 <= k < s.subrange(i, j).len() implies '\0' <= #[trigger] s.subrange(
        i,
        j,
    )[k] <= '\u{7f}' by {
        assert(s.subrange(i, j)[k] == s[i + k]);
    }
}

/// A text holds no more newlines than characters.
pub proof fn lemma_count_nl_le_len(s: Seq<char>)
    ensures
        count_nl(s) <= s.len(),
    decreases s.len(),
{
    if s.len() > 0 {
        lemma_count_nl_le_len(s.drop_last());
    }
}

/// The last line starts inside the text, and at 0 when there is no newline.
pub proof fn lemma_last_line_start_bounds(s: Seq<char>)
    ensures
        0 <= last_line_start(s) <= s.len(),
        count_nl(s) == 0 ==> last_line_start(s) == 0,
    decreases s.len(),
{
    if s.len() > 0 && s.last() != '\n' {
        lemma_last_line_start_bounds(s.drop_last());
    }
}

/// Removing exactly the spliced-in span restores the original text.
pub proof fn lemma_splice_remove(s: Seq<char>, i: int, t: Seq<char>)
    requires
        0 <= i <= s.len(),
    ensures
        remove_span(splice(s, i, t), i, i + t.len()) == s,
{
    assert(remove_span(splice(s, i, t), i, i + t.len()) =~= s);
}

} // verus!
