//! The capture selector: walks a sorted stream of capture spans in lock-step
//! with a stream of ascending character positions and assigns each position
//! a semantic class and its color, in one forward merge pass — the candidate
//! stream is only ever advanced, never rescanned.

use crate::highlight::HighlightItem;
use crate::position::{pos_le, pos_lt, Position};
use vstd::prelude::*;

verus! {

/// An RGB color, one byte per channel.
#[derive(Debug, Clone, Copy, PartialEq, Eq, Structural)]
pub struct Rgb {
    pub red: u8,
    pub green: u8,
    pub blue: u8,
}

/// The color of uncaptured text.
pub open spec fn default_color() -> Rgb {
    Rgb { red: 171, green: 178, blue: 191 }
}

/// The color assigned to each semantic class of capture.
pub open spec fn spec_color_of(name: Seq<char>) -> Rgb {
    if name == "type"@ || name == "type.builtin"@ {
        Rgb { red: 229, green: 192, blue: 123 }
    } else if name == "constant"@ || name == "constant.builtin"@ {
        Rgb { red: 209, green: 154, blue: 102 }
    } else if name == "constructor"@ || name == "function"@ || name == "function.macro"@
        || name == "function.method"@ {
        Rgb { red: 97, green: 175, blue: 239 }
    } else if name == "comment"@ {
        Rgb { red: 153, green: 153, blue: 153 }
    } else if name == "string"@ {
        Rgb { red: 110, green: 255, blue: 89 }
    } else if name == "punctuation.bracket"@ || name == "punctuation.delimiter"@ {
        Rgb { red: 190, green: 190, blue: 190 }
    } else if name == "variable.builtin"@ || name == "variable.parameter"@ {
        Rgb { red: 224, green: 108, blue: 117 }
    } else if name == "keyword"@ || name == "operator"@ {
        Rgb { red: 198, green: 120, blue: 221 }
    } else {
        default_color()
    }
}

/// Relies on `str`'s `PartialEq`: equality of the character sequences.
#[verifier::external_body]
fn str_eq(a: &str, b: &str) -> (r: bool)
    ensures
        r == (a@ == b@),
{
    a == b
}

/// An owned stream of captures, handed out front to back through a cursor
/// that only ever moves forward — one step per capture handed out, so a
/// whole walk stays linear in the number of captures.
pub struct HighlightIter {
    pub items: Vec<HighlightItem>,
    pub pos: usize,
}

impl HighlightIter {
    /// The captures not yet handed out.
    pub open spec fn remaining(&self) -> Seq<HighlightItem> {
        if self.pos <= self.items@.len() {
            self.items@.skip(self.pos as int)
        } else {
            Seq::empty()
        }
    }

    pub fn new(items: Vec<HighlightItem>) -> (r: Self)
        ensures
            r.remaining() == items@,
    {
        let r = HighlightIter { items, pos: 0 };
        proof {
            assert(r.items@.skip(0) =~= r.items@);
        }
        r
    }

    /// The next capture, or `None` once the stream is exhausted.
    pub fn next(&mut self) -> (r: Option<HighlightItem>)
        ensures
            old(self).remaining().len() == 0 ==> r is None && *final(self) == *old(self),
            old(self).remaining().len() > 0 ==> (r matches Some(it) && it == old(
                self,
            ).remaining()[0]) && final(self).remaining() == old(self).remaining().skip(1),
    {
        if self.pos < self.items.len() {
            let it = clone_item(&self.items[self.pos]);
            self.pos = self.pos + 1;
            proof {
                assert(self.items@.skip(self.pos as int) =~= old(self).items@.skip(
                    old(self).pos as int,
                ).skip(1));
            }
            Some(it)
        } else {
            None
        }
    }
}

/// A field-for-field copy of a capture.
fn clone_item(i: &HighlightItem) -> (r: HighlightItem)
    ensures
        r == *i,
{
    HighlightItem {
        capture_name: i.capture_name.clone(),
        kind: i.kind.clone(),
        range: i.range,
    }
}

/// `pos` lies within the capture's span, half-open.
pub open spec fn cap_covers(it: HighlightItem, pos: Position) -> bool {
    pos_le(it.range.start_point, pos) && pos_lt(pos, it.range.end_point)
}

/// The semantic class the merge pass assigns to `pos`, given the current
/// candidate and the remaining stream: the candidate's class when `pos`
/// falls inside it; no class when `pos` lies before it or the stream is
/// exhausted; otherwise the candidate is passed and the next one is tried.
pub open spec fn sel_class(
    item: Option<HighlightItem>,
    rest: Seq<HighlightItem>,
    pos: Position,
) -> Option<Seq<char>>
    decreases rest.len() + (if item is Some { 1int } else { 0int }),
{
    match item {
        None => None,
        Some(it) => {
            if cap_covers(it, pos) {
                Some(it.capture_name@)
            } else if pos_lt(it.range.end_point, pos) {
                if rest.len() == 0 {
                    sel_class(None, rest, pos)
                } else {
                    sel_class(Some(rest[0]), rest.skip(1), pos)
                }
            } else if pos_lt(pos, it.range.start_point) {
                None
            } else {
                if rest.len() == 0 {
                    sel_class(None, rest, pos)
                } else {
                    sel_class(Some(rest[0]), rest.skip(1), pos)
                }
            }
        },
    }
}

/// The candidate and stream left behind by the merge pass for `pos`.
pub open spec fn sel_rest(
    item: Option<HighlightItem>,
    rest: Seq<HighlightItem>,
    pos: Position,
) -> (Option<HighlightItem>, Seq<HighlightItem>)
    decreases rest.len() + (if item is Some { 1int } else { 0int }),
{
    match item {
        None => (item, rest),
        Some(it) => {
            if cap_covers(it, pos) {
                (item, rest)
            } else if pos_lt(it.range.end_point, pos) {
                if rest.len() == 0 {
                    sel_rest(None, rest, pos)
                } else {
                    sel_rest(Some(rest[0]), rest.skip(1), pos)
                }
            } else if pos_lt(pos, it.range.start_point) {
                (item, rest)
            } else {
                if rest.len() == 0 {
                    sel_rest(None, rest, pos)
                } else {
                    sel_rest(Some(rest[0]), rest.skip(1), pos)
                }
            }
        },
    }
}

pub struct ColorSelector;

impl ColorSelector {
    /// The color for a capture's semantic class.
    pub fn get_highlighter_color(&self, capture_name: &str) -> (r: Rgb)
        ensures
            r == spec_color_of(capture_name@),
    {
        if str_eq(capture_name, "type") || str_eq(capture_name, "type.builtin") {
            Rgb { red: 229, green: 192, blue: 123 }
        } else if str_eq(capture_name, "constant") || str_eq(capture_name, "constant.builtin") {
            Rgb { red: 209, green: 154, blue: 102 }
        } else if str_eq(capture_name, "constructor") || str_eq(capture_name, "function")
            || str_eq(capture_name, "function.macro") || str_eq(capture_name, "function.method") {
            Rgb { red: 97, green: 175, blue: 239 }
        } else if str_eq(capture_name, "comment") {
            Rgb { red: 153, green: 153, blue: 153 }
        } else if str_eq(capture_name, "string") {
            Rgb { red: 110, green: 255, blue: 89 }
        } else if str_eq(capture_name, "punctuation.bracket") || str_eq(
            capture_name,
            "punctuation.delimiter",
        ) {
            Rgb { red: 190, green: 190, blue: 190 }
        } else if str_eq(capture_name, "variable.builtin") || str_eq(
            capture_name,
            "variable.parameter",
        ) {
            Rgb { red: 224, green: 108, blue: 117 }
        } else if str_eq(capture_name, "keyword") || str_eq(capture_name, "operator") {
            Rgb { red: 198, green: 120, blue: 221 }
        } else {
            Rgb { red: 171, green: 178, blue: 191 }
        }
    }

    /// The color of uncaptured text.
    pub fn default_text_color(&self) -> (r: Rgb)
        ensures
            r == default_color(),
    {
        Rgb { red: 171, green: 178, blue: 191 }
    }

    /// Assign a color to `pos`: the current candidate's class color when
    /// `pos` falls inside it, the default when `pos` lies before it or the
    /// stream is exhausted; a candidate that `pos` has passed is dropped and
    /// the next one tried, without ever rescanning from the start.
    pub fn select(
        &self,
        highlighter: &mut HighlightIter,
        item: &mut Option<HighlightItem>,
        pos: &Position,
    ) -> (r: Rgb)
        ensures
            r == match sel_class(*old(item), old(highlighter).remaining(), *pos) {
                Some(name) => spec_color_of(name),
                None => default_color(),
            },
            (*final(item), final(highlighter).remaining()) == sel_rest(
                *old(item),
                old(highlighter).remaining(),
                *pos,
            ),
    {
        loop
            invariant
                sel_class(*item, highlighter.remaining(), *pos) == sel_class(
                    *old(item),
                    old(highlighter).remaining(),
                    *pos,
                ),
                sel_rest(*item, highlighter.remaining(), *pos) == sel_rest(
                    *old(item),
                    old(highlighter).remaining(),
                    *pos,
                ),
            decreases highlighter.remaining().len() + (if (*item) is Some {
                1int
            } else {
                0int
            }),
        {
            let (start_point, end_point, color) = match &*item {
                None => {
                    return self.default_text_color();
                },
                Some(value) => (
                    value.range.start_point,
                    value.range.end_point,
                    self.get_highlighter_color(value.capture_name.as_str()),
                ),
            };
            if pos.is_within(start_point, end_point) {
                return color;
            }
            if *pos > end_point {
                *item = highlighter.next();
            } else if *pos < start_point {
                return self.default_text_color();
            } else {
                *item = highlighter.next();
            }
        }
    }
}

} // verus!
