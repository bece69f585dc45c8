//! The incremental highlight index: a persistent tree-sitter parse tree plus
//! a compiled query over a fixed grammar. Each text edit is translated into a
//! structural edit descriptor by the verified functions here — with half-open
//! spans and points in the same character unit as line lengths, a unit that
//! equals tree-sitter's bytes on ASCII text, so that on such text the
//! descriptor describes the change exactly (`accurate_edit`); applying
//! the descriptor and reparsing, and running the query, go through a trusted
//! boundary. The text a tree represents is named by `tree_text`, the pattern
//! source of a query by `query_source`, and what the query produces on a
//! given text and byte span by `captures_of`: for a fixed grammar the
//! capture list is a function of those alone, which is what makes reparsing
//! reproducible (`lemma_reparse_round_trip`).

use crate::document::Document;
use crate::position::{offset_of, pos_ok, spec_advanced_cursor, Cursor, Position};
use crate::text_model::{
    count_nl, lemma_pos_bounds_common_prefix, lemma_position_offset_round_trip,
    lemma_splice_advanced, lemma_splice_remove, remove_span, splice,
};
use vstd::prelude::*;
use vstd::string::StrSliceExecFns;

verus! {

#[verifier::external_type_specification]
#[verifier::external_body]
pub struct ExTree(tree_sitter::Tree);

#[verifier::external_type_specification]
#[verifier::external_body]
pub struct ExQuery(tree_sitter::Query);

#[verifier::external_type_specification]
#[verifier::external_body]
pub struct ExParser(tree_sitter::Parser);

/// The source text that a syntax tree currently represents.
pub uninterp spec fn tree_text(t: tree_sitter::Tree) -> Seq<char>;

/// The pattern source that a compiled query was built from.
pub uninterp spec fn query_source(q: tree_sitter::Query) -> Seq<char>;

/// A parser is ready to parse: a language is set and no timeout or
/// cancellation flag is configured, so `Parser::parse` always returns a
/// tree.
pub uninterp spec fn parser_ready(p: tree_sitter::Parser) -> bool;

/// The fixed Rust grammar loads and `Query::new` accepts this pattern
/// source against it; `Query::new` is deterministic in its inputs, so this
/// is a function of the source alone.
pub uninterp spec fn rust_query_ok(query: Seq<char>) -> bool;

/// What running the fixed-grammar highlight query with pattern source
/// `query` over `content`, restricted to the byte span `[start, end)`,
/// produces: one entry per captured node per matched pattern, in tree-walk
/// order. The spans and point columns of the captures are in tree-sitter's
/// byte units, which coincide with the model's character units on ASCII
/// text.
pub uninterp spec fn captures_of(
    query: Seq<char>,
    content: Seq<char>,
    start: int,
    end: int,
) -> Seq<CaptureView>;

/// A structural edit descriptor: the byte and point coordinates of one text
/// mutation, in the form the parser expects.
#[derive(Debug, Clone, Copy)]
pub struct EditDescriptor {
    pub start_byte: usize,
    pub old_end_byte: usize,
    pub new_end_byte: usize,
    pub start_position: Position,
    pub old_end_position: Position,
    pub new_end_position: Position,
}

/// The descriptor describes the change from `old_text` to `new_text`
/// exactly, in tree-sitter's units. The descriptor's offsets and columns
/// are stated in characters, the one unit the model uses, while tree-sitter
/// reads them as byte offsets and byte columns; the two readings coincide
/// exactly when both texts are ASCII, so that condition is part of
/// accuracy. Beyond it: the spans are in bounds, the two texts agree
/// outside the edited span, and each point is the canonical position of
/// its offset in the corresponding text. Tree-sitter promises a reparse
/// equivalent to a fresh parse only for such a descriptor.
pub open spec fn accurate_edit(old_text: Seq<char>, new_text: Seq<char>, d: EditDescriptor) -> bool {
    &&& vstd::utf8::is_ascii_chars(old_text)
    &&& vstd::utf8::is_ascii_chars(new_text)
    &&& d.start_byte <= d.old_end_byte <= old_text.len()
    &&& d.start_byte <= d.new_end_byte <= new_text.len()
    &&& new_text.subrange(0, d.start_byte as int) == old_text.subrange(0, d.start_byte as int)
    &&& new_text.subrange(d.new_end_byte as int, new_text.len() as int) == old_text.subrange(
        d.old_end_byte as int,
        old_text.len() as int,
    )
    &&& pos_ok(old_text, d.start_position) && offset_of(old_text, d.start_position)
        == d.start_byte
    &&& pos_ok(old_text, d.old_end_position) && offset_of(old_text, d.old_end_position)
        == d.old_end_byte
    &&& pos_ok(new_text, d.new_end_position) && offset_of(new_text, d.new_end_position)
        == d.new_end_byte
}

/// The descriptor of replacing the span `[start_byte, end_byte)` with
/// `inserted`: half-open byte spans, the new end one inserted-length past
/// the start, and the new end point advanced over the inserted text.
pub open spec fn spec_insert_descriptor(
    start_byte: usize,
    end_byte: usize,
    start_pos: Position,
    end_pos: Position,
    inserted: Seq<char>,
) -> EditDescriptor {
    EditDescriptor {
        start_byte,
        old_end_byte: end_byte,
        new_end_byte: (start_byte + inserted.len()) as usize,
        start_position: start_pos,
        old_end_position: end_pos,
        new_end_position: spec_advanced_cursor(start_pos, inserted),
    }
}

/// The descriptor of deleting the span `[start_byte, end_byte)`: the new
/// end returns to the start, in bytes and in points.
pub open spec fn spec_delete_descriptor(
    start_byte: usize,
    end_byte: usize,
    start_pos: Position,
    end_pos: Position,
) -> EditDescriptor {
    EditDescriptor {
        start_byte,
        old_end_byte: end_byte,
        new_end_byte: start_byte,
        start_position: start_pos,
        old_end_position: end_pos,
        new_end_position: start_pos,
    }
}

/// The span one capture covers: raw byte offsets and line/character points.
#[derive(Debug, Clone, Copy)]
pub struct CaptureRange {
    pub start_byte: usize,
    pub end_byte: usize,
    pub start_point: Position,
    pub end_point: Position,
}

/// One capture produced by the highlight query.
#[derive(Debug, Clone)]
pub struct HighlightItem {
    pub capture_name: String,
    pub kind: String,
    pub range: CaptureRange,
}

/// The mathematical content of a `HighlightItem`.
pub struct CaptureView {
    pub capture_name: Seq<char>,
    pub kind: Seq<char>,
    pub range: CaptureRange,
}

impl HighlightItem {
    /// The view of this capture.
    pub open spec fn spec_view(self) -> CaptureView {
        CaptureView { capture_name: self.capture_name@, kind: self.kind@, range: self.range }
    }
}

/// The views of a capture list.
pub open spec fn caps_view(items: Seq<HighlightItem>) -> Seq<CaptureView> {
    items.map_values(|it: HighlightItem| it.spec_view())
}

/// The persistent highlight index: one parse tree, one compiled query, one
/// parser, all over the fixed Rust grammar.
pub struct HighlighterConfig {
    pub tree: tree_sitter::Tree,
    pub query: tree_sitter::Query,
    pub parser: tree_sitter::Parser,
}

/// Relies on `Parser::new`, `Parser::set_language`,
/// `tree_sitter_rust::language`, `Parser::parse` and `Query::new`: on
/// success, the tree is a fresh parse of `source_code`, the query was
/// compiled from `query_text`, both over the Rust grammar, and the parser
/// is left ready (language set, no timeout or cancellation configured).
/// Every step is deterministic in its inputs, so success is exactly
/// `rust_query_ok`: the grammar loading and `Query::new` accepting the
/// source — a startup-time configuration question, never a per-edit one.
#[verifier::external_body]
fn build_rust_config(source_code: &str, query_text: &str) -> (r: Option<HighlighterConfig>)
    ensures
        r is Some <==> rust_query_ok(query_text@),
        r matches Some(c) ==> tree_text(c.tree) == source_code@ && query_source(c.query)
            == query_text@ && parser_ready(c.parser),
{
    let mut parser = tree_sitter::Parser::new();
    if parser.set_language(tree_sitter_rust::language()).is_err() {
        return None;
    }
    let tree = parser.parse(source_code, None)?;
    match tree_sitter::Query::new(tree_sitter_rust::language(), query_text) {
        Ok(query) => Some(HighlighterConfig { tree, query, parser }),
        Err(_) => None,
    }
}

/// Relies on `Tree::clone`, `Tree::edit` and `Parser::parse`: marks the span
/// the descriptor covers as changed, then reparses `content` reusing the
/// unaffected subtrees. A ready parser (language set, no timeout or
/// cancellation) always returns a tree, and neither call changes that
/// readiness or the query. The result is equivalent to a fresh parse of
/// `content` only when the descriptor describes the change from the tree's
/// text to `content` exactly in tree-sitter's own units — byte offsets and
/// byte columns, which the descriptor's character units equal on the ASCII
/// texts `accurate_edit` demands — since tree-sitter asks that the old
/// tree be edited "to match the new text". So the sync clause is
/// conditioned on `accurate_edit`. On the `false` outcome the old tree is
/// kept.
#[verifier::external_body]
fn apply_edit(c: &mut HighlighterConfig, input: &EditDescriptor, content: &str) -> (r: bool)
    ensures
        query_source(final(c).query) == query_source(old(c).query),
        parser_ready(final(c).parser) == parser_ready(old(c).parser),
        parser_ready(old(c).parser) ==> r,
        r && accurate_edit(tree_text(old(c).tree), content@, *input) ==> tree_text(final(c).tree)
            == content@,
        !r ==> final(c).tree == old(c).tree,
{
    let mut tree = c.tree.clone();
    let (s, o, n) = (input.start_position, input.old_end_position, input.new_end_position);
    tree.edit(&tree_sitter::InputEdit {
        start_byte: input.start_byte,
        old_end_byte: input.old_end_byte,
        new_end_byte: input.new_end_byte,
        start_position: tree_sitter::Point { row: s.line, column: s.character },
        old_end_position: tree_sitter::Point { row: o.line, column: o.character },
        new_end_position: tree_sitter::Point { row: n.line, column: n.character },
    });
    match c.parser.parse(content, Some(&tree)) {
        Some(t) => { c.tree = t; true },
        None => false,
    }
}

/// One capture as the trusted boundary hands it out: class name, node kind,
/// byte span, then start and end point coordinates.
pub type RawCapture = (String, String, usize, usize, usize, usize, usize, usize);

/// The mathematical content of one raw capture.
pub open spec fn raw_cap_view(t: RawCapture) -> CaptureView {
    CaptureView {
        capture_name: t.0@,
        kind: t.1@,
        range: CaptureRange {
            start_byte: t.2,
            end_byte: t.3,
            start_point: Position { line: t.4, character: t.5 },
            end_point: Position { line: t.6, character: t.7 },
        },
    }
}

/// The views of a raw capture list.
pub open spec fn raw_caps_view(items: Seq<RawCapture>) -> Seq<CaptureView> {
    items.map_values(|t: RawCapture| raw_cap_view(t))
}

/// Relies on `QueryCursor::new`, `QueryCursor::set_byte_range`,
/// `Tree::root_node`, `QueryCursor::captures`, `Query::capture_names`,
/// `Node::kind` and `Node::range`: runs the compiled query over the current
/// tree restricted to `[start, end)`, against `content`; a capture's index
/// always indexes the query's capture names. The result is specified only
/// when the tree represents `content`. `set_byte_range` truncates its
/// offsets to `u32`, so spans beyond that are a machine limit of the
/// binding.
#[verifier::external_body]
fn run_query(c: &HighlighterConfig, start: usize, end: usize, content: &str) -> (r: Vec<
    RawCapture,
>)
    ensures
        tree_text(c.tree) == content@ ==> raw_caps_view(r@) == captures_of(
            query_source(c.query),
            content@,
            start as int,
            end as int,
        ),
{
    let names = c.query.capture_names();
    let mut cursor = tree_sitter::QueryCursor::new();
    cursor.set_byte_range(start..end);
    let mut out = Vec::new();
    for (m, _) in cursor.captures(&c.query, c.tree.root_node(), content.as_bytes()) {
        for cap in m.captures {
            let g = cap.node.range();
            let name = names[cap.index as usize].clone();
            out.push((name, cap.node.kind().to_string(), g.start_byte, g.end_byte, g.start_point.row, g.start_point.column, g.end_point.row, g.end_point.column));
        }
    }
    out
}

/// Build the capture list from what the trusted boundary handed out.
fn items_of(raw: Vec<RawCapture>) -> (r: Vec<HighlightItem>)
    ensures
        caps_view(r@) == raw_caps_view(raw@),
{
    let mut out: Vec<HighlightItem> = Vec::new();
    let n = raw.len();
    let mut i: usize = 0;
    while i < n
        invariant
            i <= n,
            n == raw@.len(),
            out@.len() == i,
            forall|j: int| 0 <= j < i ==> #[trigger] out@[j].spec_view() == raw_cap_view(raw@[j]),
        decreases n - i,
    {
        let t = &raw[i];
        out.push(
            HighlightItem {
                capture_name: t.0.clone(),
                kind: t.1.clone(),
                range: CaptureRange {
                    start_byte: t.2,
                    end_byte: t.3,
                    start_point: Position { line: t.4, character: t.5 },
                    end_point: Position { line: t.6, character: t.7 },
                },
            },
        );
        i = i + 1;
    }
    proof {
        assert(caps_view(out@) =~= raw_caps_view(raw@));
    }
    out
}

impl HighlighterConfig {
    /// Build the index for a Rust document from its full text and the
    /// highlight query source. Succeeds exactly when the grammar loads and
    /// the query compiles — a misconfigured asset is the only failure, and
    /// it surfaces here, at construction time.
    pub fn rust_config(source_code: &str, query_text: &str) -> (r: Option<HighlighterConfig>)
        ensures
            r is Some <==> rust_query_ok(query_text@),
            r matches Some(c) ==> tree_text(c.tree) == source_code@ && query_source(c.query)
                == query_text@ && parser_ready(c.parser),
    {
        build_rust_config(source_code, query_text)
    }

    /// Translate the replacement of `[start_byte, end_byte)` by `inserted`
    /// into its structural edit descriptor and apply it, reparsing
    /// `content`. A ready parser always completes (`r` is true), and when
    /// the descriptor matches the change from the tree's text to `content`,
    /// the tree afterwards represents `content`.
    pub fn insert(
        &mut self,
        start_byte: usize,
        end_byte: usize,
        start_pos: Position,
        end_pos: Position,
        inserted: &str,
        content: &str,
    ) -> (r: bool)
        requires
            start_byte + inserted@.len() <= usize::MAX,
            start_pos.line + count_nl(inserted@) <= usize::MAX,
            count_nl(inserted@) == 0 ==> start_pos.character + inserted@.len() <= usize::MAX,
        ensures
            query_source(final(self).query) == query_source(old(self).query),
            parser_ready(final(self).parser) == parser_ready(old(self).parser),
            parser_ready(old(self).parser) ==> r,
            r && accurate_edit(
                tree_text(old(self).tree),
                content@,
                spec_insert_descriptor(start_byte, end_byte, start_pos, end_pos, inserted@),
            ) ==> tree_text(final(self).tree) == content@,
            !r ==> final(self).tree == old(self).tree,
    {
        let input = insert_edit_descriptor(start_byte, end_byte, start_pos, end_pos, inserted);
        apply_edit(self, &input, content)
    }

    /// Translate the deletion of `[start_byte, end_byte)` into its
    /// structural edit descriptor and apply it, reparsing `content`. A
    /// ready parser always completes (`r` is true), and when the descriptor
    /// matches the change from the tree's text to `content`, the tree
    /// afterwards represents `content`.
    pub fn delete(
        &mut self,
        start_byte: usize,
        end_byte: usize,
        start_pos: Position,
        end_pos: Position,
        content: &str,
    ) -> (r: bool)
        ensures
            query_source(final(self).query) == query_source(old(self).query),
            parser_ready(final(self).parser) == parser_ready(old(self).parser),
            parser_ready(old(self).parser) ==> r,
            r && accurate_edit(
                tree_text(old(self).tree),
                content@,
                spec_delete_descriptor(start_byte, end_byte, start_pos, end_pos),
            ) ==> tree_text(final(self).tree) == content@,
            !r ==> final(self).tree == old(self).tree,
    {
        let input = delete_edit_descriptor(start_byte, end_byte, start_pos, end_pos);
        apply_edit(self, &input, content)
    }
}

/// The structural edit descriptor of replacing `[start_byte, end_byte)`
/// with `inserted`: half-open byte spans, the new end `inserted`'s length
/// past the start, and the new end point advanced over `inserted`.
pub fn insert_edit_descriptor(
    start_byte: usize,
    end_byte: usize,
    start_pos: Position,
    end_pos: Position,
    inserted: &str,
) -> (r: EditDescriptor)
    requires
        start_byte + inserted@.len() <= usize::MAX,
        start_pos.line + count_nl(inserted@) <= usize::MAX,
        count_nl(inserted@) == 0 ==> start_pos.character + inserted@.len() <= usize::MAX,
    ensures
        r == spec_insert_descriptor(start_byte, end_byte, start_pos, end_pos, inserted@),
{
    let length = inserted.unicode_len();
    let mut end_of_insert = Cursor(start_pos);
    end_of_insert.move_to_end_of_insert(inserted.to_owned());
    EditDescriptor {
        start_byte,
        old_end_byte: end_byte,
        new_end_byte: start_byte + length,
        start_position: start_pos,
        old_end_position: end_pos,
        new_end_position: end_of_insert.0,
    }
}

/// The structural edit descriptor of deleting `[start_byte, end_byte)`: the
/// new end returns to the start, in bytes and in points.
pub fn delete_edit_descriptor(
    start_byte: usize,
    end_byte: usize,
    start_pos: Position,
    end_pos: Position,
) -> (r: EditDescriptor)
    ensures
        r == spec_delete_descriptor(start_byte, end_byte, start_pos, end_pos),
{
    EditDescriptor {
        start_byte,
        old_end_byte: end_byte,
        new_end_byte: start_byte,
        start_position: start_pos,
        old_end_position: end_pos,
        new_end_position: start_pos,
    }
}

/// The replacement descriptor describes the replacement exactly: with both
/// endpoints at their stated offsets, replacing `[start_byte, end_byte)` of
/// `s` by `t` is the change the descriptor names, and its new end point is
/// the canonical position of the end of the insertion.
pub proof fn lemma_replace_descriptor_accurate(
    s: Seq<char>,
    start_byte: usize,
    end_byte: usize,
    pa: Position,
    pb: Position,
    t: Seq<char>,
)
    requires
        pos_ok(s, pa),
        pos_ok(s, pb),
        offset_of(s, pa) == start_byte,
        offset_of(s, pb) == end_byte,
        start_byte <= end_byte,
        start_byte + t.len() <= usize::MAX,
        pa.line + count_nl(t) <= usize::MAX,
        count_nl(t) == 0 ==> pa.character + t.len() <= usize::MAX,
        vstd::utf8::is_ascii_chars(s),
        vstd::utf8::is_ascii_chars(t),
    ensures
        accurate_edit(
            s,
            splice(remove_span(s, start_byte as int, end_byte as int), start_byte as int, t),
            spec_insert_descriptor(start_byte, end_byte, pa, pb, t),
        ),
{
    let a = start_byte as int;
    let b = end_byte as int;
    lemma_position_offset_round_trip(s, pa.line as nat, pa.character as nat);
    lemma_position_offset_round_trip(s, pb.line as nat, pb.character as nat);
    crate::text_model::lemma_last_line_start_bounds(t);
    let mid = remove_span(s, a, b);
    let new = splice(mid, a, t);
    assert(mid.subrange(0, a) =~= s.subrange(0, a));
    assert(new.subrange(0, a) =~= s.subrange(0, a));
    assert(new.subrange(a + t.len(), new.len() as int) =~= s.subrange(b, s.len() as int));
    crate::text_model::lemma_ascii_subrange(s, 0, a);
    crate::text_model::lemma_ascii_subrange(s, b, s.len() as int);
    vstd::utf8::is_ascii_chars_concat(mid, s.subrange(0, a), s.subrange(b, s.len() as int));
    crate::text_model::lemma_ascii_subrange(mid, 0, a);
    crate::text_model::lemma_ascii_subrange(mid, a, mid.len() as int);
    vstd::utf8::is_ascii_chars_concat(mid.subrange(0, a) + t, mid.subrange(0, a), t);
    assert(new =~= (mid.subrange(0, a) + t) + mid.subrange(a, mid.len() as int));
    vstd::utf8::is_ascii_chars_concat(
        new,
        mid.subrange(0, a) + t,
        mid.subrange(a, mid.len() as int),
    );
    lemma_pos_bounds_common_prefix(s, mid, pa.line as nat, pa.character as nat);
    lemma_splice_advanced(mid, pa.line as nat, pa.character as nat, t);
    let adv = spec_advanced_cursor(pa, t);
    assert(adv.line == pa.line + count_nl(t));
    assert(adv.character == if count_nl(t) == 0 {
        pa.character + t.len()
    } else {
        t.len() - crate::text_model::last_line_start(t)
    });
}

/// The deletion descriptor describes the deletion exactly: with both
/// endpoints at their stated offsets, removing `[start_byte, end_byte)`
/// from `s` is the change the descriptor names.
pub proof fn lemma_delete_descriptor_accurate(
    s: Seq<char>,
    start_byte: usize,
    end_byte: usize,
    pa: Position,
    pb: Position,
)
    requires
        pos_ok(s, pa),
        pos_ok(s, pb),
        offset_of(s, pa) == start_byte,
        offset_of(s, pb) == end_byte,
        start_byte <= end_byte,
        vstd::utf8::is_ascii_chars(s),
    ensures
        accurate_edit(
            s,
            remove_span(s, start_byte as int, end_byte as int),
            spec_delete_descriptor(start_byte, end_byte, pa, pb),
        ),
{
    let a = start_byte as int;
    let b = end_byte as int;
    lemma_position_offset_round_trip(s, pa.line as nat, pa.character as nat);
    lemma_position_offset_round_trip(s, pb.line as nat, pb.character as nat);
    let new = remove_span(s, a, b);
    assert(new.subrange(0, a) =~= s.subrange(0, a));
    assert(new.subrange(a, new.len() as int) =~= s.subrange(b, s.len() as int));
    crate::text_model::lemma_ascii_subrange(s, 0, a);
    crate::text_model::lemma_ascii_subrange(s, b, s.len() as int);
    vstd::utf8::is_ascii_chars_concat(new, s.subrange(0, a), s.subrange(b, s.len() as int));
    lemma_pos_bounds_common_prefix(s, new, pa.line as nat, pa.character as nat);
}

/// A flat, ordered capture list for one highlighting request; produced
/// fresh per request, never persisted.
#[derive(Debug, Clone)]
pub struct Highlighter {
    pub captures: Vec<HighlightItem>,
}

impl Highlighter {
    /// Run the highlight query over the byte span `range` of `buffer`'s
    /// current text. The capture list is pinned down whenever the index is
    /// in sync with the buffer.
    pub fn new(config: &HighlighterConfig, range: core::ops::Range<usize>, buffer: &Document) -> (r:
        Option<Highlighter>)
        ensures
            r is Some,
            tree_text(config.tree) == buffer.text() ==> caps_view(r->Some_0.captures@)
                == captures_of(
                query_source(config.query),
                buffer.text(),
                range.start as int,
                range.end as int,
            ),
    {
        let content = buffer.to_string();
        let raw = run_query(config, range.start, range.end, content.as_str());
        Some(Highlighter { captures: items_of(raw) })
    }
}

/// Law: reparsing is reproducible. An insertion followed by its exact
/// inverse deletion restores the text, and with it the capture list of
/// every queried span, since for the fixed grammar the capture list is a
/// function of the query, the text and the span alone.
pub proof fn lemma_reparse_round_trip(
    q: Seq<char>,
    s: Seq<char>,
    i: int,
    t: Seq<char>,
    a: int,
    b: int,
)
    requires
        0 <= i <= s.len(),
    ensures
        remove_span(splice(s, i, t), i, i + t.len()) == s,
        captures_of(q, remove_span(splice(s, i, t), i, i + t.len()), a, b) == captures_of(
            q,
            s,
            a,
            b,
        ),
{
    lemma_splice_remove(s, i, t);
}

} // verus!
