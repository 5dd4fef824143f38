use vstd::prelude::*;

use core::cell::Cell;
use pulldown_cmark::{BrokenLink, CodeBlockKind, CowStr, Event, Options, Parser, Tag};

use crate::error::Error;

verus! {

/// What the document pipeline reads from one markdown event: whether it
/// opens a construct (and, for a fenced code block, the fence label),
/// closes one, or is any other event, together with the byte range of the
/// source text it came from.
pub enum TokenKind {
    /// A start event; the label is the fence label when the event opens a
    /// fenced code block, and nothing otherwise.
    Start(Option<String>),
    /// An end event.
    End,
    /// Any other event (text, code, breaks, and the like).
    Other,
}

pub struct MdToken {
    pub kind: TokenKind,
    pub start: usize,
    pub end: usize,
}

/// The event stream that the markdown tokenizer, with all extensions
/// enabled, produces for a source text; nothing when the text holds a
/// reference link without a definition, which fails the whole run.
pub uninterp spec fn tokens_of(s: Seq<char>) -> Option<Seq<MdToken>>;

/// The HTML rendering of every event after the first `skip` events of the
/// stream for a source text.
pub uninterp spec fn html_of(s: Seq<char>, skip: int) -> Seq<char>;

/// Relies on pulldown_cmark's Parser with a broken-link callback and on its
/// OffsetIter: tokenizes the source with all extensions enabled, yielding
/// each event with its source byte range; the callback fires exactly when a
/// reference link has no definition. The result depends on the text alone.
#[verifier::external_body]
pub(crate) fn tokenize(content: &str) -> (r: Result<Vec<MdToken>, Error>)
    ensures
        r is Ok <==> tokens_of(content@) is Some,
        r is Ok ==> r->Ok_0@ == tokens_of(content@)->0,
        r is Err ==> r->Err_0 is BrokenLink,
{
    let broken = Cell::new(false);
    let cb = |_: BrokenLink| -> Option<(CowStr, CowStr)> { broken.set(true); None };
    let parser = Parser::new_with_broken_link_callback(content, Options::all(), Some(cb));
    let toks: Vec<MdToken> = parser.into_offset_iter().map(|(ev, r)| MdToken {
        kind: match ev {
            Event::Start(Tag::CodeBlock(CodeBlockKind::Fenced(l))) => TokenKind::Start(Some(l.into_string())),
            Event::Start(_) => TokenKind::Start(None),
            Event::End(_) => TokenKind::End,
            _ => TokenKind::Other,
        },
        start: r.start,
        end: r.end,
    }).collect();
    if broken.get() { Err(Error::BrokenLink) } else { Ok(toks) }
}

/// Relies on pulldown_cmark's Parser and html::push_html: renders every
/// event after the first `skip` to HTML, with all extensions enabled. The
/// result depends on the arguments alone.
#[verifier::external_body]
pub(crate) fn render_html_after(content: &str, skip: usize) -> (r: String)
    ensures
        r@ == html_of(content@, skip as int),
{
    let cb = |_: BrokenLink| -> Option<(CowStr, CowStr)> { None };
    let parser = Parser::new_with_broken_link_callback(content, Options::all(), Some(cb));
    let mut out = String::new();
    pulldown_cmark::html::push_html(&mut out, parser.skip(skip));
    out
}

/// The reserved fence label that marks a metadata block.
pub open spec fn meta_label() -> Seq<char> {
    "metadata"@
}

/// Whether the event stream opens with a fenced code block labeled as
/// metadata — the only position a metadata block is recognized at.
pub open spec fn starts_with_meta_fence(toks: Seq<MdToken>) -> bool {
    toks.len() > 0 && match toks[0].kind {
        TokenKind::Start(l) => l is Some && l->0@ == meta_label(),
        _ => false,
    }
}

pub fn has_meta_fence(toks: &Vec<MdToken>) -> (r: bool)
    ensures
        r == starts_with_meta_fence(toks@),
{
    if toks.len() == 0 {
        return false;
    }
    match &toks[0].kind {
        TokenKind::Start(Some(l)) => {
            let m = String::from_str("metadata");
            l.eq(&m)
        },
        _ => false,
    }
}

/// Widens a span under construction with one more byte range.
pub open spec fn merge_span(acc: Option<(usize, usize)>, s: usize, e: usize) -> Option<
    (usize, usize),
> {
    match acc {
        Option::None => Some((s, e)),
        Option::Some((a, b)) => Some(
            ((if s < a { s } else { a }), (if e > b { e } else { b })),
        ),
    }
}

/// One pass over the event stream from index `i` at nesting depth `depth`:
/// start events deepen, end events shallow, and the pass stops just after
/// the end event that returns the depth to zero (or at the end of the
/// stream). Every other event met strictly inside the construct widens the
/// span with its byte range. Yields the index after the pass and the span.
pub open spec fn scan_meta(
    toks: Seq<MdToken>,
    i: int,
    depth: int,
    acc: Option<(usize, usize)>,
) -> (int, Option<(usize, usize)>)
    decreases toks.len() - i,
{
    if i < 0 || i >= toks.len() {
        (i, acc)
    } else {
        match toks[i].kind {
            TokenKind::Start(_) => scan_meta(toks, i + 1, depth + 1, acc),
            TokenKind::End => if depth <= 1 {
                (i + 1, acc)
            } else {
                scan_meta(toks, i + 1, depth - 1, acc)
            },
            TokenKind::Other => scan_meta(
                toks,
                i + 1,
                depth,
                if depth > 0 {
                    merge_span(acc, toks[i].start, toks[i].end)
                } else {
                    acc
                },
            ),
        }
    }
}

/// Consumes the leading construct of the event stream and determines the
/// byte span its inner events touch: the least start offset and the
/// greatest end offset, or nothing when no inner event was seen — an empty
/// block yields no span rather than a degenerate range. Returns the number
/// of events consumed and the span.
pub fn metadata_span(toks: &Vec<MdToken>) -> (r: (usize, Option<(usize, usize)>))
    ensures
        (r.0 as int, r.1) == scan_meta(toks@, 0, 0, None),
{
    let ghost target = scan_meta(toks@, 0, 0, None);
    let mut i: usize = 0;
    let mut depth: usize = 0;
    let mut span: Option<(usize, usize)> = None;
    let mut done: bool = false;
    while !done && i < toks.len()
        invariant
            i <= toks@.len(),
            depth <= i,
            !done ==> scan_meta(toks@, i as int, depth as int, span) == target,
            done ==> (i as int, span) == target,
        decreases toks@.len() - i,
    {
        match &toks[i].kind {
            TokenKind::Start(_) => {
                depth = depth + 1;
            },
            TokenKind::End => {
                if depth <= 1 {
                    done = true;
                } else {
                    depth = depth - 1;
                }
            },
            TokenKind::Other => {
                if depth > 0 {
                    let s = toks[i].start;
                    let e = toks[i].end;
                    span = match span {
                        Option::None => Some((s, e)),
                        Option::Some((a, b)) => Some(
                            ((if s < a { s } else { a }), (if e > b { e } else { b })),
                        ),
                    };
                }
            },
        }
        i = i + 1;
    }
    (i, span)
}

} // verus!
