//! Markdown to HTML for agent replies.
//!
//! A reply can hold text from web pages, and its HTML goes straight into a web view. So
//! raw HTML in the Markdown is shown as text, while Markdown still renders.
use vstd::prelude::*;

verus! {

/// A piece of a Markdown document, as the renderer takes it.
#[derive(Debug, PartialEq, Eq)]
pub enum Piece {
    /// A block of raw HTML, which the renderer hands on as it is.
    Html(String),
    /// Raw HTML within a line, which the renderer hands on as it is.
    InlineHtml(String),
    /// Text, which the renderer escapes.
    Text(String),
    /// Any other piece: the one that the document has at this place.
    Markdown,
}

/// What a piece says.
pub ghost enum PieceView {
    Html(Seq<char>),
    InlineHtml(Seq<char>),
    Text(Seq<char>),
    Markdown,
}

impl View for Piece {
    type V = PieceView;

    open spec fn view(&self) -> PieceView {
        match self {
            Piece::Html(s) => PieceView::Html(s@),
            Piece::InlineHtml(s) => PieceView::InlineHtml(s@),
            Piece::Text(s) => PieceView::Text(s@),
            Piece::Markdown => PieceView::Markdown,
        }
    }
}

/// What pieces say.
pub open spec fn pieces_of(v: Seq<Piece>) -> Seq<PieceView> {
    v.map_values(|p: Piece| p@)
}

/// The pieces of a document, in order, with the extensions for strikethrough and tables on
/// or off.
pub uninterp spec fn document_pieces(
    md: Seq<char>,
    strikethrough: bool,
    tables: bool,
) -> Seq<PieceView>;

/// The HTML of some pieces in the places of a document's own, with the same extensions.
pub uninterp spec fn html_text(
    md: Seq<char>,
    strikethrough: bool,
    tables: bool,
    pieces: Seq<PieceView>,
) -> Seq<char>;

/// `pulldown_cmark::Parser::new_ext`: the events of the document, a function of the
/// document and the options. Raw HTML and text come with what they hold, every other event
/// as its place.
#[verifier::external_body]
fn read_pieces(md: &str, strikethrough: bool, tables: bool) -> (r: Vec<Piece>)
    ensures
        pieces_of(r@) == document_pieces(md@, strikethrough, tables),
{
    let mut opts = pulldown_cmark::Options::empty();
    opts.set(pulldown_cmark::Options::ENABLE_STRIKETHROUGH, strikethrough);
    opts.set(pulldown_cmark::Options::ENABLE_TABLES, tables);
    let events = pulldown_cmark::Parser::new_ext(md, opts);
    events.map(|event| match event {
        pulldown_cmark::Event::Html(s) => Piece::Html(s.into()),
        pulldown_cmark::Event::InlineHtml(s) => Piece::InlineHtml(s.into()),
        pulldown_cmark::Event::Text(s) => Piece::Text(s.into()),
        _ => Piece::Markdown,
    }).collect()
}

/// `pulldown_cmark::html::push_html`: the HTML of the pieces, each handed on as the event
/// of its kind and `Piece::Markdown` as the document's own event in that place. A function
/// of the document, the options and the pieces.
#[verifier::external_body]
fn write_html(md: &str, strikethrough: bool, tables: bool, pieces: Vec<Piece>) -> (r: String)
    requires
        pieces@.len() == document_pieces(md@, strikethrough, tables).len(),
    ensures
        r@ == html_text(md@, strikethrough, tables, pieces_of(pieces@)),
{
    let mut opts = pulldown_cmark::Options::empty();
    opts.set(pulldown_cmark::Options::ENABLE_STRIKETHROUGH, strikethrough);
    opts.set(pulldown_cmark::Options::ENABLE_TABLES, tables);
    let mut out = String::new();
    let events = pulldown_cmark::Parser::new_ext(md, opts).zip(pieces);
    pulldown_cmark::html::push_html(&mut out, events.map(|(event, piece)| match piece {
        Piece::Html(s) => pulldown_cmark::Event::Html(s.into()),
        Piece::InlineHtml(s) => pulldown_cmark::Event::InlineHtml(s.into()),
        Piece::Text(s) => pulldown_cmark::Event::Text(s.into()),
        Piece::Markdown => event,
    }));
    out
}

/// A piece with raw HTML turned into text.
pub open spec fn as_text(p: PieceView) -> PieceView {
    match p {
        PieceView::Html(s) => PieceView::Text(s),
        PieceView::InlineHtml(s) => PieceView::Text(s),
        other => other,
    }
}

/// Pieces with raw HTML turned into text.
pub open spec fn neutralized(pieces: Seq<PieceView>) -> Seq<PieceView> {
    pieces.map_values(|p: PieceView| as_text(p))
}

/// Pieces with raw HTML turned into text, and nothing else changed.
pub fn neutralize(pieces: Vec<Piece>) -> (r: Vec<Piece>)
    ensures
        pieces_of(r@) == neutralized(pieces_of(pieces@)),
{
    let ghost all = neutralized(pieces_of(pieces@));
    let ghost given = pieces@;
    let mut out: Vec<Piece> = Vec::new();
    assert(pieces_of(out@) =~= all.take(0));
    for piece in it: pieces
        invariant
            it.seq() == given,
            all == neutralized(pieces_of(given)),
            pieces_of(out@) == all.take(it.index() as int),
    {
        let ghost k = it.index() as int;
        let ghost before = out@;
        assert(all[k] == as_text(piece@));
        out.push(
            match piece {
                Piece::Html(s) => Piece::Text(s),
                Piece::InlineHtml(s) => Piece::Text(s),
                other => other,
            },
        );
        assert(pieces_of(out@) =~= pieces_of(before).push(all[k]));
        assert(all.take(k + 1) =~= all.take(k).push(all[k]));
    }
    assert(all.take(given.len() as int) =~= all);
    out
}

/// A document as an HTML fragment: strikethrough and tables render, raw HTML is text.
pub fn to_html(md: &str) -> (r: String)
    ensures
        r@ == html_text(md@, true, true, neutralized(document_pieces(md@, true, true))),
{
    let pieces = read_pieces(md, true, true);
    assert(pieces_of(pieces@).len() == pieces@.len());
    let shown = neutralize(pieces);
    assert(pieces_of(shown@).len() == shown@.len());
    write_html(md, true, true, shown)
}

/// No piece of raw HTML is handed to the renderer as HTML, wherever it stands; what it
/// says is kept as text, and every other piece is handed on as it is.
pub proof fn raw_html_is_always_text(pieces: Seq<PieceView>, i: int)
    requires
        0 <= i < pieces.len(),
    ensures
        neutralized(pieces).len() == pieces.len(),
        !(neutralized(pieces)[i] is Html),
        !(neutralized(pieces)[i] is InlineHtml),
        pieces[i] matches PieceView::Html(s) ==> neutralized(pieces)[i] == PieceView::Text(s),
        pieces[i] matches PieceView::InlineHtml(s) ==> neutralized(pieces)[i] == PieceView::Text(s),
        pieces[i] is Text || pieces[i] is Markdown ==> neutralized(pieces)[i] == pieces[i],
{
}

} // verus!
