use vstd::prelude::*;

verus! {

/// A configuration value is a template: literal text with `{key}` placeholders.
/// This is one parsed piece of it.
pub enum TemplatePiece {
    Text(String),
    Key(String),
}

/// A parsed piece as a mathematical value.
pub enum Piece {
    Text(Seq<char>),
    Key(Seq<char>),
}

impl View for TemplatePiece {
    type V = Piece;

    open spec fn view(&self) -> Piece {
        match self {
            TemplatePiece::Text(t) => Piece::Text(t@),
            TemplatePiece::Key(k) => Piece::Key(k@),
        }
    }
}

/// The pieces of a sequence of parsed pieces, as values.
pub open spec fn pieces_view(pieces: Seq<TemplatePiece>) -> Seq<Piece> {
    pieces.map_values(|p: TemplatePiece| p@)
}

/// What `leon::Template::parse` makes of a text: `None` where it rejects the
/// text, else the text and key items of the template, in order.
pub uninterp spec fn leon_parse(text: Seq<char>) -> Option<Seq<Piece>>;

#[verifier::external_type_specification]
#[verifier::external_body]
pub struct ExLeonParseError(leon::ParseError);

/// Calls `leon::Template::parse` on `text` and hands out its items, each text
/// item as `Text` and each key item as `Key`, in the order of the template.
/// Trusted: the items are what `leon_parse` names, and the call fails exactly
/// where `leon_parse` is `None`.
#[verifier::external_body]
pub(crate) fn parse_template(text: &str) -> (res: Result<Vec<TemplatePiece>, leon::ParseError>)
    ensures
        match res {
            Ok(pieces) => leon_parse(text@) == Some(pieces_view(pieces@)),
            Err(_) => leon_parse(text@) is None,
        },
{
    leon::Template::parse(text).map(|template| {
        template.items.iter().map(|item| match item {
            leon::Item::Text(t) => TemplatePiece::Text(t.to_string()),
            leon::Item::Key(k) => TemplatePiece::Key(k.to_string()),
        }).collect()
    })
}

/// The display text of a `leon::ParseError`. Trusted; nothing is stated of the text.
#[verifier::external_body]
pub(crate) fn template_error_message(e: &leon::ParseError) -> String {
    format!("{}", e)
}

} // verus!
