//! Layouts that combine content sources into one document.
use vstd::prelude::*;

use crate::generator;

verus! {

/// The layout of a device's screen: an externally hosted document, one
/// source over the full screen, or two sources side by side. Sources are
/// named by their key in the device's sources.
#[derive(Debug)]
pub enum Mashup {
    PassThrough(String),
    Single(String),
    LeftRight { left: String, right: String },
}

/// The model of a layout.
pub ghost enum MashupModel {
    PassThrough(Seq<char>),
    Single(Seq<char>),
    LeftRight { left: Seq<char>, right: Seq<char> },
}

impl View for Mashup {
    type V = MashupModel;

    open spec fn view(&self) -> MashupModel {
        match self {
            Mashup::PassThrough(u) => MashupModel::PassThrough(u@),
            Mashup::Single(k) => MashupModel::Single(k@),
            Mashup::LeftRight { left, right } => MashupModel::LeftRight {
                left: left@,
                right: right@,
            },
        }
    }
}

/// A document over the full screen.
pub open spec fn full_markup(doc: Seq<char>) -> Seq<char> {
    "<div class=\"view view--full\">"@ + doc + "</div>"@
}

/// A document over half the screen.
pub open spec fn half_markup(doc: Seq<char>) -> Seq<char> {
    "<div class=\"view view--half_vertical\">"@ + doc + "</div>"@
}

/// Two documents side by side, the first on the left.
pub open spec fn side_by_side_markup(left: Seq<char>, right: Seq<char>) -> Seq<char> {
    "<div class=\"mashup mashup--1Lx1R\">"@ + half_markup(left) + half_markup(right) + "</div>"@
}

/// The model of a generation outcome.
pub open spec fn doc_outcome(r: Result<String, generator::Error>) -> Result<Seq<char>, generator::ErrorModel> {
    match r {
        Ok(d) => Ok(d@),
        Err(e) => Err(e@),
    }
}

/// A full-screen layout of a source's outcome: its document wrapped, or its
/// failure unchanged.
pub open spec fn full_view_spec(doc: Result<Seq<char>, generator::ErrorModel>) -> Result<Seq<char>, generator::ErrorModel> {
    match doc {
        Ok(d) => Ok(full_markup(d)),
        Err(e) => Err(e),
    }
}

/// A side-by-side layout of two outcomes: both documents, or the first
/// failure, the left one where both failed.
pub open spec fn side_by_side_spec(
    left: Result<Seq<char>, generator::ErrorModel>,
    right: Result<Seq<char>, generator::ErrorModel>,
) -> Result<Seq<char>, generator::ErrorModel> {
    match left {
        Err(e) => Err(e),
        Ok(l) => match right {
            Err(e) => Err(e),
            Ok(r) => Ok(side_by_side_markup(l, r)),
        },
    }
}

/// Lays a source's document out over the full screen.
pub fn full_view(doc: Result<String, generator::Error>) -> (r: Result<String, generator::Error>)
    ensures
        doc_outcome(r) == full_view_spec(doc_outcome(doc)),
{
    match doc {
        Ok(d) => Ok(String::from_str("<div class=\"view view--full\">").concat(d.as_str()).concat("</div>")),
        Err(e) => Err(e),
    }
}

fn half_view(doc: &str) -> (r: String)
    ensures
        r@ == half_markup(doc@),
{
    String::from_str("<div class=\"view view--half_vertical\">").concat(doc).concat("</div>")
}

/// Lays two sources' documents out side by side.
pub fn side_by_side(
    left: Result<String, generator::Error>,
    right: Result<String, generator::Error>,
) -> (r: Result<String, generator::Error>)
    ensures
        doc_outcome(r) == side_by_side_spec(doc_outcome(left), doc_outcome(right)),
{
    match left {
        Err(e) => Err(e),
        Ok(l) => match right {
            Err(e) => Err(e),
            Ok(r) => {
                let out = String::from_str("<div class=\"mashup mashup--1Lx1R\">").concat(
                    half_view(l.as_str()).as_str(),
                ).concat(half_view(r.as_str()).as_str()).concat("</div>");
                proof {
                    assert(out@ =~= side_by_side_markup(l@, r@));
                }
                Ok(out)
            },
        },
    }
}

/// A side-by-side layout fails when either source fails, and otherwise holds
/// both documents, each in a half-screen container, the left one first.
pub proof fn side_by_side_needs_both(
    left: Seq<char>,
    right: Seq<char>,
    failure: generator::ErrorModel,
)
    ensures
        side_by_side_spec(Ok(left), Err(failure)) == Err::<Seq<char>, generator::ErrorModel>(failure),
        side_by_side_spec(Err(failure), Ok(right)) == Err::<Seq<char>, generator::ErrorModel>(failure),
        side_by_side_spec(Ok(left), Ok(right)) == Ok::<Seq<char>, generator::ErrorModel>(
            "<div class=\"mashup mashup--1Lx1R\">"@ + "<div class=\"view view--half_vertical\">"@
                + left + "</div>"@ + "<div class=\"view view--half_vertical\">"@ + right
                + "</div>"@ + "</div>"@,
        ),
{
    let a = "<div class=\"mashup mashup--1Lx1R\">"@;
    let h = "<div class=\"view view--half_vertical\">"@;
    let c = "</div>"@;
    assert(side_by_side_markup(left, right) =~= a + h + left + c + h + right + c + c);
}

} // verus!
