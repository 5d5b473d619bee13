//! Queries on an HTML document, made by the kuchiki DOM.
use kuchiki::traits::TendrilSink;
use vstd::prelude::*;

verus! {

/// The text content of the first element of `html` that the CSS selector
/// list `selector` matches, or `None` where no element matches or the
/// selector list does not parse.
pub uninterp spec fn selected_text(html: Seq<char>, selector: Seq<char>) -> Option<Seq<char>>;

/// The value of attribute `attr` on the first element of `html` that the
/// CSS selector list `selector` matches; `None` where no element matches,
/// that element lacks the attribute, or the selector list does not parse.
pub uninterp spec fn selected_attribute(
    html: Seq<char>,
    selector: Seq<char>,
    attr: Seq<char>,
) -> Option<Seq<char>>;

/// The most characters of a document that the parser takes: its buffers
/// hold at most `u32::MAX` bytes, and a character takes at most four.
pub open spec fn html_limit() -> nat {
    1073741823
}

/// The view of an optional string.
pub open spec fn opt_view(o: Option<String>) -> Option<Seq<char>> {
    match o {
        Some(s) => Some(s@),
        None => None,
    }
}

/// Relies on `kuchiki::parse_html`, `NodeRef::select_first` and
/// `NodeDataRef::text_contents`: the text of the first matching element.
#[verifier::external_body]
pub(crate) fn select_text(html: &str, selector: &str) -> (r: Option<String>)
    requires
        html@.len() <= html_limit(),
    ensures
        opt_view(r) == selected_text(html@, selector@),
{
    let doc = kuchiki::parse_html().one(html);
    match doc.select_first(selector) {
        Ok(node) => Some(node.text_contents()),
        Err(_) => None,
    }
}

/// Relies on `kuchiki::parse_html`, `NodeRef::select_first` and
/// `Attributes::get`: an attribute of the first matching element.
#[verifier::external_body]
pub(crate) fn select_attribute(html: &str, selector: &str, attr: &str) -> (r: Option<String>)
    requires
        html@.len() <= html_limit(),
    ensures
        opt_view(r) == selected_attribute(html@, selector@, attr@),
{
    let doc = kuchiki::parse_html().one(html);
    match doc.select_first(selector) {
        Ok(node) => node.attributes.borrow().get(attr).map(|v| v.to_string()),
        Err(_) => None,
    }
}

} // verus!
