//! Lenient HTML parsing, behind trusted wrappers around the scraper crate.
//! The parsed page is handed to the verified logic as a `Node` tree.
use crate::dom::Elem;
use crate::dom::Node;
use vstd::prelude::*;

verus! {

#[verifier::external_type_specification]
#[verifier::external_body]
pub struct ExElementRef<'a>(scraper::ElementRef<'a>);

/// What parsing yields: the lenient-HTML parse of the input, as the
/// library's document tree. Parsing depends on the input text alone.
pub uninterp spec fn doc_of(html: Seq<char>) -> Node;

/// Relies on scraper::Html::parse_document: lenient HTML5 parsing of the
/// whole input, repairing malformed markup, deterministic in the input.
/// The parsed tree is converted from its root element.
#[verifier::external_body]
pub fn parse_document_tree(html: &str) -> (r: Node)
    ensures
        r == doc_of(html@),
{
    convert_element(scraper::Html::parse_document(html).root_element())
}

/// Relies on scraper's parsed tree (ElementRef::value, Element::name,
/// Element::attr, children in document order): each element keeps its tag
/// name and its `class`, `href` and `src` attributes; text nodes keep their
/// character data; any other node becomes an empty text node.
#[verifier::external_body]
fn convert_element(el: scraper::ElementRef<'_>) -> Node {
    let v = el.value();
    let children: Vec<Node> = el.children().map(|c| match c.value() {
        scraper::Node::Text(t) => Node::Text(t.to_string()),
        _ => match scraper::ElementRef::wrap(c) {
            Some(ce) => convert_element(ce),
            None => Node::Text(String::new()),
        },
    }).collect();
    Node::Element(Elem {
        tag: v.name().to_string(),
        class: v.attr("class").map(|s| s.to_string()),
        href: v.attr("href").map(|s| s.to_string()),
        src: v.attr("src").map(|s| s.to_string()),
        children,
    })
}

} // verus!
