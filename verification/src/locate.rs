//! The fragment locator: the first element in document order whose tag is
//! `div` and whose `class` attribute is exactly the marker `kako`.
use crate::dom::Elem;
use crate::dom::Node;
use crate::dom::class_is;
use crate::dom::div_class_is;
use crate::dom::str_eq;
use vstd::prelude::*;

verus! {

/// The first element in document order strictly below `n` that carries the
/// fragment marker, as its subtree.
pub open spec fn first_fragment(n: Node) -> Option<Elem>
    decreases n, 0int,
{
    match n {
        Node::Text(_) => None,
        Node::Element(e) => first_fragment_children(e.children, 0),
    }
}

/// The first marked element within the subtrees of `v[i..]`, in document
/// order; a marked element's own subtree is not searched further.
pub open spec fn first_fragment_children(v: Vec<Node>, i: int) -> Option<Elem>
    decreases v, v.len() - i + 1int,
{
    if i < 0 || i >= v.len() {
        None
    } else if div_class_is(v[i], "kako"@) {
        Some(v[i]->Element_0)
    } else if first_fragment(v[i]) is Some {
        first_fragment(v[i])
    } else {
        first_fragment_children(v, i + 1)
    }
}

/// Whether any element strictly below `n` carries the fragment marker.
pub open spec fn has_fragment(n: Node) -> bool
    decreases n, 0int,
{
    match n {
        Node::Text(_) => false,
        Node::Element(e) => has_fragment_children(e.children, 0),
    }
}

/// Whether any element within the subtrees of `v[i..]` carries the marker.
pub open spec fn has_fragment_children(v: Vec<Node>, i: int) -> bool
    decreases v, v.len() - i + 1int,
{
    if i < 0 || i >= v.len() {
        false
    } else {
        div_class_is(v[i], "kako"@) || has_fragment(v[i]) || has_fragment_children(v, i + 1)
    }
}

/// Law: the locator finds a fragment exactly when some element carries the
/// marker; a document with zero marked elements yields nothing.
pub proof fn lemma_fragment_found_iff_marked(n: Node)
    ensures
        first_fragment(n) is Some <==> has_fragment(n),
    decreases n, 0int,
{
    match n {
        Node::Text(_) => {
        }
        Node::Element(e) => {
            lemma_fragment_found_iff_marked_children(e.children, 0);
        }
    }
}

/// Law: the children form of `lemma_fragment_found_iff_marked`.
pub proof fn lemma_fragment_found_iff_marked_children(v: Vec<Node>, i: int)
    ensures
        first_fragment_children(v, i) is Some <==> has_fragment_children(v, i),
    decreases v, v.len() - i + 1int,
{
    if 0 <= i < v.len() {
        lemma_fragment_found_iff_marked(v[i]);
        lemma_fragment_found_iff_marked_children(v, i + 1);
    }
}

/// Scans the document in document order for the first element whose tag is
/// `div` and whose `class` attribute equals the marker exactly, and returns
/// its subtree; yields nothing when no element matches.
#[verifier::loop_isolation(false)]
pub fn find_item_fragment(doc: &Node) -> (r: Option<&Elem>)
    ensures
        match r {
            Some(e) => first_fragment(*doc) == Some(*e),
            None => first_fragment(*doc) is None,
        },
    decreases *doc, 0int,
{
    match doc {
        Node::Text(_) => None,
        Node::Element(e) => {
            let end = e.children.len();
            let mut i: usize = 0;
            while i < end
                invariant
                    i <= end,
                    first_fragment_children(e.children, 0) == first_fragment_children(
                        e.children,
                        i as int,
                    ),
                decreases end - i,
            {
                proof {
                    assert(decreases_to!(e.children => e.children[i as int]));
                }
                match &e.children[i] {
                    Node::Element(ce) => {
                        if str_eq(ce.tag.as_str(), "div") && class_is(ce, "kako") {
                            return Some(ce);
                        }
                    }
                    Node::Text(_) => {}
                }
                let sub = find_item_fragment(&e.children[i]);
                if sub.is_some() {
                    return sub;
                }
                i = i + 1;
            }
            None
        }
    }
}

} // verus!
