//! The document model: a tree of elements and text nodes holding exactly
//! what the extraction logic reads from parsed HTML (tag name, the `class`,
//! `href` and `src` attributes, children in document order).
use vstd::prelude::*;

verus! {

/// One element of the parsed document: its tag name, the attributes the
/// extraction reads, and its children in document order.
pub struct Elem {
    pub tag: String,
    pub class: Option<String>,
    pub href: Option<String>,
    pub src: Option<String>,
    pub children: Vec<Node>,
}

/// A node of the parsed document: an element or a run of character data.
pub enum Node {
    Text(String),
    Element(Elem),
}

/// The concatenation of all text under `n`, in document order, with no
/// separator.
pub open spec fn text_of(n: Node) -> Seq<char>
    decreases n, 0int,
{
    match n {
        Node::Text(s) => s@,
        Node::Element(e) => text_of_children(e.children, 0),
    }
}

/// The concatenation of all text under `v[i..]`, in document order.
pub open spec fn text_of_children(v: Vec<Node>, i: int) -> Seq<char>
    decreases v, v.len() - i + 1int,
{
    if i < 0 || i >= v.len() {
        Seq::empty()
    } else {
        text_of(v[i]) + text_of_children(v, i + 1)
    }
}

/// Whether `n` is an element with the given tag name.
pub open spec fn has_tag(n: Node, tag: Seq<char>) -> bool {
    match n {
        Node::Element(e) => e.tag@ == tag,
        Node::Text(_) => false,
    }
}

/// Whether `n` is a `div` element whose `class` attribute is exactly `class`.
pub open spec fn div_class_is(n: Node, class: Seq<char>) -> bool {
    match n {
        Node::Element(e) => e.tag@ == "div"@ && match e.class {
            Some(c) => c@ == class,
            None => false,
        },
        Node::Text(_) => false,
    }
}

/// Relies on std's `String::push_str`: appends the slice's characters at the
/// end of the string.
#[verifier::external_body]
pub(crate) fn append_str(out: &mut String, piece: &str)
    ensures
        final(out)@ == old(out)@ + piece@,
{
    out.push_str(piece);
}

/// Relies on std's `String::push`: appends the one character at the end of
/// the string.
#[verifier::external_body]
pub(crate) fn push_char(out: &mut String, c: char)
    ensures
        final(out)@ == old(out)@ + seq![c],
{
    out.push(c);
}

/// True exactly when the two strings hold the same characters.
pub fn str_eq(a: &str, b: &str) -> (r: bool)
    ensures
        r == (a@ == b@),
{
    let sa: String = a.to_owned();
    let sb: String = b.to_owned();
    sa == sb
}

/// Whether the element's `class` attribute is exactly `class`.
pub fn class_is(e: &Elem, class: &str) -> (r: bool)
    ensures
        r == match e.class {
            Some(c) => c@ == class@,
            None => false,
        },
{
    match &e.class {
        Some(c) => str_eq(c.as_str(), class),
        None => false,
    }
}

/// Appends the concatenated inner text of `n` to `out`.
#[verifier::loop_isolation(false)]
pub fn append_text(n: &Node, out: &mut String)
    ensures
        final(out)@ == old(out)@ + text_of(*n),
    decreases *n, 0int,
{
    match n {
        Node::Text(s) => {
            append_str(out, s.as_str());
        }
        Node::Element(e) => {
            let end = e.children.len();
            let mut i: usize = 0;
            while i < end
                invariant
                    i <= end,
                    end == e.children.len(),
                    out@ + text_of_children(e.children, i as int) == old(out)@ + text_of_children(
                        e.children,
                        0,
                    ),
                decreases end - i,
            {
                proof {
                    assert(*e == n->Element_0);
                    assert(decreases_to!(*n => n->Element_0));
                    assert(decreases_to!(e.children => e.children[i as int]));
                }
                append_text(&e.children[i], out);
                proof {
                    assert(out@ + text_of_children(e.children, i + 1int) =~= old(out)@
                        + text_of_children(e.children, 0));
                }
                i = i + 1;
            }
            proof {
                assert(out@ =~= old(out)@ + text_of(*n));
            }
        }
    }
}

/// The decimal digit `d` as a character.
pub open spec fn digit_char(d: nat) -> char {
    if d == 0 {
        '0'
    } else if d == 1 {
        '1'
    } else if d == 2 {
        '2'
    } else if d == 3 {
        '3'
    } else if d == 4 {
        '4'
    } else if d == 5 {
        '5'
    } else if d == 6 {
        '6'
    } else if d == 7 {
        '7'
    } else if d == 8 {
        '8'
    } else {
        '9'
    }
}

/// The decimal representation of `n`, without leading zeros.
pub open spec fn dec_str(n: nat) -> Seq<char>
    decreases n,
{
    if n < 10 {
        seq![digit_char(n)]
    } else {
        dec_str(n / 10) + seq![digit_char(n % 10)]
    }
}

fn push_digit(out: &mut String, d: usize)
    requires
        d < 10,
    ensures
        final(out)@ == old(out)@ + seq![digit_char(d as nat)],
{
    let s: &str = if d == 0 {
        "0"
    } else if d == 1 {
        "1"
    } else if d == 2 {
        "2"
    } else if d == 3 {
        "3"
    } else if d == 4 {
        "4"
    } else if d == 5 {
        "5"
    } else if d == 6 {
        "6"
    } else if d == 7 {
        "7"
    } else if d == 8 {
        "8"
    } else {
        "9"
    };
    proof {
        reveal_strlit("0");
        reveal_strlit("1");
        reveal_strlit("2");
        reveal_strlit("3");
        reveal_strlit("4");
        reveal_strlit("5");
        reveal_strlit("6");
        reveal_strlit("7");
        reveal_strlit("8");
        reveal_strlit("9");
        assert(s@ =~= seq![digit_char(d as nat)]);
    }
    append_str(out, s);
}

/// Appends the decimal representation of `n` to `out`.
pub fn push_decimal(out: &mut String, n: usize)
    ensures
        final(out)@ == old(out)@ + dec_str(n as nat),
    decreases n,
{
    if n >= 10 {
        push_decimal(out, n / 10);
        push_digit(out, n % 10);
        proof {
            assert(out@ =~= old(out)@ + dec_str(n as nat));
        }
    } else {
        push_digit(out, n);
    }
}

} // verus!
