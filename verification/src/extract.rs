//! The record extractor: four sub-scans over the located fragment, in a
//! fixed order, accumulated into one text blob and one title string.
use crate::dom::Elem;
use crate::dom::Node;
use crate::dom::append_str;
use crate::dom::append_text;
use crate::dom::class_is;
use crate::dom::dec_str;
use crate::dom::div_class_is;
use crate::dom::has_tag;
use crate::dom::push_decimal;
use crate::dom::str_eq;
use crate::dom::text_of;
use crate::html::doc_of;
use crate::html::parse_document_tree;
use crate::locate::find_item_fragment;
use crate::locate::first_fragment;
use crate::resolve::resolve;
use crate::resolve::spec_resolve;
use vstd::prelude::*;

verus! {

/// The extraction result: a title and a newline-joined text accumulation.
pub struct ItemRecord {
    pub title: String,
    pub text: String,
}

/// Which URL-bearing elements a scan collects: links (`a` with `href`) or
/// images (`img` with `src`).
#[derive(Clone, Copy)]
pub enum UrlScan {
    Links,
    Images,
}

/// The tag name a URL scan matches.
pub open spec fn url_tag_of(k: UrlScan) -> Seq<char> {
    match k {
        UrlScan::Links => "a"@,
        UrlScan::Images => "img"@,
    }
}

/// The attribute a URL scan reads from a matching element.
pub open spec fn url_attr_of(k: UrlScan, e: Elem) -> Option<String> {
    match k {
        UrlScan::Links => e.href,
        UrlScan::Images => e.src,
    }
}

/// The line one node contributes to a URL scan: the resolved reference and a
/// newline for a matching element; an element without the attribute, or with
/// an unresolvable one, is skipped.
pub open spec fn url_piece(k: UrlScan, base: Seq<char>, n: Node) -> Seq<char> {
    match n {
        Node::Element(e) => if e.tag@ == url_tag_of(k) {
            match url_attr_of(k, e) {
                Some(h) => match spec_resolve(base, h@) {
                    Some(u) => u + "\n"@,
                    None => Seq::empty(),
                },
                None => Seq::empty(),
            }
        } else {
            Seq::empty()
        },
        Node::Text(_) => Seq::empty(),
    }
}

/// All lines a URL scan accumulates over the descendants of `n`, in document
/// order.
pub open spec fn urls_text(k: UrlScan, base: Seq<char>, n: Node) -> Seq<char>
    decreases n, 0int,
{
    match n {
        Node::Text(_) => Seq::empty(),
        Node::Element(e) => urls_text_children(k, base, e.children, 0),
    }
}

/// The URL scan over the subtrees of `v[i..]`.
pub open spec fn urls_text_children(k: UrlScan, base: Seq<char>, v: Vec<Node>, i: int) -> Seq<char>
    decreases v, v.len() - i + 1int,
{
    if i < 0 || i >= v.len() {
        Seq::empty()
    } else {
        url_piece(k, base, v[i]) + urls_text(k, base, v[i]) + urls_text_children(k, base, v, i + 1)
    }
}

/// The option texts of an enumerated background: the inner text of each `li`
/// element whose parent is a `ul`, below `n`, in document order.
pub open spec fn item_texts(n: Node) -> Seq<Seq<char>>
    decreases n, 0int,
{
    match n {
        Node::Text(_) => Seq::empty(),
        Node::Element(e) => item_texts_children(e.children, e.tag@ == "ul"@, 0),
    }
}

/// The option texts within the subtrees of `v[i..]`, whose parent is a `ul`
/// exactly when `in_ul` holds.
pub open spec fn item_texts_children(v: Vec<Node>, in_ul: bool, i: int) -> Seq<Seq<char>>
    decreases v, v.len() - i + 1int,
{
    if i < 0 || i >= v.len() {
        Seq::empty()
    } else {
        (if in_ul && has_tag(v[i], "li"@) {
            seq![text_of(v[i])]
        } else {
            Seq::empty()
        }) + item_texts(v[i]) + item_texts_children(v, in_ul, i + 1)
    }
}

/// One numbered option line: the ordinal, a period and a space, the item's
/// text, and a newline.
pub open spec fn option_line(num: nat, t: Seq<char>) -> Seq<char> {
    dec_str(num) + ". "@ + t + "\n"@
}

/// The numbered option block: each item's line in order, numbered `k`,
/// `k + 1`, … with no gaps.
pub open spec fn options_text(items: Seq<Seq<char>>, k: nat) -> Seq<char>
    decreases items.len(),
{
    if items.len() == 0 {
        Seq::empty()
    } else {
        options_text(items.drop_last(), k) + option_line(
            (k + items.len() - 1) as nat,
            items.last(),
        )
    }
}

/// Law: the numbered block is exactly the items' lines in document order,
/// numbered `k`, `k + 1`, … with no gaps (each enumerated container starts
/// at 1).
pub proof fn lemma_options_numbering(items: Seq<Seq<char>>, k: nat)
    ensures
        options_text(items, k) == Seq::new(
            items.len(),
            |j: int| option_line((k + j) as nat, items[j]),
        ).flatten_alt(),
    decreases items.len(),
{
    let m = Seq::new(items.len(), |j: int| option_line((k + j) as nat, items[j]));
    if items.len() == 0 {
        assert(m =~= Seq::<Seq<char>>::empty());
        assert(m.flatten_alt() =~= Seq::<char>::empty());
    } else {
        lemma_options_numbering(items.drop_last(), k);
        let prev = Seq::new(
            (items.len() - 1) as nat,
            |j: int| option_line((k + j) as nat, items.drop_last()[j]),
        );
        assert(prev =~= m.drop_last());
        assert(m.last() == option_line((k + items.len() - 1) as nat, items.last()));
        assert(options_text(items, k) =~= m.flatten_alt());
    }
}

/// What one node contributes to the record body: the statement text and a
/// newline for a `mondai` div, the numbered option block for an `ansbg` div.
pub open spec fn body_piece(n: Node) -> Seq<char> {
    if div_class_is(n, "mondai"@) {
        text_of(n) + "\n"@
    } else if div_class_is(n, "ansbg"@) {
        options_text(item_texts(n), 1)
    } else {
        Seq::empty()
    }
}

/// What one node contributes to the title: its inner text for an `anslink`
/// div, with no separator.
pub open spec fn title_piece(n: Node) -> Seq<char> {
    if div_class_is(n, "anslink"@) {
        text_of(n)
    } else {
        Seq::empty()
    }
}

/// The body text accumulated over the descendants of `n`, in document order.
pub open spec fn body_text(n: Node) -> Seq<char>
    decreases n, 0int,
{
    match n {
        Node::Text(_) => Seq::empty(),
        Node::Element(e) => body_text_children(e.children, 0),
    }
}

/// The body scan over the subtrees of `v[i..]`.
pub open spec fn body_text_children(v: Vec<Node>, i: int) -> Seq<char>
    decreases v, v.len() - i + 1int,
{
    if i < 0 || i >= v.len() {
        Seq::empty()
    } else {
        body_piece(v[i]) + body_text(v[i]) + body_text_children(v, i + 1)
    }
}

/// The title accumulated over the descendants of `n`, in document order.
pub open spec fn title_text(n: Node) -> Seq<char>
    decreases n, 0int,
{
    match n {
        Node::Text(_) => Seq::empty(),
        Node::Element(e) => title_text_children(e.children, 0),
    }
}

/// The title scan over the subtrees of `v[i..]`.
pub open spec fn title_text_children(v: Vec<Node>, i: int) -> Seq<char>
    decreases v, v.len() - i + 1int,
{
    if i < 0 || i >= v.len() {
        Seq::empty()
    } else {
        title_piece(v[i]) + title_text(v[i]) + title_text_children(v, i + 1)
    }
}

/// The views of the collected option texts.
pub open spec fn views_of(v: Seq<String>) -> Seq<Seq<char>> {
    v.map_values(|s: String| s@)
}

/// Appends the URL line of `n` when it matches the scan, as `url_piece`.
fn append_url_piece(k: UrlScan, n: &Node, base: &str, out: &mut String)
    ensures
        final(out)@ == old(out)@ + url_piece(k, base@, *n),
{
    match n {
        Node::Text(_) => {}
        Node::Element(ce) => {
            let tag_match = match k {
                UrlScan::Links => str_eq(ce.tag.as_str(), "a"),
                UrlScan::Images => str_eq(ce.tag.as_str(), "img"),
            };
            if tag_match {
                let attr = match k {
                    UrlScan::Links => &ce.href,
                    UrlScan::Images => &ce.src,
                };
                match attr {
                    Some(h) => {
                        match resolve(base, h.as_str()) {
                            Some(u) => {
                                append_str(out, u.as_str());
                                append_str(out, "\n");
                            }
                            None => {}
                        }
                    }
                    None => {}
                }
            }
            proof {
                assert(out@ =~= old(out)@ + url_piece(k, base@, *n));
            }
        }
    }
}

/// One URL sub-scan over the descendants of `n`, appending to `out`.
#[verifier::loop_isolation(false)]
fn scan_urls(k: UrlScan, n: &Node, base: &str, out: &mut String)
    ensures
        final(out)@ == old(out)@ + urls_text(k, base@, *n),
    decreases *n, 1int,
{
    match n {
        Node::Text(_) => {}
        Node::Element(e) => {
            proof {
                assert(decreases_to!(*n => n->Element_0));
            }
            scan_urls_elem(k, e, base, out);
        }
    }
}

/// The URL sub-scan over an element's children.
#[verifier::loop_isolation(false)]
fn scan_urls_elem(k: UrlScan, e: &Elem, base: &str, out: &mut String)
    ensures
        final(out)@ == old(out)@ + urls_text_children(k, base@, e.children, 0),
    decreases e.children, 0int,
{
    let end = e.children.len();
    let mut i: usize = 0;
    while i < end
        invariant
            i <= end,
            out@ + urls_text_children(k, base@, e.children, i as int) == old(out)@
                + urls_text_children(k, base@, e.children, 0),
        decreases end - i,
    {
        proof {
            assert(decreases_to!(e.children => e.children[i as int]));
        }
        append_url_piece(k, &e.children[i], base, out);
        scan_urls(k, &e.children[i], base, out);
        proof {
            assert(out@ + urls_text_children(k, base@, e.children, i + 1int) =~= old(out)@
                + urls_text_children(k, base@, e.children, 0));
        }
        i = i + 1;
    }
    proof {
        assert(out@ =~= old(out)@ + urls_text_children(k, base@, e.children, 0));
    }
}

/// Collects the option texts below `n` into `out`, as `item_texts`.
#[verifier::loop_isolation(false)]
fn collect_items(n: &Node, out: &mut Vec<String>)
    ensures
        views_of(final(out)@) == views_of(old(out)@) + item_texts(*n),
    decreases *n, 1int,
{
    match n {
        Node::Text(_) => {
            proof {
                assert(views_of(out@) =~~= views_of(old(out)@) + item_texts(*n));
            }
        }
        Node::Element(e) => {
            proof {
                assert(decreases_to!(*n => n->Element_0));
            }
            let in_ul = str_eq(e.tag.as_str(), "ul");
            collect_items_elem(e, in_ul, out);
            proof {
                assert(views_of(out@) =~~= views_of(old(out)@) + item_texts(*n));
            }
        }
    }
}

/// Collects the option texts within an element's children.
#[verifier::loop_isolation(false)]
fn collect_items_elem(e: &Elem, in_ul: bool, out: &mut Vec<String>)
    requires
        in_ul == (e.tag@ == "ul"@),
    ensures
        views_of(final(out)@) == views_of(old(out)@) + item_texts_children(e.children, in_ul, 0),
    decreases e.children, 0int,
{
    let end = e.children.len();
    let mut i: usize = 0;
    while i < end
        invariant
            i <= end,
            views_of(out@) + item_texts_children(e.children, in_ul, i as int) == views_of(
                old(out)@,
            ) + item_texts_children(e.children, in_ul, 0),
        decreases end - i,
    {
        proof {
            assert(decreases_to!(e.children => e.children[i as int]));
        }
        match &e.children[i] {
            Node::Element(ce) => {
                if in_ul && str_eq(ce.tag.as_str(), "li") {
                    let mut t = String::new();
                    append_text(&e.children[i], &mut t);
                    let ghost prev = out@;
                    out.push(t);
                    proof {
                        assert(views_of(out@) =~~= views_of(prev) + seq![
                            text_of(e.children[i as int]),
                        ]);
                    }
                }
            }
            Node::Text(_) => {}
        }
        collect_items(&e.children[i], out);
        proof {
            assert(views_of(out@) + item_texts_children(e.children, in_ul, i + 1int) =~~= views_of(
                old(out)@,
            ) + item_texts_children(e.children, in_ul, 0));
        }
        i = i + 1;
    }
    proof {
        assert(views_of(out@) =~~= views_of(old(out)@) + item_texts_children(e.children, in_ul, 0));
    }
}

/// Appends the numbered option block for the collected items, numbering from
/// 1 in order.
#[verifier::loop_isolation(false)]
fn push_options(items: &Vec<String>, out: &mut String)
    ensures
        final(out)@ == old(out)@ + options_text(views_of(items@), 1),
{
    let end = items.len();
    let mut i: usize = 0;
    while i < end
        invariant
            i <= end,
            out@ == old(out)@ + options_text(views_of(items@).take(i as int), 1),
        decreases end - i,
    {
        push_decimal(out, i + 1);
        append_str(out, ". ");
        append_str(out, items[i].as_str());
        append_str(out, "\n");
        proof {
            assert(views_of(items@).take(i + 1int).drop_last() =~~= views_of(items@).take(i as int));
            assert(views_of(items@).take(i + 1int).last() == items@[i as int]@);
            assert(out@ =~= old(out)@ + options_text(views_of(items@).take(i + 1int), 1));
        }
        i = i + 1;
    }
    proof {
        assert(views_of(items@).take(end as int) =~~= views_of(items@));
    }
}

/// The three class markers are pairwise distinct strings.
proof fn lemma_class_literals_distinct()
    ensures
        "mondai"@ != "anslink"@,
        "mondai"@ != "ansbg"@,
        "anslink"@ != "ansbg"@,
{
    reveal_strlit("mondai");
    reveal_strlit("anslink");
    reveal_strlit("ansbg");
    assert("mondai"@.len() == 6);
    assert("anslink"@.len() == 7);
    assert("ansbg"@.len() == 5);
}

/// Appends what one node contributes to the body and to the title, as
/// `body_piece` and `title_piece`.
fn append_section_piece(n: &Node, text: &mut String, title: &mut String)
    ensures
        final(text)@ == old(text)@ + body_piece(*n),
        final(title)@ == old(title)@ + title_piece(*n),
{
    match n {
        Node::Element(ce) => {
            proof {
                lemma_class_literals_distinct();
            }
            if str_eq(ce.tag.as_str(), "div") {
                if class_is(ce, "mondai") {
                    append_text(n, text);
                    append_str(text, "\n");
                    proof {
                        assert(title@ =~= old(title)@ + title_piece(*n));
                        assert(text@ =~= old(text)@ + body_piece(*n));
                    }
                } else if class_is(ce, "anslink") {
                    append_text(n, title);
                    proof {
                        assert(text@ =~= old(text)@ + body_piece(*n));
                        assert(title@ =~= old(title)@ + title_piece(*n));
                    }
                } else if class_is(ce, "ansbg") {
                    let mut items: Vec<String> = Vec::new();
                    collect_items(n, &mut items);
                    proof {
                        assert(views_of(items@) =~~= item_texts(*n));
                    }
                    push_options(&items, text);
                    proof {
                        assert(text@ =~= old(text)@ + body_piece(*n));
                        assert(title@ =~= old(title)@ + title_piece(*n));
                    }
                } else {
                    proof {
                        assert(text@ =~= old(text)@ + body_piece(*n));
                        assert(title@ =~= old(title)@ + title_piece(*n));
                    }
                }
            } else {
                proof {
                    assert(text@ =~= old(text)@ + body_piece(*n));
                    assert(title@ =~= old(title)@ + title_piece(*n));
                }
            }
        }
        Node::Text(_) => {}
    }
}

/// The body and title sub-scan over the descendants of `n`.
#[verifier::loop_isolation(false)]
fn scan_sections(n: &Node, text: &mut String, title: &mut String)
    ensures
        final(text)@ == old(text)@ + body_text(*n),
        final(title)@ == old(title)@ + title_text(*n),
    decreases *n, 1int,
{
    match n {
        Node::Text(_) => {}
        Node::Element(e) => {
            proof {
                assert(decreases_to!(*n => n->Element_0));
            }
            scan_sections_elem(e, text, title);
        }
    }
}

/// The body and title sub-scan over an element's children.
#[verifier::loop_isolation(false)]
fn scan_sections_elem(e: &Elem, text: &mut String, title: &mut String)
    ensures
        final(text)@ == old(text)@ + body_text_children(e.children, 0),
        final(title)@ == old(title)@ + title_text_children(e.children, 0),
    decreases e.children, 0int,
{
    let end = e.children.len();
    let mut i: usize = 0;
    while i < end
        invariant
            i <= end,
            text@ + body_text_children(e.children, i as int) == old(text)@ + body_text_children(
                e.children,
                0,
            ),
            title@ + title_text_children(e.children, i as int) == old(title)@
                + title_text_children(e.children, 0),
        decreases end - i,
    {
        proof {
            assert(decreases_to!(e.children => e.children[i as int]));
        }
        append_section_piece(&e.children[i], text, title);
        scan_sections(&e.children[i], text, title);
        proof {
            assert(text@ + body_text_children(e.children, i + 1int) =~= old(text)@
                + body_text_children(e.children, 0));
            assert(title@ + title_text_children(e.children, i + 1int) =~= old(title)@
                + title_text_children(e.children, 0));
        }
        i = i + 1;
    }
    proof {
        assert(text@ =~= old(text)@ + body_text_children(e.children, 0));
        assert(title@ =~= old(title)@ + title_text_children(e.children, 0));
    }
}

/// The title of the record extracted from fragment `e`.
pub open spec fn spec_extract_title(e: Elem) -> Seq<char> {
    title_text(Node::Element(e))
}

/// The text of the record extracted from fragment `e` against `base`: the
/// resolved link lines, then the statement and option lines, then the
/// resolved image lines.
pub open spec fn spec_extract_text(e: Elem, base: Seq<char>) -> Seq<char> {
    urls_text(UrlScan::Links, base, Node::Element(e)) + body_text(Node::Element(e)) + urls_text(
        UrlScan::Images,
        base,
        Node::Element(e),
    )
}

/// Law: the accumulated text keeps the fixed sub-scan order — every link
/// line precedes every statement and option line, which precede every image
/// line, wherever the elements stand inside the fragment.
pub proof fn lemma_text_scan_order(e: Elem, base: Seq<char>)
    ensures
        spec_extract_text(e, base) == urls_text(UrlScan::Links, base, Node::Element(e)) + body_text(
            Node::Element(e),
        ) + urls_text(UrlScan::Images, base, Node::Element(e)),
{
}

/// Extracts the record from the located fragment: four sub-scans over the
/// fragment's descendants in fixed order — links, statement/title/options,
/// images — each a full traversal in document order.
pub fn extract(fragment: &Elem, base_url: &str) -> (r: ItemRecord)
    ensures
        r.title@ == spec_extract_title(*fragment),
        r.text@ == spec_extract_text(*fragment, base_url@),
{
    let mut text = String::new();
    let mut title = String::new();
    scan_urls_elem(UrlScan::Links, fragment, base_url, &mut text);
    scan_sections_elem(fragment, &mut text, &mut title);
    scan_urls_elem(UrlScan::Images, fragment, base_url, &mut text);
    proof {
        assert(text@ =~= spec_extract_text(*fragment, base_url@));
        assert(title@ =~= spec_extract_title(*fragment));
    }
    ItemRecord { title, text }
}

/// Extracts the first item record from a raw HTML page: the page is parsed
/// leniently, the first marked fragment located, and the record extracted
/// against `base_url`; a page without the marker yields no record.
pub fn extract_kakomon(html_text: &str, base_url: &str) -> (r: Option<ItemRecord>)
    ensures
        match first_fragment(doc_of(html_text@)) {
            Some(e) => match r {
                Some(rec) => rec.title@ == spec_extract_title(e) && rec.text@ == spec_extract_text(
                    e,
                    base_url@,
                ),
                None => false,
            },
            None => r is None,
        },
{
    let doc = parse_document_tree(html_text);
    match find_item_fragment(&doc) {
        Some(e) => Some(extract(e, base_url)),
        None => None,
    }
}

} // verus!
