//! A parsed HTML page and the elements that CSS selectors pick out of it.
//!
//! Parsing and selector matching are done by the `scraper` crate. What a
//! selector picks out of a page is a function of the page's source and the
//! selector alone; `selection` names it.
use vstd::prelude::*;
use vstd::string::StringExecFns;
use crate::text::strings_view;

verus! {

#[verifier::external_type_specification]
#[verifier::external_body]
pub struct ExHtml(scraper::Html);

/// What an element holds that extraction reads.
pub struct ElementView {
    /// Its descendant text nodes, in document order.
    pub texts: Seq<Seq<char>>,
    /// Its attributes as (local name, value) pairs.
    pub attrs: Seq<(Seq<char>, Seq<char>)>,
}

/// The elements of the page with source `html` that match `selector`, in
/// document order; none where the selector does not parse.
pub uninterp spec fn selection(html: Seq<char>, selector: Seq<char>) -> Seq<ElementView>;

/// An element copied out of a page.
pub struct Element {
    pub texts: Vec<String>,
    pub attrs: Vec<(String, String)>,
}

impl View for Element {
    type V = ElementView;

    open spec fn view(&self) -> ElementView {
        ElementView {
            texts: strings_view(self.texts@),
            attrs: self.attrs@.map_values(|p: (String, String)| (p.0@, p.1@)),
        }
    }
}

pub open spec fn elements_view(es: Seq<Element>) -> Seq<ElementView> {
    es.map_values(|e: Element| e@)
}

/// The value of the first attribute named `name`.
pub open spec fn attr_of(attrs: Seq<(Seq<char>, Seq<char>)>, name: Seq<char>) -> Option<Seq<char>>
    decreases attrs.len(),
{
    if attrs.len() == 0 {
        None
    } else if attrs[0].0 == name {
        Some(attrs[0].1)
    } else {
        attr_of(attrs.drop_first(), name)
    }
}

pub open spec fn opt_view(o: Option<String>) -> Option<Seq<char>> {
    match o {
        Some(s) => Some(s@),
        None => None,
    }
}

impl Element {
    /// The value of the attribute `name`, if the element has it.
    pub fn attr(&self, name: &str) -> (r: Option<String>)
        ensures
            opt_view(r) == attr_of(self@.attrs, name@),
    {
        let key = String::from_str(name);
        let n = self.attrs.len();
        let mut i: usize = 0;
        assert(self@.attrs.subrange(0, n as int) =~= self@.attrs);
        while i < n
            invariant
                n == self.attrs@.len(),
                i <= n,
                key@ == name@,
                attr_of(self@.attrs, name@) == attr_of(self@.attrs.subrange(i as int, n as int), name@),
            decreases n - i,
        {
            let ghost rest = self@.attrs.subrange(i as int, n as int);
            assert(rest.drop_first() =~= self@.attrs.subrange(i + 1, n as int));
            assert(rest[0] == (self.attrs[i as int].0@, self.attrs[i as int].1@));
            if self.attrs[i].0 == key {
                return Some(self.attrs[i].1.clone());
            }
            i = i + 1;
        }
        None
    }
}

/// A parsed HTML page.
pub struct Document {
    source: String,
    tree: scraper::Html,
}

/// Relies on scraper's `Html::parse_document`, which builds the element tree
/// of a page and never fails.
#[verifier::external_body]
fn parse_tree(html: &str) -> (r: scraper::Html) {
    scraper::Html::parse_document(html)
}

/// Relies on scraper's `Selector::parse` and `Html::select`: the elements of
/// the tree that match, in document order, each copied with its text nodes
/// and its attributes; a selector that does not parse matches nothing. The
/// tree is the parse of `doc.source`, which only `Document::parse` sets.
#[verifier::external_body]
fn select_all(doc: &Document, selector: &str) -> (r: Vec<Element>)
    ensures
        elements_view(r@) == selection(doc.html(), selector@),
{
    let mut out = Vec::new();
    if let Ok(sel) = scraper::Selector::parse(selector) {
        for e in doc.tree.select(&sel) {
            let texts = e.text().map(String::from).collect();
            let attrs = e.value().attrs().map(|(k, v)| (k.to_string(), v.to_string())).collect();
            out.push(Element { texts, attrs });
        }
    }
    out
}

/// The first element that `selector` picks out of `html`.
pub open spec fn first_of(html: Seq<char>, selector: Seq<char>) -> Option<ElementView> {
    let m = selection(html, selector);
    if m.len() > 0 {
        Some(m[0])
    } else {
        None
    }
}

impl Document {
    /// The source text the page was parsed from.
    pub closed spec fn html(&self) -> Seq<char> {
        self.source@
    }

    pub fn parse(html: &str) -> (d: Document)
        ensures
            d.html() == html@,
    {
        Document { source: String::from_str(html), tree: parse_tree(html) }
    }

    /// Every element that `selector` matches, in document order.
    pub fn select(&self, selector: &str) -> (r: Vec<Element>)
        ensures
            elements_view(r@) == selection(self.html(), selector@),
    {
        select_all(self, selector)
    }

    /// The first element that `selector` matches.
    pub fn select_first(&self, selector: &str) -> (r: Option<Element>)
        ensures
            match r {
                Some(e) => first_of(self.html(), selector@) == Some(e@),
                None => first_of(self.html(), selector@) is None,
            },
    {
        let mut all = select_all(self, selector);
        if all.len() == 0 {
            None
        } else {
            assert(elements_view(all@)[0] == all@[0]@);
            Some(all.swap_remove(0))
        }
    }
}

} // verus!
