//! The page-type classifier: URL markers first, then markup markers.
use vstd::prelude::*;
use crate::document::{selection, Document};
use crate::text::{chars_of, contains_chars, has_substring};

verus! {

/// What kind of page a document is.
#[derive(Clone, Copy, Debug, PartialEq, Eq, Structural)]
pub enum PageType {
    Product,
    Article,
    Search,
    Other,
}

impl PageType {
    /// The lower-case name of the variant.
    pub fn name(&self) -> (r: &'static str)
        ensures
            r@ == page_type_name(*self),
    {
        match self {
            PageType::Product => "product",
            PageType::Article => "article",
            PageType::Search => "search",
            PageType::Other => "other",
        }
    }
}

pub open spec fn page_type_name(t: PageType) -> Seq<char> {
    match t {
        PageType::Product => "product"@,
        PageType::Article => "article"@,
        PageType::Search => "search"@,
        PageType::Other => "other"@,
    }
}

/// The kind that the (lower-cased) URL alone decides, if any.
pub open spec fn url_kind(lower: Seq<char>) -> Option<PageType> {
    if has_substring(lower, "/product"@) || has_substring(lower, "/dp/"@) || has_substring(
        lower,
        "/item/"@,
    ) || has_substring(lower, "/p/"@) {
        Some(PageType::Product)
    } else if has_substring(lower, "/article"@) || has_substring(lower, "/blog"@) || has_substring(
        lower,
        "/post"@,
    ) || has_substring(lower, "/news"@) {
        Some(PageType::Article)
    } else if has_substring(lower, "/search"@) || has_substring(lower, "?q="@) || has_substring(
        lower,
        "?query="@,
    ) {
        Some(PageType::Search)
    } else {
        None
    }
}

pub open spec fn matches_any(html: Seq<char>, selector: Seq<char>) -> bool {
    selection(html, selector).len() > 0
}

/// The kind that the markup decides: structured data, then price elements.
pub open spec fn markup_kind(html: Seq<char>) -> PageType {
    if matches_any(html, "[itemtype*='Product']"@) {
        PageType::Product
    } else if matches_any(html, "[itemtype*='Article']"@) {
        PageType::Article
    } else if matches_any(html, ".price"@) || matches_any(html, "[class*='price']"@)
        || matches_any(html, "[data-price]"@) {
        PageType::Product
    } else {
        PageType::Other
    }
}

/// The page type of a page with source `html` whose lower-cased URL is `lower`.
pub open spec fn page_type_of(lower: Seq<char>, html: Seq<char>) -> PageType {
    match url_kind(lower) {
        Some(t) => t,
        None => markup_kind(html),
    }
}

/// The lower-case form of a string, as `str::to_lowercase` gives it.
pub uninterp spec fn lower_of(s: Seq<char>) -> Seq<char>;

/// Relies on `str::to_lowercase`: the result depends on the characters alone.
#[verifier::external_body]
fn to_lower(s: &str) -> (r: String)
    ensures
        r@ == lower_of(s@),
{
    s.to_lowercase()
}

fn has_marker(s: &Vec<char>, marker: &str) -> (r: bool)
    ensures
        r == has_substring(s@, marker@),
{
    let m = chars_of(marker);
    contains_chars(s, &m)
}

fn any_match(doc: &Document, selector: &str) -> (r: bool)
    ensures
        r == matches_any(doc.html(), selector@),
{
    let found = doc.select(selector);
    found.len() > 0
}

/// The kind that the lower-cased URL alone decides, if any.
pub fn kind_from_url(lowered_url: &str) -> (r: Option<PageType>)
    ensures
        r == url_kind(lowered_url@),
{
    let u = chars_of(lowered_url);
    if has_marker(&u, "/product") || has_marker(&u, "/dp/") || has_marker(&u, "/item/")
        || has_marker(&u, "/p/") {
        Some(PageType::Product)
    } else if has_marker(&u, "/article") || has_marker(&u, "/blog") || has_marker(&u, "/post")
        || has_marker(&u, "/news") {
        Some(PageType::Article)
    } else if has_marker(&u, "/search") || has_marker(&u, "?q=") || has_marker(&u, "?query=") {
        Some(PageType::Search)
    } else {
        None
    }
}

/// The kind that the markup decides.
pub fn kind_from_markup(doc: &Document) -> (r: PageType)
    ensures
        r == markup_kind(doc.html()),
{
    if any_match(doc, "[itemtype*='Product']") {
        PageType::Product
    } else if any_match(doc, "[itemtype*='Article']") {
        PageType::Article
    } else if any_match(doc, ".price") || any_match(doc, "[class*='price']") || any_match(
        doc,
        "[data-price]",
    ) {
        PageType::Product
    } else {
        PageType::Other
    }
}

/// Classifies a page whose URL has already been lower-cased.
pub fn classify(doc: &Document, lowered_url: &str) -> (r: PageType)
    ensures
        r == page_type_of(lowered_url@, doc.html()),
{
    match kind_from_url(lowered_url) {
        Some(t) => t,
        None => kind_from_markup(doc),
    }
}

/// Classifies a page; URL markers are matched case-insensitively.
pub fn detect_page_type(doc: &Document, url: &str) -> (r: PageType)
    ensures
        r == page_type_of(lower_of(url@), doc.html()),
{
    let lower = to_lower(url);
    classify(doc, lower.as_str())
}

/// URL markers outrank markup: a lower-cased URL that holds a product marker
/// makes a product page whatever structured data the page carries.
pub proof fn lemma_url_product_marker_wins(lower: Seq<char>, html: Seq<char>, marker: Seq<char>)
    requires
        marker == "/product"@ || marker == "/dp/"@ || marker == "/item/"@ || marker == "/p/"@,
        has_substring(lower, marker),
    ensures
        page_type_of(lower, html) == PageType::Product,
{
}

/// Each rule is final: a URL with an article marker and no product marker is
/// an article page, whatever the markup says.
pub proof fn lemma_url_article_marker_wins(lower: Seq<char>, html: Seq<char>)
    requires
        url_kind(lower) != Some(PageType::Product),
        has_substring(lower, "/article"@) || has_substring(lower, "/blog"@) || has_substring(
            lower,
            "/post"@,
        ) || has_substring(lower, "/news"@),
    ensures
        page_type_of(lower, html) == PageType::Article,
{
}

} // verus!
