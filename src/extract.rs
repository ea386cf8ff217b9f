//! The generic field extractors (title, description, main text) and the
//! selector lists of every cascade.
use vstd::prelude::*;
use vstd::string::StringExecFns;
use crate::cascade::{cascade, lemma_main_text_cascade_bounded, run_cascade, strs_view, Rule};
use crate::document::{attr_of, first_of, opt_view, Document, Element};
use crate::text::{
    chars_of, concat_nodes, normalize_nodes, normalized, string_of, trim, trim_chars,
    trimmed_concat, MAX_TEXT_CHARS,
};

verus! {

/// Most images kept for a product.
pub const MAX_IMAGES: usize = 5;

/// Reading speed, in words per minute.
pub const WORDS_PER_MINUTE: usize = 200;

pub open spec fn or_empty(o: Option<Seq<char>>) -> Seq<char> {
    match o {
        Some(s) => s,
        None => Seq::empty(),
    }
}

// ---- selector lists ----

pub open spec fn main_selectors() -> Seq<Seq<char>> {
    seq![
        "main"@,
        "article"@,
        "[role='main']"@,
        ".main-content"@,
        "#main-content"@,
        ".content"@,
        "#content"@,
    ]
}

pub open spec fn name_selectors() -> Seq<Seq<char>> {
    seq![
        "[itemprop='name']"@,
        "h1.product-title"@,
        "h1.product-name"@,
        "h1[data-product-name]"@,
        ".product-title h1"@,
        "#productTitle"@,
        "h1"@,
    ]
}

pub open spec fn price_selectors() -> Seq<Seq<char>> {
    seq![
        "[itemprop='price']"@,
        ".price"@,
        ".product-price"@,
        "#priceblock_ourprice"@,
        "[data-price]"@,
    ]
}

pub open spec fn image_selectors() -> Seq<Seq<char>> {
    seq![
        "[itemprop='image']"@,
        ".product-image img"@,
        "#product-image img"@,
        ".gallery img"@,
    ]
}

pub open spec fn product_description_selectors() -> Seq<Seq<char>> {
    seq![
        "[itemprop='description']"@,
        ".product-description"@,
        "#product-description"@,
        "#feature-bullets"@,
    ]
}

pub open spec fn rating_selectors() -> Seq<Seq<char>> {
    seq!["[itemprop='ratingValue']"@, ".rating"@, ".star-rating"@]
}

pub open spec fn review_count_selectors() -> Seq<Seq<char>> {
    seq!["[itemprop='reviewCount']"@, ".review-count"@, "#reviewCount"@]
}

pub open spec fn availability_selectors() -> Seq<Seq<char>> {
    seq!["[itemprop='availability']"@, ".availability"@, "#availability"@]
}

pub open spec fn brand_selectors() -> Seq<Seq<char>> {
    seq!["[itemprop='brand']"@, ".brand"@, "#brand"@]
}

pub open spec fn author_selectors() -> Seq<Seq<char>> {
    seq!["[itemprop='author']"@, ".author"@, ".byline"@, "[rel='author']"@]
}

pub open spec fn date_selectors() -> Seq<Seq<char>> {
    seq!["[itemprop='datePublished']"@, "time[datetime]"@, ".publish-date"@, ".date"@]
}

// ---- generic fields ----

pub open spec fn meta_selector(property: Seq<char>) -> Seq<char> {
    "meta[property='"@ + property + "']"@
}

/// The trimmed `content` of the first `<meta property=...>` tag, if it has one.
pub open spec fn meta_content(html: Seq<char>, property: Seq<char>) -> Option<Seq<char>> {
    match first_of(html, meta_selector(property)) {
        Some(e) => match attr_of(e.attrs, "content"@) {
            Some(c) => Some(trim(c)),
            None => None,
        },
        None => None,
    }
}

pub open spec fn title_of(html: Seq<char>) -> Seq<char> {
    match meta_content(html, "og:title"@) {
        Some(t) => t,
        None => match first_of(html, "title"@) {
            Some(e) => trim(concat_nodes(e.texts)),
            None => Seq::empty(),
        },
    }
}

pub open spec fn description_of(html: Seq<char>) -> Seq<char> {
    match meta_content(html, "og:description"@) {
        Some(t) => t,
        None => match first_of(html, "meta[name='description']"@) {
            Some(e) => match attr_of(e.attrs, "content"@) {
                Some(c) => trim(c),
                None => Seq::empty(),
            },
            None => Seq::empty(),
        },
    }
}

pub open spec fn main_text_of(html: Seq<char>) -> Seq<char> {
    match cascade(html, main_selectors(), Rule::MainText) {
        Some(t) => t,
        None => match first_of(html, "body"@) {
            Some(e) => normalized(e.texts),
            None => Seq::empty(),
        },
    }
}

fn trimmed_string(s: &String) -> (r: String)
    ensures
        r@ == trim(s@),
{
    let cs = chars_of(s.as_str());
    string_of(trim_chars(&cs).as_slice())
}

/// The trimmed `content` of the first `<meta property="{property}">` tag.
pub fn select_meta_content(doc: &Document, property: &str) -> (r: Option<String>)
    ensures
        opt_view(r) == meta_content(doc.html(), property@),
{
    let mut sel = String::from_str("meta[property='");
    sel.append(property);
    sel.append("']");
    match doc.select_first(sel.as_str()) {
        Some(e) => match e.attr("content") {
            Some(c) => Some(trimmed_string(&c)),
            None => None,
        },
        None => None,
    }
}

/// The Open Graph title, else the trimmed `<title>` text, else empty.
pub fn extract_title(doc: &Document) -> (r: String)
    ensures
        r@ == title_of(doc.html()),
{
    if let Some(t) = select_meta_content(doc, "og:title") {
        return t;
    }
    match doc.select_first("title") {
        Some(e) => string_of(trimmed_concat(&e.texts).as_slice()),
        None => String::new(),
    }
}

/// The Open Graph description, else the trimmed meta description, else empty.
pub fn extract_description(doc: &Document) -> (r: String)
    ensures
        r@ == description_of(doc.html()),
{
    if let Some(t) = select_meta_content(doc, "og:description") {
        return t;
    }
    match doc.select_first("meta[name='description']") {
        Some(e) => match e.attr("content") {
            Some(c) => trimmed_string(&c),
            None => String::new(),
        },
        None => String::new(),
    }
}

/// The normalized text of an element: text nodes trimmed, empty ones
/// skipped, joined by single spaces, capped at `MAX_TEXT_CHARS` plus `...`.
pub fn extract_text_from_element(e: &Element) -> (r: String)
    ensures
        r@ == normalized(e@.texts),
        r@.len() <= MAX_TEXT_CHARS + 3,
{
    string_of(normalize_nodes(&e.texts).as_slice())
}

/// The first content area with more than `MIN_MAIN_TEXT_CHARS` characters of
/// normalized text, else the normalized text of the body.
pub fn extract_main_text(doc: &Document) -> (r: String)
    ensures
        r@ == main_text_of(doc.html()),
        r@.len() <= MAX_TEXT_CHARS + 3,
{
    let sels: Vec<&str> = vec![
        "main",
        "article",
        "[role='main']",
        ".main-content",
        "#main-content",
        ".content",
        "#content",
    ];
    assert(strs_view(sels@) =~= main_selectors());
    proof {
        lemma_main_text_cascade_bounded(doc.html(), main_selectors());
    }
    if let Some(t) = run_cascade(doc, &sels, Rule::MainText) {
        return t;
    }
    match doc.select_first("body") {
        Some(e) => extract_text_from_element(&e),
        None => String::new(),
    }
}

} // verus!
