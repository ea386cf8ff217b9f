//! The product extractor: name, price, images and the other product facts.
use vstd::prelude::*;
use vstd::string::StringExecFns;
use crate::cascade::{cascade, count_cascade, run_cascade, run_count_cascade, strs_view, Rule};
use crate::document::{attr_of, selection, Document, Element, ElementView, elements_view};
use crate::extract::{
    availability_selectors, brand_selectors, image_selectors, name_selectors, or_empty,
    price_selectors, product_description_selectors, rating_selectors, review_count_selectors,
    MAX_IMAGES,
};
use crate::model::{ProductInfo, ProductView};
use crate::text::strings_view;

verus! {

/// The image address of an element: `src`, else `data-src`.
pub open spec fn image_src(e: ElementView) -> Option<Seq<char>> {
    match attr_of(e.attrs, "src"@) {
        Some(s) => Some(s),
        None => attr_of(e.attrs, "data-src"@),
    }
}

/// `acc` with the image of `e` added, if it has a new, non-empty one.
pub open spec fn add_image(acc: Seq<Seq<char>>, e: ElementView) -> Seq<Seq<char>> {
    match image_src(e) {
        Some(s) => if s.len() > 0 && !acc.contains(s) {
            acc.push(s)
        } else {
            acc
        },
        None => acc,
    }
}

pub open spec fn gather_images(acc: Seq<Seq<char>>, es: Seq<ElementView>) -> Seq<Seq<char>>
    decreases es.len(),
{
    if es.len() == 0 {
        acc
    } else {
        add_image(gather_images(acc, es.drop_last()), es.last())
    }
}

/// The distinct images of every match of every selector, in cascade then document order.
pub open spec fn gather_all_images(html: Seq<char>, sels: Seq<Seq<char>>) -> Seq<Seq<char>>
    decreases sels.len(),
{
    if sels.len() == 0 {
        Seq::empty()
    } else {
        gather_images(gather_all_images(html, sels.drop_last()), selection(html, sels.last()))
    }
}

pub open spec fn images_of(html: Seq<char>) -> Seq<Seq<char>> {
    let g = gather_all_images(html, image_selectors());
    if g.len() > MAX_IMAGES {
        g.subrange(0, MAX_IMAGES as int)
    } else {
        g
    }
}

pub open spec fn distinct(s: Seq<Seq<char>>) -> bool {
    forall|i: int, j: int| 0 <= i < j < s.len() ==> s[i] != s[j]
}

pub open spec fn product_of(html: Seq<char>) -> Option<ProductView> {
    match cascade(html, name_selectors(), Rule::Name) {
        None => None,
        Some(name) => Some(
            ProductView {
                name,
                price: cascade(html, price_selectors(), Rule::Price),
                currency: "USD"@,
                images: images_of(html),
                description: or_empty(
                    cascade(html, product_description_selectors(), Rule::Text),
                ),
                rating: cascade(html, rating_selectors(), Rule::Rating),
                review_count: count_cascade(html, review_count_selectors()),
                availability: match cascade(html, availability_selectors(), Rule::Text) {
                    Some(a) => a,
                    None => "Unknown"@,
                },
                brand: or_empty(cascade(html, brand_selectors(), Rule::Text)),
                category: Seq::empty(),
            },
        ),
    }
}

fn contains_string(v: &Vec<String>, s: &String) -> (r: bool)
    ensures
        r == strings_view(v@).contains(s@),
{
    let mut k: usize = 0;
    while k < v.len()
        invariant
            k <= v@.len(),
            forall|x: int| 0 <= x < k ==> strings_view(v@)[x] != s@,
        decreases v.len() - k,
    {
        if v[k] == *s {
            assert(strings_view(v@)[k as int] == s@);
            return true;
        }
        k = k + 1;
    }
    false
}

fn image_of(e: &Element) -> (r: Option<String>)
    ensures
        crate::document::opt_view(r) == image_src(e@),
{
    match e.attr("src") {
        Some(s) => Some(s),
        None => e.attr("data-src"),
    }
}

/// Up to `MAX_IMAGES` distinct, non-empty image addresses, in cascade then document order.
pub fn extract_product_images(doc: &Document) -> (r: Vec<String>)
    ensures
        strings_view(r@) == images_of(doc.html()),
        r@.len() <= MAX_IMAGES,
{
    let sels: Vec<&str> = vec![
        "[itemprop='image']",
        ".product-image img",
        "#product-image img",
        ".gallery img",
    ];
    let ghost all = strs_view(sels@);
    assert(all =~= image_selectors());
    let mut images: Vec<String> = Vec::new();
    let mut i: usize = 0;
    while i < sels.len()
        invariant
            i <= sels@.len() == all.len(),
            all == strs_view(sels@),
            strings_view(images@) == gather_all_images(doc.html(), all.subrange(0, i as int)),
        decreases sels.len() - i,
    {
        let found = doc.select(sels[i]);
        let ghost es = elements_view(found@);
        let ghost before = strings_view(images@);
        assert(all.subrange(0, i + 1).drop_last() =~= all.subrange(0, i as int));
        assert(all.subrange(0, i + 1).last() == sels@[i as int]@);
        let mut j: usize = 0;
        assert(es.subrange(0, 0) =~= Seq::<ElementView>::empty());
        while j < found.len()
            invariant
                j <= found@.len() == es.len(),
                es == elements_view(found@),
                strings_view(images@) == gather_images(before, es.subrange(0, j as int)),
            decreases found.len() - j,
        {
            assert(es.subrange(0, j + 1).drop_last() =~= es.subrange(0, j as int));
            assert(es.subrange(0, j + 1).last() == found@[j as int]@);
            if let Some(src) = image_of(&found[j]) {
                if !src.as_str().is_empty() && !contains_string(&images, &src) {
                    let ghost prev = images@;
                    images.push(src);
                    assert(strings_view(images@) =~= strings_view(prev).push(src@));
                }
            }
            j = j + 1;
        }
        assert(es.subrange(0, es.len() as int) =~= es);
        i = i + 1;
    }
    assert(all.subrange(0, all.len() as int) =~= all);
    if images.len() > MAX_IMAGES {
        let ghost full = strings_view(images@);
        images.truncate(MAX_IMAGES);
        assert(strings_view(images@) =~= full.subrange(0, MAX_IMAGES as int));
    }
    images
}

/// The first trimmed, non-empty product name shorter than `MAX_NAME_CHARS`.
pub fn extract_product_name(doc: &Document) -> (r: Option<String>)
    ensures
        crate::document::opt_view(r) == cascade(doc.html(), name_selectors(), Rule::Name),
{
    let sels: Vec<&str> = vec![
        "[itemprop='name']",
        "h1.product-title",
        "h1.product-name",
        "h1[data-product-name]",
        ".product-title h1",
        "#productTitle",
        "h1",
    ];
    assert(strs_view(sels@) =~= name_selectors());
    run_cascade(doc, &sels, Rule::Name)
}

/// The price as decimal text: a numeric `data-price`, else the element's
/// price text normalized, for the first selector that yields one.
pub fn extract_price(doc: &Document) -> (r: Option<String>)
    ensures
        crate::document::opt_view(r) == cascade(doc.html(), price_selectors(), Rule::Price),
{
    let sels: Vec<&str> = vec![
        "[itemprop='price']",
        ".price",
        ".product-price",
        "#priceblock_ourprice",
        "[data-price]",
    ];
    assert(strs_view(sels@) =~= price_selectors());
    run_cascade(doc, &sels, Rule::Price)
}

fn text_or_empty(o: Option<String>) -> (r: String)
    ensures
        r@ == or_empty(crate::document::opt_view(o)),
{
    match o {
        Some(s) => s,
        None => String::new(),
    }
}

/// The first non-empty trimmed product description, else empty.
pub fn extract_product_description(doc: &Document) -> (r: String)
    ensures
        r@ == or_empty(cascade(doc.html(), product_description_selectors(), Rule::Text)),
{
    let sels: Vec<&str> = vec![
        "[itemprop='description']",
        ".product-description",
        "#product-description",
        "#feature-bullets",
    ];
    assert(strs_view(sels@) =~= product_description_selectors());
    text_or_empty(run_cascade(doc, &sels, Rule::Text))
}

/// The rating as decimal text: a numeric `content`, else numeric trimmed text.
pub fn extract_rating(doc: &Document) -> (r: Option<String>)
    ensures
        crate::document::opt_view(r) == cascade(doc.html(), rating_selectors(), Rule::Rating),
{
    let sels: Vec<&str> = vec!["[itemprop='ratingValue']", ".rating", ".star-rating"];
    assert(strs_view(sels@) =~= rating_selectors());
    run_cascade(doc, &sels, Rule::Rating)
}

/// The review count: an integer `content`, else the digits of the text.
pub fn extract_review_count(doc: &Document) -> (r: Option<i32>)
    ensures
        r == count_cascade(doc.html(), review_count_selectors()),
{
    let sels: Vec<&str> = vec!["[itemprop='reviewCount']", ".review-count", "#reviewCount"];
    assert(strs_view(sels@) =~= review_count_selectors());
    run_count_cascade(doc, &sels)
}

/// The first non-empty trimmed availability text, else `Unknown`.
pub fn extract_availability(doc: &Document) -> (r: String)
    ensures
        r@ == (match cascade(doc.html(), availability_selectors(), Rule::Text) {
            Some(a) => a,
            None => "Unknown"@,
        }),
{
    let sels: Vec<&str> = vec!["[itemprop='availability']", ".availability", "#availability"];
    assert(strs_view(sels@) =~= availability_selectors());
    match run_cascade(doc, &sels, Rule::Text) {
        Some(a) => a,
        None => String::from_str("Unknown"),
    }
}

/// The first non-empty trimmed brand text, else empty.
pub fn extract_brand(doc: &Document) -> (r: String)
    ensures
        r@ == or_empty(cascade(doc.html(), brand_selectors(), Rule::Text)),
{
    let sels: Vec<&str> = vec!["[itemprop='brand']", ".brand", "#brand"];
    assert(strs_view(sels@) =~= brand_selectors());
    text_or_empty(run_cascade(doc, &sels, Rule::Text))
}

/// The product facts of a page; none when no product name is found.
pub fn extract_product_info(doc: &Document) -> (r: Option<ProductInfo>)
    ensures
        match r {
            Some(p) => product_of(doc.html()) == Some(p@),
            None => product_of(doc.html()) is None,
        },
{
    let name = match extract_product_name(doc) {
        Some(n) => n,
        None => return None,
    };
    let price = extract_price(doc);
    let images = extract_product_images(doc);
    let p = ProductInfo {
        name,
        price,
        currency: String::from_str("USD"),
        images,
        description: extract_product_description(doc),
        rating: extract_rating(doc),
        review_count: extract_review_count(doc),
        availability: extract_availability(doc),
        brand: extract_brand(doc),
        category: String::new(),
    };
    Some(p)
}

proof fn lemma_gather_distinct(acc: Seq<Seq<char>>, es: Seq<ElementView>)
    requires
        distinct(acc),
        forall|k: int| 0 <= k < acc.len() ==> acc[k].len() > 0,
    ensures
        distinct(gather_images(acc, es)),
        forall|k: int| 0 <= k < gather_images(acc, es).len() ==> gather_images(acc, es)[k].len() > 0,
    decreases es.len(),
{
    if es.len() > 0 {
        lemma_gather_distinct(acc, es.drop_last());
        let g = gather_images(acc, es.drop_last());
        if let Some(s) = image_src(es.last()) {
            if s.len() > 0 && !g.contains(s) {
                let h = g.push(s);
                assert forall|i: int, j: int| 0 <= i < j < h.len() implies h[i] != h[j] by {
                    if j == g.len() {
                        assert(h[i] == g[i]);
                    }
                }
            }
        }
    }
}

proof fn lemma_gather_all_distinct(html: Seq<char>, sels: Seq<Seq<char>>)
    ensures
        distinct(gather_all_images(html, sels)),
        forall|k: int|
            0 <= k < gather_all_images(html, sels).len() ==> gather_all_images(html, sels)[k].len()
                > 0,
    decreases sels.len(),
{
    if sels.len() > 0 {
        lemma_gather_all_distinct(html, sels.drop_last());
        lemma_gather_distinct(
            gather_all_images(html, sels.drop_last()),
            selection(html, sels.last()),
        );
    }
}

/// Product images are distinct and non-empty, at most `MAX_IMAGES` of them,
/// and exactly `MAX_IMAGES` whenever the cascade finds at least that many
/// distinct ones.
pub proof fn lemma_images_distinct_capped(html: Seq<char>)
    ensures
        distinct(images_of(html)),
        forall|k: int| 0 <= k < images_of(html).len() ==> images_of(html)[k].len() > 0,
        images_of(html).len() <= MAX_IMAGES,
        gather_all_images(html, image_selectors()).len() >= MAX_IMAGES ==> images_of(html).len()
            == MAX_IMAGES,
        images_of(html) =~= gather_all_images(html, image_selectors()).take(
            images_of(html).len() as int,
        ),
{
    lemma_gather_all_distinct(html, image_selectors());
}

} // verus!
