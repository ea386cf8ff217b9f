//! The assembler: one page record from a page's source and URL.
use vstd::prelude::*;
use vstd::string::StringExecFns;
use crate::article::{article_of, extract_article_info, minutes_for};
use crate::classify::{detect_page_type, lower_of, page_type_of, PageType};
use crate::document::Document;
use crate::extract::{
    description_of, extract_description, extract_main_text, extract_title, main_text_of, title_of,
};
use crate::model::{ContentView, PageContent};
use crate::product::{extract_product_info, product_of};
use crate::text::{cap_text, join_nodes, normalized, MAX_TEXT_CHARS};

verus! {

/// What extraction yields for a page with source `html` at `url`, leaving out
/// when it was extracted.
pub open spec fn content_of(html: Seq<char>, url: Seq<char>) -> ContentView {
    let page_type = page_type_of(lower_of(url), html);
    ContentView {
        url,
        title: title_of(html),
        description: description_of(html),
        text: main_text_of(html),
        page_type,
        product: if page_type == PageType::Product {
            product_of(html)
        } else {
            None
        },
        article: if page_type == PageType::Article {
            article_of(html)
        } else {
            None
        },
    }
}

/// Relies on chrono's `Utc::now` and `DateTime::to_rfc3339`: the current time
/// in RFC 3339 form. Nothing is stated of which time it is.
#[verifier::external_body]
fn now_rfc3339() -> (r: String) {
    chrono::Utc::now().to_rfc3339()
}

/// Puts a page record together from the already extracted parts.
pub fn assemble(
    url: &str,
    doc: &Document,
    page_type: PageType,
    extracted_at: String,
) -> (r: PageContent)
    requires
        page_type == page_type_of(lower_of(url@), doc.html()),
    ensures
        r.content() == content_of(doc.html(), url@),
        r.extracted_at == extracted_at,
        r.wf(),
{
    let product = if page_type == PageType::Product {
        extract_product_info(doc)
    } else {
        None
    };
    let article = if page_type == PageType::Article {
        extract_article_info(doc)
    } else {
        None
    };
    let r = PageContent {
        url: String::from_str(url),
        title: extract_title(doc),
        description: extract_description(doc),
        text: extract_main_text(doc),
        page_type,
        extracted_at,
        product,
        article,
    };
    assert(r.content() =~= content_of(doc.html(), url@));
    r
}

/// Extracts the page record of `html`, fetched from `url`. Total: every page
/// source gives a well-formed record.
pub fn extract_from_html(html: &str, url: &str) -> (r: PageContent)
    ensures
        r.content() == content_of(html@, url@),
        r.wf(),
{
    let doc = Document::parse(html);
    let page_type = detect_page_type(&doc, url);
    let extracted_at = now_rfc3339();
    assemble(url, &doc, page_type, extracted_at)
}

/// Extraction is a function of the page's source and URL: two records
/// extracted from the same source and URL agree in everything but the time
/// of extraction.
pub proof fn lemma_extraction_repeatable(
    html: Seq<char>,
    url: Seq<char>,
    first: PageContent,
    second: PageContent,
)
    requires
        first.content() == content_of(html, url),
        second.content() == content_of(html, url),
    ensures
        first.content() == second.content(),
        first.url@ == second.url@,
        first.title@ == second.title@,
        first.description@ == second.description@,
        first.text@ == second.text@,
        first.page_type == second.page_type,
{
}

/// Normalized text longer than the cap is cut to exactly `MAX_TEXT_CHARS`
/// characters followed by `...`; shorter text is kept whole.
pub proof fn lemma_text_cap(nodes: Seq<Seq<char>>)
    ensures
        join_nodes(nodes).len() > MAX_TEXT_CHARS ==> {
            &&& normalized(nodes).len() == MAX_TEXT_CHARS + 3
            &&& normalized(nodes).subrange(0, MAX_TEXT_CHARS as int) == join_nodes(nodes).subrange(
                0,
                MAX_TEXT_CHARS as int,
            )
            &&& normalized(nodes).subrange(MAX_TEXT_CHARS as int, MAX_TEXT_CHARS + 3) == seq![
                '.',
                '.',
                '.',
            ]
        },
        join_nodes(nodes).len() <= MAX_TEXT_CHARS ==> normalized(nodes) == join_nodes(nodes),
{
    let j = join_nodes(nodes);
    if j.len() > MAX_TEXT_CHARS {
        let n = cap_text(j);
        assert(n.subrange(0, MAX_TEXT_CHARS as int) =~= j.subrange(0, MAX_TEXT_CHARS as int));
        assert(n.subrange(MAX_TEXT_CHARS as int, MAX_TEXT_CHARS + 3) =~= seq!['.', '.', '.']);
    }
}

/// Reading time is at least one minute, and one more minute for each further
/// `WORDS_PER_MINUTE` words begun.
pub proof fn lemma_reading_time_floor(words: nat)
    ensures
        minutes_for(words) >= 1,
        words <= 200 ==> minutes_for(words) == 1,
        words > 0 ==> minutes_for(words) * 200 >= words,
        words > 0 ==> (minutes_for(words) - 1) * 200 < words,
{
    let m = (words + 199) / 200;
    assert(m * 200 <= words + 199 && words + 199 < (m + 1) * 200) by (nonlinear_arith)
        requires
            m == (words + 199) / 200,
    ;
}

} // verus!
