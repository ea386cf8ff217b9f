//! The article extractor: author, publish date and reading time.
use vstd::prelude::*;
use crate::cascade::{cascade, run_cascade, strs_view, Rule};
use crate::document::Document;
use crate::extract::{
    author_selectors, date_selectors, extract_main_text, main_text_of, or_empty, WORDS_PER_MINUTE,
};
use crate::model::{ArticleInfo, ArticleView};
use vstd::arithmetic::div_mod::{lemma_div_multiples_vanish_fancy, lemma_fundamental_div_mod};
use crate::text::{chars_of, count_words, word_count, MAX_TEXT_CHARS};

verus! {

/// Minutes to read `words` words: rounded up, and never less than one.
pub open spec fn minutes_for(words: nat) -> int {
    let m = (words + WORDS_PER_MINUTE - 1) / (WORDS_PER_MINUTE as int);
    if m < 1 {
        1
    } else {
        m
    }
}

pub open spec fn author_of(html: Seq<char>) -> Seq<char> {
    or_empty(cascade(html, author_selectors(), Rule::Text))
}

pub open spec fn publish_date_of(html: Seq<char>) -> Seq<char> {
    or_empty(cascade(html, date_selectors(), Rule::Date))
}

pub open spec fn reading_time_of(html: Seq<char>) -> int {
    minutes_for(word_count(main_text_of(html)))
}

/// The article facts of a page: none unless it has an author or a publish date.
pub open spec fn article_of(html: Seq<char>) -> Option<ArticleView> {
    let author = author_of(html);
    let date = publish_date_of(html);
    if author.len() == 0 && date.len() == 0 {
        None
    } else {
        Some(ArticleView { author, publish_date: date, reading_time: reading_time_of(html) as i32 })
    }
}

/// Minutes to read `words` words at `WORDS_PER_MINUTE`, rounded up, at least one.
pub fn reading_minutes(words: usize) -> (r: usize)
    ensures
        r == minutes_for(words as nat),
{
    let m = words / WORDS_PER_MINUTE + if words % WORDS_PER_MINUTE > 0 {
        1usize
    } else {
        0usize
    };
    proof {
        let q = words as int / 200;
        let rem = words as int % 200;
        lemma_fundamental_div_mod(words as int, 200);
        if rem == 0 {
            lemma_div_multiples_vanish_fancy(q, 199, 200);
            assert(words as int + 199 == 200 * q + 199);
        } else {
            lemma_div_multiples_vanish_fancy(q + 1, rem - 1, 200);
            assert(words as int + 199 == 200 * (q + 1) + (rem - 1)) by (nonlinear_arith)
                requires
                    words as int == 200 * q + rem,
            ;
        }
    }
    if m < 1 {
        1
    } else {
        m
    }
}

/// Minutes to read the page's main text.
pub fn estimate_reading_time(doc: &Document) -> (r: i32)
    ensures
        r == reading_time_of(doc.html()),
        r >= 1,
{
    let text = extract_main_text(doc);
    let words = count_words(&chars_of(text.as_str()));
    let m = reading_minutes(words);
    assert(m <= MAX_TEXT_CHARS) by (nonlinear_arith)
        requires
            m == minutes_for(words as nat),
            words <= MAX_TEXT_CHARS + 3,
    ;
    m as i32
}

/// The first non-empty trimmed author text, else empty.
pub fn extract_author(doc: &Document) -> (r: String)
    ensures
        r@ == author_of(doc.html()),
{
    let sels: Vec<&str> = vec!["[itemprop='author']", ".author", ".byline", "[rel='author']"];
    assert(strs_view(sels@) =~= author_selectors());
    match run_cascade(doc, &sels, Rule::Text) {
        Some(a) => a,
        None => String::new(),
    }
}

/// The first match's `datetime` attribute, else its non-empty trimmed text, else empty.
pub fn extract_publish_date(doc: &Document) -> (r: String)
    ensures
        r@ == publish_date_of(doc.html()),
{
    let sels: Vec<&str> = vec![
        "[itemprop='datePublished']",
        "time[datetime]",
        ".publish-date",
        ".date",
    ];
    assert(strs_view(sels@) =~= date_selectors());
    match run_cascade(doc, &sels, Rule::Date) {
        Some(a) => a,
        None => String::new(),
    }
}

/// The article facts of a page; none when both author and publish date are empty,
/// whatever the reading time.
pub fn extract_article_info(doc: &Document) -> (r: Option<ArticleInfo>)
    ensures
        r is None <==> (author_of(doc.html()).len() == 0 && publish_date_of(doc.html()).len() == 0),
        match r {
            Some(a) => article_of(doc.html()) == Some(a@) && a.reading_time >= 1,
            None => article_of(doc.html()) is None,
        },
{
    let author = extract_author(doc);
    let publish_date = extract_publish_date(doc);
    let reading_time = estimate_reading_time(doc);
    if author.as_str().is_empty() && publish_date.as_str().is_empty() {
        return None;
    }
    Some(ArticleInfo { author, publish_date, reading_time })
}

} // verus!
