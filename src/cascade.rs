//! Ordered selector cascades: a list of selectors tried in turn, the first
//! element of each read by one rule, the first value found winning.
use vstd::prelude::*;
use crate::document::{attr_of, first_of, opt_view, Document, Element, ElementView};
use crate::number::{
    digit_chars, digits_of, float_text, i32_of, is_float_text, normalize_price,
    normalize_price_text, parse_i32,
};
use crate::text::{
    concat_nodes, concat_text, normalize_nodes, normalized, string_of, trim, trim_chars,
    MAX_TEXT_CHARS,
};

verus! {

/// A product name must be shorter than this, in characters.
pub const MAX_NAME_CHARS: usize = 500;

/// A content area is taken as the main text only when its text is longer than this.
pub const MIN_MAIN_TEXT_CHARS: usize = 200;

/// How a matched element is read.
#[derive(Clone, Copy, Debug, PartialEq, Eq, Structural)]
pub enum Rule {
    /// Its trimmed text, if not empty and shorter than `MAX_NAME_CHARS`.
    Name,
    /// Its trimmed text, if not empty.
    Text,
    /// Its `datetime` attribute, else its trimmed text if not empty.
    Date,
    /// Its `data-price` attribute if numeric, else its normalized price text if numeric.
    Price,
    /// Its `content` attribute if numeric, else its trimmed text if numeric.
    Rating,
    /// Its normalized text, if longer than `MIN_MAIN_TEXT_CHARS`.
    MainText,
}

pub open spec fn element_text(e: ElementView) -> Seq<char> {
    trim(concat_nodes(e.texts))
}

pub open spec fn non_empty(s: Seq<char>) -> Option<Seq<char>> {
    if s.len() > 0 {
        Some(s)
    } else {
        None
    }
}

pub open spec fn numeric(s: Seq<char>) -> Option<Seq<char>> {
    if float_text(s) {
        Some(s)
    } else {
        None
    }
}

pub open spec fn numeric_attr(e: ElementView, name: Seq<char>) -> Option<Seq<char>> {
    match attr_of(e.attrs, name) {
        Some(v) => numeric(v),
        None => None,
    }
}

/// What `rule` reads from the element `e`.
pub open spec fn rule_pick(rule: Rule, e: ElementView) -> Option<Seq<char>> {
    let t = element_text(e);
    match rule {
        Rule::Name => if 0 < t.len() && t.len() < MAX_NAME_CHARS {
            Some(t)
        } else {
            None
        },
        Rule::Text => non_empty(t),
        Rule::Date => match attr_of(e.attrs, "datetime"@) {
            Some(d) => Some(d),
            None => non_empty(t),
        },
        Rule::Price => match numeric_attr(e, "data-price"@) {
            Some(p) => Some(p),
            None => numeric(normalize_price(concat_nodes(e.texts))),
        },
        Rule::Rating => match numeric_attr(e, "content"@) {
            Some(p) => Some(p),
            None => numeric(t),
        },
        Rule::MainText => if normalized(e.texts).len() > MIN_MAIN_TEXT_CHARS {
            Some(normalized(e.texts))
        } else {
            None
        },
    }
}

/// The first value that `rule` reads from the first match of each selector, in order.
pub open spec fn cascade(html: Seq<char>, sels: Seq<Seq<char>>, rule: Rule) -> Option<Seq<char>>
    decreases sels.len(),
{
    if sels.len() == 0 {
        None
    } else {
        let here = match first_of(html, sels[0]) {
            Some(e) => rule_pick(rule, e),
            None => None,
        };
        if here is Some {
            here
        } else {
            cascade(html, sels.drop_first(), rule)
        }
    }
}

/// A review count read from an element: its `content` attribute as an
/// integer, else the digits of its text as an integer.
pub open spec fn count_pick(e: ElementView) -> Option<i32> {
    let from_text = i32_of(digit_chars(concat_nodes(e.texts)));
    match attr_of(e.attrs, "content"@) {
        Some(c) => if i32_of(c) is Some {
            i32_of(c)
        } else {
            from_text
        },
        None => from_text,
    }
}

pub open spec fn count_cascade(html: Seq<char>, sels: Seq<Seq<char>>) -> Option<i32>
    decreases sels.len(),
{
    if sels.len() == 0 {
        None
    } else {
        let here = match first_of(html, sels[0]) {
            Some(e) => count_pick(e),
            None => None,
        };
        if here is Some {
            here
        } else {
            count_cascade(html, sels.drop_first())
        }
    }
}

pub open spec fn strs_view(v: Seq<&str>) -> Seq<Seq<char>> {
    v.map_values(|s: &str| s@)
}

fn text_string(cs: &Vec<char>) -> (r: String)
    ensures
        r@ == cs@,
{
    string_of(cs.as_slice())
}

fn numeric_string(s: String) -> (r: Option<String>)
    ensures
        opt_view(r) == numeric(s@),
{
    if is_float_text(s.as_str()) {
        Some(s)
    } else {
        None
    }
}

fn numeric_attr_of(e: &Element, name: &str) -> (r: Option<String>)
    ensures
        opt_view(r) == numeric_attr(e@, name@),
{
    match e.attr(name) {
        Some(v) => numeric_string(v),
        None => None,
    }
}

/// What `rule` reads from `e`.
pub fn apply_rule(rule: Rule, e: &Element) -> (r: Option<String>)
    ensures
        opt_view(r) == rule_pick(rule, e@),
{
    match rule {
        Rule::MainText => {
            let n = normalize_nodes(&e.texts);
            if n.len() > MIN_MAIN_TEXT_CHARS {
                Some(text_string(&n))
            } else {
                None
            }
        },
        Rule::Price => {
            match numeric_attr_of(e, "data-price") {
                Some(p) => Some(p),
                None => {
                    let raw = text_string(&concat_text(&e.texts));
                    numeric_string(normalize_price_text(raw.as_str()))
                },
            }
        },
        Rule::Rating => {
            match numeric_attr_of(e, "content") {
                Some(p) => Some(p),
                None => numeric_string(text_string(&trim_chars(&concat_text(&e.texts)))),
            }
        },
        _ => {
            if rule == Rule::Date {
                if let Some(d) = e.attr("datetime") {
                    return Some(d);
                }
            }
            let t = trim_chars(&concat_text(&e.texts));
            if t.len() == 0 || (rule == Rule::Name && t.len() >= MAX_NAME_CHARS) {
                None
            } else {
                Some(text_string(&t))
            }
        },
    }
}

/// Runs the cascade of `sels` under `rule`.
pub fn run_cascade(doc: &Document, sels: &Vec<&str>, rule: Rule) -> (r: Option<String>)
    ensures
        opt_view(r) == cascade(doc.html(), strs_view(sels@), rule),
{
    let ghost all = strs_view(sels@);
    let mut i: usize = 0;
    assert(all.subrange(0, all.len() as int) =~= all);
    while i < sels.len()
        invariant
            i <= sels@.len() == all.len(),
            all == strs_view(sels@),
            cascade(doc.html(), all, rule) == cascade(
                doc.html(),
                all.subrange(i as int, all.len() as int),
                rule,
            ),
        decreases sels.len() - i,
    {
        let ghost rest = all.subrange(i as int, all.len() as int);
        assert(rest.drop_first() =~= all.subrange(i + 1, all.len() as int));
        assert(rest[0] == sels@[i as int]@);
        if let Some(e) = doc.select_first(sels[i]) {
            if let Some(v) = apply_rule(rule, &e) {
                return Some(v);
            }
        }
        i = i + 1;
    }
    None
}

/// A review count read from `e`.
pub fn count_of_element(e: &Element) -> (r: Option<i32>)
    ensures
        r == count_pick(e@),
{
    if let Some(c) = e.attr("content") {
        if let Some(n) = parse_i32(c.as_str()) {
            return Some(n);
        }
    }
    let digits = digits_of(&concat_text(&e.texts));
    parse_i32(digits.as_str())
}

/// Runs the review-count cascade of `sels`.
pub fn run_count_cascade(doc: &Document, sels: &Vec<&str>) -> (r: Option<i32>)
    ensures
        r == count_cascade(doc.html(), strs_view(sels@)),
{
    let ghost all = strs_view(sels@);
    let mut i: usize = 0;
    assert(all.subrange(0, all.len() as int) =~= all);
    while i < sels.len()
        invariant
            i <= sels@.len() == all.len(),
            all == strs_view(sels@),
            count_cascade(doc.html(), all) == count_cascade(
                doc.html(),
                all.subrange(i as int, all.len() as int),
            ),
        decreases sels.len() - i,
    {
        let ghost rest = all.subrange(i as int, all.len() as int);
        assert(rest.drop_first() =~= all.subrange(i + 1, all.len() as int));
        assert(rest[0] == sels@[i as int]@);
        if let Some(e) = doc.select_first(sels[i]) {
            if let Some(v) = count_of_element(&e) {
                return Some(v);
            }
        }
        i = i + 1;
    }
    None
}

/// Whatever the cascade finds under the main-text rule is within the length cap.
pub proof fn lemma_main_text_cascade_bounded(html: Seq<char>, sels: Seq<Seq<char>>)
    ensures
        cascade(html, sels, Rule::MainText) matches Some(t) ==> t.len() <= MAX_TEXT_CHARS + 3,
    decreases sels.len(),
{
    if sels.len() > 0 {
        lemma_main_text_cascade_bounded(html, sels.drop_first());
    }
}

} // verus!
