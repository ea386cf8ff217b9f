//! Numbers read from page text: the locale-aware price normalizer, decimal
//! and integer recognition.
use vstd::prelude::*;
use crate::document::opt_view;
use crate::text::{chars_of, string_of};

verus! {

pub open spec fn is_digit(c: char) -> bool {
    '0' <= c && c <= '9'
}

pub open spec fn is_price_char(c: char) -> bool {
    is_digit(c) || c == '.' || c == ','
}

/// `s` with everything but digits, commas and periods left out.
pub open spec fn price_chars(s: Seq<char>) -> Seq<char>
    decreases s.len(),
{
    if s.len() == 0 {
        Seq::empty()
    } else if is_price_char(s.last()) {
        price_chars(s.drop_last()).push(s.last())
    } else {
        price_chars(s.drop_last())
    }
}

/// `s` with only its ASCII digits.
pub open spec fn digit_chars(s: Seq<char>) -> Seq<char>
    decreases s.len(),
{
    if s.len() == 0 {
        Seq::empty()
    } else if is_digit(s.last()) {
        digit_chars(s.drop_last()).push(s.last())
    } else {
        digit_chars(s.drop_last())
    }
}

/// Position of the last `c` in `s`, or -1.
pub open spec fn last_pos(s: Seq<char>, c: char) -> int
    decreases s.len(),
{
    if s.len() == 0 {
        -1
    } else if s.last() == c {
        s.len() - 1
    } else {
        last_pos(s.drop_last(), c)
    }
}

/// `s` with each `dropped` left out and, if `comma_is_point`, each comma made a period.
pub open spec fn rewrite(s: Seq<char>, dropped: char, comma_is_point: bool) -> Seq<char>
    decreases s.len(),
{
    if s.len() == 0 {
        Seq::empty()
    } else {
        let r = rewrite(s.drop_last(), dropped, comma_is_point);
        let c = s.last();
        if c == dropped {
            r
        } else if comma_is_point && c == ',' {
            r.push('.')
        } else {
            r.push(c)
        }
    }
}

/// The price text in plain decimal form. With both separators present the
/// rightmost is the decimal point and the other is dropped; a lone comma is
/// the decimal point; otherwise the digits and periods stand as they are.
pub open spec fn normalize_price(s: Seq<char>) -> Seq<char> {
    let c = price_chars(s);
    let comma = last_pos(c, ',');
    let point = last_pos(c, '.');
    if comma >= 0 && point >= 0 && comma < point {
        rewrite(c, ',', false)
    } else if comma >= 0 {
        rewrite(c, '.', true)
    } else {
        c
    }
}

pub open spec fn is_sign(c: char) -> bool {
    c == '+' || c == '-'
}

pub open spec fn unsigned(s: Seq<char>) -> Seq<char> {
    if s.len() > 0 && is_sign(s[0]) {
        s.drop_first()
    } else {
        s
    }
}

/// `c` is the lower-case letter `l` in either case.
pub open spec fn same_letter(c: char, l: char) -> bool {
    c == l || (c as u32) + 32 == l as u32
}

/// `s` is `w` up to ASCII case.
pub open spec fn is_word(s: Seq<char>, w: Seq<char>) -> bool {
    s.len() == w.len() && forall|i: int| 0 <= i < s.len() ==> same_letter(#[trigger] s[i], w[i])
}

pub open spec fn is_exp_mark(c: char) -> bool {
    c == 'e' || c == 'E'
}

/// Position of the first exponent mark, or -1.
pub open spec fn exp_pos(s: Seq<char>) -> int
    decreases s.len(),
{
    if s.len() == 0 {
        -1
    } else if exp_pos(s.drop_last()) >= 0 {
        exp_pos(s.drop_last())
    } else if is_exp_mark(s.last()) {
        s.len() - 1
    } else {
        -1
    }
}

pub open spec fn count_points(s: Seq<char>) -> nat
    decreases s.len(),
{
    if s.len() == 0 {
        0
    } else {
        count_points(s.drop_last()) + if s.last() == '.' {
            1nat
        } else {
            0nat
        }
    }
}

/// Digits with at most one period and at least one digit.
pub open spec fn mantissa_ok(m: Seq<char>) -> bool {
    (forall|i: int| 0 <= i < m.len() ==> is_digit(#[trigger] m[i]) || m[i] == '.')
        && count_points(m) <= 1 && digit_chars(m).len() > 0
}

pub open spec fn number_ok(b: Seq<char>) -> bool {
    let p = exp_pos(b);
    if p >= 0 {
        let e = unsigned(b.subrange(p + 1, b.len() as int));
        mantissa_ok(b.subrange(0, p)) && e.len() > 0 && all_digits(e)
    } else {
        mantissa_ok(b)
    }
}

/// The grammar that `f64`'s `FromStr` documents: an optional sign, then
/// `inf`, `infinity` or `nan` in any case, or a decimal number with at least
/// one digit, at most one period and an optional exponent.
pub open spec fn float_text(s: Seq<char>) -> bool {
    let b = unsigned(s);
    is_word(b, seq!['i', 'n', 'f']) || is_word(b, seq!['i', 'n', 'f', 'i', 'n', 'i', 't', 'y'])
        || is_word(b, seq!['n', 'a', 'n']) || number_ok(b)
}

fn unsigned_chars(s: &Vec<char>) -> (r: Vec<char>)
    ensures
        r@ == unsigned(s@),
{
    let mut r: Vec<char> = Vec::new();
    let start: usize = if s.len() > 0 && (s[0] == '+' || s[0] == '-') {
        1
    } else {
        0
    };
    let mut k: usize = start;
    while k < s.len()
        invariant
            start <= k <= s@.len(),
            start == (if s@.len() > 0 && is_sign(s@[0]) { 1usize } else { 0usize }),
            r@ == s@.subrange(start as int, k as int),
        decreases s.len() - k,
    {
        r.push(s[k]);
        assert(r@ =~= s@.subrange(start as int, k + 1));
        k = k + 1;
    }
    assert(unsigned(s@) =~= s@.subrange(start as int, s@.len() as int));
    r
}

fn word_is(s: &Vec<char>, w: &Vec<char>) -> (r: bool)
    ensures
        r == is_word(s@, w@),
{
    if s.len() != w.len() {
        return false;
    }
    let mut k: usize = 0;
    while k < s.len()
        invariant
            s@.len() == w@.len(),
            k <= s@.len(),
            forall|i: int| 0 <= i < k ==> same_letter(#[trigger] s@[i], w@[i]),
        decreases s.len() - k,
    {
        let c = s[k];
        let l = w[k];
        if c != l && !(l as u32 >= 32 && c as u32 == l as u32 - 32) {
            return false;
        }
        k = k + 1;
    }
    true
}

fn mantissa_is_ok(s: &Vec<char>, lo: usize, hi: usize) -> (r: bool)
    requires
        lo <= hi <= s@.len(),
    ensures
        r == mantissa_ok(s@.subrange(lo as int, hi as int)),
{
    let ghost m = s@.subrange(lo as int, hi as int);
    let mut points: usize = 0;
    let mut digits: usize = 0;
    let mut k: usize = lo;
    while k < hi
        invariant
            lo <= k <= hi <= s@.len(),
            m == s@.subrange(lo as int, hi as int),
            points == count_points(m.subrange(0, k - lo)),
            digits == digit_chars(m.subrange(0, k - lo)).len(),
            points <= k - lo,
            digits <= k - lo,
            forall|i: int| 0 <= i < k - lo ==> is_digit(#[trigger] m[i]) || m[i] == '.',
        decreases hi - k,
    {
        let c = s[k];
        assert(m.subrange(0, k + 1 - lo).drop_last() =~= m.subrange(0, k - lo));
        assert(m[k - lo] == c);
        if '0' <= c && c <= '9' {
            digits = digits + 1;
        } else if c == '.' {
            points = points + 1;
        } else {
            return false;
        }
        k = k + 1;
    }
    assert(m.subrange(0, hi - lo) =~= m);
    points <= 1 && digits > 0
}

fn number_is_ok(b: &Vec<char>) -> (r: bool)
    ensures
        r == number_ok(b@),
{
    let mut p: Option<usize> = None;
    let mut k: usize = 0;
    while k < b.len()
        invariant
            k <= b@.len(),
            match p {
                Some(x) => x == exp_pos(b@.subrange(0, k as int)) && x < k,
                None => exp_pos(b@.subrange(0, k as int)) == -1,
            },
        decreases b.len() - k,
    {
        assert(b@.subrange(0, k + 1).drop_last() =~= b@.subrange(0, k as int));
        if p.is_none() && (b[k] == 'e' || b[k] == 'E') {
            p = Some(k);
        }
        k = k + 1;
    }
    assert(b@.subrange(0, b@.len() as int) =~= b@);
    if let Some(pu) = p {
        let mut rest: Vec<char> = Vec::new();
        let mut j: usize = pu + 1;
        while j < b.len()
            invariant
                pu < b@.len(),
                pu + 1 <= j <= b@.len(),
                rest@ == b@.subrange(pu + 1, j as int),
            decreases b.len() - j,
        {
            rest.push(b[j]);
            assert(rest@ =~= b@.subrange(pu + 1, j + 1));
            j = j + 1;
        }
        assert(rest@ =~= b@.subrange(pu + 1, b@.len() as int));
        assert(exp_pos(b@) == pu as int);
        let e = unsigned_chars(&rest);
        if !mantissa_is_ok(b, 0, pu) || e.len() == 0 {
            return false;
        }
        let mut i: usize = 0;
        while i < e.len()
            invariant
                i <= e@.len(),
                e@.len() > 0,
                e@ == unsigned(b@.subrange(pu + 1, b@.len() as int)),
                exp_pos(b@) == pu as int,
                mantissa_ok(b@.subrange(0, pu as int)),
                forall|x: int| 0 <= x < i ==> is_digit(#[trigger] e@[x]),
            decreases e.len() - i,
        {
            if !('0' <= e[i] && e[i] <= '9') {
                assert(!is_digit(e@[i as int]));
                return false;
            }
            i = i + 1;
        }
        true
    } else {
        assert(b@.subrange(0, b@.len() as int) =~= b@);
        mantissa_is_ok(b, 0, b.len())
    }
}

/// Whether `f64`'s `FromStr` accepts `text`.
pub fn is_float_text(text: &str) -> (r: bool)
    ensures
        r == float_text(text@),
{
    let cs = chars_of(text);
    let b = unsigned_chars(&cs);
    let inf = vec!['i', 'n', 'f'];
    let infinity = vec!['i', 'n', 'f', 'i', 'n', 'i', 't', 'y'];
    let nan = vec!['n', 'a', 'n'];
    assert(inf@ =~= seq!['i', 'n', 'f']);
    assert(infinity@ =~= seq!['i', 'n', 'f', 'i', 'n', 'i', 't', 'y']);
    assert(nan@ =~= seq!['n', 'a', 'n']);
    word_is(&b, &inf) || word_is(&b, &infinity) || word_is(&b, &nan) || number_is_ok(&b)
}

/// The value of a string of ASCII digits.
pub open spec fn digits_value(s: Seq<char>) -> int
    decreases s.len(),
{
    if s.len() == 0 {
        0
    } else {
        digits_value(s.drop_last()) * 10 + (s.last() as int - '0' as int)
    }
}

pub open spec fn all_digits(s: Seq<char>) -> bool {
    forall|i: int| 0 <= i < s.len() ==> is_digit(#[trigger] s[i])
}

/// What `i32`'s `FromStr` gives: an optional `+` or `-` and at least one
/// digit, of a value within range.
pub open spec fn i32_of(s: Seq<char>) -> Option<i32> {
    let neg = s.len() > 0 && s[0] == '-';
    let body = if s.len() > 0 && (s[0] == '-' || s[0] == '+') {
        s.drop_first()
    } else {
        s
    };
    let v = if neg {
        -digits_value(body)
    } else {
        digits_value(body)
    };
    if body.len() > 0 && all_digits(body) && i32::MIN <= v <= i32::MAX {
        Some(v as i32)
    } else {
        None
    }
}

/// Relies on `<i32 as FromStr>::from_str`, whose documented grammar is an
/// optional sign followed by decimal digits, and which fails on overflow.
#[verifier::external_body]
pub(crate) fn parse_i32(s: &str) -> (r: Option<i32>)
    ensures
        r == i32_of(s@),
{
    s.parse::<i32>().ok()
}

/// The price text of `text` in plain decimal form (see `normalize_price`).
pub fn normalize_price_text(text: &str) -> (r: String)
    ensures
        r@ == normalize_price(text@),
{
    let cs = chars_of(text);
    let mut c: Vec<char> = Vec::new();
    let mut comma: Option<usize> = None;
    let mut point: Option<usize> = None;
    let mut k: usize = 0;
    while k < cs.len()
        invariant
            k <= cs@.len(),
            cs@ == text@,
            c@ == price_chars(cs@.subrange(0, k as int)),
            c@.len() <= k,
            match comma {
                Some(x) => x == last_pos(c@, ','),
                None => last_pos(c@, ',') == -1,
            },
            match point {
                Some(x) => x == last_pos(c@, '.'),
                None => last_pos(c@, '.') == -1,
            },
        decreases cs.len() - k,
    {
        let ch = cs[k];
        assert(cs@.subrange(0, k + 1).drop_last() =~= cs@.subrange(0, k as int));
        if ('0' <= ch && ch <= '9') || ch == '.' || ch == ',' {
            let ghost before = c@;
            c.push(ch);
            assert(c@.drop_last() =~= before);
            if ch == ',' {
                comma = Some(c.len() - 1);
            } else if ch == '.' {
                point = Some(c.len() - 1);
            }
        }
        k = k + 1;
    }
    assert(cs@.subrange(0, cs@.len() as int) =~= cs@);
    let both_us = match (comma, point) {
        (Some(x), Some(y)) => x < y,
        _ => false,
    };
    let out = if both_us {
        rewrite_chars(&c, ',', false)
    } else if comma.is_some() {
        rewrite_chars(&c, '.', true)
    } else {
        c
    };
    string_of(out.as_slice())
}

fn rewrite_chars(s: &Vec<char>, dropped: char, comma_is_point: bool) -> (r: Vec<char>)
    ensures
        r@ == rewrite(s@, dropped, comma_is_point),
{
    let mut r: Vec<char> = Vec::new();
    let mut k: usize = 0;
    while k < s.len()
        invariant
            k <= s@.len(),
            r@ == rewrite(s@.subrange(0, k as int), dropped, comma_is_point),
        decreases s.len() - k,
    {
        let ch = s[k];
        assert(s@.subrange(0, k + 1).drop_last() =~= s@.subrange(0, k as int));
        if ch == dropped {
        } else if comma_is_point && ch == ',' {
            r.push('.');
        } else {
            r.push(ch);
        }
        k = k + 1;
    }
    assert(s@.subrange(0, s@.len() as int) =~= s@);
    r
}

/// The ASCII digits of `text`, in order.
pub fn digits_of(text: &Vec<char>) -> (r: String)
    ensures
        r@ == digit_chars(text@),
{
    let mut d: Vec<char> = Vec::new();
    let mut k: usize = 0;
    while k < text.len()
        invariant
            k <= text@.len(),
            d@ == digit_chars(text@.subrange(0, k as int)),
        decreases text.len() - k,
    {
        let ch = text[k];
        assert(text@.subrange(0, k + 1).drop_last() =~= text@.subrange(0, k as int));
        if '0' <= ch && ch <= '9' {
            d.push(ch);
        }
        k = k + 1;
    }
    assert(text@.subrange(0, text@.len() as int) =~= text@);
    string_of(d.as_slice())
}

/// The normalized price text, where it reads as a number.
pub fn parse_price_from_text(text: &str) -> (r: Option<String>)
    ensures
        opt_view(r) == (if float_text(normalize_price(text@)) {
            Some(normalize_price(text@))
        } else {
            None
        }),
{
    let n = normalize_price_text(text);
    if is_float_text(n.as_str()) {
        Some(n)
    } else {
        None
    }
}

} // verus!
