//! Character-level text handling: whitespace, trimming, normalization of
//! text nodes, the length cap, word counting and substring search.
use vstd::prelude::*;

verus! {

/// Longest normalized text kept, in characters.
pub const MAX_TEXT_CHARS: usize = 10000;

/// Unicode `White_Space`, the property that `char::is_whitespace` tests.
pub open spec fn is_space(c: char) -> bool {
    let u = c as u32;
    (0x9 <= u && u <= 0xd) || u == 0x20 || u == 0x85 || u == 0xa0 || u == 0x1680 || (0x2000 <= u
        && u <= 0x200a) || u == 0x2028 || u == 0x2029 || u == 0x202f || u == 0x205f || u == 0x3000
}

pub open spec fn trim_start(s: Seq<char>) -> Seq<char>
    decreases s.len(),
{
    if s.len() > 0 && is_space(s[0]) {
        trim_start(s.drop_first())
    } else {
        s
    }
}

pub open spec fn trim_end(s: Seq<char>) -> Seq<char>
    decreases s.len(),
{
    if s.len() > 0 && is_space(s.last()) {
        trim_end(s.drop_last())
    } else {
        s
    }
}

/// Leading and trailing whitespace removed, as `str::trim` does.
pub open spec fn trim(s: Seq<char>) -> Seq<char> {
    trim_end(trim_start(s))
}

/// The text nodes of an element, concatenated with nothing in between.
pub open spec fn concat_nodes(nodes: Seq<Seq<char>>) -> Seq<char>
    decreases nodes.len(),
{
    if nodes.len() == 0 {
        Seq::empty()
    } else {
        concat_nodes(nodes.drop_last()) + nodes.last()
    }
}

/// Each node trimmed, empty ones skipped, the rest joined by single spaces.
pub open spec fn join_nodes(nodes: Seq<Seq<char>>) -> Seq<char>
    decreases nodes.len(),
{
    if nodes.len() == 0 {
        Seq::empty()
    } else {
        let acc = join_nodes(nodes.drop_last());
        let t = trim(nodes.last());
        if t.len() == 0 {
            acc
        } else if acc.len() == 0 {
            t
        } else {
            acc + seq![' '] + t
        }
    }
}

/// Text over the cap keeps its first `MAX_TEXT_CHARS` characters and gets `...`.
pub open spec fn cap_text(s: Seq<char>) -> Seq<char> {
    if s.len() > MAX_TEXT_CHARS {
        s.subrange(0, MAX_TEXT_CHARS as int) + seq!['.', '.', '.']
    } else {
        s
    }
}

/// The normalized text of a sequence of text nodes.
pub open spec fn normalized(nodes: Seq<Seq<char>>) -> Seq<char> {
    cap_text(join_nodes(nodes))
}

/// Number of whitespace-delimited words, as `str::split_whitespace` yields them.
pub open spec fn word_count(s: Seq<char>) -> nat
    decreases s.len(),
{
    if s.len() == 0 {
        0
    } else {
        let starts = !is_space(s.last()) && (s.len() == 1 || is_space(s[s.len() - 2]));
        word_count(s.drop_last()) + if starts {
            1nat
        } else {
            0nat
        }
    }
}

pub open spec fn occurs_at(s: Seq<char>, pat: Seq<char>, i: int) -> bool {
    0 <= i && i + pat.len() <= s.len() && s.subrange(i, i + pat.len()) == pat
}

/// `pat` occurs somewhere in `s`.
pub open spec fn has_substring(s: Seq<char>, pat: Seq<char>) -> bool {
    exists|i: int| occurs_at(s, pat, i)
}

/// Relies on `str::chars`: yields the characters of `s` in order.
#[verifier::external_body]
pub(crate) fn chars_of(s: &str) -> (r: Vec<char>)
    ensures
        r@ == s@,
{
    s.chars().collect()
}

/// Relies on `FromIterator<char>` for `String`: the characters in order.
#[verifier::external_body]
pub(crate) fn string_of(cs: &[char]) -> (r: String)
    ensures
        r@ == cs@,
{
    cs.iter().collect()
}

pub fn is_whitespace_char(c: char) -> (r: bool)
    ensures
        r == is_space(c),
{
    let u = c as u32;
    (0x9 <= u && u <= 0xd) || u == 0x20 || u == 0x85 || u == 0xa0 || u == 0x1680 || (0x2000 <= u
        && u <= 0x200a) || u == 0x2028 || u == 0x2029 || u == 0x202f || u == 0x205f || u == 0x3000
}

/// `s` without its leading and trailing whitespace.
pub fn trim_chars(s: &Vec<char>) -> (r: Vec<char>)
    ensures
        r@ == trim(s@),
{
    let n = s.len();
    let mut i: usize = 0;
    assert(s@.subrange(0, n as int) =~= s@);
    while i < n && is_whitespace_char(s[i])
        invariant
            i <= n == s@.len(),
            trim_start(s@) == trim_start(s@.subrange(i as int, n as int)),
        decreases n - i,
    {
        assert(s@.subrange(i as int, n as int).drop_first() =~= s@.subrange(i + 1, n as int));
        i = i + 1;
    }
    let mut j: usize = n;
    while j > i && is_whitespace_char(s[j - 1])
        invariant
            i <= j <= n == s@.len(),
            trim(s@) == trim_end(s@.subrange(i as int, j as int)),
        decreases j,
    {
        assert(s@.subrange(i as int, j as int).drop_last() =~= s@.subrange(i as int, j - 1));
        j = j - 1;
    }
    let mut r: Vec<char> = Vec::new();
    let mut k: usize = i;
    while k < j
        invariant
            i <= k <= j <= n == s@.len(),
            r@ == s@.subrange(i as int, k as int),
        decreases j - k,
    {
        r.push(s[k]);
        assert(r@ =~= s@.subrange(i as int, k + 1));
        k = k + 1;
    }
    r
}

/// Appends `t` to `acc`.
pub(crate) fn push_all(acc: &mut Vec<char>, t: &Vec<char>)
    ensures
        final(acc)@ == old(acc)@ + t@,
{
    let mut k: usize = 0;
    while k < t.len()
        invariant
            k <= t@.len(),
            acc@ == old(acc)@ + t@.subrange(0, k as int),
        decreases t.len() - k,
    {
        acc.push(t[k]);
        assert(acc@ =~= old(acc)@ + t@.subrange(0, k + 1));
        k = k + 1;
    }
    assert(t@.subrange(0, t@.len() as int) =~= t@);
}

pub open spec fn strings_view(nodes: Seq<String>) -> Seq<Seq<char>> {
    nodes.map_values(|s: String| s@)
}

/// The text nodes concatenated, then trimmed.
pub fn trimmed_concat(nodes: &Vec<String>) -> (r: Vec<char>)
    ensures
        r@ == trim(concat_nodes(strings_view(nodes@))),
{
    let all = concat_text(nodes);
    trim_chars(&all)
}

/// The text nodes concatenated.
pub fn concat_text(nodes: &Vec<String>) -> (r: Vec<char>)
    ensures
        r@ == concat_nodes(strings_view(nodes@)),
{
    let mut acc: Vec<char> = Vec::new();
    let mut k: usize = 0;
    while k < nodes.len()
        invariant
            k <= nodes@.len(),
            acc@ == concat_nodes(strings_view(nodes@.subrange(0, k as int))),
        decreases nodes.len() - k,
    {
        let cs = chars_of(nodes[k].as_str());
        push_all(&mut acc, &cs);
        assert(strings_view(nodes@.subrange(0, k + 1)).drop_last() =~= strings_view(
            nodes@.subrange(0, k as int),
        ));
        k = k + 1;
    }
    assert(nodes@.subrange(0, nodes@.len() as int) =~= nodes@);
    acc
}

/// The normalized text of the nodes: trimmed, joined by single spaces, capped.
pub fn normalize_nodes(nodes: &Vec<String>) -> (r: Vec<char>)
    ensures
        r@ == normalized(strings_view(nodes@)),
        r@.len() <= MAX_TEXT_CHARS + 3,
{
    let mut acc: Vec<char> = Vec::new();
    let mut k: usize = 0;
    while k < nodes.len()
        invariant
            k <= nodes@.len(),
            acc@ == join_nodes(strings_view(nodes@.subrange(0, k as int))),
        decreases nodes.len() - k,
    {
        let cs = chars_of(nodes[k].as_str());
        let t = trim_chars(&cs);
        proof {
            let v = strings_view(nodes@.subrange(0, k + 1));
            assert(v.drop_last() =~= strings_view(nodes@.subrange(0, k as int)));
            assert(v.last() == nodes[k as int]@);
        }
        if t.len() > 0 {
            if acc.len() > 0 {
                acc.push(' ');
            }
            push_all(&mut acc, &t);
        }
        k = k + 1;
    }
    assert(nodes@.subrange(0, nodes@.len() as int) =~= nodes@);
    cap_chars(acc)
}

/// Applies the length cap to already joined text.
pub fn cap_chars(s: Vec<char>) -> (r: Vec<char>)
    ensures
        r@ == cap_text(s@),
        r@.len() <= MAX_TEXT_CHARS + 3,
{
    let ghost s0 = s@;
    let mut s = s;
    if s.len() > MAX_TEXT_CHARS {
        s.truncate(MAX_TEXT_CHARS);
        s.push('.');
        s.push('.');
        s.push('.');
        assert(s@ =~= cap_text(s0));
    }
    s
}

/// Counts the whitespace-delimited words of `s`.
pub fn count_words(s: &Vec<char>) -> (r: usize)
    ensures
        r == word_count(s@),
        r <= s@.len(),
{
    let mut count: usize = 0;
    let mut k: usize = 0;
    while k < s.len()
        invariant
            k <= s@.len(),
            count == word_count(s@.subrange(0, k as int)),
            count <= k,
        decreases s.len() - k,
    {
        let starts = !is_whitespace_char(s[k]) && (k == 0 || is_whitespace_char(s[k - 1]));
        proof {
            let p = s@.subrange(0, k + 1);
            assert(p.drop_last() =~= s@.subrange(0, k as int));
        }
        if starts {
            count = count + 1;
        }
        k = k + 1;
    }
    assert(s@.subrange(0, s@.len() as int) =~= s@);
    count
}

/// Whether `pat` occurs in `s`.
pub fn contains_chars(s: &Vec<char>, pat: &Vec<char>) -> (r: bool)
    ensures
        r == has_substring(s@, pat@),
{
    if pat.len() == 0 {
        assert(s@.subrange(0, 0) =~= pat@);
        assert(occurs_at(s@, pat@, 0));
        return true;
    }
    if pat.len() > s.len() {
        return false;
    }
    let last = s.len() - pat.len();
    let mut i: usize = 0;
    while i <= last
        invariant
            last + pat@.len() == s@.len(),
            pat@.len() > 0,
            s@.len() == s.len(),
            forall|x: int| 0 <= x < i ==> !occurs_at(s@, pat@, x),
        decreases last + 1 - i,
    {
        let mut j: usize = 0;
        let mut same = true;
        while j < pat.len() && same
            invariant
                i <= last,
                last + pat@.len() == s@.len(),
                s@.len() == s.len(),
                j <= pat@.len(),
                same == (forall|y: int| 0 <= y < j ==> s@[i + y] == pat@[y]),
            decreases pat.len() - j,
        {
            if s[i + j] != pat[j] {
                same = false;
            }
            j = j + 1;
        }
        if same {
            assert(s@.subrange(i as int, i + pat@.len()) =~= pat@);
            assert(occurs_at(s@, pat@, i as int));
            return true;
        }
        assert(!occurs_at(s@, pat@, i as int)) by {
            let y = choose|y: int| 0 <= y < j && s@[i + y] != pat@[y];
            if s@.subrange(i as int, i + pat@.len()) == pat@ {
                assert(s@.subrange(i as int, i + pat@.len())[y] == s@[i + y]);
            }
        }
        i = i + 1;
    }
    assert forall|x: int| !occurs_at(s@, pat@, x) by {
        if occurs_at(s@, pat@, x) {
            assert(x < i);
        }
    }
    false
}

} // verus!
