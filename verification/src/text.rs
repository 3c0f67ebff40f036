//! Character-level text helpers: substring search and whitespace splitting.
use crate::json::is_white_space;
use crate::json::white_space;
use vstd::prelude::*;

verus! {

/// `pat` occurs in `text` starting at character `i`.
pub open spec fn occurs_at<A>(text: Seq<A>, pat: Seq<A>, i: int) -> bool {
    &&& 0 <= i
    &&& i + pat.len() <= text.len()
    &&& text.subrange(i, i + pat.len()) == pat
}

/// `pat` occurs somewhere in `text`.
pub open spec fn occurs_in<A>(text: Seq<A>, pat: Seq<A>) -> bool {
    exists|i: int| occurs_at(text, pat, i)
}

/// `i` is where `pat` first occurs in `text`.
pub open spec fn is_first_occurrence<A>(text: Seq<A>, pat: Seq<A>, i: int) -> bool {
    &&& occurs_at(text, pat, i)
    &&& forall|j: int| 0 <= j < i ==> !occurs_at(text, pat, j)
}

/// The index where `pat` first occurs in `text` (meaningful when it occurs).
pub open spec fn first_occurrence<A>(text: Seq<A>, pat: Seq<A>) -> int {
    choose|i: int| is_first_occurrence(text, pat, i)
}

/// A first occurrence is unique, and every occurrence has one.
pub proof fn lemma_first_occurrence<A>(text: Seq<A>, pat: Seq<A>, i: int)
    requires
        occurs_at(text, pat, i),
    ensures
        is_first_occurrence(text, pat, first_occurrence(text, pat)),
        first_occurrence(text, pat) <= i,
    decreases i,
{
    if exists|j: int| 0 <= j < i && occurs_at(text, pat, j) {
        let j = choose|j: int| 0 <= j < i && occurs_at(text, pat, j);
        lemma_first_occurrence(text, pat, j);
    } else {
        assert(is_first_occurrence(text, pat, i));
        let f = first_occurrence(text, pat);
        assert(is_first_occurrence(text, pat, f));
        if f < i {
            assert(!occurs_at(text, pat, f));
        }
        if f > i {
            assert(!occurs_at(text, pat, i));
        }
    }
}

/// The characters of `s`, in order.
pub fn chars_of(s: &str) -> (v: Vec<char>)
    ensures
        v@ == s@,
{
    let mut v: Vec<char> = Vec::new();
    for c in it: s.chars()
        invariant
            v@ == it.seq().take(it.index() as int),
    {
        v.push(c);
    }
    v
}

/// Whether `pat` occurs in `text` at byte `i`.
fn matches_at(text: &[u8], pat: &[u8], i: usize) -> (b: bool)
    requires
        i + pat@.len() <= text@.len(),
    ensures
        b == occurs_at(text@, pat@, i as int),
{
    let n = pat.len();
    let tl = text.len();
    let mut k: usize = 0;
    while k < n
        invariant
            n == pat@.len(),
            tl == text@.len(),
            i + n <= text@.len(),
            k <= n,
            forall|m: int| 0 <= m < k ==> text@[i + m] == pat@[m],
        decreases n - k,
    {
        if text[i + k] != pat[k] {
            assert(text@.subrange(i as int, i + n)[k as int] != pat@[k as int]);
            return false;
        }
        k = k + 1;
    }
    assert(text@.subrange(i as int, i + n) =~= pat@);
    true
}

/// The first byte index at which `pat` occurs in `text`, or `None` when it
/// occurs nowhere: the search `str::find` performs on UTF-8 text.
pub fn find_first(text: &[u8], pat: &[u8]) -> (r: Option<usize>)
    ensures
        r matches Some(i) ==> is_first_occurrence(text@, pat@, i as int),
        r is None ==> !occurs_in(text@, pat@),
{
    if pat.len() > text.len() {
        return None;
    }
    let last = text.len() - pat.len();
    let mut i: usize = 0;
    loop
        invariant
            last == text@.len() - pat@.len(),
            i <= last,
            forall|j: int| 0 <= j < i ==> !occurs_at(text@, pat@, j),
        decreases last - i,
    {
        if matches_at(text, pat, i) {
            return Some(i);
        }
        if i == last {
            assert forall|j: int| occurs_at(text@, pat@, j) implies false by {
                assert(0 <= j <= last);
            }
            return None;
        }
        i = i + 1;
    }
}

/// Whether `a` and `b` hold the same text.
pub fn same_text(a: &str, b: &str) -> (r: bool)
    ensures
        r == (a@ == b@),
{
    let x = chars_of(a);
    let y = chars_of(b);
    if x.len() != y.len() {
        return false;
    }
    let n = x.len();
    for i in 0..n
        invariant
            n == x@.len(),
            n == y@.len(),
            x@ == a@,
            y@ == b@,
            forall|k: int| 0 <= k < i ==> x@[k] == y@[k],
    {
        if x[i] != y[i] {
            assert(x@[i as int] != y@[i as int]);
            return false;
        }
    }
    assert(x@ =~= y@);
    true
}

/// The whitespace-separated words of `s`, as `str::split_whitespace` yields them.
pub open spec fn words(s: Seq<char>) -> Seq<Seq<char>>
    decreases s.len(),
{
    if s.len() == 0 {
        seq![]
    } else {
        let before = words(s.drop_last());
        let c = s.last();
        if white_space(c) {
            before
        } else if s.len() >= 2 && !white_space(s[s.len() - 2]) {
            before.update(before.len() - 1, before.last().push(c))
        } else {
            before.push(seq![c])
        }
    }
}

/// A run `b` of non-whitespace characters after `p` (empty or ending in
/// whitespace) is one more word after the words of `p`.
pub proof fn lemma_words_append_word(p: Seq<char>, b: Seq<char>)
    requires
        p.len() == 0 || white_space(p.last()),
        b.len() > 0,
        forall|i: int| 0 <= i < b.len() ==> !white_space(#[trigger] b[i]),
    ensures
        words(p + b) == words(p).push(b),
    decreases b.len(),
{
    let s = p + b;
    if b.len() == 1 {
        assert(s.drop_last() =~= p);
        assert(s.last() == b[0]);
        if s.len() >= 2 {
            assert(s[s.len() - 2] == p.last());
        }
        assert(seq![s.last()] =~= b);
    } else {
        let b0 = b.drop_last();
        assert(s.drop_last() =~= p + b0);
        lemma_words_append_word(p, b0);
        assert(s[s.len() - 2] == b[b.len() - 2]);
        assert(!white_space(b[b.len() - 2]));
        assert(!white_space(s.last())) by {
            assert(s.last() == b[b.len() - 1]);
        };
        let before = words(p).push(b0);
        assert(before.update(before.len() - 1, before.last().push(s.last())) =~= words(p).push(b))
            by {
            assert(b0.push(s.last()) =~= b);
        };
    }
}

/// Whitespace after the last word adds no word.
pub proof fn lemma_words_trailing_space(p: Seq<char>, c: char)
    requires
        white_space(c),
    ensures
        words(p.push(c)) == words(p),
{
    assert(p.push(c).drop_last() =~= p);
}

/// The words of `s` as character ranges: where each starts and ends.
fn word_bounds(s: &Vec<char>) -> (b: Vec<(usize, usize)>)
    ensures
        b@.len() == words(s@).len(),
        forall|k: int| #![trigger b@[k]] 0 <= k < b@.len() ==> b@[k].0 <= b@[k].1 <= s@.len(),
        forall|k: int|
            #![trigger b@[k]]
            0 <= k < b@.len() ==> words(s@)[k] == s@.subrange(b@[k].0 as int, b@[k].1 as int),
{
    let n = s.len();
    let mut b: Vec<(usize, usize)> = Vec::new();
    let mut i: usize = 0;
    while i < n
        invariant
            n == s@.len(),
            i <= n,
            b@.len() == words(s@.take(i as int)).len(),
            forall|k: int| #![trigger b@[k]] 0 <= k < b@.len() ==> b@[k].0 <= b@[k].1 <= i,
            forall|k: int|
                #![trigger b@[k]]
                0 <= k < b@.len() ==> words(s@.take(i as int))[k] == s@.subrange(
                    b@[k].0 as int,
                    b@[k].1 as int,
                ),
            i > 0 && !white_space(s@[i - 1]) ==> b@.len() > 0 && b@.last().1 == i,
        decreases n - i,
    {
        let c = s[i];
        let ghost pre = s@.take(i as int);
        let ghost cur = s@.take(i + 1);
        assert(cur.drop_last() =~= pre);
        assert(cur.last() == c);
        if is_white_space(c) {
        } else if i >= 1 && !is_white_space(s[i - 1]) {
            assert(cur[cur.len() - 2] == s@[i - 1]);
            let k = b.len() - 1;
            let start = b[k].0;
            b.set(k, (start, i + 1));
            assert(s@.subrange(start as int, i + 1) =~= s@.subrange(start as int, i as int).push(
                c,
            ));
        } else {
            if i >= 1 {
                assert(cur[cur.len() - 2] == s@[i - 1]);
            }
            b.push((i, i + 1));
            assert(s@.subrange(i as int, i + 1) =~= seq![c]);
        }
        i = i + 1;
    }
    assert(s@.take(n as int) =~= s@);
    b
}

/// The first two whitespace-separated words of `line`; `None` when it has fewer.
pub fn first_two_words(line: &str) -> (r: Option<(String, String)>)
    ensures
        r is Some <==> words(line@).len() >= 2,
        r matches Some((a, b)) ==> a@ == words(line@)[0] && b@ == words(line@)[1],
{
    let cs = chars_of(line);
    let bounds = word_bounds(&cs);
    if bounds.len() < 2 {
        return None;
    }
    let (s0, e0) = bounds[0];
    let (s1, e1) = bounds[1];
    let a = String::from_str(line.substring_char(s0, e0));
    let b = String::from_str(line.substring_char(s1, e1));
    Some((a, b))
}

} // verus!
