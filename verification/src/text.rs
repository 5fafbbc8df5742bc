//! Text primitives over sequences of characters: searching, splitting and
//! substitution, each with an executable form on `&str`.
//!
//! Every position in this module counts characters, never bytes.

use vstd::prelude::*;

verus! {

/// `pat` stands in `s` at position `i`.
pub open spec fn occurs_at(s: Seq<char>, pat: Seq<char>, i: int) -> bool {
    &&& 0 <= i
    &&& i + pat.len() <= s.len()
    &&& s.subrange(i, i + pat.len()) == pat
}

/// `pat` stands somewhere in `s`. The empty pattern stands in every text.
pub open spec fn contains(s: Seq<char>, pat: Seq<char>) -> bool {
    exists|i: int| occurs_at(s, pat, i)
}

/// `i` is the leftmost position at or after `from` where `pat` stands in `s`.
pub open spec fn first_occurrence_from(s: Seq<char>, pat: Seq<char>, from: int, i: int) -> bool {
    &&& from <= i
    &&& occurs_at(s, pat, i)
    &&& forall|j: int| from <= j < i ==> !occurs_at(s, pat, j)
}

/// The leftmost position where `pat` stands in `s`, if it stands anywhere.
pub open spec fn position_of(s: Seq<char>, pat: Seq<char>) -> Option<int>
    decreases s.len(),
{
    if occurs_at(s, pat, 0) {
        Some(0)
    } else if s.len() == 0 {
        None
    } else {
        match position_of(s.skip(1), pat) {
            Some(i) => Some(i + 1),
            None => None,
        }
    }
}

/// `position_of` is the leftmost occurrence, and `None` only where there is
/// no occurrence at all.
pub proof fn lemma_position_of(s: Seq<char>, pat: Seq<char>)
    ensures
        match position_of(s, pat) {
            Some(k) => first_occurrence_from(s, pat, 0, k),
            None => !contains(s, pat),
        },
    decreases s.len(),
{
    if !occurs_at(s, pat, 0) && s.len() > 0 {
        let t = s.skip(1);
        lemma_position_of(t, pat);
        assert forall|j: int| occurs_at(s, pat, j) implies j > 0 && occurs_at(t, pat, j - 1) by {
            assert(t.subrange(j - 1, j - 1 + pat.len()) =~= s.subrange(j, j + pat.len()));
        }
        match position_of(t, pat) {
            Some(i) => {
                assert(t.subrange(i, i + pat.len()) =~= s.subrange(i + 1, i + 1 + pat.len()));
            },
            None => {},
        }
    }
}

/// `s` ends with `suffix`.
pub open spec fn ends_with(s: Seq<char>, suffix: Seq<char>) -> bool {
    &&& suffix.len() <= s.len()
    &&& s.skip(s.len() - suffix.len()) == suffix
}

/// `s` with every occurrence of `pat` replaced by `to`, scanning from the left
/// and resuming after each replaced occurrence, so that occurrences never
/// overlap and replaced text is not scanned again. An empty pattern stands
/// before every character and at the end.
pub open spec fn replaced(s: Seq<char>, pat: Seq<char>, to: Seq<char>) -> Seq<char>
    decreases s.len(),
{
    if pat.len() == 0 {
        if s.len() == 0 {
            to
        } else {
            to + seq![s[0]] + replaced(s.skip(1), pat, to)
        }
    } else if s.len() < pat.len() {
        s
    } else if s.subrange(0, pat.len() as int) == pat {
        to + replaced(s.skip(pat.len() as int), pat, to)
    } else {
        seq![s[0]] + replaced(s.skip(1), pat, to)
    }
}

/// The position of the first `c` in `s`, or `s.len()` where `s` holds none.
pub open spec fn first_index(s: Seq<char>, c: char) -> int
    decreases s.len(),
{
    if s.len() == 0 {
        0
    } else if s[0] == c {
        0
    } else {
        1 + first_index(s.skip(1), c)
    }
}

/// What follows the last `c` in `s`; the whole of `s` where it holds none.
pub open spec fn after_last(s: Seq<char>, c: char) -> Seq<char>
    decreases s.len(),
{
    if s.len() == 0 {
        s
    } else if s.last() == c {
        Seq::empty()
    } else {
        after_last(s.drop_last(), c).push(s.last())
    }
}

/// `c` is white space: a character of Unicode's `White_Space` property.
pub open spec fn is_space(c: char) -> bool {
    let n = c as u32;
    ||| 0x09 <= n <= 0x0D
    ||| n == 0x20
    ||| n == 0x85
    ||| n == 0xA0
    ||| n == 0x1680
    ||| 0x2000 <= n <= 0x200A
    ||| n == 0x2028
    ||| n == 0x2029
    ||| n == 0x202F
    ||| n == 0x205F
    ||| n == 0x3000
}

/// `s` without the white space it begins with.
pub open spec fn trimmed_start(s: Seq<char>) -> Seq<char>
    decreases s.len(),
{
    if s.len() > 0 && is_space(s[0]) {
        trimmed_start(s.skip(1))
    } else {
        s
    }
}

/// `s` without the white space it ends with.
pub open spec fn trimmed_end(s: Seq<char>) -> Seq<char>
    decreases s.len(),
{
    if s.len() > 0 && is_space(s.last()) {
        trimmed_end(s.drop_last())
    } else {
        s
    }
}

/// `s` without the white space at either end.
pub open spec fn trimmed(s: Seq<char>) -> Seq<char> {
    trimmed_end(trimmed_start(s))
}

/// `s` holds no `c`.
pub open spec fn free_of(s: Seq<char>, c: char) -> bool {
    forall|i: int| 0 <= i < s.len() ==> s[i] != c
}

/// `first_index` is within bounds, points at a `c` unless it is the length,
/// and nothing before it is a `c`.
pub proof fn lemma_first_index(s: Seq<char>, c: char)
    ensures
        0 <= first_index(s, c) <= s.len(),
        first_index(s, c) < s.len() ==> s[first_index(s, c)] == c,
        forall|j: int| 0 <= j < first_index(s, c) ==> s[j] != c,
    decreases s.len(),
{
    if s.len() > 0 && s[0] != c {
        let t = s.skip(1);
        lemma_first_index(t, c);
        assert forall|j: int| 0 <= j < first_index(s, c) implies s[j] != c by {
            if j > 0 {
                assert(t[j - 1] == s[j]);
            }
        }
    }
}

/// Any position that holds the first `c` of `s` is `first_index(s, c)`.
pub proof fn lemma_first_index_is(s: Seq<char>, c: char, k: int)
    requires
        0 <= k <= s.len(),
        k < s.len() ==> s[k] == c,
        forall|j: int| 0 <= j < k ==> s[j] != c,
    ensures
        first_index(s, c) == k,
{
    lemma_first_index(s, c);
}

/// After a `c` that is followed by no other, `after_last` is the rest.
pub proof fn lemma_after_last_of_join(head: Seq<char>, c: char, tail: Seq<char>)
    requires
        free_of(tail, c),
    ensures
        after_last(head + seq![c] + tail, c) == tail,
    decreases tail.len(),
{
    let s = head + seq![c] + tail;
    if tail.len() == 0 {
        assert(s.last() == c);
        assert(tail =~= Seq::empty());
    } else {
        let shorter = tail.drop_last();
        assert(s.last() == tail.last());
        assert(s.drop_last() =~= head + seq![c] + shorter);
        lemma_after_last_of_join(head, c, shorter);
        assert(shorter.push(tail.last()) =~= tail);
    }
}

/// A text that holds no `c` is its own `after_last`.
pub proof fn lemma_after_last_of_free(s: Seq<char>, c: char)
    requires
        free_of(s, c),
    ensures
        after_last(s, c) == s,
    decreases s.len(),
{
    if s.len() > 0 {
        lemma_after_last_of_free(s.drop_last(), c);
        assert(s.drop_last().push(s.last()) =~= s);
    }
}

/// What follows the last `c` holds no `c`.
pub proof fn lemma_after_last_is_free(s: Seq<char>, c: char)
    ensures
        free_of(after_last(s, c), c),
    decreases s.len(),
{
    if s.len() > 0 && s.last() != c {
        lemma_after_last_is_free(s.drop_last(), c);
    }
}

/// `s` holds no `c` at or behind position `from`.
pub open spec fn free_from(s: Seq<char>, c: char, from: int) -> bool
    decreases s.len() - from,
{
    if from < 0 || from >= s.len() {
        true
    } else {
        s[from] != c && free_from(s, c, from + 1)
    }
}

/// A text that is scanned from its start without finding `c` holds no `c`.
pub proof fn lemma_free_from(s: Seq<char>, c: char, from: int)
    requires
        0 <= from,
        free_from(s, c, from),
    ensures
        forall|i: int| from <= i < s.len() ==> s[i] != c,
    decreases s.len() - from,
{
    if from < s.len() {
        lemma_free_from(s, c, from + 1);
    }
}

/// A pattern that holds a `c` does not occur in a text that holds none.
pub proof fn lemma_no_occurrence_without(s: Seq<char>, pat: Seq<char>, c: char, k: int)
    requires
        free_of(s, c),
        0 <= k < pat.len(),
        pat[k] == c,
    ensures
        !contains(s, pat),
{
    assert forall|j: int| !occurs_at(s, pat, j) by {
        if occurs_at(s, pat, j) {
            assert(s.subrange(j, j + pat.len())[k] == s[j + k]);
        }
    }
}

/// Where a non-empty pattern does not occur, nothing is replaced.
pub proof fn lemma_replaced_without_occurrence(s: Seq<char>, pat: Seq<char>, to: Seq<char>)
    requires
        pat.len() > 0,
        !contains(s, pat),
    ensures
        replaced(s, pat, to) == s,
    decreases s.len(),
{
    if s.len() >= pat.len() {
        assert(!occurs_at(s, pat, 0));
        let t = s.skip(1);
        assert forall|j: int| !occurs_at(t, pat, j) by {
            if occurs_at(t, pat, j) {
                assert(t.subrange(j, j + pat.len()) =~= s.subrange(j + 1, j + 1 + pat.len()));
                assert(occurs_at(s, pat, j + 1));
            }
        }
        lemma_replaced_without_occurrence(t, pat, to);
        assert(seq![s[0]] + t =~= s);
    }
}

/// Up to and including the leftmost occurrence of a non-empty pattern, a
/// replacement copies the text before it and puts `to` in its place; the
/// scan goes on behind the occurrence.
pub proof fn lemma_replaced_at_first_occurrence(
    s: Seq<char>,
    pat: Seq<char>,
    to: Seq<char>,
    k: int,
)
    requires
        pat.len() > 0,
        first_occurrence_from(s, pat, 0, k),
    ensures
        replaced(s, pat, to) == s.take(k) + to + replaced(s.skip(k + pat.len()), pat, to),
    decreases k,
{
    if k == 0 {
        assert(s.take(0) + to =~= to);
    } else {
        assert(!occurs_at(s, pat, 0));
        let t = s.skip(1);
        assert(t.subrange(k - 1, k - 1 + pat.len()) =~= s.subrange(k, k + pat.len()));
        assert forall|j: int| 0 <= j < k - 1 implies !occurs_at(t, pat, j) by {
            if occurs_at(t, pat, j) {
                assert(t.subrange(j, j + pat.len()) =~= s.subrange(j + 1, j + 1 + pat.len()));
                assert(occurs_at(s, pat, j + 1));
            }
        }
        lemma_replaced_at_first_occurrence(t, pat, to, k - 1);
        assert(t.skip(k - 1 + pat.len()) =~= s.skip(k + pat.len()));
        assert(seq![s[0]] + (t.take(k - 1) + to + replaced(s.skip(k + pat.len()), pat, to))
            =~= s.take(k) + to + replaced(s.skip(k + pat.len()), pat, to));
    }
}

/// The characters of `s`, in order.
pub fn to_chars(s: &str) -> (v: Vec<char>)
    ensures
        v@ == s@,
{
    let mut v: Vec<char> = Vec::new();
    for c in it: s.chars()
        invariant
            it.seq() == s@,
            v@ == s@.take(it.index() as int),
    {
        v.push(c);
    }
    v
}

/// Whether `pat` stands in `hay` at position `at`.
pub fn matches_at(hay: &Vec<char>, pat: &Vec<char>, at: usize) -> (r: bool)
    ensures
        r == occurs_at(hay@, pat@, at as int),
{
    let n: usize = hay.len();
    let m: usize = pat.len();
    if at > n || m > n - at {
        return false;
    }
    let mut k: usize = 0;
    while k < m
        invariant
            n == hay@.len(),
            m == pat@.len(),
            at + m <= n,
            k <= m,
            forall|j: int| 0 <= j < k ==> hay@[at + j] == pat@[j],
        decreases m - k,
    {
        if hay[at + k] != pat[k] {
            assert(hay@.subrange(at as int, at + m)[k as int] == hay@[at + k]);
            return false;
        }
        k += 1;
    }
    assert(hay@.subrange(at as int, at + m) =~= pat@);
    true
}

/// The leftmost position at or after `from` where `pat` stands in `hay`.
pub fn find_from(hay: &Vec<char>, pat: &Vec<char>, from: usize) -> (r: Option<usize>)
    ensures
        match r {
            Some(i) => first_occurrence_from(hay@, pat@, from as int, i as int),
            None => forall|j: int| from <= j ==> !occurs_at(hay@, pat@, j),
        },
{
    let n: usize = hay.len();
    let m: usize = pat.len();
    if m > n || from > n - m {
        return None;
    }
    let mut i: usize = from;
    while i <= n - m
        invariant
            n == hay@.len(),
            m == pat@.len(),
            m <= n,
            from <= i,
            i <= n - m + 1,
            forall|j: int| from <= j < i ==> !occurs_at(hay@, pat@, j),
        decreases n - m + 1 - i,
    {
        if matches_at(hay, pat, i) {
            return Some(i);
        }
        assert(m > 0) by {
            if m == 0 {
                assert(hay@.subrange(i as int, i as int) =~= pat@);
            }
        }
        i += 1;
    }
    None
}

/// Whether `pat` stands somewhere in `s`.
pub fn has_substring(s: &str, pat: &str) -> (r: bool)
    ensures
        r == contains(s@, pat@),
{
    let hay = to_chars(s);
    let needle = to_chars(pat);
    find_from(&hay, &needle, 0).is_some()
}

/// The leftmost position where `pat` stands in `s`, if it stands anywhere.
pub fn find(s: &str, pat: &str) -> (r: Option<usize>)
    ensures
        match r {
            Some(i) => position_of(s@, pat@) == Some(i as int) && i + pat@.len() <= usize::MAX,
            None => position_of(s@, pat@) is None,
        },
{
    let hay = to_chars(s);
    let needle = to_chars(pat);
    proof {
        lemma_position_of(s@, pat@);
    }
    let r = find_from(&hay, &needle, 0);
    assert(r matches Some(i) ==> i + needle.len() <= hay.len());
    r
}

/// Whether `s` ends with `suffix`.
pub fn has_suffix(s: &str, suffix: &str) -> (r: bool)
    ensures
        r == ends_with(s@, suffix@),
{
    let hay = to_chars(s);
    let tail = to_chars(suffix);
    if tail.len() > hay.len() {
        return false;
    }
    let at: usize = hay.len() - tail.len();
    let r = matches_at(&hay, &tail, at);
    assert(hay@.subrange(at as int, at + tail@.len()) =~= hay@.skip(at as int));
    r
}

/// The position of the first `c` at or after `from`, or the length of `hay`.
pub fn index_of_char_from(hay: &Vec<char>, c: char, from: usize) -> (r: usize)
    requires
        from <= hay@.len(),
    ensures
        r == from + first_index(hay@.skip(from as int), c),
        from <= r <= hay@.len(),
{
    let n: usize = hay.len();
    let mut i: usize = from;
    while i < n
        invariant
            n == hay@.len(),
            from <= i <= n,
            forall|j: int| from <= j < i ==> hay@[j] != c,
        decreases n - i,
    {
        if hay[i] == c {
            proof {
                lemma_first_index_is(hay@.skip(from as int), c, i - from);
            }
            return i;
        }
        i += 1;
    }
    proof {
        lemma_first_index_is(hay@.skip(from as int), c, n - from);
    }
    n
}

/// What follows the last `c` in `s`, or all of `s`.
pub fn suffix_after_last(s: &str, c: char) -> (r: String)
    ensures
        r@ == after_last(s@, c),
{
    let hay = to_chars(s);
    let n: usize = hay.len();
    let mut i: usize = n;
    while i > 0 && hay[i - 1] != c
        invariant
            n == hay@.len(),
            hay@ == s@,
            i <= n,
            free_of(s@.skip(i as int), c),
        decreases i,
    {
        i -= 1;
        assert forall|j: int| 0 <= j < s@.skip(i as int).len() implies s@.skip(i as int)[j]
            != c by {
            if j > 0 {
                assert(s@.skip(i as int)[j] == s@.skip(i + 1)[j - 1]);
            }
        }
    }
    proof {
        let tail = s@.skip(i as int);
        if i == 0 {
            assert(tail =~= s@);
            lemma_after_last_of_free(s@, c);
        } else {
            assert(s@ =~= s@.take(i - 1) + seq![c] + tail);
            lemma_after_last_of_join(s@.take(i - 1), c, tail);
        }
        assert(s@.subrange(i as int, n as int) =~= tail);
    }
    s.substring_char(i, n).to_owned()
}

/// Whether `c` is white space.
pub fn is_space_char(c: char) -> (r: bool)
    ensures
        r == is_space(c),
{
    let n: u32 = c as u32;
    (0x09 <= n && n <= 0x0D) || n == 0x20 || n == 0x85 || n == 0xA0 || n == 0x1680 || (0x2000 <= n
        && n <= 0x200A) || n == 0x2028 || n == 0x2029 || n == 0x202F || n == 0x205F || n == 0x3000
}

/// `s` without the white space at either end.
pub fn trim(s: &str) -> (r: String)
    ensures
        r@ == trimmed(s@),
{
    let chars = to_chars(s);
    let n: usize = chars.len();
    let mut i: usize = 0;
    assert(s@.skip(0) =~= s@);
    while i < n && is_space_char(chars[i])
        invariant
            chars@ == s@,
            n == s@.len(),
            i <= n,
            trimmed_start(s@) == trimmed_start(s@.skip(i as int)),
        decreases n - i,
    {
        assert(s@.skip(i as int).skip(1) =~= s@.skip(i + 1));
        i += 1;
    }
    let mut j: usize = n;
    assert(s@.subrange(i as int, n as int) =~= s@.skip(i as int));
    while j > i && is_space_char(chars[j - 1])
        invariant
            chars@ == s@,
            n == s@.len(),
            i <= j <= n,
            trimmed_start(s@) == s@.skip(i as int),
            trimmed(s@) == trimmed_end(s@.subrange(i as int, j as int)),
        decreases j,
    {
        assert(s@.subrange(i as int, j as int).drop_last() =~= s@.subrange(i as int, j - 1));
        j -= 1;
    }
    s.substring_char(i, j).to_owned()
}

/// Whether the two texts are the same.
pub fn text_equal(a: &str, b: &str) -> (r: bool)
    ensures
        r == (a@ == b@),
{
    let left = to_chars(a);
    let right = to_chars(b);
    if left.len() != right.len() {
        return false;
    }
    let r = matches_at(&left, &right, 0);
    assert(a@.subrange(0, a@.len() as int) =~= a@);
    r
}

/// The two texts one after the other.
pub fn joined(a: &str, b: &str) -> (r: String)
    ensures
        r@ == a@ + b@,
{
    let mut r = a.to_owned();
    r.append(b);
    r
}

/// `s` with every occurrence of `pat` replaced by `to`.
pub fn replace(s: &str, pat: &str, to: &str) -> (r: String)
    ensures
        r@ == replaced(s@, pat@, to@),
{
    let hay = to_chars(s);
    let needle = to_chars(pat);
    let n: usize = hay.len();
    let m: usize = needle.len();
    let mut out = String::new();
    let mut kept: usize = 0;
    let mut i: usize = 0;
    proof {
        assert(s@.skip(0) =~= s@);
        assert(s@.subrange(0, 0) =~= Seq::<char>::empty());
        assert(out@ + replaced(s@, pat@, to@) =~= replaced(s@, pat@, to@));
        assert(out@ + s@.subrange(0, 0) + replaced(s@, pat@, to@) =~= replaced(s@, pat@, to@));
    }
    if m == 0 {
        while i < n
            invariant
                n == s@.len(),
                pat@.len() == 0,
                kept == i,
                i <= n,
                replaced(s@, pat@, to@) == out@ + replaced(s@.skip(i as int), pat@, to@),
            decreases n - i,
        {
            proof {
                let rest = s@.skip(i as int);
                assert(rest.skip(1) =~= s@.skip(i + 1));
                assert(seq![rest[0]] =~= s@.subrange(i as int, i + 1));
                assert(out@ + (to@ + seq![rest[0]] + replaced(rest.skip(1), pat@, to@)) =~= out@
                    + to@ + s@.subrange(i as int, i + 1) + replaced(s@.skip(i + 1), pat@, to@));
            }
            out.append(to);
            out.append(s.substring_char(i, i + 1));
            i += 1;
            kept = i;
        }
        out.append(to);
        return out;
    }
    while i <= n && m <= n - i
        invariant
            n == s@.len(),
            hay@ == s@,
            needle@ == pat@,
            m == pat@.len(),
            m > 0,
            kept <= i <= n,
            replaced(s@, pat@, to@) == out@ + s@.subrange(kept as int, i as int) + replaced(
                s@.skip(i as int),
                pat@,
                to@,
            ),
        decreases n - i,
    {
        let ghost rest = s@.skip(i as int);
        let ghost pending = s@.subrange(kept as int, i as int);
        if matches_at(&hay, &needle, i) {
            proof {
                assert(rest.subrange(0, m as int) =~= s@.subrange(i as int, i + m));
                assert(rest.skip(m as int) =~= s@.skip(i + m));
                assert(s@.subrange(i + m, i + m) =~= Seq::<char>::empty());
                assert(out@ + pending + (to@ + replaced(rest.skip(m as int), pat@, to@)) =~= out@
                    + pending + to@ + s@.subrange(i + m, i + m) + replaced(
                    s@.skip(i + m),
                    pat@,
                    to@,
                ));
            }
            out.append(s.substring_char(kept, i));
            out.append(to);
            i += m;
            kept = i;
        } else {
            proof {
                assert(rest.subrange(0, m as int) =~= s@.subrange(i as int, i + m));
                assert(rest.skip(1) =~= s@.skip(i + 1));
                assert(pending + seq![rest[0]] =~= s@.subrange(kept as int, i + 1));
                assert(out@ + pending + (seq![rest[0]] + replaced(rest.skip(1), pat@, to@)) =~= out@
                    + s@.subrange(kept as int, i + 1) + replaced(s@.skip(i + 1), pat@, to@));
            }
            i += 1;
        }
    }
    proof {
        let rest = s@.skip(i as int);
        assert(rest.len() < m);
        assert(s@.subrange(kept as int, i as int) + rest =~= s@.subrange(kept as int, n as int));
        assert(out@ + s@.subrange(kept as int, i as int) + rest =~= out@ + s@.subrange(
            kept as int,
            n as int,
        ));
    }
    out.append(s.substring_char(kept, n));
    out
}

} // verus!
