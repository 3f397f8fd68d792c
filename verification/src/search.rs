//! The first position at which something holds, and searching a sequence
//! for a smaller one.

use vstd::prelude::*;

verus! {

/// `pat` occurs in `s` starting at `i`.
pub open spec fn occurs_at<T>(s: Seq<T>, pat: Seq<T>, i: int) -> bool {
    0 <= i && i + pat.len() <= s.len() && s.subrange(i, i + pat.len()) == pat
}

/// Where `pat` first occurs in `s`.
pub open spec fn find_seq<T>(s: Seq<T>, pat: Seq<T>) -> Option<int> {
    if exists|i: int| #[trigger] occurs_at(s, pat, i) {
        Some(
            choose|i: int|
                #[trigger] occurs_at(s, pat, i) && forall|j: int|
                    0 <= j < i ==> !#[trigger] occurs_at(s, pat, j),
        )
    } else {
        None
    }
}

/// Where `c` first occurs in `s`.
pub open spec fn find_char(s: Seq<char>, c: char) -> Option<int> {
    if exists|i: int| 0 <= i < s.len() && #[trigger] s[i] == c {
        Some(
            choose|i: int|
                0 <= i < s.len() && #[trigger] s[i] == c && forall|j: int|
                    0 <= j < i ==> #[trigger] s[j] != c,
        )
    } else {
        None
    }
}

pub proof fn lemma_find_seq_found<T>(s: Seq<T>, pat: Seq<T>, k: int)
    requires
        occurs_at(s, pat, k),
        forall|j: int| 0 <= j < k ==> !#[trigger] occurs_at(s, pat, j),
    ensures
        find_seq(s, pat) == Some(k),
{
    let c = choose|i: int|
        #[trigger] occurs_at(s, pat, i) && forall|j: int|
            0 <= j < i ==> !#[trigger] occurs_at(s, pat, j);
    if c < k {
        assert(!occurs_at(s, pat, c));
    }
    if c > k {
        assert(!occurs_at(s, pat, k));
    }
}

pub proof fn lemma_find_seq_facts<T>(s: Seq<T>, pat: Seq<T>)
    ensures
        find_seq(s, pat) matches Some(k) ==> occurs_at(s, pat, k) && forall|j: int|
            0 <= j < k ==> !#[trigger] occurs_at(s, pat, j),
        find_seq(s, pat) is None ==> forall|j: int| !#[trigger] occurs_at(s, pat, j),
{
    if exists|i: int| #[trigger] occurs_at(s, pat, i) {
        let i = choose|i: int| #[trigger] occurs_at(s, pat, i);
        lemma_least_occurrence(s, pat, i);
    }
}

proof fn lemma_least_occurrence<T>(s: Seq<T>, pat: Seq<T>, i: int)
    requires
        occurs_at(s, pat, i),
    ensures
        exists|k: int|
            #[trigger] occurs_at(s, pat, k) && forall|j: int|
                0 <= j < k ==> !#[trigger] occurs_at(s, pat, j),
    decreases i,
{
    if exists|j: int| 0 <= j < i && #[trigger] occurs_at(s, pat, j) {
        let j = choose|j: int| 0 <= j < i && #[trigger] occurs_at(s, pat, j);
        lemma_least_occurrence(s, pat, j);
    } else {
        assert(forall|j: int| 0 <= j < i ==> !#[trigger] occurs_at(s, pat, j));
    }
}

pub proof fn lemma_find_char_found(s: Seq<char>, c: char, k: int)
    requires
        0 <= k < s.len(),
        s[k] == c,
        forall|j: int| 0 <= j < k ==> s[j] != c,
    ensures
        find_char(s, c) == Some(k),
{
    let w = choose|i: int|
        0 <= i < s.len() && #[trigger] s[i] == c && forall|j: int|
            0 <= j < i ==> #[trigger] s[j] != c;
    if w < k {
        assert(s[w] != c);
    }
    if w > k {
        assert(s[k] != c);
    }
}

pub proof fn lemma_find_char_none(s: Seq<char>, c: char)
    requires
        forall|j: int| 0 <= j < s.len() ==> s[j] != c,
    ensures
        find_char(s, c) is None,
{
}

pub proof fn lemma_find_char_facts(s: Seq<char>, c: char)
    ensures
        find_char(s, c) matches Some(k) ==> 0 <= k < s.len() && s[k] == c && forall|j: int|
            0 <= j < k ==> s[j] != c,
        find_char(s, c) is None ==> forall|j: int| 0 <= j < s.len() ==> s[j] != c,
{
    if exists|i: int| 0 <= i < s.len() && #[trigger] s[i] == c {
        let i = choose|i: int| 0 <= i < s.len() && #[trigger] s[i] == c;
        lemma_least_char(s, c, i);
    }
}

proof fn lemma_least_char(s: Seq<char>, c: char, i: int)
    requires
        0 <= i < s.len(),
        s[i] == c,
    ensures
        exists|k: int|
            0 <= k < s.len() && #[trigger] s[k] == c && forall|j: int|
                0 <= j < k ==> #[trigger] s[j] != c,
    decreases i,
{
    if exists|j: int| 0 <= j < i && #[trigger] s[j] == c {
        let j = choose|j: int| 0 <= j < i && #[trigger] s[j] == c;
        lemma_least_char(s, c, j);
    } else {
        assert(forall|j: int| 0 <= j < i ==> #[trigger] s[j] != c);
    }
}

/// The position of the first occurrence of `pat` in `bytes`.
pub fn find_bytes(bytes: &[u8], pat: &[u8]) -> (r: Option<usize>)
    requires
        pat@.len() > 0,
    ensures
        r matches Some(i) ==> find_seq(bytes@, pat@) == Some(i as int),
        r is None ==> find_seq(bytes@, pat@) is None,
{
    if pat.len() > bytes.len() {
        return None;
    }
    let last = bytes.len() - pat.len();
    let mut i: usize = 0;
    while i <= last
        invariant
            last == bytes.len() - pat.len(),
 pat@.len() > 0,
            pat.len() <= bytes.len(),
            i <= last + 1,
            forall|j: int| 0 <= j < i ==> !#[trigger] occurs_at(bytes@, pat@, j),
        decreases last + 1 - i,
    {
        let mut k: usize = 0;
        while k < pat.len() && bytes[i + k] == pat[k]
            invariant
                i <= last,
                last == bytes.len() - pat.len(),
                k <= pat.len(),
                pat@.len() > 0,
                forall|m: int| 0 <= m < k ==> bytes@[i + m] == pat@[m],
            decreases pat.len() - k,
        {
            k = k + 1;
        }
        if k == pat.len() {
            assert(bytes@.subrange(i as int, i + pat@.len()) =~= pat@);
            proof {
                lemma_find_seq_found(bytes@, pat@, i as int);
            }
            return Some(i);
        }
        assert(bytes@.subrange(i as int, i + pat@.len())[k as int] != pat@[k as int]);
        i = i + 1;
    }
    proof {
        assert forall|j: int| !#[trigger] occurs_at(bytes@, pat@, j) by {
            if 0 <= j < i {
            }
        }
    }
    None
}

/// Where `pat` first occurs in the characters `s`.
pub fn find_chars(s: &Vec<char>, pat: &Vec<char>) -> (r: Option<usize>)
    requires
        pat@.len() > 0,
    ensures
        r matches Some(i) ==> find_seq(s@, pat@) == Some(i as int),
        r is None ==> find_seq(s@, pat@) is None,
{
    if pat.len() > s.len() {
        return None;
    }
    let last = s.len() - pat.len();
    let mut i: usize = 0;
    while i <= last
        invariant
            last == s.len() - pat.len(),
 pat@.len() > 0,
            pat.len() <= s.len(),
            i <= last + 1,
            forall|j: int| 0 <= j < i ==> !#[trigger] occurs_at(s@, pat@, j),
        decreases last + 1 - i,
    {
        let mut k: usize = 0;
        while k < pat.len() && s[i + k] == pat[k]
            invariant
                i <= last,
                last == s.len() - pat.len(),
                k <= pat.len(),
                pat@.len() > 0,
                forall|m: int| 0 <= m < k ==> s@[i + m] == pat@[m],
            decreases pat.len() - k,
        {
            k = k + 1;
        }
        if k == pat.len() {
            assert(s@.subrange(i as int, i + pat@.len()) =~= pat@);
            proof {
                lemma_find_seq_found(s@, pat@, i as int);
            }
            return Some(i);
        }
        assert(s@.subrange(i as int, i + pat@.len())[k as int] != pat@[k as int]);
        i = i + 1;
    }
    proof {
        assert forall|j: int| !#[trigger] occurs_at(s@, pat@, j) by {
            if 0 <= j < i {
            }
        }
    }
    None
}

/// Where `c` first occurs in `s[from..]`, counted from the start of `s`.
pub fn find_char_from(s: &Vec<char>, from: usize, c: char) -> (r: Option<usize>)
    requires
        from <= s.len(),
    ensures
        r matches Some(i) ==> from <= i && find_char(s@.subrange(from as int, s@.len() as int), c)
            == Some(i - from),
        r is None ==> find_char(s@.subrange(from as int, s@.len() as int), c) is None,
{
    let ghost t = s@.subrange(from as int, s@.len() as int);
    let mut i: usize = from;
    while i < s.len()
        invariant
            from <= i <= s.len(),
            t == s@.subrange(from as int, s@.len() as int),
            forall|j: int| 0 <= j < i - from ==> t[j] != c,
        decreases s.len() - i,
    {
        if s[i] == c {
            proof {
                lemma_find_char_found(t, c, i - from);
            }
            return Some(i);
        }
        i = i + 1;
    }
    proof {
        lemma_find_char_none(t, c);
    }
    None
}

/// Where a sequence is found in `s`, it is found first at the same place in
/// `s` followed by anything.
pub proof fn lemma_find_seq_extend<T>(s: Seq<T>, more: Seq<T>, pat: Seq<T>)
    requires
        find_seq(s, pat) is Some,
    ensures
        find_seq(s + more, pat) == find_seq(s, pat),
{
    let all = s + more;
    lemma_find_seq_facts(s, pat);
    let h = find_seq(s, pat)->0;
    assert(s.subrange(h, h + pat.len()) =~= all.subrange(h, h + pat.len()));
    assert forall|j: int| 0 <= j < h implies !#[trigger] occurs_at(all, pat, j) by {
        if occurs_at(all, pat, j) {
            assert(all.subrange(j, j + pat.len()) =~= s.subrange(j, j + pat.len()));
            assert(occurs_at(s, pat, j));
        }
    }
    lemma_find_seq_found(all, pat, h);
}

} // verus!
