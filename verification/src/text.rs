use vstd::prelude::*;

verus! {

/// Whether the two texts are equal.
pub fn text_eq(a: &str, b: &str) -> (eq: bool)
    ensures
        eq == (a@ == b@),
{
    let x = String::from_str(a);
    let y = String::from_str(b);
    x == y
}

/// Whether `s` begins with `prefix`.
pub open spec fn has_prefix(s: Seq<char>, prefix: Seq<char>) -> bool {
    prefix.len() <= s.len() && s.take(prefix.len() as int) == prefix
}

/// Whether `s` begins with `prefix`.
pub fn starts_with(s: &str, prefix: &str) -> (b: bool)
    ensures
        b == has_prefix(s@, prefix@),
{
    let n = prefix.unicode_len();
    let m = s.unicode_len();
    if n > m {
        return false;
    }
    let head = s.substring_char(0, n);
    assert(head@ == s@.take(n as int));
    text_eq(head, prefix)
}

/// Whether `i` is the first position at or after `from` where `s` holds `c`.
pub open spec fn first_at_or_after(s: Seq<char>, c: char, from: int, i: int) -> bool {
    &&& from <= i < s.len()
    &&& s[i] == c
    &&& forall|j: int| from <= j < i ==> s[j] != c
}

/// The first position at or after `from` where `s` holds `c`, if any.
pub open spec fn find_from(s: Seq<char>, c: char, from: int) -> Option<int> {
    if exists|i: int| first_at_or_after(s, c, from, i) {
        Some(choose|i: int| first_at_or_after(s, c, from, i))
    } else {
        None
    }
}

/// There is at most one first position.
pub proof fn lemma_first_unique(s: Seq<char>, c: char, from: int, i: int, k: int)
    requires
        first_at_or_after(s, c, from, i),
        first_at_or_after(s, c, from, k),
    ensures
        i == k,
{
    if i < k {
        assert(s[i] != c);
    } else if k < i {
        assert(s[k] != c);
    }
}

/// The first position at or after `from` where `s` holds `c`, if any.
pub fn find_char_from(s: &str, c: char, from: usize) -> (res: Option<usize>)
    ensures
        match res {
            Some(i) => find_from(s@, c, from as int) == Some(i as int),
            None => find_from(s@, c, from as int) is None,
        },
{
    let n = s.unicode_len();
    let mut i = from;
    while i < n
        invariant
            n == s@.len(),
            from <= i,
            forall|j: int| from <= j < i ==> s@[j] != c,
        decreases n - i,
    {
        if s.get_char(i) == c {
            assert(first_at_or_after(s@, c, from as int, i as int));
            proof {
                let k = choose|k: int| first_at_or_after(s@, c, from as int, k);
                lemma_first_unique(s@, c, from as int, i as int, k);
            }
            return Some(i);
        }
        i = i + 1;
    }
    None
}

} // verus!
