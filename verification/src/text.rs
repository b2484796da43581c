//! Byte-string helpers. The service stores emails, usernames and paths as
//! UTF-8 byte strings and normalizes them by trimming ASCII whitespace and
//! lowercasing ASCII letters; multi-byte UTF-8 units are above 0x7f and are
//! never touched by either step.

use vstd::prelude::*;

verus! {

/// ASCII whitespace recognised by trimming.
pub open spec fn is_space_byte(b: u8) -> bool {
    b == 32 || b == 9 || b == 10 || b == 13
}

/// ASCII lowercasing of a single byte.
pub open spec fn lower_byte(b: u8) -> u8 {
    if 65 <= b && b <= 90 {
        (b + 32) as u8
    } else {
        b
    }
}

/// ASCII lowercasing of a byte string.
pub open spec fn lower_bytes(s: Seq<u8>) -> Seq<u8> {
    Seq::new(s.len(), |i: int| lower_byte(s[i]))
}

/// The byte string with leading ASCII whitespace removed.
pub open spec fn trim_left_spec(s: Seq<u8>) -> Seq<u8>
    decreases s.len(),
{
    if s.len() > 0 && is_space_byte(s[0]) {
        trim_left_spec(s.drop_first())
    } else {
        s
    }
}

/// The byte string with trailing ASCII whitespace removed.
pub open spec fn trim_right_spec(s: Seq<u8>) -> Seq<u8>
    decreases s.len(),
{
    if s.len() > 0 && is_space_byte(s[s.len() - 1]) {
        trim_right_spec(s.drop_last())
    } else {
        s
    }
}

/// Canonical form of a user-supplied identity: trimmed, then lowercased.
pub open spec fn normalize_spec(s: Seq<u8>) -> Seq<u8> {
    lower_bytes(trim_right_spec(trim_left_spec(s)))
}

proof fn lemma_trim_left_prefix(s: Seq<u8>, k: int)
    requires
        0 <= k <= s.len(),
        forall|i: int| 0 <= i < k ==> is_space_byte(s[i]),
        k == s.len() || !is_space_byte(s[k]),
    ensures
        trim_left_spec(s) =~= s.subrange(k, s.len() as int),
    decreases k,
{
    if k == 0 {
        assert(s.subrange(0, s.len() as int) =~= s);
    } else {
        assert(is_space_byte(s[0]));
        let t = s.drop_first();
        assert(forall|i: int| 0 <= i < k - 1 ==> is_space_byte(t[i]));
        lemma_trim_left_prefix(t, k - 1);
        assert(t.subrange(k - 1, t.len() as int) =~= s.subrange(k, s.len() as int));
    }
}

proof fn lemma_trim_right_suffix(s: Seq<u8>, j: int)
    requires
        0 <= j <= s.len(),
        forall|i: int| j <= i < s.len() ==> is_space_byte(s[i]),
        j == 0 || !is_space_byte(s[j - 1]),
    ensures
        trim_right_spec(s) =~= s.subrange(0, j),
    decreases s.len(),
{
    if j == s.len() {
        if s.len() > 0 && is_space_byte(s[s.len() - 1]) {
            assert(false);
        }
        assert(s.subrange(0, s.len() as int) =~= s);
    } else {
        assert(is_space_byte(s[s.len() - 1]));
        let t = s.drop_last();
        assert(forall|i: int| j <= i < t.len() ==> is_space_byte(t[i]));
        lemma_trim_right_suffix(t, j);
        assert(t.subrange(0, j) =~= s.subrange(0, j));
    }
}

/// Trims ASCII whitespace from both ends and lowercases ASCII letters.
pub fn normalize_bytes(v: &[u8]) -> (r: Vec<u8>)
    ensures
        r@ == normalize_spec(v@),
{
    let len = v.len();
    let mut k: usize = 0;
    while k < len && is_space(v[k])
        invariant
            0 <= k <= len,
            len == v@.len(),
            forall|i: int| 0 <= i < k ==> is_space_byte(v@[i]),
        decreases len - k,
    {
        k = k + 1;
    }
    let mut j: usize = len;
    while j > k && is_space(v[j - 1])
        invariant
            k <= j <= len,
            len == v@.len(),
            forall|i: int| j <= i < len ==> is_space_byte(v@[i]),
        decreases j,
    {
        j = j - 1;
    }
    proof {
        lemma_trim_left_prefix(v@, k as int);
        let t = v@.subrange(k as int, len as int);
        lemma_trim_right_suffix(t, j - k);
        assert(t.subrange(0, j - k) =~= v@.subrange(k as int, j as int));
    }
    let mut r: Vec<u8> = Vec::new();
    let mut i: usize = k;
    while i < j
        invariant
            k <= i <= j <= len,
            len == v@.len(),
            r@.len() == i - k,
            forall|t: int| 0 <= t < i - k ==> r@[t] == lower_byte(v@[k + t]),
        decreases j - i,
    {
        r.push(to_lower(v[i]));
        i = i + 1;
    }
    proof {
        assert(r@ =~= lower_bytes(v@.subrange(k as int, j as int)));
    }
    r
}

/// Exec form of `is_space_byte`.
pub fn is_space(b: u8) -> (r: bool)
    ensures
        r == is_space_byte(b),
{
    b == 32 || b == 9 || b == 10 || b == 13
}

/// Exec form of `lower_byte`.
pub fn to_lower(b: u8) -> (r: u8)
    ensures
        r == lower_byte(b),
{
    if 65 <= b && b <= 90 {
        b + 32
    } else {
        b
    }
}

/// Byte-string equality.
pub fn bytes_eq(a: &[u8], b: &[u8]) -> (r: bool)
    ensures
        r == (a@ == b@),
{
    if a.len() != b.len() {
        return false;
    }
    let len = a.len();
    let mut i: usize = 0;
    while i < len
        invariant
            0 <= i <= len,
            len == a@.len() == b@.len(),
            forall|t: int| 0 <= t < i ==> a@[t] == b@[t],
        decreases len - i,
    {
        if a[i] != b[i] {
            return false;
        }
        i = i + 1;
    }
    proof {
        assert(a@ =~= b@);
    }
    true
}

/// `s` with every ASCII dash removed (codes are often typed in groups).
pub open spec fn strip_dashes_spec(s: Seq<u8>) -> Seq<u8>
    decreases s.len(),
{
    if s.len() == 0 {
        Seq::empty()
    } else if s[0] == 45 {
        strip_dashes_spec(s.drop_first())
    } else {
        seq![s[0]] + strip_dashes_spec(s.drop_first())
    }
}

proof fn lemma_strip_dashes_snoc(s: Seq<u8>, b: u8)
    ensures
        strip_dashes_spec(s.push(b)) =~= if b == 45 {
            strip_dashes_spec(s)
        } else {
            strip_dashes_spec(s).push(b)
        },
    decreases s.len(),
{
    if s.len() == 0 {
        assert(s.push(b).drop_first() =~= Seq::<u8>::empty());
        assert(strip_dashes_spec(Seq::<u8>::empty()) =~= Seq::<u8>::empty());
        assert(s.push(b)[0] == b);
        if b != 45 {
            assert(strip_dashes_spec(s.push(b)) =~= seq![b] + Seq::<u8>::empty());
            assert(seq![b] + Seq::<u8>::empty() =~= seq![b]);
            assert(strip_dashes_spec(s).push(b) =~= seq![b]);
        }
    } else {
        assert(s.push(b).drop_first() =~= s.drop_first().push(b));
        lemma_strip_dashes_snoc(s.drop_first(), b);
        assert(s.push(b)[0] == s[0]);
        if s[0] != 45 && b != 45 {
            assert(seq![s[0]] + strip_dashes_spec(s.drop_first()).push(b) =~= (seq![s[0]]
                + strip_dashes_spec(s.drop_first())).push(b));
        }
    }
}

/// Removes every ASCII dash.
pub fn strip_dashes(v: &Vec<u8>) -> (r: Vec<u8>)
    ensures
        r@ == strip_dashes_spec(v@),
{
    let mut r: Vec<u8> = Vec::new();
    let len = v.len();
    let mut i: usize = 0;
    while i < len
        invariant
            0 <= i <= len,
            len == v@.len(),
            r@ == strip_dashes_spec(v@.subrange(0, i as int)),
        decreases len - i,
    {
        proof {
            assert(v@.subrange(0, i + 1) =~= v@.subrange(0, i as int).push(v@[i as int]));
            lemma_strip_dashes_snoc(v@.subrange(0, i as int), v@[i as int]);
        }
        if v[i] != 45 {
            r.push(v[i]);
        }
        i = i + 1;
    }
    proof {
        assert(v@.subrange(0, len as int) =~= v@);
    }
    r
}

/// Copies a byte string; the copy denotes the same sequence.
pub fn clone_bytes(v: &Vec<u8>) -> (r: Vec<u8>)
    ensures
        r@ == v@,
{
    let r = v.clone();
    proof {
        assert forall|i: int| 0 <= i < v@.len() implies r@[i] == v@[i] by {
            assert(cloned::<u8>(v[i], r[i]));
        }
        assert(r@ =~= v@);
    }
    r
}

/// Copies an optional byte string.
pub fn clone_opt_bytes(v: &Option<Vec<u8>>) -> (r: Option<Vec<u8>>)
    ensures
        r is Some == v is Some,
        r matches Some(rv) ==> v matches Some(vv) && rv@ == vv@,
{
    match v {
        Some(b) => Some(clone_bytes(b)),
        None => None,
    }
}

} // verus!
