//! Zeichenketten-Hilfen über `Seq<char>`: Unicode-Leerraum und Trimmen.
use vstd::prelude::*;

verus! {

/// Unicode-Eigenschaft `White_Space`, wie sie `char::is_whitespace` prüft.
pub open spec fn is_white_space(c: char) -> bool {
    let n = c as u32;
    ||| 0x9 <= n <= 0xd
    ||| n == 0x20
    ||| n == 0x85
    ||| n == 0xa0
    ||| n == 0x1680
    ||| 0x2000 <= n <= 0x200a
    ||| n == 0x2028
    ||| n == 0x2029
    ||| n == 0x202f
    ||| n == 0x205f
    ||| n == 0x3000
}

/// `s` ohne führenden Leerraum.
pub open spec fn trim_start(s: Seq<char>) -> Seq<char>
    decreases s.len(),
{
    if s.len() > 0 && is_white_space(s[0]) {
        trim_start(s.drop_first())
    } else {
        s
    }
}

/// `s` ohne abschließenden Leerraum.
pub open spec fn trim_end(s: Seq<char>) -> Seq<char>
    decreases s.len(),
{
    if s.len() > 0 && is_white_space(s.last()) {
        trim_end(s.drop_last())
    } else {
        s
    }
}

/// `s` ohne Leerraum an beiden Enden (wie `str::trim`).
pub open spec fn trim(s: Seq<char>) -> Seq<char> {
    trim_end(trim_start(s))
}

pub fn is_whitespace(c: char) -> (r: bool)
    ensures
        r == is_white_space(c),
{
    let n = c as u32;
    (0x9 <= n && n <= 0xd) || n == 0x20 || n == 0x85 || n == 0xa0 || n == 0x1680 || (0x2000
        <= n && n <= 0x200a) || n == 0x2028 || n == 0x2029 || n == 0x202f || n == 0x205f || n
        == 0x3000
}

proof fn lemma_trim_start_skip(s: Seq<char>, k: int)
    requires
        0 <= k <= s.len(),
        forall|i: int| 0 <= i < k ==> is_white_space(#[trigger] s[i]),
    ensures
        trim_start(s) == trim_start(s.subrange(k, s.len() as int)),
    decreases k,
{
    if k > 0 {
        assert(is_white_space(s[0]));
        let t = s.drop_first();
        assert forall|i: int| 0 <= i < k - 1 implies is_white_space(#[trigger] t[i]) by {
            assert(t[i] == s[i + 1]);
        }
        lemma_trim_start_skip(t, k - 1);
        assert(t.subrange(k - 1, t.len() as int) =~= s.subrange(k, s.len() as int));
    } else {
        assert(s.subrange(0, s.len() as int) =~= s);
    }
}

proof fn lemma_trim_end_skip(s: Seq<char>, k: int)
    requires
        0 <= k <= s.len(),
        forall|i: int| k <= i < s.len() ==> is_white_space(#[trigger] s[i]),
    ensures
        trim_end(s) == trim_end(s.subrange(0, k)),
    decreases s.len() - k,
{
    if k < s.len() {
        assert(is_white_space(s.last()));
        let t = s.drop_last();
        assert forall|i: int| k <= i < t.len() implies is_white_space(#[trigger] t[i]) by {
            assert(t[i] == s[i]);
        }
        lemma_trim_end_skip(t, k);
        assert(t.subrange(0, k) =~= s.subrange(0, k));
    } else {
        assert(s.subrange(0, k) =~= s);
    }
}

proof fn lemma_trim_start_shape(s: Seq<char>) -> (k: int)
    ensures
        0 <= k <= s.len(),
        trim_start(s) == s.subrange(k, s.len() as int),
        forall|i: int| 0 <= i < k ==> is_white_space(#[trigger] s[i]),
        k < s.len() ==> !is_white_space(s[k]),
    decreases s.len(),
{
    if s.len() > 0 && is_white_space(s[0]) {
        let t = s.drop_first();
        let k0 = lemma_trim_start_shape(t);
        assert(t.subrange(k0, t.len() as int) =~= s.subrange(k0 + 1, s.len() as int));
        assert forall|i: int| 0 <= i < k0 + 1 implies is_white_space(#[trigger] s[i]) by {
            if i > 0 {
                assert(s[i] == t[i - 1]);
            }
        }
        if k0 + 1 < s.len() {
            assert(s[k0 + 1] == t[k0]);
        }
        k0 + 1
    } else {
        assert(s.subrange(0, s.len() as int) =~= s);
        0
    }
}

proof fn lemma_trim_end_shape(s: Seq<char>) -> (k: int)
    ensures
        0 <= k <= s.len(),
        trim_end(s) == s.subrange(0, k),
        forall|i: int| k <= i < s.len() ==> is_white_space(#[trigger] s[i]),
        k > 0 ==> !is_white_space(s[k - 1]),
    decreases s.len(),
{
    if s.len() > 0 && is_white_space(s.last()) {
        let t = s.drop_last();
        let k0 = lemma_trim_end_shape(t);
        assert(t.subrange(0, k0) =~= s.subrange(0, k0));
        assert forall|i: int| k0 <= i < s.len() implies is_white_space(#[trigger] s[i]) by {
            if i < t.len() {
                assert(s[i] == t[i]);
            }
        }
        if k0 > 0 {
            assert(s[k0 - 1] == t[k0 - 1]);
        }
        k0
    } else {
        assert(s.subrange(0, s.len() as int) =~= s);
        s.len() as int
    }
}

/// `trim(s)` ist `s` ohne Leerraum an den Enden: ein zusammenhängendes
/// Stück `s[a..b]`, vor und nach dem nur Leerraum steht und das weder mit
/// Leerraum beginnt noch endet; leer genau dann, wenn `s` nur aus Leerraum
/// besteht.
pub proof fn law_trim(s: Seq<char>)
    ensures
        exists|a: int, b: int|
            0 <= a <= b <= s.len() && trim(s) == s.subrange(a, b) && (forall|i: int|
                0 <= i < a ==> is_white_space(#[trigger] s[i])) && (forall|i: int|
                b <= i < s.len() ==> is_white_space(#[trigger] s[i])),
        trim(s).len() > 0 ==> !is_white_space(trim(s)[0]) && !is_white_space(trim(s).last()),
        trim(s).len() == 0 <==> forall|i: int| 0 <= i < s.len() ==> is_white_space(#[trigger] s[i]),
{
    let a = lemma_trim_start_shape(s);
    let t = s.subrange(a, s.len() as int);
    let c = lemma_trim_end_shape(t);
    let b = a + c;
    assert(t.subrange(0, c) =~= s.subrange(a, b));
    assert forall|i: int| b <= i < s.len() implies is_white_space(#[trigger] s[i]) by {
        assert(s[i] == t[i - a]);
    }
    if c > 0 {
        assert(trim(s)[0] == s[a]);
        assert(trim(s).last() == s[b - 1]);
        assert(t[c - 1] == s[b - 1]);
        assert(t[0] == s[a]);
    } else {
        if a < s.len() {
            assert(t[0] == s[a]);
            assert(is_white_space(t[0]));
        }
    }
    if trim(s).len() > 0 {
        assert(!is_white_space(s[a]));
    }
    assert(0 <= a <= b <= s.len() && trim(s) == s.subrange(a, b));
}

/// Grenzen `(a, b)` des getrimmten Teils: `trim(s@) == s@[a..b]`.
pub fn trim_bounds(s: &str) -> (r: (usize, usize))
    ensures
        r.0 <= r.1 <= s@.len(),
        trim(s@) == s@.subrange(r.0 as int, r.1 as int),
        forall|i: int| 0 <= i < r.0 ==> is_white_space(#[trigger] s@[i]),
        forall|i: int| r.1 <= i < s@.len() ==> is_white_space(#[trigger] s@[i]),
        r.0 < r.1 ==> !is_white_space(s@[r.0 as int]) && !is_white_space(s@[r.1 - 1]),
        r.0 == r.1 ==> r.0 == s@.len(),
{
    let len = s.unicode_len();
    let mut a: usize = 0;
    while a < len && is_whitespace(s.get_char(a))
        invariant
            len == s@.len(),
            a <= len,
            forall|i: int| 0 <= i < a ==> is_white_space(#[trigger] s@[i]),
        decreases len - a,
    {
        a = a + 1;
    }
    let ghost t = s@.subrange(a as int, len as int);
    proof {
        lemma_trim_start_skip(s@, a as int);
        if a < len {
            assert(t[0] == s@[a as int]);
        }
        assert(trim_start(t) == t);
    }
    let mut b: usize = len;
    while b > a && is_whitespace(s.get_char(b - 1))
        invariant
            len == s@.len(),
            a <= b <= len,
            t == s@.subrange(a as int, len as int),
            forall|i: int| b <= i < len ==> is_white_space(#[trigger] s@[i]),
        decreases b,
    {
        b = b - 1;
    }
    proof {
        assert forall|i: int| (b - a) <= i < t.len() implies is_white_space(#[trigger] t[i]) by {
            assert(t[i] == s@[i + a]);
        }
        lemma_trim_end_skip(t, (b - a) as int);
        let u = t.subrange(0, (b - a) as int);
        assert(u =~= s@.subrange(a as int, b as int));
        if b > a {
            assert(u.last() == s@[b - 1]);
        }
        assert(trim_end(u) == u);
    }
    (a, b)
}

} // verus!
