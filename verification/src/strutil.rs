//! Verified helpers for character-level string work: equality, prefix and
//! substring tests, and decimal rendering of integers.

use vstd::prelude::*;

verus! {

/// True when `p` is a prefix of `s`.
pub open spec fn is_prefix_of(p: Seq<char>, s: Seq<char>) -> bool {
    p.len() <= s.len() && s.take(p.len() as int) == p
}

/// Character-by-character string equality, settled over the views.
pub fn str_eq(a: &str, b: &str) -> (r: bool)
    ensures
        r == (a@ == b@),
{
    let a_len = a.unicode_len();
    let b_len = b.unicode_len();
    if a_len != b_len {
        proof {
            assert(a@ != b@) by {
                assert(a@.len() != b@.len());
            }
        }
        return false;
    }
    let mut i: usize = 0;
    while i < a_len
        invariant
            i <= a_len,
            a_len == a@.len(),
            a_len == b@.len(),
            forall|j: int| 0 <= j < i ==> a@[j] == b@[j],
        decreases a_len - i,
    {
        if a.get_char(i) != b.get_char(i) {
            return false;
        }
        i = i + 1;
    }
    proof {
        assert(a@ =~= b@);
    }
    true
}

/// Relies on `String::push`: appends exactly the given character to the
/// end of the string.
#[verifier::external_body]
pub fn push_char(s: &mut String, c: char)
    ensures
        final(s)@ == old(s)@ + seq![c],
{
    s.push(c);
}

/// The decimal digit character for a value below ten.
pub open spec fn digit_char(d: nat) -> char {
    if d == 0 {
        '0'
    } else if d == 1 {
        '1'
    } else if d == 2 {
        '2'
    } else if d == 3 {
        '3'
    } else if d == 4 {
        '4'
    } else if d == 5 {
        '5'
    } else if d == 6 {
        '6'
    } else if d == 7 {
        '7'
    } else if d == 8 {
        '8'
    } else {
        '9'
    }
}

/// The decimal rendering of a natural number, without sign or leading
/// zeros (a single `'0'` for zero).
pub open spec fn spec_nat_string(n: nat) -> Seq<char>
    decreases n,
{
    if n < 10 {
        seq![digit_char(n)]
    } else {
        spec_nat_string(n / 10).push(digit_char(n % 10))
    }
}

/// The decimal rendering of an integer: a `'-'` before the magnitude for
/// negative values.
pub open spec fn spec_int_string(n: int) -> Seq<char> {
    if n >= 0 {
        spec_nat_string(n as nat)
    } else {
        seq!['-'] + spec_nat_string((-n) as nat)
    }
}

fn digit_to_char(d: u64) -> (c: char)
    requires
        d < 10,
    ensures
        c == digit_char(d as nat),
{
    if d == 0 {
        '0'
    } else if d == 1 {
        '1'
    } else if d == 2 {
        '2'
    } else if d == 3 {
        '3'
    } else if d == 4 {
        '4'
    } else if d == 5 {
        '5'
    } else if d == 6 {
        '6'
    } else if d == 7 {
        '7'
    } else if d == 8 {
        '8'
    } else {
        '9'
    }
}

/// Renders an unsigned integer in decimal.
pub fn u64_to_string(n: u64) -> (r: String)
    ensures
        r@ == spec_nat_string(n as nat),
    decreases n,
{
    if n < 10 {
        let mut s = String::new();
        push_char(&mut s, digit_to_char(n));
        proof {
            assert(s@ =~= spec_nat_string(n as nat));
        }
        s
    } else {
        let mut s = u64_to_string(n / 10);
        push_char(&mut s, digit_to_char(n % 10));
        proof {
            assert(s@ =~= spec_nat_string(n as nat));
        }
        s
    }
}

/// Renders a signed integer in decimal.
pub fn i64_to_string(n: i64) -> (r: String)
    ensures
        r@ == spec_int_string(n as int),
{
    if n >= 0 {
        u64_to_string(n as u64)
    } else {
        let mag: u64 = (-(n as i128)) as u64;
        let mut s: String = "-".to_owned();
        let digits = u64_to_string(mag);
        s.append(digits.as_str());
        proof {
            reveal_strlit("-");
            assert(s@ =~= spec_int_string(n as int));
        }
        s
    }
}

/// The rendering of an amount of cents with exactly two decimal places.
pub open spec fn spec_cents_string(c: nat) -> Seq<char> {
    spec_nat_string(c / 100) + seq![
        '.',
        digit_char((c % 100) / 10),
        digit_char((c % 100) % 10),
    ]
}

/// Renders a cent amount as whole units, a dot, and two decimal places.
pub fn cents_to_string(c: u64) -> (r: String)
    ensures
        r@ == spec_cents_string(c as nat),
{
    let mut s = u64_to_string(c / 100);
    push_char(&mut s, '.');
    push_char(&mut s, digit_to_char((c % 100) / 10));
    push_char(&mut s, digit_to_char((c % 100) % 10));
    proof {
        assert(s@ =~= spec_cents_string(c as nat));
    }
    s
}

/// True exactly when `p` is a prefix of `s`.
pub fn str_starts_with(s: &str, p: &str) -> (r: bool)
    ensures
        r == is_prefix_of(p@, s@),
{
    let s_len = s.unicode_len();
    let p_len = p.unicode_len();
    if p_len > s_len {
        return false;
    }
    let mut i: usize = 0;
    while i < p_len
        invariant
            i <= p_len,
            p_len == p@.len(),
            s_len == s@.len(),
            p_len <= s_len,
            forall|j: int| 0 <= j < i ==> s@[j] == p@[j],
        decreases p_len - i,
    {
        if s.get_char(i) != p.get_char(i) {
            proof {
                assert(s@.take(p@.len() as int)[i as int] != p@[i as int]);
            }
            return false;
        }
        i = i + 1;
    }
    proof {
        assert(s@.take(p@.len() as int) =~= p@);
    }
    true
}

/// The concatenation of a sequence of strings, in order, with nothing
/// between them.
pub open spec fn concat_all(xs: Seq<Seq<char>>) -> Seq<char>
    decreases xs.len(),
{
    if xs.len() == 0 {
        Seq::empty()
    } else {
        concat_all(xs.drop_last()) + xs.last()
    }
}

/// The strings joined with a single comma between neighbours.
pub open spec fn join_comma(xs: Seq<Seq<char>>) -> Seq<char>
    decreases xs.len(),
{
    if xs.len() == 0 {
        Seq::empty()
    } else if xs.len() == 1 {
        xs[0]
    } else {
        join_comma(xs.drop_last()) + seq![','] + xs.last()
    }
}

/// Concatenates the strings, in order, with nothing between them.
pub fn concat_strings(items: &Vec<String>) -> (r: String)
    ensures
        r@ == concat_all(items.deep_view()),
{
    let ghost dv = items.deep_view();
    let mut out = String::new();
    let mut i: usize = 0;
    proof {
        assert(dv.take(0) =~= Seq::<Seq<char>>::empty());
    }
    while i < items.len()
        invariant
            i <= items@.len(),
            dv == items.deep_view(),
            dv.len() == items@.len(),
            out@ == concat_all(dv.take(i as int)),
        decreases items@.len() - i,
    {
        proof {
            assert(dv.take(i as int + 1).drop_last() =~= dv.take(i as int));
            assert(dv[i as int] == items@[i as int]@);
        }
        out.append(items[i].as_str());
        i = i + 1;
    }
    proof {
        assert(dv.take(items@.len() as int) =~= dv);
    }
    out
}

/// Joins the strings with a comma between neighbours.
pub fn join_with_commas(items: &Vec<String>) -> (r: String)
    ensures
        r@ == join_comma(items.deep_view()),
{
    let ghost dv = items.deep_view();
    let mut out = String::new();
    let mut i: usize = 0;
    proof {
        assert(dv.take(0) =~= Seq::<Seq<char>>::empty());
    }
    while i < items.len()
        invariant
            i <= items@.len(),
            dv == items.deep_view(),
            dv.len() == items@.len(),
            out@ == join_comma(dv.take(i as int)),
        decreases items@.len() - i,
    {
        proof {
            assert(dv.take(i as int + 1).drop_last() =~= dv.take(i as int));
            assert(dv[i as int] == items@[i as int]@);
            assert(dv.take(i as int + 1).last() == dv[i as int]);
        }
        if i > 0 {
            out.append(",");
            proof {
                reveal_strlit(",");
            }
        }
        out.append(items[i].as_str());
        proof {
            if i == 0 {
                assert(dv.take(1)[0] == dv[0]);
            } else {
                assert(out@ =~= join_comma(dv.take(i as int)) + seq![','] + dv[i as int]);
            }
        }
        i = i + 1;
    }
    proof {
        assert(dv.take(items@.len() as int) =~= dv);
    }
    out
}

/// True when `n` occurs somewhere in `h` as a contiguous run.
pub open spec fn contains_seq(h: Seq<char>, n: Seq<char>) -> bool {
    exists|i: int|
        0 <= i && i + n.len() <= h.len() && #[trigger] h.subrange(i, i + n.len() as int) == n
}

fn matches_at(s: &str, pat: &str, i: usize) -> (r: bool)
    requires
        i + pat@.len() <= s@.len(),
        s@.len() <= usize::MAX,
    ensures
        r == (s@.subrange(i as int, i as int + pat@.len() as int) == pat@),
{
    let m = pat.unicode_len();
    let mut j: usize = 0;
    while j < m
        invariant
            j <= m,
            m == pat@.len(),
            i + m <= s@.len(),
            s@.len() <= usize::MAX,
            forall|k: int| 0 <= k < j ==> s@[i + k] == pat@[k],
        decreases m - j,
    {
        if s.get_char(i + j) != pat.get_char(j) {
            proof {
                assert(s@.subrange(i as int, i as int + pat@.len() as int)[j as int] == s@[
                    i + j
                ]);
            }
            return false;
        }
        j = j + 1;
    }
    proof {
        assert(s@.subrange(i as int, i as int + pat@.len() as int) =~= pat@);
    }
    true
}

/// True exactly when `pat` occurs as a substring of `s`.
pub fn str_contains(s: &str, pat: &str) -> (r: bool)
    ensures
        r == contains_seq(s@, pat@),
{
    let n = s.unicode_len();
    let m = pat.unicode_len();
    if m > n {
        return false;
    }
    if m == 0 {
        proof {
            assert(contains_seq(s@, pat@)) by {
                assert(s@.subrange(0, 0 + pat@.len() as int) =~= pat@);
            }
        }
        return true;
    }
    let mut i: usize = 0;
    while i <= n - m
        invariant
            1 <= m <= n,
            n == s@.len(),
            m == pat@.len(),
            i <= n - m + 1,
            forall|k: int|
                0 <= k < i ==> #[trigger] s@.subrange(k, k + pat@.len() as int) != pat@,
        decreases n - m - i + 1,
    {
        if matches_at(s, pat, i) {
            return true;
        }
        i = i + 1;
    }
    false
}

} // verus!
