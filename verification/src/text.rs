//! Text helpers for building shader sources: decimal rendering of integers,
//! literal search-and-replace, and exact string comparison.
use vstd::prelude::*;

verus! {

/// The character of the decimal digit `d` (`d < 10`).
pub open spec fn digit_char(d: nat) -> char {
    (d + 48) as char
}

/// The decimal representation of `n`, most significant digit first, with no
/// leading zeros (`0` is rendered as a single `0`).
pub open spec fn decimal(n: nat) -> Seq<char>
    decreases n,
{
    if n < 10 {
        seq![digit_char(n)]
    } else {
        decimal(n / 10).push(digit_char(n % 10))
    }
}

/// `s` with every occurrence of the non-empty pattern `pat` replaced by
/// `rep`, scanning from the left and never letting two replaced occurrences
/// overlap. An empty pattern leaves `s` unchanged.
pub open spec fn replace_all(s: Seq<char>, pat: Seq<char>, rep: Seq<char>) -> Seq<char>
    decreases s.len(),
{
    if pat.len() == 0 || s.len() < pat.len() {
        s
    } else if s.subrange(0, pat.len() as int) == pat {
        rep + replace_all(s.subrange(pat.len() as int, s.len() as int), pat, rep)
    } else {
        seq![s[0]] + replace_all(s.subrange(1, s.len() as int), pat, rep)
    }
}

/// `pat` occurs in `s` starting at index `k`.
pub open spec fn found_at(s: Seq<char>, pat: Seq<char>, k: int) -> bool {
    0 <= k && k + pat.len() <= s.len() && s.subrange(k, k + pat.len()) == pat
}

/// No character of `rep` occurs in `pat`.
pub open spec fn disjoint_chars(rep: Seq<char>, pat: Seq<char>) -> bool {
    forall|i: int, j: int| 0 <= i < rep.len() && 0 <= j < pat.len() ==> rep[i] != pat[j]
}

/// If the replaced string begins with `u`, and `u` does not contain the
/// first character of the (non-empty) replacement, the original string
/// began with `u` too.
proof fn lemma_prefix_comes_from_source(t: Seq<char>, pat: Seq<char>, rep: Seq<char>, u: Seq<char>)
    requires
        pat.len() > 0,
        rep.len() > 0,
        forall|i: int| 0 <= i < u.len() ==> u[i] != rep[0],
        u.len() <= replace_all(t, pat, rep).len(),
        replace_all(t, pat, rep).subrange(0, u.len() as int) == u,
    ensures
        u.len() <= t.len(),
        t.subrange(0, u.len() as int) == u,
    decreases t.len(),
{
    let out = replace_all(t, pat, rep);
    if u.len() == 0 {
        assert(t.subrange(0, 0) == u);
    } else if t.len() < pat.len() {
    } else if t.subrange(0, pat.len() as int) == pat {
        assert(out[0] == rep[0]);
        assert(out.subrange(0, u.len() as int)[0] == u[0]);
    } else {
        let t1 = t.subrange(1, t.len() as int);
        let r = replace_all(t1, pat, rep);
        assert(out == seq![t[0]] + r);
        let u1 = u.subrange(1, u.len() as int);
        assert(r.subrange(0, u1.len() as int) == u1) by {
            assert forall|i: int| 0 <= i < u1.len() implies r.subrange(0, u1.len() as int)[i] == u1[i] by {
                assert(out.subrange(0, u.len() as int)[i + 1] == u[i + 1]);
            }
        }
        lemma_prefix_comes_from_source(t1, pat, rep, u1);
        assert(out.subrange(0, u.len() as int)[0] == u[0]);
        assert(t.subrange(0, u.len() as int) == u) by {
            assert forall|i: int| 0 <= i < u.len() implies t.subrange(0, u.len() as int)[i] == u[i] by {
                if i > 0 {
                    assert(t1.subrange(0, u1.len() as int)[i - 1] == u1[i - 1]);
                }
            }
        }
    }
}

/// Replacing a pattern by a non-empty text that shares no character with the
/// pattern leaves no occurrence of the pattern behind.
pub proof fn lemma_replace_leaves_no_pattern(s: Seq<char>, pat: Seq<char>, rep: Seq<char>)
    requires
        pat.len() > 0,
        rep.len() > 0,
        disjoint_chars(rep, pat),
    ensures
        forall|k: int| !found_at(replace_all(s, pat, rep), pat, k),
    decreases s.len(),
{
    let out = replace_all(s, pat, rep);
    if s.len() < pat.len() {
    } else if s.subrange(0, pat.len() as int) == pat {
        let s1 = s.subrange(pat.len() as int, s.len() as int);
        let r = replace_all(s1, pat, rep);
        lemma_replace_leaves_no_pattern(s1, pat, rep);
        assert(out == rep + r);
        assert forall|k: int| !found_at(out, pat, k) by {
            if found_at(out, pat, k) {
                if k < rep.len() {
                    assert(out.subrange(k, k + pat.len())[0] == pat[0]);
                    assert(rep[k] == pat[0]);
                } else {
                    assert(r.subrange(k - rep.len(), k - rep.len() + pat.len()) =~= out.subrange(
                        k,
                        k + pat.len(),
                    ));
                    assert(found_at(r, pat, k - rep.len()));
                }
            }
        }
    } else {
        let s1 = s.subrange(1, s.len() as int);
        let r = replace_all(s1, pat, rep);
        lemma_replace_leaves_no_pattern(s1, pat, rep);
        assert(out == seq![s[0]] + r);
        assert forall|k: int| !found_at(out, pat, k) by {
            if found_at(out, pat, k) {
                if k == 0 {
                    let u = pat.subrange(1, pat.len() as int);
                    assert(r.subrange(0, u.len() as int) == u) by {
                        assert forall|i: int| 0 <= i < u.len() implies r.subrange(0, u.len() as int)[i]
                            == u[i] by {
                            assert(out.subrange(0, pat.len() as int)[i + 1] == pat[i + 1]);
                        }
                    }
                    assert forall|i: int| 0 <= i < u.len() implies u[i] != rep[0] by {
                        assert(rep[0] != pat[i + 1]);
                    }
                    lemma_prefix_comes_from_source(s1, pat, rep, u);
                    assert(out.subrange(0, pat.len() as int)[0] == pat[0]);
                    assert(s.subrange(0, pat.len() as int) == pat) by {
                        assert forall|i: int| 0 <= i < pat.len() implies s.subrange(0, pat.len() as int)[i]
                            == pat[i] by {
                            if i > 0 {
                                assert(s1.subrange(0, u.len() as int)[i - 1] == u[i - 1]);
                            }
                        }
                    }
                } else {
                    assert(r.subrange(k - 1, k - 1 + pat.len()) =~= out.subrange(k, k + pat.len()));
                    assert(found_at(r, pat, k - 1));
                }
            }
        }
    }
}

/// Replacing a pattern that does not occur in `s` leaves `s` as it is.
pub proof fn lemma_replace_without_pattern(s: Seq<char>, pat: Seq<char>, rep: Seq<char>)
    requires
        pat.len() > 0,
        forall|k: int| !#[trigger] found_at(s, pat, k),
    ensures
        replace_all(s, pat, rep) == s,
    decreases s.len(),
{
    if s.len() >= pat.len() {
        assert(!found_at(s, pat, 0));
        let s1 = s.subrange(1, s.len() as int);
        assert forall|k: int| !#[trigger] found_at(s1, pat, k) by {
            if found_at(s1, pat, k) {
                assert(s.subrange(k + 1, k + 1 + pat.len()) =~= s1.subrange(k, k + pat.len()));
                assert(found_at(s, pat, k + 1));
            }
        }
        lemma_replace_without_pattern(s1, pat, rep);
        assert(seq![s[0]] + s1 =~= s);
    }
}

/// Replacement works on the first occurrence and keeps everything around it:
/// when `s` is `a`, then the pattern, then `b`, and the pattern occurs nowhere
/// starting inside `a`, the result is `a`, then `rep`, then `b` with its own
/// occurrences replaced.
pub proof fn lemma_replace_first_occurrence(a: Seq<char>, b: Seq<char>, pat: Seq<char>, rep: Seq<char>)
    requires
        pat.len() > 0,
        forall|k: int| 0 <= k < a.len() ==> !#[trigger] found_at(a + pat + b, pat, k),
    ensures
        replace_all(a + pat + b, pat, rep) == a + rep + replace_all(b, pat, rep),
    decreases a.len(),
{
    let s = a + pat + b;
    if a.len() == 0 {
        assert(s.subrange(0, pat.len() as int) =~= pat);
        assert(s.subrange(pat.len() as int, s.len() as int) =~= b);
        assert(a + rep =~= rep);
    } else {
        assert(!found_at(s, pat, 0));
        let a1 = a.subrange(1, a.len() as int);
        let s1 = s.subrange(1, s.len() as int);
        assert(s1 =~= a1 + pat + b);
        assert forall|k: int| 0 <= k < a1.len() implies !#[trigger] found_at(a1 + pat + b, pat, k) by {
            if found_at(a1 + pat + b, pat, k) {
                assert(s.subrange(k + 1, k + 1 + pat.len()) =~= s1.subrange(k, k + pat.len()));
                assert(found_at(s, pat, k + 1));
            }
        }
        lemma_replace_first_occurrence(a1, b, pat, rep);
        assert(seq![s[0]] + (a1 + rep + replace_all(b, pat, rep)) =~= a + rep + replace_all(b, pat, rep));
    }
}

/// The number that a string of decimal digits denotes.
pub open spec fn digits_value(s: Seq<char>) -> nat
    decreases s.len(),
{
    if s.len() == 0 {
        0
    } else {
        digits_value(s.drop_last()) * 10 + (s.last() as nat - 48) as nat
    }
}

/// Whether every character of `s` is a decimal digit.
pub open spec fn all_digits(s: Seq<char>) -> bool {
    forall|i: int| 0 <= i < s.len() ==> '0' <= #[trigger] s[i] <= '9'
}

/// The decimal rendering of `n` is a non-empty string of digits without a
/// leading zero (unless `n` is zero) that denotes `n` again.
pub proof fn lemma_decimal_denotes(n: nat)
    ensures
        decimal(n).len() > 0,
        all_digits(decimal(n)),
        digits_value(decimal(n)) == n,
        n > 0 ==> decimal(n)[0] != '0',
    decreases n,
{
    if n >= 10 {
        lemma_decimal_denotes(n / 10);
        let d = decimal(n);
        assert(d.drop_last() == decimal(n / 10));
        assert(d.last() == digit_char(n % 10));
        assert(digit_char(n % 10) as nat == n % 10 + 48);
        assert((n / 10) * 10 + n % 10 == n);
        assert(digits_value(d) == digits_value(decimal(n / 10)) * 10 + n % 10);
    } else {
        let d = decimal(n);
        assert(d.drop_last() == Seq::<char>::empty());
        assert(digit_char(n) as nat == n + 48);
        assert(digits_value(d) == digits_value(d.drop_last()) * 10 + n);
    }
}

/// The characters of `s`, in order.
pub fn chars_of(s: &str) -> (cs: Vec<char>)
    ensures
        cs@ == s@,
{
    let n = s.unicode_len();
    let mut cs: Vec<char> = Vec::new();
    let mut i: usize = 0;
    while i < n
        invariant
            n == s@.len(),
            i <= n,
            cs@ == s@.subrange(0, i as int),
        decreases n - i,
    {
        cs.push(s.get_char(i));
        i = i + 1;
    }
    assert(cs@ == s@.subrange(0, n as int));
    cs
}

/// Whether `a` and `b` hold the same characters.
pub fn str_equals(a: &str, b: &str) -> (r: bool)
    ensures
        r == (a@ == b@),
{
    let x = chars_of(a);
    let y = chars_of(b);
    if x.len() != y.len() {
        return false;
    }
    let mut i: usize = 0;
    while i < x.len()
        invariant
            x@ == a@,
            y@ == b@,
            x.len() == y.len(),
            i <= x.len(),
            x@.subrange(0, i as int) == y@.subrange(0, i as int),
        decreases x.len() - i,
    {
        if x[i] != y[i] {
            assert(a@[i as int] != b@[i as int]);
            return false;
        }
        assert(x@.subrange(0, i + 1) == x@.subrange(0, i as int).push(x@[i as int]));
        assert(y@.subrange(0, i + 1) == y@.subrange(0, i as int).push(y@[i as int]));
        i = i + 1;
    }
    assert(x@ == x@.subrange(0, x.len() as int));
    assert(y@ == y@.subrange(0, y.len() as int));
    true
}

/// The one-character string of the decimal digit `d`.
fn digit_str(d: u32) -> (s: &'static str)
    requires
        d < 10,
    ensures
        s@ == seq![digit_char(d as nat)],
{
    let digits = "0123456789";
    proof {
        reveal_strlit("0123456789");
    }
    let s = digits.substring_char(d as usize, (d + 1) as usize);
    assert(s@ =~= seq![digit_char(d as nat)]);
    s
}

/// The decimal representation of `n`, as `n.to_string()` writes it.
pub fn decimal_string(n: u32) -> (s: String)
    ensures
        s@ == decimal(n as nat),
    decreases n,
{
    if n < 10 {
        String::from_str(digit_str(n))
    } else {
        let mut s = decimal_string(n / 10);
        s.append(digit_str(n % 10));
        s
    }
}

/// Whether `p` occurs in `s` starting at index `i`.
fn occurs_at(s: &Vec<char>, p: &Vec<char>, i: usize) -> (r: bool)
    requires
        i + p.len() <= s.len(),
    ensures
        r == (s@.subrange(i as int, i + p.len()) == p@),
{
    let mut k: usize = 0;
    while k < p.len()
        invariant
            i + p.len() <= s.len(),
            k <= p.len(),
            s@.subrange(i as int, i + k) == p@.subrange(0, k as int),
        decreases p.len() - k,
    {
        if s[i + k] != p[k] {
            assert(s@.subrange(i as int, i + p.len())[k as int] != p@[k as int]);
            return false;
        }
        assert(s@.subrange(i as int, i + k + 1) == s@.subrange(i as int, i + k).push(s@[i + k]));
        assert(p@.subrange(0, k + 1) == p@.subrange(0, k as int).push(p@[k as int]));
        k = k + 1;
    }
    assert(p@ == p@.subrange(0, p.len() as int));
    true
}

/// `s` with every occurrence of the non-empty pattern `pat` replaced by `rep`,
/// as `str::replace` does it.
pub fn replace_str(s: &str, pat: &str, rep: &str) -> (r: String)
    requires
        pat@.len() > 0,
    ensures
        r@ == replace_all(s@, pat@, rep@),
{
    let sv = chars_of(s);
    let pv = chars_of(pat);
    let n = sv.len();
    let plen = pv.len();
    let mut out = String::new();
    let mut i: usize = 0;
    assert(s@.subrange(0, n as int) == s@);
    assert(out@ + replace_all(s@, pat@, rep@) == replace_all(s@, pat@, rep@));
    while i < n
        invariant
            sv@ == s@,
            pv@ == pat@,
            n == sv.len(),
            plen == pv.len(),
            plen > 0,
            i <= n,
            out@ + replace_all(s@.subrange(i as int, n as int), pat@, rep@)
                == replace_all(s@, pat@, rep@),
        decreases n - i,
    {
        let ghost rest = s@.subrange(i as int, n as int);
        if n - i < plen {
            out.append(s.substring_char(i, n));
            assert(replace_all(rest, pat@, rep@) == rest);
            i = n;
        } else if occurs_at(&sv, &pv, i) {
            assert(rest.subrange(0, plen as int) == s@.subrange(i as int, i + plen));
            assert(rest.subrange(plen as int, rest.len() as int)
                == s@.subrange(i + plen, n as int));
            out.append(rep);
            i = i + plen;
        } else {
            assert(rest.subrange(0, plen as int) == s@.subrange(i as int, i + plen));
            assert(rest.subrange(1, rest.len() as int) == s@.subrange(i + 1, n as int));
            assert(seq![rest[0]] == s@.subrange(i as int, i + 1));
            out.append(s.substring_char(i, i + 1));
            i = i + 1;
        }
    }
    assert(s@.subrange(n as int, n as int) == Seq::<char>::empty());
    assert(out@ + Seq::<char>::empty() == out@);
    out
}

} // verus!
