//! Case-insensitive file-name globs with `*` (any run) and `?` (any one byte).
use vstd::prelude::*;
use vstd::string::StringSliceAdditionalSpecFns;

verus! {

/// ASCII lower-casing of one byte.
pub open spec fn lower_byte(b: u8) -> u8 {
    if 65 <= b && b <= 90 {
        (b + 32) as u8
    } else {
        b
    }
}

/// Byte-wise ASCII lower-casing.
pub open spec fn lower_bytes(s: Seq<u8>) -> Seq<u8> {
    s.map_values(|b: u8| lower_byte(b))
}

/// Whether `p[i..]` matches `n[j..]`, where `*` matches any run of bytes and `?`
/// any single byte; every other pattern byte matches itself.
pub open spec fn glob_from(p: Seq<u8>, n: Seq<u8>, i: int, j: int) -> bool
    decreases p.len() - i, n.len() - j,
{
    if i >= p.len() {
        j >= n.len()
    } else if p[i] == 42u8 {
        glob_from(p, n, i + 1, j) || (j < n.len() && glob_from(p, n, i, j + 1))
    } else {
        j < n.len() && (p[i] == 63u8 || p[i] == n[j]) && glob_from(p, n, i + 1, j + 1)
    }
}

/// Whether the file name matches the pattern, ASCII case-insensitively.
pub open spec fn glob_ci(pattern: Seq<u8>, name: Seq<u8>) -> bool {
    glob_from(lower_bytes(pattern), lower_bytes(name), 0, 0)
}

/// No `*` in `p[a..a + len]`.
pub open spec fn no_star(p: Seq<u8>, a: int, len: int) -> bool {
    forall|k: int| 0 <= k < len ==> #[trigger] p[a + k] != 42u8
}

/// `p[a..a + len]` matches `n[b..b + len]` position by position.
pub open spec fn literal(p: Seq<u8>, n: Seq<u8>, a: int, b: int, len: int) -> bool {
    forall|k: int| 0 <= k < len ==> (#[trigger] p[a + k] == 63u8 || p[a + k] == n[b + k])
}

proof fn lemma_block(p: Seq<u8>, n: Seq<u8>, a: int, b: int, len: int)
    requires
        0 <= a,
        0 <= b <= n.len(),
        0 <= len,
        a + len <= p.len(),
        no_star(p, a, len),
    ensures
        glob_from(p, n, a, b) == (b + len <= n.len() && literal(p, n, a, b, len) && glob_from(
            p,
            n,
            a + len,
            b + len,
        )),
    decreases len,
{
    if len > 0 {
        assert(p[a + 0] != 42u8);
        assert(glob_from(p, n, a, b) == (b < n.len() && (p[a] == 63u8 || p[a] == n[b])
            && glob_from(p, n, a + 1, b + 1)));
        assert(no_star(p, a + 1, len - 1)) by {
            assert forall|k: int| 0 <= k < len - 1 implies #[trigger] p[a + 1 + k] != 42u8 by {
                let m = k + 1;
                assert(p[a + m] != 42u8);
                assert(a + m == a + 1 + k);
            }
        }
        if b < n.len() {
            lemma_block(p, n, a + 1, b + 1, len - 1);
        }
        let head = p[a] == 63u8 || p[a] == n[b];
        assert(literal(p, n, a, b, len) == (head && literal(p, n, a + 1, b + 1, len - 1))) by {
            if head && literal(p, n, a + 1, b + 1, len - 1) {
                assert forall|k: int| 0 <= k < len implies (#[trigger] p[a + k] == 63u8 || p[a
                    + k] == n[b + k]) by {
                    if k > 0 {
                        let m = k - 1;
                        assert(p[a + 1 + m] == 63u8 || p[a + 1 + m] == n[b + 1 + m]);
                        assert(a + 1 + m == a + k);
                        assert(b + 1 + m == b + k);
                    }
                }
            }
            if literal(p, n, a, b, len) {
                assert(p[a + 0] == 63u8 || p[a + 0] == n[b + 0]);
                assert forall|k: int| 0 <= k < len - 1 implies (#[trigger] p[a + 1 + k] == 63u8
                    || p[a + 1 + k] == n[b + 1 + k]) by {
                    let m = k + 1;
                    assert(p[a + m] == 63u8 || p[a + m] == n[b + m]);
                    assert(a + m == a + 1 + k);
                    assert(b + m == b + 1 + k);
                }
            }
        }
    }
}

proof fn lemma_star_mono(p: Seq<u8>, n: Seq<u8>, s: int, x: int, y: int)
    requires
        0 <= s < p.len(),
        p[s] == 42u8,
        0 <= y <= x <= n.len(),
        glob_from(p, n, s, x),
    ensures
        glob_from(p, n, s, y),
    decreases x - y,
{
    if y < x {
        lemma_star_mono(p, n, s, x, y + 1);
    }
}

proof fn lemma_star_shift_fwd(p: Seq<u8>, n: Seq<u8>, s: int, q: int, sf: int, x: int)
    requires
        0 <= s < q < p.len(),
        p[s] == 42u8,
        p[q] == 42u8,
        no_star(p, s + 1, q - s - 1),
        0 <= sf <= x <= n.len(),
        sf + (q - s - 1) <= n.len(),
        glob_from(p, n, s, x),
    ensures
        glob_from(p, n, q, sf + (q - s - 1)),
    decreases n.len() - x,
{
    let len = q - s - 1;
    if glob_from(p, n, s + 1, x) {
        lemma_block(p, n, s + 1, x, len);
        lemma_star_mono(p, n, q, x + len, sf + len);
    } else {
        lemma_star_shift_fwd(p, n, s, q, sf, x + 1);
    }
}

proof fn lemma_star_tail_false(p: Seq<u8>, n: Seq<u8>, s: int, len: int, x: int)
    requires
        0 <= s,
        0 <= len,
        s + 1 + len <= p.len(),
        p[s] == 42u8,
        no_star(p, s + 1, len),
        0 <= x <= n.len(),
        x + len > n.len(),
    ensures
        !glob_from(p, n, s, x),
    decreases n.len() - x,
{
    lemma_block(p, n, s + 1, x, len);
    if x < n.len() {
        lemma_star_tail_false(p, n, s, len, x + 1);
    }
}

/// ASCII upper-casing of one byte.
pub open spec fn upper_byte(b: u8) -> u8 {
    if 97 <= b && b <= 122 {
        (b - 32) as u8
    } else {
        b
    }
}

/// Byte-wise ASCII upper-casing.
pub open spec fn upper_bytes(s: Seq<u8>) -> Seq<u8> {
    s.map_values(|b: u8| upper_byte(b))
}

/// The pattern holds neither `*` nor `?`.
pub open spec fn is_literal_pattern(p: Seq<u8>) -> bool {
    forall|k: int| 0 <= k < p.len() ==> #[trigger] p[k] != 42u8 && p[k] != 63u8
}

/// A pattern without wildcards matches exactly the names equal to it up to
/// ASCII case.
pub proof fn lemma_literal_pattern_matches_exactly(pattern: Seq<u8>, name: Seq<u8>)
    requires
        is_literal_pattern(pattern),
    ensures
        glob_ci(pattern, name) <==> lower_bytes(pattern) == lower_bytes(name),
{
    let lp = lower_bytes(pattern);
    let ln = lower_bytes(name);
    let len = lp.len() as int;
    assert(no_star(lp, 0, len)) by {
        assert forall|k: int| 0 <= k < len implies #[trigger] lp[0 + k] != 42u8 by {
            assert(pattern[k] != 42u8);
        }
    }
    lemma_block(lp, ln, 0, 0, len);
    if glob_ci(pattern, name) {
        assert(len <= ln.len());
        assert(glob_from(lp, ln, len, len));
        assert(ln.len() == len);
        assert forall|k: int| 0 <= k < len implies lp[k] == ln[k] by {
            assert(lp[0 + k] == 63u8 || lp[0 + k] == ln[0 + k]);
            assert(pattern[k] != 63u8);
        }
        assert(lp =~= ln);
    }
    if lp == ln {
        assert(literal(lp, ln, 0, 0, len)) by {
            assert forall|k: int| 0 <= k < len implies (#[trigger] lp[0 + k] == 63u8 || lp[0
                + k] == ln[0 + k]) by {}
        }
    }
}

proof fn lemma_star_matches_from(n: Seq<u8>, j: int)
    requires
        0 <= j <= n.len(),
    ensures
        glob_from(seq![42u8], n, 0, j),
    decreases n.len() - j,
{
    let p = seq![42u8];
    assert(glob_from(p, n, 1, n.len() as int));
    if j < n.len() {
        lemma_star_matches_from(n, j + 1);
    }
}

/// The pattern `*` matches every name.
pub proof fn lemma_star_matches_everything(name: Seq<u8>)
    ensures
        glob_ci(seq![42u8], name),
{
    assert(lower_bytes(seq![42u8]) =~= seq![42u8]);
    lemma_star_matches_from(lower_bytes(name), 0);
}

/// The pattern `?` never matches the empty name.
pub proof fn lemma_question_mark_needs_a_byte()
    ensures
        !glob_ci(seq![63u8], Seq::<u8>::empty()),
{
    assert(lower_bytes(seq![63u8]) =~= seq![63u8]);
    assert(lower_bytes(Seq::<u8>::empty()) =~= Seq::<u8>::empty());
}

/// Matching ignores ASCII case: an upper-cased pattern matches a lower-cased
/// name exactly when the original pattern matches the original name.
pub proof fn lemma_match_ignores_case(pattern: Seq<u8>, name: Seq<u8>)
    ensures
        glob_ci(upper_bytes(pattern), lower_bytes(name)) == glob_ci(pattern, name),
{
    assert(lower_bytes(upper_bytes(pattern)) =~= lower_bytes(pattern));
    assert(lower_bytes(lower_bytes(name)) =~= lower_bytes(name));
}

/// Byte-wise ASCII lower-casing of a byte slice.
fn lower_bytes_vec(b: &[u8]) -> (r: Vec<u8>)
    ensures
        r@ == lower_bytes(b@),
{
    let n = b.len();
    let mut out: Vec<u8> = Vec::new();
    let mut i: usize = 0;
    while i < n
        invariant
            n == b@.len(),
            i <= n,
            out@ == lower_bytes(b@).subrange(0, i as int),
        decreases n - i,
    {
        let c = b[i];
        let l = if 65 <= c && c <= 90 {
            c + 32
        } else {
            c
        };
        out.push(l);
        proof {
            assert(out@ =~= lower_bytes(b@).subrange(0, i + 1));
        }
        i = i + 1;
    }
    proof {
        assert(lower_bytes(b@).subrange(0, n as int) =~= lower_bytes(b@));
    }
    out
}

/// Case-insensitive glob match supporting `*` (any run) and `?` (any one byte).
pub fn glob_matches_ci(pattern: &str, file_name: &str) -> (r: bool)
    ensures
        r == glob_ci(pattern.spec_bytes(), file_name.spec_bytes()),
{
    let pat = lower_bytes_vec(pattern.as_bytes());
    let name = lower_bytes_vec(file_name.as_bytes());
    let ghost gp = pat@;
    let ghost gn = name@;
    let ghost result = glob_from(gp, gn, 0, 0);
    let plen = pat.len();
    let nlen = name.len();
    let mut p: usize = 0;
    let mut f: usize = 0;
    let mut star: Option<usize> = None;
    let mut star_f: usize = 0;
    while f < nlen
        invariant
            gp == pat@,
            gn == name@,
            gp == lower_bytes(pattern.spec_bytes()),
            gn == lower_bytes(file_name.spec_bytes()),
            plen == gp.len(),
            nlen == gn.len(),
            result == glob_from(gp, gn, 0, 0),
            p <= plen,
            f <= nlen,
            star_f <= f,
            match star {
                None => result == glob_from(gp, gn, p as int, f as int),
                Some(s) => {
                    &&& s < p
                    &&& gp[s as int] == 42u8
                    &&& p - s - 1 == f - star_f
                    &&& no_star(gp, s + 1, p - s - 1)
                    &&& literal(gp, gn, s + 1, star_f as int, p - s - 1)
                    &&& result == glob_from(gp, gn, s as int, star_f as int)
                },
            },
        decreases nlen - star_f, nlen - f, plen - p,
    {
        if p < plen && pat[p] != 42 && (pat[p] == 63 || pat[p] == name[f]) {
            proof {
                match star {
                    None => {},
                    Some(s) => {
                        let len = p - s - 1;
                        assert(no_star(gp, s + 1, len + 1)) by {
                            assert forall|k: int| 0 <= k < len + 1 implies #[trigger] gp[s + 1
                                + k] != 42u8 by {
                                if k == len {
                                    assert(s + 1 + k == p);
                                }
                            }
                        }
                        assert(literal(gp, gn, s + 1, star_f as int, len + 1)) by {
                            assert forall|k: int| 0 <= k < len + 1 implies (#[trigger] gp[s + 1
                                + k] == 63u8 || gp[s + 1 + k] == gn[star_f + k]) by {
                                if k == len {
                                    assert(s + 1 + k == p);
                                    assert(star_f + k == f);
                                }
                            }
                        }
                    },
                }
            }
            p = p + 1;
            f = f + 1;
        } else if p < plen && pat[p] == 42 {
            proof {
                match star {
                    None => {},
                    Some(s) => {
                        let len = p - s - 1;
                        lemma_block(gp, gn, s + 1, star_f as int, len);
                        if glob_from(gp, gn, s as int, star_f as int) {
                            lemma_star_shift_fwd(
                                gp,
                                gn,
                                s as int,
                                p as int,
                                star_f as int,
                                star_f as int,
                            );
                        }
                    },
                }
            }
            star = Some(p);
            star_f = f;
            p = p + 1;
        } else if star.is_some() {
            let sp = star.unwrap();
            proof {
                let len = p - sp - 1;
                lemma_block(gp, gn, sp + 1, star_f as int, len);
            }
            p = sp + 1;
            star_f = star_f + 1;
            f = star_f;
        } else {
            proof {
                if p < plen {
                    assert(gp[p as int] != 42u8);
                }
                assert(star.is_none());
                assert(!glob_from(gp, gn, p as int, f as int));
            }
            return false;
        }
    }
    proof {
        match star {
            None => {},
            Some(s) => {
                let len = p - s - 1;
                lemma_block(gp, gn, s + 1, star_f as int, len);
                if star_f < nlen {
                    lemma_star_tail_false(gp, gn, s as int, len, star_f + 1);
                }
            },
        }
    }
    while p < plen && pat[p] == 42
        invariant
            gp == pat@,
            gn == name@,
            gp == lower_bytes(pattern.spec_bytes()),
            gn == lower_bytes(file_name.spec_bytes()),
            plen == gp.len(),
            nlen == gn.len(),
            f == nlen,
            p <= plen,
            result == glob_from(gp, gn, p as int, f as int),
        decreases plen - p,
    {
        p = p + 1;
    }
    p == plen
}

} // verus!
