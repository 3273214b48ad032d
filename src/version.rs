use vstd::prelude::*;
use vstd::string::*;

use crate::adapter::Adapter;

verus! {

/// The error of a version string that does not follow the grammar.
#[derive(Debug, Clone, Copy, PartialEq, Eq, Structural)]
pub struct InstanceError;

/// Whether `p` occurs in `s` starting at index `i`.
pub open spec fn matches_at(s: Seq<u8>, p: Seq<u8>, i: int) -> bool {
    0 <= i && i + p.len() <= s.len() && s.subrange(i, i + p.len()) == p
}

/// The first index at or after `i` where `p` occurs in `s`.
pub open spec fn find_from(s: Seq<u8>, p: Seq<u8>, i: int) -> Option<int>
    decreases s.len() + 1 - i,
{
    if i < 0 || i + p.len() > s.len() {
        None
    } else if matches_at(s, p, i) {
        Some(i)
    } else {
        find_from(s, p, i + 1)
    }
}

/// The last index at or before `i` where `p` occurs in `s`.
pub open spec fn find_last_from(s: Seq<u8>, p: Seq<u8>, i: int) -> Option<int>
    decreases i + 1,
{
    if i < 0 {
        None
    } else if matches_at(s, p, i) {
        Some(i)
    } else {
        find_last_from(s, p, i - 1)
    }
}

/// The rightmost occurrence of `p` in `s`.
pub open spec fn find_last(s: Seq<u8>, p: Seq<u8>) -> Option<int> {
    find_last_from(s, p, s.len() - p.len())
}

pub open spec fn opt_index(o: Option<usize>) -> Option<int> {
    match o {
        Some(k) => Some(k as int),
        None => None,
    }
}

/// `"WebGL "`
pub open spec fn web_marker() -> Seq<u8> {
    seq![87u8, 101u8, 98u8, 71u8, 76u8, 32u8]
}

/// `" ES "`
pub open spec fn es_marker() -> Seq<u8> {
    seq![32u8, 69u8, 83u8, 32u8]
}

/// `"GLSL ES "`
pub open spec fn glsl_marker() -> Seq<u8> {
    seq![71u8, 76u8, 83u8, 76u8, 32u8, 69u8, 83u8, 32u8]
}

pub open spec fn space() -> Seq<u8> {
    seq![32u8]
}

pub open spec fn dot() -> Seq<u8> {
    seq![46u8]
}

pub open spec fn is_digit(b: u8) -> bool {
    48 <= b <= 57
}

/// The number that a run of decimal digits denotes.
pub open spec fn digits_value(d: Seq<u8>) -> int
    decreases d.len(),
{
    if d.len() == 0 {
        0
    } else {
        digits_value(d.drop_last()) * 10 + (d.last() - 48)
    }
}

/// `d` without a leading `+`.
pub open spec fn unsigned_digits(d: Seq<u8>) -> Seq<u8> {
    if d.len() > 0 && d[0] == 43 {
        d.drop_first()
    } else {
        d
    }
}

/// What `u8::from_str` makes of `d`: an optional `+`, then one or more
/// decimal digits whose value fits in a `u8`.
pub open spec fn parse_u8(d: Seq<u8>) -> Option<u8> {
    let body = unsigned_digits(d);
    if body.len() > 0 && (forall|i: int| 0 <= i < body.len() ==> is_digit(#[trigger] body[i]))
        && digits_value(body) <= 255 {
        Some(digits_value(body) as u8)
    } else {
        None
    }
}

/// `d` with every trailing `'0'` removed.
pub open spec fn trim_zeros(d: Seq<u8>) -> Seq<u8>
    decreases d.len(),
{
    if d.len() > 0 && d.last() == 48 {
        trim_zeros(d.drop_last())
    } else {
        d
    }
}

/// The minor component as read: `"0"` when it starts with a zero, else the
/// component without its trailing zeros.
pub open spec fn normalize_minor(d: Seq<u8>) -> Seq<u8> {
    if d.len() > 0 && d[0] == 48 {
        seq![48u8]
    } else {
        trim_zeros(d)
    }
}

/// Where the text after the API marker starts, and whether it was the web
/// marker; `None` when no marker is present.
pub open spec fn after_marker(s: Seq<u8>) -> Option<(int, bool)> {
    if matches_at(s, web_marker(), 0) {
        let pos = match find_last(s, web_marker()) {
            Some(p) => p,
            None => 0,
        };
        Some((pos + web_marker().len(), true))
    } else {
        match find_last(s, es_marker()) {
            Some(p) => Some((p + es_marker().len(), false)),
            None => None,
        }
    }
}

/// Where the release starts from `start` on, after a shading-language marker
/// if one follows, and whether there was one.
pub open spec fn after_glsl(s: Seq<u8>, start: int) -> (int, bool) {
    match find_from(s, glsl_marker(), start) {
        Some(p) => (p + glsl_marker().len(), true),
        None => (start, false),
    }
}

/// The end of the release starting at `g`: the next space, or the end.
pub open spec fn release_end(s: Seq<u8>, g: int) -> int {
    match find_from(s, space(), g) {
        Some(i) => i,
        None => s.len() as int,
    }
}

/// The end of the dot-separated component of `s[..e]` that starts at `a`.
pub open spec fn component_end(s: Seq<u8>, a: int, e: int) -> int {
    match find_from(s.subrange(0, e), dot(), a) {
        Some(d) => d,
        None => e,
    }
}

/// The `(major, minor)` pair that a version string denotes, if any.
pub open spec fn version_of(s: Seq<u8>) -> Option<(u8, u8)> {
    match after_marker(s) {
        None => None,
        Some((start, is_web)) => {
            let (g, is_glsl) = after_glsl(s, start);
            let e = release_end(s, g);
            let d1 = component_end(s, g, e);
            let major = parse_u8(s.subrange(g, d1));
            if d1 >= e {
                None
            } else {
                let d2 = component_end(s, d1 + 1, e);
                let minor = parse_u8(normalize_minor(s.subrange(d1 + 1, d2)));
                match (major, minor) {
                    (Some(ma), Some(mi)) => if is_web && !is_glsl {
                        if ma < 255 {
                            Some(((ma + 1) as u8, mi))
                        } else {
                            None
                        }
                    } else {
                        Some((ma, mi))
                    },
                    _ => None,
                }
            }
        },
    }
}

proof fn lemma_find_from_bounds(s: Seq<u8>, p: Seq<u8>, i: int)
    ensures
        find_from(s, p, i) matches Some(k) ==> i <= k && k + p.len() <= s.len() && matches_at(s, p, k),
    decreases s.len() + 1 - i,
{
    if i < 0 || i + p.len() > s.len() {
    } else if matches_at(s, p, i) {
    } else {
        lemma_find_from_bounds(s, p, i + 1);
    }
}

proof fn lemma_find_last_from_bounds(s: Seq<u8>, p: Seq<u8>, i: int)
    ensures
        find_last_from(s, p, i) matches Some(k) ==> 0 <= k <= i && matches_at(s, p, k),
    decreases i + 1,
{
    if i >= 0 && !matches_at(s, p, i) {
        lemma_find_last_from_bounds(s, p, i - 1);
    }
}

/// Tests whether `p` occurs in `s[..hi]` at `i`.
pub(crate) fn bytes_match_at(s: &[u8], hi: usize, p: &[u8], i: usize) -> (r: bool)
    requires
        hi <= s@.len(),
    ensures
        r == matches_at(s@.subrange(0, hi as int), p@, i as int),
{
    if i > hi || p.len() > hi - i {
        return false;
    }
    let mut k: usize = 0;
    while k < p.len()
        invariant
            i + p@.len() <= hi <= s@.len(),
            0 <= k <= p@.len(),
            forall|j: int| 0 <= j < k ==> s@[i + j] == p@[j],
        decreases p@.len() - k,
    {
        if s[i + k] != p[k] {
            assert(s@.subrange(0, hi as int).subrange(i as int, i + p@.len())[k as int]
                != p@[k as int]);
            return false;
        }
        k = k + 1;
    }
    assert(s@.subrange(0, hi as int).subrange(i as int, i + p@.len()) =~= p@);
    true
}

/// The first occurrence of `p` in `s[..hi]` at or after `from`.
pub(crate) fn find_in(s: &[u8], hi: usize, p: &[u8], from: usize) -> (r: Option<usize>)
    requires
        hi <= s@.len(),
    ensures
        opt_index(r) == find_from(s@.subrange(0, hi as int), p@, from as int),
{
    let ghost t = s@.subrange(0, hi as int);
    if from > hi {
        return None;
    }
    let mut i: usize = from;
    loop
        invariant
            hi <= s@.len(),
            t == s@.subrange(0, hi as int),
            from <= i <= hi,
            find_from(t, p@, from as int) == find_from(t, p@, i as int),
        decreases hi - i,
    {
        if bytes_match_at(s, hi, p, i) {
            return Some(i);
        }
        if i == hi {
            assert(find_from(t, p@, i + 1) is None);
            return None;
        }
        i = i + 1;
    }
}

/// The rightmost occurrence of `p` in `s`.
fn rfind_in(s: &[u8], p: &[u8]) -> (r: Option<usize>)
    ensures
        opt_index(r) == find_last(s@, p@),
{
    if p.len() > s.len() {
        assert(find_last_from(s@, p@, s@.len() - p@.len()) is None);
        return None;
    }
    assert(s@.subrange(0, s@.len() as int) =~= s@);
    let mut i: usize = s.len() - p.len();
    loop
        invariant
            i <= s@.len(),
            s@.subrange(0, s@.len() as int) == s@,
            find_last(s@, p@) == find_last_from(s@, p@, i as int),
        decreases i,
    {
        if bytes_match_at(s, s.len(), p, i) {
            return Some(i);
        }
        if i == 0 {
            assert(find_last_from(s@, p@, -1) is None);
            return None;
        }
        i = i - 1;
    }
}


proof fn lemma_digits_mono(d: Seq<u8>, j: int)
    requires
        0 <= j <= d.len(),
        forall|i: int| 0 <= i < d.len() ==> is_digit(#[trigger] d[i]),
    ensures
        digits_value(d.subrange(0, j)) <= digits_value(d),
        0 <= digits_value(d),
    decreases d.len(),
{
    if d.len() > 0 {
        let e = d.drop_last();
        assert forall|i: int| 0 <= i < e.len() implies is_digit(#[trigger] e[i]) by {
            assert(e[i] == d[i]);
        }
        if j == d.len() {
            assert(d.subrange(0, j) =~= d);
            lemma_digits_mono(e, 0);
        } else {
            assert(e.subrange(0, j) =~= d.subrange(0, j));
            lemma_digits_mono(e, j);
        }
        assert(is_digit(d[d.len() - 1]));
    } else {
        assert(d.subrange(0, j) =~= d);
    }
}

/// Reads `s[a..b]` as `u8::from_str` would.
fn parse_u8_at(s: &[u8], a: usize, b: usize) -> (r: Option<u8>)
    requires
        a <= b <= s@.len(),
    ensures
        r == parse_u8(s@.subrange(a as int, b as int)),
{
    let ghost d = s@.subrange(a as int, b as int);
    let mut k: usize = a;
    if k < b && s[k] == 43 {
        k = k + 1;
    }
    let ghost body = s@.subrange(k as int, b as int);
    assert(body =~= unsigned_digits(d));
    if k == b {
        assert(body.len() == 0);
        assert(parse_u8(d) is None);
        return None;
    }
    let mut acc: u32 = 0;
    let mut i: usize = k;
    while i < b
        invariant
            a <= k < b <= s@.len(),
            body == s@.subrange(k as int, b as int),
            body == unsigned_digits(d),
            d == s@.subrange(a as int, b as int),
            k <= i <= b,
            acc == digits_value(s@.subrange(k as int, i as int)),
            acc <= 255,
            forall|j: int| k <= j < i ==> is_digit(#[trigger] s@[j]),
        decreases b - i,
    {
        let c = s[i];
        if c < 48 || c > 57 {
            assert(!is_digit(body[i - k]));
            assert(parse_u8(d) is None);
            return None;
        }
        let ghost pre = s@.subrange(k as int, i + 1);
        assert(pre.drop_last() =~= s@.subrange(k as int, i as int));
        let next: u32 = acc * 10 + (c - 48) as u32;
        if next > 255 {
            assert(pre.last() == c);
            assert(digits_value(pre) == next);
            proof {
                if forall|j: int| 0 <= j < body.len() ==> is_digit(#[trigger] body[j]) {
                    assert(body.subrange(0, i + 1 - k) =~= pre);
                    lemma_digits_mono(body, i + 1 - k);
                }
            }
            return None;
        }
        acc = next;
        i = i + 1;
    }
    assert(s@.subrange(k as int, b as int) =~= body);
    assert forall|j: int| 0 <= j < body.len() implies is_digit(#[trigger] body[j]) by {
        assert(body[j] == s@[k + j]);
    }
    Some(acc as u8)
}

/// Reads the minor component `s[a..b]`.
fn parse_minor_at(s: &[u8], a: usize, b: usize) -> (r: Option<u8>)
    requires
        a <= b <= s@.len(),
    ensures
        r == parse_u8(normalize_minor(s@.subrange(a as int, b as int))),
{
    let ghost d = s@.subrange(a as int, b as int);
    if a < b && s[a] == 48 {
        let ghost z = seq![48u8];
        assert(z.drop_last() =~= Seq::<u8>::empty());
        assert(digits_value(Seq::<u8>::empty()) == 0);
        assert(z.last() == 48);
        assert(digits_value(z) == 0);
        return Some(0);
    }
    let mut t: usize = b;
    while t > a && s[t - 1] == 48
        invariant
            a <= t <= b <= s@.len(),
            trim_zeros(d) == trim_zeros(s@.subrange(a as int, t as int)),
        decreases t,
    {
        assert(s@.subrange(a as int, t as int).drop_last() =~= s@.subrange(a as int, t - 1));
        t = t - 1;
    }
    parse_u8_at(s, a, t)
}

/// The decimal digits of `n`, without leading zeros.
pub open spec fn decimal(n: nat) -> Seq<u8>
    decreases n,
{
    if n < 10 {
        seq![(48 + n) as u8]
    } else {
        decimal(n / 10).push((48 + n % 10) as u8)
    }
}

proof fn lemma_decimal(n: nat)
    ensures
        decimal(n).len() > 0,
        forall|i: int| 0 <= i < decimal(n).len() ==> is_digit(#[trigger] decimal(n)[i]),
        digits_value(decimal(n)) == n,
        n > 0 ==> decimal(n)[0] != 48,
        n == 0 ==> decimal(n) == seq![48u8],
        decimal(n).last() == 48 + n % 10,
    decreases n,
{
    if n < 10 {
        let d = decimal(n);
        assert(d.drop_last() =~= Seq::<u8>::empty());
        assert(digits_value(Seq::<u8>::empty()) == 0);
    } else {
        lemma_decimal(n / 10);
        let d = decimal(n);
        assert(d.drop_last() =~= decimal(n / 10));
        assert(d[0] == decimal(n / 10)[0]);
        assert forall|i: int| 0 <= i < d.len() implies is_digit(#[trigger] d[i]) by {
            if i < d.len() - 1 {
                assert(d[i] == decimal(n / 10)[i]);
            }
        }
    }
}

proof fn lemma_find_from_none(s: Seq<u8>, p: Seq<u8>, i: int)
    requires
        forall|j: int| i <= j && j + p.len() <= s.len() ==> !#[trigger] matches_at(s, p, j),
    ensures
        find_from(s, p, i) is None,
    decreases s.len() + 1 - i,
{
    if i >= 0 && i + p.len() <= s.len() {
        lemma_find_from_none(s, p, i + 1);
    }
}

proof fn lemma_find_from_at(s: Seq<u8>, p: Seq<u8>, i: int, k: int)
    requires
        0 <= i <= k,
        matches_at(s, p, k),
        forall|j: int| i <= j < k ==> !#[trigger] matches_at(s, p, j),
    ensures
        find_from(s, p, i) == Some(k),
    decreases k - i,
{
    if i < k {
        lemma_find_from_at(s, p, i + 1, k);
    }
}

proof fn lemma_find_last_at(s: Seq<u8>, p: Seq<u8>, i: int, k: int)
    requires
        0 <= k <= i,
        matches_at(s, p, k),
        forall|j: int| k < j <= i ==> !#[trigger] matches_at(s, p, j),
    ensures
        find_last_from(s, p, i) == Some(k),
    decreases i - k,
{
    if k < i {
        lemma_find_last_at(s, p, i - 1, k);
    }
}

/// A pattern cannot start where `s` holds another byte than its first.
proof fn lemma_no_match_at(s: Seq<u8>, p: Seq<u8>, j: int)
    requires
        p.len() > 0,
        0 <= j < s.len(),
        s[j] != p[0],
    ensures
        !matches_at(s, p, j),
{
    if j + p.len() <= s.len() {
        assert(s.subrange(j, j + p.len())[0] == s[j]);
    }
}

/// Any text, the `" ES "` marker and `major.minor` in decimal read as
/// `(major, minor)`, unless the text starts with the WebGL marker or the
/// minor number ends in a zero that the reading drops.
pub proof fn lemma_marker_major_minor(prefix: Seq<u8>, major: u8, minor: u8)
    requires
        !matches_at(
            prefix + es_marker() + decimal(major as nat) + dot() + decimal(minor as nat),
            web_marker(),
            0,
        ),
        minor == 0 || minor % 10 != 0,
    ensures
        version_of(prefix + es_marker() + decimal(major as nat) + dot() + decimal(minor as nat))
            == Some((major, minor)),
{
    let d1 = decimal(major as nat);
    let d2 = decimal(minor as nat);
    let s = prefix + es_marker() + d1 + dot() + d2;
    lemma_decimal(major as nat);
    lemma_decimal(minor as nat);
    let n = prefix.len() as int;
    let g = n + 4;
    let dp = g + d1.len();
    assert(s.len() == dp + 1 + d2.len());
    assert forall|j: int| g <= j < dp implies #[trigger] s[j] == d1[j - g] by {}
    assert(s[dp] == 46);
    assert forall|j: int| dp < j < s.len() implies #[trigger] s[j] == d2[j - dp - 1] by {}
    assert forall|j: int| g <= j < s.len() implies is_digit(#[trigger] s[j]) || s[j] == 46 by {
        if j < dp {
            assert(s[j] == d1[j - g]);
        } else if j > dp {
            assert(s[j] == d2[j - dp - 1]);
        }
    }
    // The marker: the last `" ES "` is the one before the numbers.
    assert(s.subrange(n, n + 4) =~= es_marker());
    assert(s[n + 1] == 69);
    assert(s[n + 2] == 83);
    assert(s[n + 3] == 32);
    assert forall|j: int| n < j <= s.len() - 4 implies !#[trigger] matches_at(s, es_marker(), j) by {
        if j == n + 3 {
            if matches_at(s, es_marker(), j) {
                assert(s.subrange(j, j + 4)[1] == s[g]);
            }
        } else {
            lemma_no_match_at(s, es_marker(), j);
        }
    }
    lemma_find_last_at(s, es_marker(), s.len() - 4, n);
    assert(after_marker(s) == Some((g, false)));
    // No shading-language marker and no space follow.
    assert forall|j: int| g <= j && j + glsl_marker().len() <= s.len() implies !#[trigger] matches_at(
        s,
        glsl_marker(),
        j,
    ) by {
        lemma_no_match_at(s, glsl_marker(), j);
    }
    lemma_find_from_none(s, glsl_marker(), g);
    assert(after_glsl(s, g) == (g, false));
    assert forall|j: int| g <= j && j + 1 <= s.len() implies !#[trigger] matches_at(s, space(), j) by {
        lemma_no_match_at(s, space(), j);
    }
    lemma_find_from_none(s, space(), g);
    assert(release_end(s, g) == s.len());
    // The dot splits the release.
    let t = s.subrange(0, s.len() as int);
    assert(t =~= s);
    assert(s.subrange(dp, dp + 1) =~= dot());
    assert forall|j: int| g <= j < dp implies !#[trigger] matches_at(s, dot(), j) by {
        lemma_no_match_at(s, dot(), j);
    }
    lemma_find_from_at(s, dot(), g, dp);
    assert(component_end(s, g, s.len() as int) == dp);
    assert forall|j: int| dp + 1 <= j && j + 1 <= s.len() implies !#[trigger] matches_at(s, dot(), j) by {
        lemma_no_match_at(s, dot(), j);
    }
    lemma_find_from_none(s, dot(), dp + 1);
    assert(component_end(s, dp + 1, s.len() as int) == s.len());
    // Both numbers read back.
    assert(s.subrange(g, dp) =~= d1);
    assert(s.subrange(dp + 1, s.len() as int) =~= d2);
    assert(unsigned_digits(d1) == d1);
    assert(parse_u8(d1) == Some(major));
    if minor == 0 {
        assert(normalize_minor(d2) == seq![48u8]);
        assert(parse_u8(d2) == Some(minor));
    } else {
        assert(trim_zeros(d2) == d2);
        assert(normalize_minor(d2) == d2);
    }
    assert(unsigned_digits(d2) == d2);
    assert(parse_u8(normalize_minor(d2)) == Some(minor));
}

proof fn lemma_find_last_none(s: Seq<u8>, p: Seq<u8>, i: int)
    requires
        forall|j: int| 0 <= j <= i ==> !#[trigger] matches_at(s, p, j),
    ensures
        find_last_from(s, p, i) is None,
    decreases i + 1,
{
    if i >= 0 {
        lemma_find_last_none(s, p, i - 1);
    }
}

/// A string that neither starts with the WebGL marker nor holds the
/// `" ES "` marker does not read as a version.
pub proof fn lemma_no_marker_no_version(s: Seq<u8>)
    requires
        !matches_at(s, web_marker(), 0),
        forall|j: int| !#[trigger] matches_at(s, es_marker(), j),
    ensures
        version_of(s) is None,
{
    lemma_find_last_none(s, es_marker(), s.len() - 4);
}

/// Finds where the text after the API marker starts.
fn marker_end(s: &[u8]) -> (r: Option<(usize, bool)>)
    ensures
        match r {
            Some((p, w)) => after_marker(s@) == Some((p as int, w)) && p <= s@.len(),
            None => after_marker(s@) is None,
        },
{
    let ghost sv = s@;
    let web: [u8; 6] = [87, 101, 98, 71, 76, 32];
    let es: [u8; 4] = [32, 69, 83, 32];
    assert(web@ =~= web_marker());
    assert(es@ =~= es_marker());
    assert(sv.subrange(0, sv.len() as int) =~= sv);
    if bytes_match_at(s, s.len(), web.as_slice(), 0) {
        let pos = match rfind_in(s, web.as_slice()) {
            Some(p) => p,
            None => 0,
        };
        proof {
            lemma_find_last_from_bounds(sv, web_marker(), sv.len() - 6);
        }
        Some((pos + 6, true))
    } else {
        match rfind_in(s, es.as_slice()) {
            Some(p) => {
                proof {
                    lemma_find_last_from_bounds(sv, es_marker(), sv.len() - 4);
                }
                Some((p + 4, false))
            },
            None => None,
        }
    }
}

/// Skips a shading-language marker that follows `start`.
fn glsl_end(s: &[u8], start: usize) -> (r: (usize, bool))
    requires
        start <= s@.len(),
    ensures
        after_glsl(s@, start as int) == (r.0 as int, r.1),
        start <= r.0 <= s@.len(),
{
    let glsl: [u8; 8] = [71, 76, 83, 76, 32, 69, 83, 32];
    assert(glsl@ =~= glsl_marker());
    assert(s@.subrange(0, s@.len() as int) =~= s@);
    proof {
        lemma_find_from_bounds(s@, glsl_marker(), start as int);
    }
    match find_in(s, s.len(), glsl.as_slice(), start) {
        Some(p) => (p + 8, true),
        None => (start, false),
    }
}

/// The end of the release that starts at `g`.
fn release_end_at(s: &[u8], g: usize) -> (r: usize)
    requires
        g <= s@.len(),
    ensures
        release_end(s@, g as int) == r,
        g <= r <= s@.len(),
{
    let sp: [u8; 1] = [32];
    assert(sp@ =~= space());
    assert(s@.subrange(0, s@.len() as int) =~= s@);
    proof {
        lemma_find_from_bounds(s@, space(), g as int);
    }
    match find_in(s, s.len(), sp.as_slice(), g) {
        Some(i) => i,
        None => s.len(),
    }
}

/// The end of the dot-separated component of `s[..e]` that starts at `a`.
fn component_end_at(s: &[u8], a: usize, e: usize) -> (r: usize)
    requires
        a <= e <= s@.len(),
    ensures
        component_end(s@, a as int, e as int) == r,
        a <= r <= e,
{
    let dt: [u8; 1] = [46];
    assert(dt@ =~= dot());
    proof {
        lemma_find_from_bounds(s@.subrange(0, e as int), dot(), a as int);
    }
    match find_in(s, e, dt.as_slice(), a) {
        Some(d) => d,
        None => e,
    }
}

impl Adapter {
    /// Reads `(major, minor)` out of a GL version string such as
    /// `"OpenGL ES 3.1 vendor text"`, `"GLSL ES 3.20"` or
    /// `"WebGL 2.0 (OpenGL ES 3.0)"`; a WebGL version that is not a shading
    /// language version is reported as the GLES version it is built on.
    pub fn parse_version(src: &str) -> (r: Result<(u8, u8), InstanceError>)
        ensures
            match r {
                Ok(v) => version_of(src.spec_bytes()) == Some(v),
                Err(_) => version_of(src.spec_bytes()) is None,
            },
    {
        let s = src.as_bytes();
        let (start, is_web) = match marker_end(s) {
            Some(m) => m,
            None => {
                return Err(InstanceError);
            },
        };
        let (g, is_glsl) = glsl_end(s, start);
        let e = release_end_at(s, g);
        let d1 = component_end_at(s, g, e);
        if d1 >= e {
            return Err(InstanceError);
        }
        let major = parse_u8_at(s, g, d1);
        let d2 = component_end_at(s, d1 + 1, e);
        let minor = parse_minor_at(s, d1 + 1, d2);
        match (major, minor) {
            (Some(ma), Some(mi)) => {
                if is_web && !is_glsl {
                    if ma < 255 {
                        Ok((ma + 1, mi))
                    } else {
                        Err(InstanceError)
                    }
                } else {
                    Ok((ma, mi))
                }
            },
            _ => Err(InstanceError),
        }
    }
}

} // verus!
