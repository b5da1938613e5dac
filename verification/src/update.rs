//! Self-update via GitHub Releases: release metadata, version comparison,
//! asset selection and the staged in-place swap.
//!
//! Fetching the release over HTTP and reading its JSON are I/O and happen
//! outside this module; [`check`] receives the parsed release and decides.

use vstd::prelude::*;

use crate::text::{
    chars_of, contains_exec, contains_seq, decimal, ends_with_exec, ends_with_seq, is_white_space,
    leading_ws, trailing_ws,
    lemma_trailing_ws, push_decimal, string_of, sub_chars, trailing_ws_exec, trim, trim_chars,
    white_space,
    trim_end,
};

verus! {

// ---------------------------------------------------------------------------
// Version strings
// ---------------------------------------------------------------------------

pub open spec fn is_v(c: char) -> bool {
    c == 'v' || c == 'V'
}

/// A character stripped from the front of a tag: a `v`/`V` or white space.
pub open spec fn is_v_or_space(c: char) -> bool {
    is_v(c) || is_white_space(c)
}

/// Number of leading characters that are `v`/`V` or white space.
pub open spec fn leading_v(s: Seq<char>) -> nat
    decreases s.len(),
{
    if s.len() > 0 && is_v_or_space(s[0]) {
        1 + leading_v(s.drop_first())
    } else {
        0
    }
}

/// A tag with its leading `v`/`V` and its surrounding white space removed:
/// every `v`, `V` or white-space character at the front, then the white
/// space at the end.
pub open spec fn spec_normalize_version(tag: Seq<char>) -> Seq<char> {
    trim_end(tag.skip(leading_v(tag) as int))
}

pub proof fn lemma_leading_v(s: Seq<char>)
    ensures
        leading_v(s) <= s.len(),
        leading_v(s) < s.len() ==> !is_v_or_space(s[leading_v(s) as int]),
    decreases s.len(),
{
    if s.len() > 0 && is_v_or_space(s[0]) {
        lemma_leading_v(s.drop_first());
    }
}

pub proof fn lemma_leading_v_char(s: Seq<char>, k: nat)
    requires
        k <= s.len(),
        forall|i: int| 0 <= i < k ==> is_v_or_space(#[trigger] s[i]),
        k < s.len() ==> !is_v_or_space(s[k as int]),
    ensures
        leading_v(s) == k,
    decreases s.len(),
{
    if k > 0 {
        assert(is_v_or_space(s[0]));
        let t = s.drop_first();
        assert forall|i: int| 0 <= i < k - 1 implies is_v_or_space(#[trigger] t[i]) by {
            assert(t[i] == s[i + 1]);
        }
        if k - 1 < t.len() {
            assert(t[k - 1] == s[k as int]);
        }
        lemma_leading_v_char(t, (k - 1) as nat);
    }
}

/// Strip a leading `v`/`V` and surrounding whitespace from a tag/version
/// string: the result neither starts with `v`/`V` nor has white space at
/// either end.
pub fn normalize_version(tag: &str) -> (r: String)
    ensures
        r@ == spec_normalize_version(tag@),
        r@.len() > 0 ==> !is_v(r@[0]) && !is_white_space(r@[0]) && !is_white_space(r@.last()),
{
    let cs = chars_of(tag);
    let mut i: usize = 0;
    while i < cs.len() && (cs[i] == 'v' || cs[i] == 'V' || white_space(cs[i]))
        invariant
            i <= cs@.len(),
            forall|k: int| 0 <= k < i ==> is_v_or_space(#[trigger] cs@[k]),
        decreases cs@.len() - i,
    {
        i = i + 1;
    }
    proof {
        lemma_leading_v_char(cs@, i as nat);
        lemma_leading_v(cs@);
    }
    let rest = sub_chars(&cs, i, cs.len());
    let n = trailing_ws_exec(&rest);
    proof {
        lemma_trailing_ws(rest@);
    }
    let out = sub_chars(&rest, 0, rest.len() - n);
    assert(out@ =~= spec_normalize_version(tag@));
    proof {
        if out@.len() > 0 {
            assert(out@[0] == cs@[i as int]);
            assert(out@.last() == rest@[rest@.len() - n - 1]);
        }
    }
    string_of(&out)
}

} // verus!

verus! {

pub open spec fn is_digit(c: char) -> bool {
    '0' <= c <= '9'
}

pub open spec fn digit_value(c: char) -> nat {
    (c as u32 - '0' as u32) as nat
}

/// Value of a run of decimal digits, most significant first.
pub open spec fn digits_value(s: Seq<char>) -> nat
    decreases s.len(),
{
    if s.len() == 0 {
        0
    } else {
        digits_value(s.drop_last()) * 10 + digit_value(s.last())
    }
}

pub open spec fn all_digits(s: Seq<char>) -> bool {
    forall|i: int| 0 <= i < s.len() ==> is_digit(#[trigger] s[i])
}

/// What `str::parse::<u64>` accepts: an optional `+` and then at least one
/// decimal digit, with a value that fits in 64 bits.
pub open spec fn spec_parse_u64(s: Seq<char>) -> Option<u64> {
    let d = if s.len() > 0 && s[0] == '+' {
        s.drop_first()
    } else {
        s
    };
    if d.len() > 0 && all_digits(d) && digits_value(d) <= u64::MAX {
        Some(digits_value(d) as u64)
    } else {
        None
    }
}

/// A prefix of a digit run never has a larger value than the run.
pub proof fn lemma_digits_prefix(s: Seq<char>, k: int)
    requires
        0 <= k <= s.len(),
    ensures
        digits_value(s.take(k)) <= digits_value(s),
    decreases s.len() - k,
{
    if k < s.len() {
        lemma_digits_prefix(s, k + 1);
        assert(s.take(k + 1).drop_last() =~= s.take(k));
    } else {
        assert(s.take(k) =~= s);
    }
}

/// Parse an unsigned decimal number the way `str::parse::<u64>` does.
pub fn parse_u64(s: &Vec<char>) -> (r: Option<u64>)
    ensures
        r == spec_parse_u64(s@),
{
    let start: usize = if s.len() > 0 && s[0] == '+' {
        1
    } else {
        0
    };
    let ghost d = if s@.len() > 0 && s@[0] == '+' {
        s@.drop_first()
    } else {
        s@
    };
    assert(d =~= s@.skip(start as int));
    if start == s.len() {
        return None;
    }
    let mut acc: u64 = 0;
    let mut i = start;
    while i < s.len()
        invariant
            start <= i <= s@.len(),
            d == s@.skip(start as int),
            d == (if s@.len() > 0 && s@[0] == '+' {
                s@.drop_first()
            } else {
                s@
            }),
            d.len() > 0,
            forall|k: int| 0 <= k < i - start ==> is_digit(#[trigger] d[k]),
            acc == digits_value(d.take(i - start)),
        decreases s@.len() - i,
    {
        let c = s[i];
        if !('0' <= c && c <= '9') {
            assert(d[i - start] == s@[i as int]);
            assert(!is_digit(d[i - start]));
            assert(!all_digits(d));
            return None;
        }
        let dv = (c as u32 - '0' as u32) as u64;
        assert(d.take(i - start + 1).drop_last() =~= d.take(i - start));
        assert(d.take(i - start + 1).last() == c);
        assert(digits_value(d.take(i - start + 1)) == acc * 10 + dv);
        match acc.checked_mul(10) {
            Some(m) => match m.checked_add(dv) {
                Some(v) => {
                    acc = v;
                },
                None => {
                    proof {
                        lemma_digits_prefix(d, i - start + 1);
                        if all_digits(d) {
                        }
                    }
                    return None;
                },
            },
            None => {
                proof {
                    lemma_digits_prefix(d, i - start + 1);
                }
                return None;
            },
        }
        i = i + 1;
    }
    assert(d.take(i - start) =~= d);
    Some(acc)
}

} // verus!

verus! {

/// What `str::split(sep)` yields: the pieces between separators, always at
/// least one (possibly empty) piece.
pub open spec fn split_on(s: Seq<char>, sep: char) -> Seq<Seq<char>>
    decreases s.len(),
{
    if s.len() == 0 {
        seq![Seq::<char>::empty()]
    } else {
        let p = split_on(s.drop_last(), sep);
        if s.last() == sep {
            p.push(Seq::<char>::empty())
        } else {
            p.update(p.len() - 1, p.last().push(s.last()))
        }
    }
}

pub proof fn lemma_split_nonempty(s: Seq<char>, sep: char)
    ensures
        split_on(s, sep).len() >= 1,
    decreases s.len(),
{
    if s.len() > 0 {
        lemma_split_nonempty(s.drop_last(), sep);
    }
}

pub open spec fn is_suffix_sep(c: char) -> bool {
    c == '-' || c == '+'
}

/// Length of the part of a version string before any `-prerelease` or
/// `+build` suffix.
pub open spec fn core_len(s: Seq<char>) -> nat
    decreases s.len(),
{
    if s.len() == 0 || is_suffix_sep(s[0]) {
        0
    } else {
        1 + core_len(s.drop_first())
    }
}

pub proof fn lemma_core_len_char(s: Seq<char>, k: nat)
    requires
        k <= s.len(),
        forall|i: int| 0 <= i < k ==> !is_suffix_sep(#[trigger] s[i]),
        k < s.len() ==> is_suffix_sep(s[k as int]),
    ensures
        core_len(s) == k,
    decreases s.len(),
{
    if k > 0 {
        assert(!is_suffix_sep(s[0]));
        let t = s.drop_first();
        assert forall|i: int| 0 <= i < k - 1 implies !is_suffix_sep(#[trigger] t[i]) by {
            assert(t[i] == s[i + 1]);
        }
        if k - 1 < t.len() {
            assert(t[k - 1] == s[k as int]);
        }
        lemma_core_len_char(t, (k - 1) as nat);
    }
}

/// One dotted component's number: surrounding white space is ignored and
/// anything that does not parse counts as 0.
pub open spec fn parse_component(p: Seq<char>) -> u64 {
    match spec_parse_u64(trim(p)) {
        Some(n) => n,
        None => 0,
    }
}

/// The numeric components of a version string, ignoring any suffix.
pub open spec fn spec_parse_version(v: Seq<char>) -> Seq<u64> {
    split_on(v.take(core_len(v) as int), '.').map_values(|p: Seq<char>| parse_component(p))
}

fn component_value(p: &Vec<char>) -> (r: u64)
    ensures
        r == parse_component(p@),
{
    let t = trim_chars(p);
    match parse_u64(&t) {
        Some(n) => n,
        None => 0,
    }
}

/// Split a dotted version string into numeric components, ignoring any
/// `-prerelease`/`+build` suffix. Missing or non-numeric components become 0.
pub fn parse_version(v: &str) -> (r: Vec<u64>)
    ensures
        r@ == spec_parse_version(v@),
{
    let cs = chars_of(v);
    let mut k: usize = 0;
    while k < cs.len() && !(cs[k] == '-' || cs[k] == '+')
        invariant
            k <= cs@.len(),
            forall|i: int| 0 <= i < k ==> !is_suffix_sep(#[trigger] cs@[i]),
        decreases cs@.len() - k,
    {
        k = k + 1;
    }
    proof {
        lemma_core_len_char(cs@, k as nat);
    }
    let ghost core = cs@.take(k as int);
    let mut out: Vec<u64> = Vec::new();
    let mut cur: Vec<char> = Vec::new();
    let ghost mut parts: Seq<Seq<char>> = Seq::empty();
    let mut i: usize = 0;
    assert(core.take(0) =~= Seq::<char>::empty());
    while i < k
        invariant
            k <= cs@.len(),
            core == cs@.take(k as int),
            i <= k,
            split_on(core.take(i as int), '.') == parts.push(cur@),
            out@ == parts.map_values(|p: Seq<char>| parse_component(p)),
        decreases k - i,
    {
        let c = cs[i];
        let ghost before = core.take(i as int);
        assert(core.take(i + 1).drop_last() =~= before);
        assert(core.take(i + 1).last() == c);
        if c == '.' {
            let n = component_value(&cur);
            out.push(n);
            proof {
                parts = parts.push(cur@);
                assert(out@ =~= parts.map_values(|p: Seq<char>| parse_component(p)));
            }
            cur = Vec::new();
            assert(split_on(core.take(i + 1), '.') =~= parts.push(cur@));
        } else {
            cur.push(c);
            assert(split_on(core.take(i + 1), '.') =~= parts.push(cur@));
        }
        i = i + 1;
    }
    let n = component_value(&cur);
    out.push(n);
    assert(core.take(k as int) =~= core);
    assert(out@ =~= parts.push(cur@).map_values(|p: Seq<char>| parse_component(p)));
    out
}

/// Component `i` of a version, zero beyond its end.
pub open spec fn comp(v: Seq<u64>, i: int) -> u64 {
    if 0 <= i < v.len() {
        v[i]
    } else {
        0
    }
}

pub open spec fn agree_below(c: Seq<u64>, b: Seq<u64>, k: int) -> bool {
    forall|j: int| 0 <= j < k ==> #[trigger] comp(c, j) == comp(b, j)
}

pub open spec fn max_len(c: Seq<u64>, b: Seq<u64>) -> int {
    if c.len() >= b.len() {
        c.len() as int
    } else {
        b.len() as int
    }
}

/// `c` is strictly greater than `b` under numeric component-wise comparison,
/// the shorter one padded with zeros.
pub open spec fn version_gt(c: Seq<u64>, b: Seq<u64>) -> bool {
    exists|i: int| 0 <= i < max_len(c, b) && agree_below(c, b, i) && #[trigger] comp(c, i) > comp(b, i)
}

/// True if `candidate` is strictly greater than `base` under numeric,
/// dot-separated comparison (shorter version strings are zero-padded).
pub fn is_newer(candidate: &str, base: &str) -> (r: bool)
    ensures
        r == version_gt(spec_parse_version(candidate@), spec_parse_version(base@)),
{
    let c = parse_version(candidate);
    let b = parse_version(base);
    let n = if c.len() >= b.len() {
        c.len()
    } else {
        b.len()
    };
    let mut i: usize = 0;
    while i < n
        invariant
            c@ == spec_parse_version(candidate@),
            b@ == spec_parse_version(base@),
            n == max_len(c@, b@),
            i <= n,
            agree_below(c@, b@, i as int),
        decreases n - i,
    {
        let cv = if i < c.len() {
            c[i]
        } else {
            0
        };
        let bv = if i < b.len() {
            b[i]
        } else {
            0
        };
        assert(cv == comp(c@, i as int) && bv == comp(b@, i as int));
        if cv != bv {
            if cv < bv {
                assert forall|k: int|
                    0 <= k < max_len(c@, b@) && agree_below(c@, b@, k) implies !(#[trigger] comp(
                    c@,
                    k,
                ) > comp(b@, k)) by {
                    if k > i {
                        assert(comp(c@, i as int) == comp(b@, i as int));
                    } else if k < i {
                    }
                }
                assert(!version_gt(c@, b@));
            } else {
                assert(0 <= i < max_len(c@, b@) && agree_below(c@, b@, i as int) && comp(c@, i as int)
                    > comp(b@, i as int));
                assert(version_gt(c@, b@));
            }
            return cv > bv;
        }
        i = i + 1;
    }
    false
}

} // verus!

verus! {

/// No version is newer than itself.
pub proof fn lemma_is_newer_irreflexive(v: Seq<char>)
    ensures
        !version_gt(spec_parse_version(v), spec_parse_version(v)),
{
}

/// If `a` is newer than `b`, then `b` is not newer than `a`.
pub proof fn lemma_is_newer_asymmetric(a: Seq<char>, b: Seq<char>)
    ensures
        version_gt(spec_parse_version(a), spec_parse_version(b)) ==> !version_gt(
            spec_parse_version(b),
            spec_parse_version(a),
        ),
{
    let (x, y) = (spec_parse_version(a), spec_parse_version(b));
    if version_gt(x, y) && version_gt(y, x) {
        let i = choose|i: int| 0 <= i < max_len(x, y) && agree_below(x, y, i) && #[trigger] comp(x, i) > comp(y, i);
        let k = choose|k: int| 0 <= k < max_len(y, x) && agree_below(y, x, k) && #[trigger] comp(y, k) > comp(x, k);
        if i < k {
            assert(comp(y, i) == comp(x, i));
        } else if k < i {
            assert(comp(x, k) == comp(y, k));
        }
    }
}

/// Newer-than is transitive.
pub proof fn lemma_is_newer_transitive(a: Seq<char>, b: Seq<char>, c: Seq<char>)
    ensures
        version_gt(spec_parse_version(a), spec_parse_version(b)) && version_gt(
            spec_parse_version(b),
            spec_parse_version(c),
        ) ==> version_gt(spec_parse_version(a), spec_parse_version(c)),
{
    let (x, y, z) = (spec_parse_version(a), spec_parse_version(b), spec_parse_version(c));
    if version_gt(x, y) && version_gt(y, z) {
        let i = choose|i: int| 0 <= i < max_len(x, y) && agree_below(x, y, i) && #[trigger] comp(x, i) > comp(y, i);
        let k = choose|k: int| 0 <= k < max_len(y, z) && agree_below(y, z, k) && #[trigger] comp(y, k) > comp(z, k);
        let m = if i < k {
            i
        } else {
            k
        };
        assert forall|j: int| 0 <= j < m implies #[trigger] comp(x, j) == comp(z, j) by {
            assert(comp(x, j) == comp(y, j));
            assert(comp(y, j) == comp(z, j));
        }
        if i < k {
            assert(comp(y, i) == comp(z, i));
        } else if k < i {
            assert(comp(x, k) == comp(y, k));
        }
        assert(comp(x, m) > comp(z, m));
        assert(0 <= m < max_len(x, z));
    }
}

/// Any two versions are ordered one way or the other unless they are equal
/// once zero-padded to the same length.
pub proof fn lemma_is_newer_total(a: Seq<char>, b: Seq<char>)
    ensures
        ({
            let (x, y) = (spec_parse_version(a), spec_parse_version(b));
            version_gt(x, y) || version_gt(y, x) || agree_below(x, y, max_len(x, y))
        }),
{
    let (x, y) = (spec_parse_version(a), spec_parse_version(b));
    if !agree_below(x, y, max_len(x, y)) {
        let j = choose|j: int| 0 <= j < max_len(x, y) && !(#[trigger] comp(x, j) == comp(y, j));
        lemma_first_difference(x, y, j);
    }
}

/// Two differing versions have a first differing component.
proof fn lemma_first_difference(x: Seq<u64>, y: Seq<u64>, j: int)
    requires
        0 <= j < max_len(x, y),
        comp(x, j) != comp(y, j),
    ensures
        version_gt(x, y) || version_gt(y, x),
    decreases j,
{
    if agree_below(x, y, j) {
        if comp(x, j) > comp(y, j) {
            assert(0 <= j < max_len(x, y) && agree_below(x, y, j) && comp(x, j) > comp(y, j));
        } else {
            assert forall|k: int| 0 <= k < j implies #[trigger] comp(y, k) == comp(x, k) by {
                assert(comp(x, k) == comp(y, k));
            }
            assert(0 <= j < max_len(y, x) && agree_below(y, x, j) && comp(y, j) > comp(x, j));
        }
    } else {
        let k = choose|k: int| 0 <= k < j && !(#[trigger] comp(x, k) == comp(y, k));
        lemma_first_difference(x, y, k);
    }
}

/// Trailing zero components do not change the comparison: shorter version
/// strings compare as if padded with zeros.
pub proof fn lemma_zero_padding(x: Seq<u64>, y: Seq<u64>)
    ensures
        version_gt(x.push(0), y) == version_gt(x, y),
        version_gt(y, x.push(0)) == version_gt(y, x),
{
    let xp = x.push(0);
    assert forall|j: int| #[trigger] comp(xp, j) == comp(x, j) by {}
    assert forall|k: int| #[trigger] agree_below(xp, y, k) == agree_below(x, y, k) by {
        if agree_below(xp, y, k) {
            assert forall|j: int| 0 <= j < k implies #[trigger] comp(x, j) == comp(y, j) by {
                assert(comp(xp, j) == comp(y, j));
            }
        }
        if agree_below(x, y, k) {
            assert forall|j: int| 0 <= j < k implies #[trigger] comp(xp, j) == comp(y, j) by {
                assert(comp(x, j) == comp(y, j));
            }
        }
    }
    assert forall|k: int| #[trigger] agree_below(y, xp, k) == agree_below(y, x, k) by {
        if agree_below(y, xp, k) {
            assert forall|j: int| 0 <= j < k implies #[trigger] comp(y, j) == comp(x, j) by {
                assert(comp(y, j) == comp(xp, j));
            }
        }
        if agree_below(y, x, k) {
            assert forall|j: int| 0 <= j < k implies #[trigger] comp(y, j) == comp(xp, j) by {
                assert(comp(y, j) == comp(x, j));
            }
        }
    }
    if version_gt(xp, y) {
        let i = choose|i: int| 0 <= i < max_len(xp, y) && agree_below(xp, y, i) && #[trigger] comp(xp, i) > comp(y, i);
        assert(agree_below(x, y, i));
        assert(comp(x, i) > comp(y, i));
        assert(0 <= i < max_len(x, y));
    }
    if version_gt(x, y) {
        let i = choose|i: int| 0 <= i < max_len(x, y) && agree_below(x, y, i) && #[trigger] comp(x, i) > comp(y, i);
        assert(agree_below(xp, y, i));
        assert(comp(xp, i) > comp(y, i));
    }
    if version_gt(y, xp) {
        let i = choose|i: int| 0 <= i < max_len(y, xp) && agree_below(y, xp, i) && #[trigger] comp(y, i) > comp(xp, i);
        assert(agree_below(y, x, i));
        assert(comp(y, i) > comp(x, i));
        assert(0 <= i < max_len(y, x));
    }
    if version_gt(y, x) {
        let i = choose|i: int| 0 <= i < max_len(y, x) && agree_below(y, x, i) && #[trigger] comp(y, i) > comp(x, i);
        assert(agree_below(y, xp, i));
        assert(comp(y, i) > comp(xp, i));
    }
}

/// Appending `.0` to a version string without a `-`/`+` suffix appends a
/// zero component.
pub proof fn lemma_append_zero_component(s: Seq<char>)
    requires
        forall|i: int| 0 <= i < s.len() ==> !is_suffix_sep(#[trigger] s[i]),
    ensures
        spec_parse_version(s + seq!['.', '0']) == spec_parse_version(s).push(0),
{
    let t = s + seq!['.', '0'];
    assert forall|i: int| 0 <= i < t.len() implies !is_suffix_sep(#[trigger] t[i]) by {
        if i < s.len() {
            assert(t[i] == s[i]);
        }
    }
    lemma_core_len_char(t, t.len());
    lemma_core_len_char(s, s.len());
    assert(t.take(t.len() as int) =~= t);
    assert(s.take(s.len() as int) =~= s);
    assert(t.drop_last() =~= s.push('.'));
    assert(s.push('.').drop_last() =~= s);
    lemma_split_nonempty(s, '.');
    let p = split_on(s, '.');
    assert(split_on(s.push('.'), '.') == p.push(Seq::<char>::empty()));
    assert(split_on(t, '.') =~= p.push(seq!['0']));
    let zero = seq!['0'];
    assert(zero.drop_first() =~= Seq::<char>::empty());
    assert(zero.drop_last() =~= Seq::<char>::empty());
    assert(leading_ws(zero) == 0);
    assert(trailing_ws(zero) == 0);
    assert(trim(zero) =~= zero);
    assert(all_digits(zero));
    assert(zero.last() == '0');
    assert(digits_value(Seq::<char>::empty()) == 0);
    assert(digits_value(zero) == digits_value(zero.drop_last()) * 10 + digit_value('0'));
    assert(digits_value(zero) == 0);
    assert(parse_component(zero) == 0);
    assert(spec_parse_version(t) =~= spec_parse_version(s).push(0));
}

pub proof fn lemma_core_len(s: Seq<char>)
    ensures
        core_len(s) <= s.len(),
        forall|i: int| 0 <= i < core_len(s) ==> !is_suffix_sep(#[trigger] s[i]),
        core_len(s) < s.len() ==> is_suffix_sep(s[core_len(s) as int]),
    decreases s.len(),
{
    if s.len() > 0 && !is_suffix_sep(s[0]) {
        lemma_core_len(s.drop_first());
        assert forall|i: int| 0 <= i < core_len(s) implies !is_suffix_sep(#[trigger] s[i]) by {
            if i > 0 {
                assert(s[i] == s.drop_first()[i - 1]);
            }
        }
    }
}

/// Appending `.0` to a version string changes no comparison with any other
/// version: without a `-`/`+` suffix it adds a zero component, and after one
/// it only lengthens the ignored suffix.
pub proof fn lemma_dot_zero_neutral(a: Seq<char>, b: Seq<char>)
    ensures
        version_gt(spec_parse_version(a + seq!['.', '0']), spec_parse_version(b)) == version_gt(
            spec_parse_version(a),
            spec_parse_version(b),
        ),
        version_gt(spec_parse_version(b), spec_parse_version(a + seq!['.', '0'])) == version_gt(
            spec_parse_version(b),
            spec_parse_version(a),
        ),
{
    lemma_core_len(a);
    let k = core_len(a);
    if k < a.len() {
        let t = a + seq!['.', '0'];
        assert forall|i: int| 0 <= i < k implies !is_suffix_sep(#[trigger] t[i]) by {
            assert(t[i] == a[i]);
        }
        assert(t[k as int] == a[k as int]);
        lemma_core_len_char(t, k);
        assert(t.take(k as int) =~= a.take(k as int));
    } else {
        assert forall|i: int| 0 <= i < a.len() implies !is_suffix_sep(#[trigger] a[i]) by {}
        lemma_append_zero_component(a);
        lemma_zero_padding(spec_parse_version(a), spec_parse_version(b));
    }
}

} // verus!

verus! {

// ---------------------------------------------------------------------------
// Release metadata
// ---------------------------------------------------------------------------

/// One downloadable file attached to a release.
#[derive(Clone, Debug)]
pub struct GhAsset {
    pub name: String,
    pub browser_download_url: String,
}

/// The fields of a published release that the updater reads.
#[derive(Clone, Debug)]
pub struct GhRelease {
    pub tag_name: String,
    pub html_url: String,
    pub body: Option<String>,
    pub assets: Vec<GhAsset>,
}

/// Everything the caller needs to tell the user about (and optionally
/// install) an available update.
#[derive(Clone, Debug)]
pub struct UpdateInfo {
    /// Release version with any leading `v`/`V` stripped, e.g. `"1.2.0"`.
    pub version: String,
    /// The raw tag name as published, e.g. `"v1.2.0"`.
    pub tag: String,
    /// Release notes (the release body; may be empty).
    pub notes: String,
    /// Link to the release page.
    pub html_url: String,
    /// Download URL of the Windows zip asset, if the release has one.
    pub asset_url: Option<String>,
    /// File name of that asset.
    pub asset_name: Option<String>,
}

/// What `str::to_lowercase` returns: the Unicode lowercase mapping of a
/// string (a function of the string alone).
pub uninterp spec fn unicode_lowercase(s: Seq<char>) -> Seq<char>;

/// Calls `str::to_lowercase`; its result is named [`unicode_lowercase`] and
/// nothing more is claimed of it.
#[verifier::external_body]
fn to_lowercase(s: &str) -> (r: String)
    ensures
        r@ == unicode_lowercase(s@),
{
    s.to_lowercase()
}

pub open spec fn windows_word() -> Seq<char> {
    seq!['w', 'i', 'n', 'd', 'o', 'w', 's']
}

pub open spec fn zip_suffix() -> Seq<char> {
    seq!['.', 'z', 'i', 'p']
}

pub open spec fn mentions_windows(n: Seq<char>) -> bool {
    contains_seq(n, windows_word())
}

pub open spec fn is_zip_name(n: Seq<char>) -> bool {
    ends_with_seq(n, zip_suffix())
}

/// `r` is the asset chosen among (already lowercased) names: the first one
/// that mentions "windows", else the first one ending in ".zip", else none.
pub open spec fn is_asset_choice(names: Seq<Seq<char>>, r: Option<usize>) -> bool {
    match r {
        Some(i) => i < names.len() && ({
            ||| (mentions_windows(names[i as int]) && forall|j: int|
                0 <= j < i ==> !mentions_windows(#[trigger] names[j]))
            ||| ((forall|j: int| 0 <= j < names.len() ==> !mentions_windows(#[trigger] names[j]))
                && is_zip_name(names[i as int]) && forall|j: int|
                0 <= j < i ==> !is_zip_name(#[trigger] names[j]))
        }),
        None => forall|j: int|
            0 <= j < names.len() ==> !mentions_windows(#[trigger] names[j]) && !is_zip_name(
                names[j],
            ),
    }
}

/// Choose among lowercased asset names: prefer one that mentions "windows",
/// fall back to any ".zip".
pub fn select_windows_asset(lowered: &Vec<String>) -> (r: Option<usize>)
    ensures
        is_asset_choice(lowered@.map_values(|s: String| s@), r),
{
    let ghost names = lowered@.map_values(|s: String| s@);
    let w: Vec<char> = vec!['w', 'i', 'n', 'd', 'o', 'w', 's'];
    let z: Vec<char> = vec!['.', 'z', 'i', 'p'];
    assert(w@ =~= windows_word());
    assert(z@ =~= zip_suffix());
    let mut i: usize = 0;
    while i < lowered.len()
        invariant
            names == lowered@.map_values(|s: String| s@),
            w@ == windows_word(),
            i <= lowered@.len(),
            forall|j: int| 0 <= j < i ==> !mentions_windows(#[trigger] names[j]),
        decreases lowered@.len() - i,
    {
        let cs = chars_of(lowered[i].as_str());
        if contains_exec(&cs, &w) {
            return Some(i);
        }
        i = i + 1;
    }
    let mut k: usize = 0;
    while k < lowered.len()
        invariant
            names == lowered@.map_values(|s: String| s@),
            z@ == zip_suffix(),
            k <= lowered@.len(),
            forall|j: int| 0 <= j < lowered@.len() ==> !mentions_windows(#[trigger] names[j]),
            forall|j: int| 0 <= j < k ==> !is_zip_name(#[trigger] names[j]),
        decreases lowered@.len() - k,
    {
        let cs = chars_of(lowered[k].as_str());
        if ends_with_exec(&cs, &z) {
            return Some(k);
        }
        k = k + 1;
    }
    None
}

/// The lowercased names of a list of assets.
pub open spec fn lowered_names(assets: Seq<GhAsset>) -> Seq<Seq<char>> {
    assets.map_values(|a: GhAsset| unicode_lowercase(a.name@))
}

/// Prefer an asset whose name mentions "windows"; fall back to any `.zip`
/// (names compared in lowercase).
pub fn pick_windows_asset(assets: &[GhAsset]) -> (r: Option<&GhAsset>)
    ensures
        exists|c: Option<usize>|
            is_asset_choice(lowered_names(assets@), c) && match c {
                Some(i) => r matches Some(a) && *a == assets@[i as int],
                None => r is None,
            },
{
    let mut lowered: Vec<String> = Vec::new();
    let mut i: usize = 0;
    while i < assets.len()
        invariant
            i <= assets@.len(),
            lowered@.len() == i,
            forall|j: int|
                0 <= j < i ==> #[trigger] lowered@[j]@ == unicode_lowercase(assets@[j].name@),
        decreases assets@.len() - i,
    {
        let l = to_lowercase(assets[i].name.as_str());
        lowered.push(l);
        i = i + 1;
    }
    assert(lowered@.map_values(|s: String| s@) =~= lowered_names(assets@));
    let c = select_windows_asset(&lowered);
    match c {
        Some(j) => Some(&assets[j]),
        None => None,
    }
}

/// The update, if any, that a release offers over the running version.
pub open spec fn offers_update(release: GhRelease, current: Seq<char>) -> bool {
    version_gt(
        spec_parse_version(spec_normalize_version(release.tag_name@)),
        spec_parse_version(current),
    )
}

pub open spec fn opt_view(o: Option<String>) -> Option<Seq<char>> {
    match o {
        Some(s) => Some(s@),
        None => None,
    }
}

/// Decide whether `release` is **strictly newer** than `current` and, if so,
/// describe it. Returns `None` when it is already up to date.
pub fn check(release: GhRelease, current: &str) -> (r: Option<UpdateInfo>)
    ensures
        r is Some <==> offers_update(release, current@),
        r matches Some(info) ==> {
            &&& info.version@ == spec_normalize_version(release.tag_name@)
            &&& info.tag@ == release.tag_name@
            &&& info.notes@ == (match release.body {
                Some(b) => b@,
                None => Seq::<char>::empty(),
            })
            &&& info.html_url@ == release.html_url@
            &&& exists|c: Option<usize>|
                is_asset_choice(lowered_names(release.assets@), c) && match c {
                    Some(i) => opt_view(info.asset_url) == Some(
                        release.assets@[i as int].browser_download_url@,
                    ) && opt_view(info.asset_name) == Some(release.assets@[i as int].name@),
                    None => info.asset_url is None && info.asset_name is None,
                }
        },
{
    let version = normalize_version(release.tag_name.as_str());
    if !is_newer(version.as_str(), current) {
        return None;
    }
    let picked = pick_windows_asset(release.assets.as_slice());
    let (asset_url, asset_name) = match picked {
        Some(a) => (Some(a.browser_download_url.clone()), Some(a.name.clone())),
        None => (None, None),
    };
    let notes = match release.body {
        Some(b) => b,
        None => String::new(),
    };
    Some(
        UpdateInfo {
            version,
            tag: release.tag_name,
            notes,
            html_url: release.html_url,
            asset_url,
            asset_name,
        },
    )
}

} // verus!

verus! {

// ---------------------------------------------------------------------------
// Staging the swap
// ---------------------------------------------------------------------------

/// How many ~2s polls the helper script waits for this process to exit
/// before applying the update anyway.
pub const MAX_WAIT_TRIES: u32 = 150;

/// Name of the staging folder under the temporary directory.
pub const STAGE_DIR_NAME: &'static str = "rlw_update";

/// Folder (under the staging folder) the archive is extracted into.
pub const EXTRACT_DIR_NAME: &'static str = "extracted";

/// The executable that the update installs and relaunches.
pub const EXE_NAME: &'static str = "real_live_wall.exe";

/// File name used for the downloaded archive when the asset has none.
pub const DEFAULT_ZIP_NAME: &'static str = "update.zip";

/// Name of the helper script written to the staging folder.
pub const SCRIPT_NAME: &'static str = "apply_update.bat";

pub const SCRIPT_HEAD: &'static str = "@echo off\r\nsetlocal EnableDelayedExpansion\r\nset \"PID=";

pub const SCRIPT_WAIT: &'static str = "\"\r\nset \"TRIES=0\"\r\n\r\n:wait\r\ntasklist /FI \"PID eq %PID%\" 2>NUL | find /I \"%PID%\" >NUL\r\nif not errorlevel 1 (\r\n\tset /a TRIES+=1\r\n\tif !TRIES! GEQ ";

pub const SCRIPT_COPY: &'static str = " goto apply\r\n\tping -n 2 127.0.0.1 >NUL\r\n\tgoto wait\r\n)\r\n\r\n:apply\r\nrobocopy \"";

pub const SCRIPT_BETWEEN: &'static str = "\" \"";

pub const SCRIPT_START: &'static str = "\" /E /R:5 /W:1 >NUL\r\nstart \"\" \"";

pub const SCRIPT_CLEAN: &'static str = "\"\r\n\r\ndel /F /Q \"";

pub const SCRIPT_RMDIR: &'static str = "\" >NUL 2>&1\r\nrmdir /S /Q \"";

pub const SCRIPT_TAIL: &'static str = "\" >NUL 2>&1\r\n";

/// The helper batch script: (1) poll for `pid` to disappear from `tasklist`
/// (bounded by [`MAX_WAIT_TRIES`]), (2) mirror `src` over `dst` with
/// `robocopy`, (3) relaunch `exe`, then (4) delete the downloaded archive
/// `zip` and the extracted tree `extracted`.
pub open spec fn spec_batch_script(
    pid: u32,
    src: Seq<char>,
    dst: Seq<char>,
    exe: Seq<char>,
    zip: Seq<char>,
    extracted: Seq<char>,
) -> Seq<char> {
    SCRIPT_HEAD@ + decimal(pid as nat) + SCRIPT_WAIT@ + decimal(MAX_WAIT_TRIES as nat)
        + SCRIPT_COPY@ + src + SCRIPT_BETWEEN@ + dst + SCRIPT_START@ + exe + SCRIPT_CLEAN@ + zip
        + SCRIPT_RMDIR@ + extracted + SCRIPT_TAIL@
}

/// Render the helper batch script for process `pid`: copy `src` over `dst`,
/// relaunch `exe`, then delete `zip` and the folder `extracted`.
pub fn build_batch_script(
    pid: u32,
    src: &str,
    dst: &str,
    exe: &str,
    zip: &str,
    extracted: &str,
) -> (r: String)
    ensures
        r@ == spec_batch_script(pid, src@, dst@, exe@, zip@, extracted@),
{
    let mut s = String::from_str(SCRIPT_HEAD);
    push_decimal(&mut s, pid as u64);
    s.append(SCRIPT_WAIT);
    push_decimal(&mut s, MAX_WAIT_TRIES as u64);
    s.append(SCRIPT_COPY);
    s.append(src);
    s.append(SCRIPT_BETWEEN);
    s.append(dst);
    s.append(SCRIPT_START);
    s.append(exe);
    s.append(SCRIPT_CLEAN);
    s.append(zip);
    s.append(SCRIPT_RMDIR);
    s.append(extracted);
    s.append(SCRIPT_TAIL);
    s
}

/// A Windows path separator.
pub open spec fn is_path_sep(c: char) -> bool {
    c == '\\' || c == '/'
}

/// A Windows path: `name` inside the folder `dir`, as `PathBuf::join` builds
/// it for a relative `name`: a `\` goes between them unless `dir` is empty or
/// already ends in a separator.
pub open spec fn win_join(dir: Seq<char>, name: Seq<char>) -> Seq<char> {
    if dir.len() == 0 || is_path_sep(dir.last()) {
        dir + name
    } else {
        dir.push('\\') + name
    }
}

/// The Windows path of `name` inside the folder `dir`.
pub fn join_path(dir: &str, name: &str) -> (r: String)
    ensures
        r@ == win_join(dir@, name@),
{
    let cs = chars_of(dir);
    let mut s = String::from_str(dir);
    let n = cs.len();
    if n > 0 && cs[n - 1] != '\\' && cs[n - 1] != '/' {
        s.push('\\');
    }
    s.append(name);
    s
}

/// Staging folder of `version` under the temporary folder `temp`.
pub open spec fn stage_path(temp: Seq<char>, version: Seq<char>) -> Seq<char> {
    win_join(win_join(temp, STAGE_DIR_NAME@), version)
}

/// Why staging an update failed.
#[derive(Clone, Copy, Debug, PartialEq, Eq, Structural)]
pub enum UpdateError {
    /// The release has no downloadable Windows asset.
    NoAsset,
    /// The current executable's folder could not be resolved.
    NoInstallDir,
    /// The staging folder could not be prepared.
    Staging,
    /// Downloading the asset failed.
    Download,
    /// The archive could not be extracted.
    Extract,
    /// The archive did not contain the executable.
    NoExe,
    /// The helper script could not be written.
    WriteScript,
    /// The helper script could not be launched.
    Launch,
    /// An event arrived that does not answer the pending step.
    UnexpectedEvent,
}

/// Where a staged update stands.
#[derive(Clone, Copy, Debug, PartialEq, Eq, Structural)]
pub enum ApplyPhase {
    Locating,
    Staging,
    Downloading,
    Extracting,
    Finding,
    Writing,
    Launching,
    Finished,
}

/// Position of a phase in the staging sequence.
pub open spec fn phase_index(p: ApplyPhase) -> nat {
    match p {
        ApplyPhase::Locating => 0,
        ApplyPhase::Staging => 1,
        ApplyPhase::Downloading => 2,
        ApplyPhase::Extracting => 3,
        ApplyPhase::Finding => 4,
        ApplyPhase::Writing => 5,
        ApplyPhase::Launching => 6,
        ApplyPhase::Finished => 7,
    }
}

/// Everything staging needs to remember between steps.
#[derive(Debug)]
pub struct ApplyState {
    pub phase: ApplyPhase,
    pub version: String,
    pub url: String,
    pub file_name: String,
    pub pid: u32,
    /// The staging folder: `<temp>\rlw_update\<version>`.
    pub stage_dir: String,
    /// The folder of the running executable, once located.
    pub install_dir: String,
    /// [`EXE_NAME`] in the install folder, once located.
    pub target_exe: String,
}

/// Where the archive is downloaded to.
pub open spec fn zip_path(st: ApplyState) -> Seq<char> {
    win_join(st.stage_dir@, st.file_name@)
}

/// Where the archive is extracted to.
pub open spec fn extract_path(st: ApplyState) -> Seq<char> {
    win_join(st.stage_dir@, EXTRACT_DIR_NAME@)
}

/// Where the helper script is written.
pub open spec fn script_path(st: ApplyState) -> Seq<char> {
    win_join(st.stage_dir@, SCRIPT_NAME@)
}

/// The next piece of outside work the caller performs, then answers with an
/// [`ApplyEvent`].
#[derive(Debug)]
pub enum ApplyStep {
    /// Resolve the folder of the running executable (the install folder);
    /// answer `InstallLocated`.
    LocateInstall,
    /// Remove `root` if it exists, then create `extract_dir`; answer `Staged`.
    PrepareStaging { root: String, extract_dir: String },
    /// Download `url` into the file `dest`; answer `Downloaded`.
    Download { url: String, dest: String },
    /// Extract the zip archive `archive` into the folder `into`; answer `Extracted`.
    Extract { archive: String, into: String },
    /// Look for [`EXE_NAME`] in `root` or one folder below; answer `ExeFound`
    /// with the folder holding it.
    FindExe { root: String },
    /// Write `text` to the file `path`; answer `ScriptWritten`.
    WriteScript { path: String, text: String },
    /// Launch the helper script `script` detached; answer `Launched`.
    Launch { script: String },
    /// Staging is over.
    Done(Result<(), UpdateError>),
}

/// The outcome of the outside work requested by the previous step.
#[derive(Debug)]
pub enum ApplyEvent {
    /// The install folder, or `None` when it could not be resolved.
    InstallLocated(Option<String>),
    Staged(bool),
    Downloaded(bool),
    Extracted(bool),
    /// The folder holding [`EXE_NAME`] in the extracted tree, if found.
    ExeFound(Option<String>),
    ScriptWritten(bool),
    Launched(bool),
}

pub open spec fn is_done(step: ApplyStep, res: Result<(), UpdateError>) -> bool {
    step matches ApplyStep::Done(x) && x == res
}

/// Begin staging `info` as a self-update of process `pid`, under the
/// temporary folder `temp_dir`: the asset's URL is required, and its file
/// name (or [`DEFAULT_ZIP_NAME`]) names the download.
pub fn download_and_apply(info: &UpdateInfo, pid: u32, temp_dir: &str) -> (r: (ApplyState, ApplyStep))
    ensures
        info.asset_url is None ==> r.0.phase == ApplyPhase::Finished && is_done(
            r.1,
            Err(UpdateError::NoAsset),
        ),
        info.asset_url matches Some(u) ==> {
            &&& r.0.phase == ApplyPhase::Locating
            &&& r.1 is LocateInstall
            &&& r.0.url@ == u@
            &&& r.0.version@ == info.version@
            &&& r.0.pid == pid
            &&& r.0.file_name@ == match info.asset_name {
                Some(n) => n@,
                None => DEFAULT_ZIP_NAME@,
            }
            &&& r.0.stage_dir@ == stage_path(temp_dir@, info.version@)
            &&& r.0.install_dir@ == Seq::<char>::empty()
            &&& r.0.target_exe@ == Seq::<char>::empty()
        },
{
    let file_name = match &info.asset_name {
        Some(n) => n.clone(),
        None => String::from_str(DEFAULT_ZIP_NAME),
    };
    let stage_root = join_path(temp_dir, STAGE_DIR_NAME);
    let stage_dir = join_path(stage_root.as_str(), info.version.as_str());
    let st = ApplyState {
        phase: ApplyPhase::Locating,
        version: info.version.clone(),
        url: String::new(),
        file_name,
        pid,
        stage_dir,
        install_dir: String::new(),
        target_exe: String::new(),
    };
    match &info.asset_url {
        Some(u) => (ApplyState { url: u.clone(), ..st }, ApplyStep::LocateInstall),
        None => (ApplyState { phase: ApplyPhase::Finished, ..st }, ApplyStep::Done(Err(UpdateError::NoAsset))),
    }
}

/// Advance staging with the outcome of the pending step. Each successful
/// outcome moves to the next phase and asks for its work; any failure (or an
/// event that does not answer the pending step) finishes with its error.
/// What was fixed at the start is kept throughout, and the install folder
/// and executable, once located, are kept until the helper script is built
/// from them.
pub fn apply_next(state: ApplyState, event: ApplyEvent) -> (r: (ApplyState, ApplyStep))
    ensures
        state.phase != ApplyPhase::Finished ==> phase_index(r.0.phase) > phase_index(state.phase),
        r.0.phase == ApplyPhase::Finished <==> r.1 is Done,
        is_done(r.1, Ok(())) ==> state.phase == ApplyPhase::Launching,
        ({
            let (st, step) = r;
            &&& st.version == state.version && st.url == state.url && st.file_name == state.file_name
                && st.pid == state.pid && st.stage_dir == state.stage_dir
            &&& !(state.phase == ApplyPhase::Locating && event matches ApplyEvent::InstallLocated(
                Some(_),
            )) ==> st.install_dir == state.install_dir && st.target_exe == state.target_exe
            &&& match (state.phase, event) {
                (ApplyPhase::Locating, ApplyEvent::InstallLocated(Some(dir))) => st.phase
                    == ApplyPhase::Staging && st.install_dir@ == dir@ && st.target_exe@ == win_join(
                    dir@,
                    EXE_NAME@,
                ) && (step matches ApplyStep::PrepareStaging { root, extract_dir } && root@
                    == state.stage_dir@ && extract_dir@ == extract_path(state)),
                (ApplyPhase::Locating, ApplyEvent::InstallLocated(None)) => st.phase
                    == ApplyPhase::Finished && is_done(step, Err(UpdateError::NoInstallDir)),
                (ApplyPhase::Staging, ApplyEvent::Staged(ok)) => if ok {
                    st.phase == ApplyPhase::Downloading && (step matches ApplyStep::Download {
                        url,
                        dest,
                    } && url@ == state.url@ && dest@ == zip_path(state))
                } else {
                    st.phase == ApplyPhase::Finished && is_done(step, Err(UpdateError::Staging))
                },
                (ApplyPhase::Downloading, ApplyEvent::Downloaded(ok)) => if ok {
                    st.phase == ApplyPhase::Extracting && (step matches ApplyStep::Extract {
                        archive,
                        into,
                    } && archive@ == zip_path(state) && into@ == extract_path(state))
                } else {
                    st.phase == ApplyPhase::Finished && is_done(step, Err(UpdateError::Download))
                },
                (ApplyPhase::Extracting, ApplyEvent::Extracted(ok)) => if ok {
                    st.phase == ApplyPhase::Finding && (step matches ApplyStep::FindExe { root }
                        && root@ == extract_path(state))
                } else {
                    st.phase == ApplyPhase::Finished && is_done(step, Err(UpdateError::Extract))
                },
                (ApplyPhase::Finding, ApplyEvent::ExeFound(Some(dir))) => st.phase
                    == ApplyPhase::Writing && (step matches ApplyStep::WriteScript { path, text }
                    && path@ == script_path(state) && text@ == spec_batch_script(
                    state.pid,
                    dir@,
                    state.install_dir@,
                    state.target_exe@,
                    zip_path(state),
                    extract_path(state),
                )),
                (ApplyPhase::Finding, ApplyEvent::ExeFound(None)) => st.phase
                    == ApplyPhase::Finished && is_done(step, Err(UpdateError::NoExe)),
                (ApplyPhase::Writing, ApplyEvent::ScriptWritten(ok)) => if ok {
                    st.phase == ApplyPhase::Launching && (step matches ApplyStep::Launch { script }
                        && script@ == script_path(state))
                } else {
                    st.phase == ApplyPhase::Finished && is_done(step, Err(UpdateError::WriteScript))
                },
                (ApplyPhase::Launching, ApplyEvent::Launched(ok)) => st.phase
                    == ApplyPhase::Finished && is_done(
                    step,
                    if ok {
                        Ok(())
                    } else {
                        Err(UpdateError::Launch)
                    },
                ),
                _ => st.phase == ApplyPhase::Finished && is_done(
                    step,
                    Err(UpdateError::UnexpectedEvent),
                ),
            }
        }),
{
    match (state.phase, event) {
        (ApplyPhase::Locating, ApplyEvent::InstallLocated(Some(dir))) => {
            let target_exe = join_path(dir.as_str(), EXE_NAME);
            let root = state.stage_dir.clone();
            let extract_dir = join_path(state.stage_dir.as_str(), EXTRACT_DIR_NAME);
            (
                ApplyState { phase: ApplyPhase::Staging, install_dir: dir, target_exe, ..state },
                ApplyStep::PrepareStaging { root, extract_dir },
            )
        },
        (ApplyPhase::Staging, ApplyEvent::Staged(true)) => {
            let dest = join_path(state.stage_dir.as_str(), state.file_name.as_str());
            let step = ApplyStep::Download { url: state.url.clone(), dest };
            (ApplyState { phase: ApplyPhase::Downloading, ..state }, step)
        },
        (ApplyPhase::Downloading, ApplyEvent::Downloaded(true)) => {
            let archive = join_path(state.stage_dir.as_str(), state.file_name.as_str());
            let into = join_path(state.stage_dir.as_str(), EXTRACT_DIR_NAME);
            (ApplyState { phase: ApplyPhase::Extracting, ..state }, ApplyStep::Extract { archive, into })
        },
        (ApplyPhase::Extracting, ApplyEvent::Extracted(true)) => {
            let root = join_path(state.stage_dir.as_str(), EXTRACT_DIR_NAME);
            (ApplyState { phase: ApplyPhase::Finding, ..state }, ApplyStep::FindExe { root })
        },
        (ApplyPhase::Finding, ApplyEvent::ExeFound(Some(dir))) => {
            let zip = join_path(state.stage_dir.as_str(), state.file_name.as_str());
            let extracted = join_path(state.stage_dir.as_str(), EXTRACT_DIR_NAME);
            let text = build_batch_script(
                state.pid,
                dir.as_str(),
                state.install_dir.as_str(),
                state.target_exe.as_str(),
                zip.as_str(),
                extracted.as_str(),
            );
            let path = join_path(state.stage_dir.as_str(), SCRIPT_NAME);
            (ApplyState { phase: ApplyPhase::Writing, ..state }, ApplyStep::WriteScript { path, text })
        },
        (ApplyPhase::Writing, ApplyEvent::ScriptWritten(true)) => {
            let script = join_path(state.stage_dir.as_str(), SCRIPT_NAME);
            (ApplyState { phase: ApplyPhase::Launching, ..state }, ApplyStep::Launch { script })
        },
        (ph, ev) => {
            let err = match (ph, ev) {
                (ApplyPhase::Locating, ApplyEvent::InstallLocated(None)) => Err(UpdateError::NoInstallDir),
                (ApplyPhase::Staging, ApplyEvent::Staged(false)) => Err(UpdateError::Staging),
                (ApplyPhase::Downloading, ApplyEvent::Downloaded(false)) => Err(UpdateError::Download),
                (ApplyPhase::Extracting, ApplyEvent::Extracted(false)) => Err(UpdateError::Extract),
                (ApplyPhase::Finding, ApplyEvent::ExeFound(None)) => Err(UpdateError::NoExe),
                (ApplyPhase::Writing, ApplyEvent::ScriptWritten(false)) => Err(UpdateError::WriteScript),
                (ApplyPhase::Launching, ApplyEvent::Launched(ok)) => if ok {
                    Ok(())
                } else {
                    Err(UpdateError::Launch)
                },
                _ => Err(UpdateError::UnexpectedEvent),
            };
            (ApplyState { phase: ApplyPhase::Finished, ..state }, ApplyStep::Done(err))
        },
    }
}

} // verus!
