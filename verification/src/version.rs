use vstd::prelude::*;

use crate::text::chars_of;

verus! {

// ---------------------------------------------------------------------------
// Mathematical model of the lightweight version comparison
// ---------------------------------------------------------------------------

/// A character that may prefix a version number (`v1.2.3`, `V1.2.3`).
pub open spec fn is_v_char(c: char) -> bool {
    c == 'v' || c == 'V'
}

/// `s` with every leading `v` / `V` removed.
pub open spec fn strip_v(s: Seq<char>) -> Seq<char>
    decreases s.len(),
{
    if s.len() > 0 && is_v_char(s[0]) {
        strip_v(s.drop_first())
    } else {
        s
    }
}

/// The pieces of `s` between occurrences of `sep`, as `str::split` yields them:
/// there is always at least one piece, and empty pieces are kept.
pub open spec fn split_on(s: Seq<char>, sep: char) -> Seq<Seq<char>>
    decreases s.len(),
{
    if s.len() == 0 {
        seq![Seq::<char>::empty()]
    } else {
        let init = split_on(s.drop_last(), sep);
        if s.last() == sep {
            init.push(Seq::<char>::empty())
        } else {
            init.update(init.len() - 1, init.last().push(s.last()))
        }
    }
}

pub open spec fn is_ascii_digit(c: char) -> bool {
    '0' <= c && c <= '9'
}

pub open spec fn all_ascii_digits(s: Seq<char>) -> bool {
    forall|i: int| 0 <= i < s.len() ==> is_ascii_digit(#[trigger] s[i])
}

/// The decimal value of a string of ASCII digits.
pub open spec fn digits_value(s: Seq<char>) -> int
    decreases s.len(),
{
    if s.len() == 0 {
        0
    } else {
        digits_value(s.drop_last()) * 10 + (s.last() as int - '0' as int)
    }
}

/// What `str::parse::<i32>` gives: an optional sign (`+` or `-`), then one or more
/// ASCII digits, and a value that fits in an `i32`; anything else is an error.
pub open spec fn parse_i32(s: Seq<char>) -> Option<int> {
    let signed = s.len() > 0 && (s[0] == '-' || s[0] == '+');
    let negative = s.len() > 0 && s[0] == '-';
    let digits = if signed {
        s.drop_first()
    } else {
        s
    };
    if digits.len() == 0 || !all_ascii_digits(digits) {
        None
    } else {
        let v = if negative {
            -digits_value(digits)
        } else {
            digits_value(digits)
        };
        if i32::MIN <= v && v <= i32::MAX {
            Some(v)
        } else {
            None
        }
    }
}

/// A version component: its `i32` value, or 0 when it does not parse.
pub open spec fn part_value(s: Seq<char>) -> int {
    match parse_i32(s) {
        Some(v) => v,
        None => 0,
    }
}

/// The numeric components of a version string: leading `v`/`V` dropped, split on `.`,
/// at most the first three pieces, each read by `part_value`.
pub open spec fn version_parts(s: Seq<char>) -> Seq<int> {
    let vals = split_on(strip_v(s), '.').map_values(|p: Seq<char>| part_value(p));
    if vals.len() > 3 {
        vals.take(3)
    } else {
        vals
    }
}

/// Whether a component-wise comparison starting at index `i` reaches a verdict
/// without reading a component that one of the two versions lacks.
pub open spec fn parts_decided(pa: Seq<int>, pb: Seq<int>, i: int) -> bool
    decreases 3 - i,
{
    if i >= 3 {
        true
    } else if i < 0 || i >= pa.len() || i >= pb.len() {
        false
    } else if pa[i] != pb[i] {
        true
    } else {
        parts_decided(pa, pb, i + 1)
    }
}

/// Lexicographic "greater than" over the first three components, from index `i` on.
pub open spec fn parts_greater(pa: Seq<int>, pb: Seq<int>, i: int) -> bool
    decreases 3 - i,
{
    if i >= 3 || i < 0 {
        false
    } else if pa[i] != pb[i] {
        pa[i] > pb[i]
    } else {
        parts_greater(pa, pb, i + 1)
    }
}

/// The comparison of `a` and `b` is defined: it never reads a missing component.
pub open spec fn semver_defined(a: Seq<char>, b: Seq<char>) -> bool {
    parts_decided(version_parts(a), version_parts(b), 0)
}

/// `a` is a strictly newer version than `b`.
pub open spec fn semver_greater(a: Seq<char>, b: Seq<char>) -> bool {
    parts_greater(version_parts(a), version_parts(b), 0)
}

// ---------------------------------------------------------------------------
// Lemmas
// ---------------------------------------------------------------------------

pub proof fn lemma_split_nonempty(s: Seq<char>, sep: char)
    ensures
        split_on(s, sep).len() >= 1,
    decreases s.len(),
{
    if s.len() > 0 {
        lemma_split_nonempty(s.drop_last(), sep);
    }
}

proof fn lemma_digits_monotone(s: Seq<char>, k: int)
    requires
        0 <= k <= s.len(),
        all_ascii_digits(s),
    ensures
        digits_value(s.take(k)) <= digits_value(s),
        0 <= digits_value(s.take(k)),
    decreases s.len() - k,
{
    lemma_digits_nonneg(s.take(k));
    if k < s.len() {
        lemma_digits_monotone(s, k + 1);
        let t = s.take(k + 1);
        assert(t.drop_last() =~= s.take(k));
        assert(is_ascii_digit(s[k]));
    } else {
        assert(s.take(k) =~= s);
    }
}

proof fn lemma_digits_nonneg(s: Seq<char>)
    requires
        all_ascii_digits(s),
    ensures
        0 <= digits_value(s),
    decreases s.len(),
{
    if s.len() > 0 {
        assert(all_ascii_digits(s.drop_last()));
        lemma_digits_nonneg(s.drop_last());
        assert(is_ascii_digit(s[s.len() - 1]));
    }
}

// ---------------------------------------------------------------------------
// Executable code
// ---------------------------------------------------------------------------

/// `str::parse::<i32>` on the characters of a component, 0 on any error.
pub fn parse_part(p: &Vec<char>) -> (r: i32)
    ensures
        r as int == part_value(p@),
{
    let n = p.len();
    if n == 0 {
        return 0;
    }
    let mut start: usize = 0;
    let mut negative = false;
    if p[0] == '-' {
        negative = true;
        start = 1;
    } else if p[0] == '+' {
        start = 1;
    }
    let ghost digits = if start == 1 {
        p@.drop_first()
    } else {
        p@
    };
    assert(digits =~= p@.skip(start as int));
    if start == n {
        return 0;
    }
    let mut acc: i64 = 0;
    let mut i: usize = start;
    while i < n
        invariant
            start <= i <= n,
            n == p@.len(),
            start < n,
            digits =~= p@.skip(start as int),
            negative == (p@[0] == '-'),
            start == 1 <==> (p@[0] == '-' || p@[0] == '+'),
            start <= 1,
            all_ascii_digits(digits.take(i - start)),
            acc as int == digits_value(digits.take(i - start)),
            0 <= acc <= 2147483648,
        decreases n - i,
    {
        let c = p[i];
        if !('0' <= c && c <= '9') {
            assert(digits[i - start] == c);
            assert(!all_ascii_digits(digits));
            return 0;
        }
        let d: i64 = (c as u32 - '0' as u32) as i64;
        let next: i64 = acc * 10 + d;
        proof {
            let t = digits.take(i - start + 1);
            assert(t.drop_last() =~= digits.take(i - start));
            assert(t.last() == c);
            assert(all_ascii_digits(t));
        }
        if next > 2147483648 {
            proof {
                let t = digits.take(i - start + 1);
                assert(d as int == c as int - '0' as int);
                assert(digits_value(t) == next as int);
                if all_ascii_digits(digits) {
                    lemma_digits_monotone(digits, i - start + 1);
                    assert(digits.len() > 0);
                    assert(digits_value(digits) > 2147483648);
                }
                assert(digits == (if p@.len() > 0 && (p@[0] == '-' || p@[0] == '+') { p@.drop_first() } else { p@ }));
                assert(parse_i32(p@) is None);
            }
            return 0;
        }
        acc = next;
        i = i + 1;
    }
    assert(digits.take(n - start) =~= digits);
    if negative {
        (0 - acc) as i32
    } else if acc > 2147483647 {
        0
    } else {
        acc as i32
    }
}

/// The numeric components of a version string (see `version_parts`).
pub fn version_numbers(s: &str) -> (r: Vec<i32>)
    ensures
        r@.map_values(|x: i32| x as int) == version_parts(s@),
{
    let cs = chars_of(s);
    let n = cs.len();
    let mut k: usize = 0;
    assert(cs@.skip(0) =~= cs@);
    while k < n && (cs[k] == 'v' || cs[k] == 'V')
        invariant
            k <= n,
            n == cs@.len(),
            strip_v(cs@) == strip_v(cs@.skip(k as int)),
        decreases n - k,
    {
        assert(cs@.skip(k as int).drop_first() =~= cs@.skip(k + 1));
        k = k + 1;
    }
    let ghost t = cs@.skip(k as int);
    assert(strip_v(cs@) == t);
    let mut all: Vec<i32> = Vec::new();
    let mut cur: Vec<char> = Vec::new();
    let mut i: usize = k;
    proof {
        assert(t.take(0) =~= Seq::<char>::empty());
        assert(split_on(t.take(0), '.') =~= seq![Seq::<char>::empty()]);
    }
    while i < n
        invariant
            k <= i <= n,
            n == cs@.len(),
            t == cs@.skip(k as int),
            split_on(t.take(i - k), '.').len() >= 1,
            all@.map_values(|x: i32| x as int) =~= split_on(t.take(i - k), '.').drop_last().map_values(
                |p: Seq<char>| part_value(p),
            ),
            cur@ == split_on(t.take(i - k), '.').last(),
        decreases n - i,
    {
        let c = cs[i];
        let ghost pre = t.take(i - k);
        let ghost post = t.take(i - k + 1);
        proof {
            assert(post.drop_last() =~= pre);
            assert(post.last() == c);
            lemma_split_nonempty(post, '.');
        }
        let ghost old_all = all@;
        if c == '.' {
            let v = parse_part(&cur);
            all.push(v);
            cur = Vec::new();
            proof {
                let sp = split_on(pre, '.');
                assert(split_on(post, '.') == sp.push(Seq::<char>::empty()));
                assert(split_on(post, '.').drop_last() =~= sp);
                assert(sp =~= sp.drop_last().push(sp.last()));
                assert(all@ =~= old_all.push(v));
                assert(all@.map_values(|x: i32| x as int) =~= old_all.map_values(|x: i32| x as int).push(v as int));
                assert(sp.map_values(|p: Seq<char>| part_value(p)) =~= sp.drop_last().map_values(|p: Seq<char>| part_value(p)).push(part_value(sp.last())));
            }
        } else {
            cur.push(c);
            proof {
                let sp = split_on(pre, '.');
                assert(split_on(post, '.') == sp.update(sp.len() - 1, sp.last().push(c)));
                assert(split_on(post, '.').drop_last() =~= sp.drop_last());
                assert(split_on(post, '.').last() =~= sp.last().push(c));
            }
        }
        i = i + 1;
    }
    let v = parse_part(&cur);
    all.push(v);
    proof {
        assert(t.take(n - k) =~= t);
        let sp = split_on(t, '.');
        lemma_split_nonempty(t, '.');
        assert(sp =~= sp.drop_last().push(sp.last()));
        assert(sp.map_values(|p: Seq<char>| part_value(p)) =~= sp.drop_last().map_values(|p: Seq<char>| part_value(p)).push(part_value(sp.last())));
        assert(all@.map_values(|x: i32| x as int) =~= sp.map_values(|p: Seq<char>| part_value(p)));
    }
    if all.len() > 3 {
        let mut r: Vec<i32> = Vec::new();
        let mut j: usize = 0;
        while j < 3
            invariant
                j <= 3,
                all.len() > 3,
                r@ =~= all@.take(j as int),
            decreases 3 - j,
        {
            r.push(all[j]);
            assert(all@.take(j + 1) =~= all@.take(j as int).push(all@[j as int]));
            j = j + 1;
        }
        assert(r@.map_values(|x: i32| x as int) =~= all@.map_values(|x: i32| x as int).take(3));
        r
    } else {
        all
    }
}

/// Whether `semver_gt(a, b)` is defined: the comparison reaches a verdict before it
/// needs a component that one of the versions does not have.
pub fn semver_comparable(a: &str, b: &str) -> (r: bool)
    ensures
        r == semver_defined(a@, b@),
{
    let pa = version_numbers(a);
    let pb = version_numbers(b);
    let ghost sa = version_parts(a@);
    let ghost sb = version_parts(b@);
    let mut i: usize = 0;
    while i < 3
        invariant
            i <= 3,
            sa == version_parts(a@),
            sb == version_parts(b@),
            pa@.map_values(|x: i32| x as int) == sa,
            pb@.map_values(|x: i32| x as int) == sb,
            parts_decided(sa, sb, 0) == parts_decided(sa, sb, i as int),
        decreases 3 - i,
    {
        assert(sa.len() == pa@.len());
        assert(sb.len() == pb@.len());
        if i >= pa.len() || i >= pb.len() {
            assert(!parts_decided(sa, sb, i as int));
            return false;
        }
        assert(sa[i as int] == pa@[i as int] as int);
        assert(sb[i as int] == pb@[i as int] as int);
        if pa[i] != pb[i] {
            return true;
        }
        i = i + 1;
    }
    true
}

/// Lightweight semantic-version comparison: `a > b`, ignoring leading `v`/`V`,
/// comparing `major.minor.patch` component by component.
pub fn semver_gt(a: &str, b: &str) -> (r: bool)
    requires
        semver_defined(a@, b@),
    ensures
        r == semver_greater(a@, b@),
{
    let pa = version_numbers(a);
    let pb = version_numbers(b);
    let ghost sa = version_parts(a@);
    let ghost sb = version_parts(b@);
    let mut i: usize = 0;
    while i < 3
        invariant
            i <= 3,
            sa == version_parts(a@),
            sb == version_parts(b@),
            pa@.map_values(|x: i32| x as int) == sa,
            pb@.map_values(|x: i32| x as int) == sb,
            parts_decided(sa, sb, i as int),
            parts_greater(sa, sb, 0) == parts_greater(sa, sb, i as int),
        decreases 3 - i,
    {
        assert(sa.len() == pa@.len());
        assert(sb.len() == pb@.len());
        assert(sa[i as int] == pa@[i as int] as int);
        assert(sb[i as int] == pb@[i as int] as int);
        if pa[i] != pb[i] {
            return pa[i] > pb[i];
        }
        i = i + 1;
    }
    false
}

// ---------------------------------------------------------------------------
// Laws of the comparison
// ---------------------------------------------------------------------------

proof fn lemma_greater_irreflexive(p: Seq<int>, i: int)
    ensures
        !parts_greater(p, p, i),
    decreases 3 - i,
{
    if 0 <= i < 3 {
        lemma_greater_irreflexive(p, i + 1);
    }
}

proof fn lemma_greater_asymmetric(pa: Seq<int>, pb: Seq<int>, i: int)
    ensures
        parts_greater(pa, pb, i) ==> !parts_greater(pb, pa, i),
    decreases 3 - i,
{
    if 0 <= i < 3 {
        lemma_greater_asymmetric(pa, pb, i + 1);
    }
}

proof fn lemma_greater_transitive(pa: Seq<int>, pb: Seq<int>, pc: Seq<int>, i: int)
    requires
        parts_greater(pa, pb, i),
        parts_greater(pb, pc, i),
    ensures
        parts_greater(pa, pc, i),
    decreases 3 - i,
{
    if 0 <= i < 3 && pa[i] == pb[i] && pb[i] == pc[i] {
        lemma_greater_transitive(pa, pb, pc, i + 1);
    }
}

proof fn lemma_decided_equal(pa: Seq<int>, pb: Seq<int>, i: int)
    requires
        0 <= i <= 3,
        parts_decided(pa, pb, i),
        !parts_greater(pa, pb, i),
        !parts_greater(pb, pa, i),
    ensures
        i < 3 ==> pa.len() >= 3,
        i < 3 ==> pb.len() >= 3,
        forall|j: int| i <= j < 3 ==> pa[j] == pb[j],
    decreases 3 - i,
{
    if i < 3 {
        lemma_decided_equal(pa, pb, i + 1);
    }
}

proof fn lemma_parts_at_most_three(s: Seq<char>)
    ensures
        version_parts(s).len() <= 3,
{
}

/// No version is newer than itself.
pub proof fn law_semver_irreflexive(a: Seq<char>)
    ensures
        !semver_greater(a, a),
{
    lemma_greater_irreflexive(version_parts(a), 0);
}

/// Of two versions, at most one is newer than the other.
pub proof fn law_semver_asymmetric(a: Seq<char>, b: Seq<char>)
    ensures
        semver_greater(a, b) ==> !semver_greater(b, a),
{
    lemma_greater_asymmetric(version_parts(a), version_parts(b), 0);
}

/// Newer-than is transitive.
pub proof fn law_semver_transitive(a: Seq<char>, b: Seq<char>, c: Seq<char>)
    requires
        semver_greater(a, b),
        semver_greater(b, c),
    ensures
        semver_greater(a, c),
{
    lemma_greater_transitive(version_parts(a), version_parts(b), version_parts(c), 0);
}

/// When the comparison is defined and neither version is newer, both have the same
/// three components.
pub proof fn law_semver_trichotomy(a: Seq<char>, b: Seq<char>)
    requires
        semver_defined(a, b),
        !semver_greater(a, b),
        !semver_greater(b, a),
    ensures
        version_parts(a) == version_parts(b),
        version_parts(a).len() == 3,
{
    let pa = version_parts(a);
    let pb = version_parts(b);
    lemma_decided_equal(pa, pb, 0);
    lemma_parts_at_most_three(a);
    lemma_parts_at_most_three(b);
    assert(pa =~= pb);
}

/// A leading `v` or `V` does not change a version or how it compares.
pub proof fn law_semver_ignores_v_prefix(c: char, a: Seq<char>, b: Seq<char>)
    requires
        is_v_char(c),
    ensures
        version_parts(seq![c] + a) == version_parts(a),
        semver_greater(seq![c] + a, b) == semver_greater(a, b),
        semver_greater(b, seq![c] + a) == semver_greater(b, a),
        semver_defined(seq![c] + a, b) == semver_defined(a, b),
{
    let s = seq![c] + a;
    assert(s.drop_first() =~= a);
    assert(strip_v(s) == strip_v(a));
}

/// Whether the comparison is defined does not depend on the order of the arguments.
pub proof fn law_semver_defined_symmetric(a: Seq<char>, b: Seq<char>)
    ensures
        semver_defined(a, b) == semver_defined(b, a),
{
    lemma_decided_symmetric(version_parts(a), version_parts(b), 0);
}

proof fn lemma_decided_symmetric(pa: Seq<int>, pb: Seq<int>, i: int)
    ensures
        parts_decided(pa, pb, i) == parts_decided(pb, pa, i),
    decreases 3 - i,
{
    if 0 <= i < 3 {
        lemma_decided_symmetric(pa, pb, i + 1);
    }
}

} // verus!
