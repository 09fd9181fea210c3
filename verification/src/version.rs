//! Dotted-numeric version comparison: each version string is split on `.`,
//! every segment is parsed as a `u32` with zero substituted for a segment
//! that fails to parse, and the resulting integer sequences are compared
//! lexicographically (a proper prefix is smaller than the longer sequence).

use vstd::prelude::*;
use vstd::string::StrSliceExecFns;
use crate::text::{find_char, lemma_find_char_bounds, lemma_find_char_at, lemma_find_char_absent};

verus! {

pub open spec fn is_digit_char(c: char) -> bool {
    48 <= c as u32 <= 57
}

pub open spec fn digit_value(c: char) -> nat {
    (c as u32 - 48) as nat
}

pub open spec fn all_digits(s: Seq<char>) -> bool {
    forall|i: int| 0 <= i < s.len() ==> is_digit_char(s[i])
}

/// Decimal value of a digit string, most significant digit first.
pub open spec fn digits_value(s: Seq<char>) -> nat
    decreases s.len(),
{
    if s.len() == 0 {
        0
    } else {
        digits_value(s.drop_last()) * 10 + digit_value(s.last())
    }
}

/// The numeric value of one version segment: a non-empty all-digit segment
/// whose value fits in a `u32` has its decimal value; any other segment
/// fails to parse and counts as zero.
pub open spec fn segment_value(s: Seq<char>) -> nat {
    if s.len() > 0 && all_digits(s) && digits_value(s) <= u32::MAX {
        digits_value(s)
    } else {
        0
    }
}

/// The sequence of segment values obtained by splitting `s` on `.`.
/// An empty string yields the single segment value zero, as does a string
/// with consecutive or trailing dots for the empty segments between them.
pub open spec fn version_segments(s: Seq<char>) -> Seq<nat>
    decreases s.len(),
    via version_segments_decreases
{
    let i = find_char(s, '.');
    if i < 0 {
        seq![segment_value(s)]
    } else {
        seq![segment_value(s.subrange(0, i))] + version_segments(
            s.subrange(i + 1, s.len() as int),
        )
    }
}

#[via_fn]
proof fn version_segments_decreases(s: Seq<char>) {
    lemma_find_char_bounds(s, '.');
}

/// Strict lexicographic order on integer sequences: compare element by
/// element; on a common prefix, the longer sequence is the greater one.
pub open spec fn seq_lex_gt(a: Seq<nat>, b: Seq<nat>) -> bool
    decreases a.len(),
{
    if b.len() == 0 {
        a.len() > 0
    } else if a.len() == 0 {
        false
    } else if a[0] != b[0] {
        a[0] > b[0]
    } else {
        seq_lex_gt(a.drop_first(), b.drop_first())
    }
}

/// `remote` is strictly newer than `local` under segment-wise comparison.
pub open spec fn version_newer(remote: Seq<char>, local: Seq<char>) -> bool {
    seq_lex_gt(version_segments(remote), version_segments(local))
}

pub open spec fn nat_seq(v: Seq<u32>) -> Seq<nat> {
    v.map_values(|x: u32| x as nat)
}

proof fn lemma_digits_value_prefix_le(s: Seq<char>, i: int)
    requires
        0 <= i <= s.len(),
    ensures
        digits_value(s.take(i)) <= digits_value(s),
    decreases s.len() - i,
{
    if i == s.len() {
        assert(s.take(i) =~= s);
    } else {
        assert(s.take(i + 1).drop_last() =~= s.take(i));
        assert(digits_value(s.take(i + 1)) == digits_value(s.take(i)) * 10 + digit_value(
            s.take(i + 1).last(),
        ));
        lemma_digits_value_prefix_le(s, i + 1);
    }
}

/// Parse one version segment with the comparison's deliberate leniency: the
/// decimal value of a non-empty all-digit segment that fits in a `u32`, and
/// zero for every segment that fails to parse.
pub fn parse_segment_or_zero(s: &str) -> (r: u32)
    ensures
        r as nat == segment_value(s@),
{
    let n = s.unicode_len();
    if n == 0 {
        return 0;
    }
    let mut acc: u32 = 0;
    let mut i: usize = 0;
    while i < n
        invariant
            0 < n == s@.len(),
            0 <= i <= n,
            all_digits(s@.take(i as int)),
            acc as nat == digits_value(s@.take(i as int)),
        decreases n - i,
    {
        let c = s.get_char(i);
        let code = c as u32;
        if code < 48 || code > 57 {
            assert(!is_digit_char(s@[i as int]));
            return 0;
        }
        let d = code - 48;
        proof {
            assert(s@.take(i as int + 1).drop_last() =~= s@.take(i as int));
            assert(s@.take(i as int + 1).last() == s@[i as int]);
            assert(digits_value(s@.take(i as int + 1)) == acc * 10 + d);
            // u32::MAX == 429496729 * 10 + 5
            assert(429496729u64 * 10 + 5 == u32::MAX);
        }
        if acc > 429496729 || (acc == 429496729 && d > 5) {
            // The digits seen so far already exceed u32::MAX, so whatever
            // follows, this segment fails to parse and counts as zero.
            proof {
                assert(digits_value(s@.take(i as int + 1)) > u32::MAX);
                lemma_digits_value_prefix_le(s@, i as int + 1);
                assert(digits_value(s@) > u32::MAX);
            }
            return 0;
        }
        acc = acc * 10 + d;
        proof {
            assert(all_digits(s@.take(i as int + 1)));
        }
        i += 1;
    }
    proof {
        assert(s@.take(n as int) =~= s@);
    }
    acc
}

/// Split a version string on `.` into the `u32` values of its segments.
pub fn version_parts(s: &str) -> (v: Vec<u32>)
    ensures
        nat_seq(v@) == version_segments(s@),
{
    let n = s.unicode_len();
    let mut parts: Vec<u32> = Vec::new();
    let mut start: usize = 0;
    let mut i: usize = 0;
    proof {
        assert(s@.subrange(0, n as int) =~= s@);
        assert(nat_seq(parts@) =~= Seq::<nat>::empty());
        assert(Seq::<nat>::empty() + version_segments(s@) =~= version_segments(s@));
    }
    while i < n
        invariant
            n == s@.len(),
            0 <= start <= i <= n,
            forall|j: int| start <= j < i ==> s@[j] != '.',
            version_segments(s@) == nat_seq(parts@) + version_segments(
                s@.subrange(start as int, n as int),
            ),
        decreases n - i,
    {
        let c = s.get_char(i);
        if c == '.' {
            let seg = s.substring_char(start, i);
            let val = parse_segment_or_zero(seg);
            proof {
                let rem = s@.subrange(start as int, n as int);
                assert forall|j: int| 0 <= j < i - start implies rem[j] != '.' by {
                    assert(rem[j] == s@[start + j]);
                }
                assert(rem[i - start] == '.');
                lemma_find_char_at(rem, '.', i - start);
                assert(rem.subrange(0, i - start) =~= s@.subrange(start as int, i as int));
                assert(rem.subrange(i - start + 1, rem.len() as int) =~= s@.subrange(
                    i as int + 1,
                    n as int,
                ));
                assert(version_segments(rem) == seq![segment_value(seg@)] + version_segments(
                    s@.subrange(i as int + 1, n as int),
                ));
            }
            let ghost old_parts = parts@;
            parts.push(val);
            proof {
                assert(nat_seq(parts@) =~= nat_seq(old_parts).push(val as nat));
                assert(nat_seq(parts@) + version_segments(s@.subrange(i as int + 1, n as int))
                    =~= nat_seq(old_parts) + version_segments(
                    s@.subrange(start as int, n as int),
                ));
            }
            start = i + 1;
        }
        i += 1;
    }
    let seg = s.substring_char(start, n);
    let val = parse_segment_or_zero(seg);
    proof {
        let rem = s@.subrange(start as int, n as int);
        assert forall|j: int| 0 <= j < rem.len() implies rem[j] != '.' by {
            assert(rem[j] == s@[start + j]);
        }
        lemma_find_char_absent(rem, '.');
        assert(version_segments(rem) =~= seq![segment_value(seg@)]);
    }
    let ghost old_parts = parts@;
    parts.push(val);
    proof {
        assert(nat_seq(parts@) =~= nat_seq(old_parts).push(val as nat));
        assert(nat_seq(parts@) =~= nat_seq(old_parts) + seq![val as nat]);
    }
    parts
}

/// Lexicographic strict greater-than on two segment vectors.
fn lex_gt(a: &Vec<u32>, b: &Vec<u32>) -> (r: bool)
    ensures
        r == seq_lex_gt(nat_seq(a@), nat_seq(b@)),
{
    let ghost aa = nat_seq(a@);
    let ghost bb = nat_seq(b@);
    let mut i: usize = 0;
    proof {
        assert(aa.skip(0) =~= aa);
        assert(bb.skip(0) =~= bb);
    }
    while i < a.len() && i < b.len()
        invariant
            aa == nat_seq(a@),
            bb == nat_seq(b@),
            0 <= i <= a.len(),
            0 <= i <= b.len(),
            seq_lex_gt(aa, bb) == seq_lex_gt(aa.skip(i as int), bb.skip(i as int)),
        decreases a.len() - i,
    {
        let x = a[i];
        let y = b[i];
        proof {
            assert(aa.skip(i as int)[0] == aa[i as int]);
            assert(bb.skip(i as int)[0] == bb[i as int]);
        }
        if x > y {
            return true;
        }
        if x < y {
            return false;
        }
        proof {
            assert(aa.skip(i as int).drop_first() =~= aa.skip(i as int + 1));
            assert(bb.skip(i as int).drop_first() =~= bb.skip(i as int + 1));
        }
        i += 1;
    }
    proof {
        if i < a.len() {
            assert(bb.skip(i as int).len() == 0);
            assert(aa.skip(i as int).len() > 0);
        } else {
            assert(aa.skip(i as int).len() == 0);
        }
    }
    i < a.len()
}

proof fn lemma_seq_lex_gt_irreflexive(a: Seq<nat>)
    ensures
        !seq_lex_gt(a, a),
    decreases a.len(),
{
    if a.len() > 0 {
        lemma_seq_lex_gt_irreflexive(a.drop_first());
    }
}

proof fn lemma_seq_lex_gt_asymmetric(a: Seq<nat>, b: Seq<nat>)
    requires
        seq_lex_gt(a, b),
    ensures
        !seq_lex_gt(b, a),
    decreases a.len(),
{
    if a.len() > 0 && b.len() > 0 && a[0] == b[0] {
        lemma_seq_lex_gt_asymmetric(a.drop_first(), b.drop_first());
    }
}

proof fn lemma_seq_lex_gt_transitive(a: Seq<nat>, b: Seq<nat>, c: Seq<nat>)
    requires
        seq_lex_gt(a, b),
        seq_lex_gt(b, c),
    ensures
        seq_lex_gt(a, c),
    decreases a.len(),
{
    if a.len() > 0 && b.len() > 0 && c.len() > 0 && a[0] == b[0] && b[0] == c[0] {
        lemma_seq_lex_gt_transitive(a.drop_first(), b.drop_first(), c.drop_first());
    }
}

proof fn lemma_seq_lex_gt_total(a: Seq<nat>, b: Seq<nat>)
    ensures
        seq_lex_gt(a, b) || seq_lex_gt(b, a) || a == b,
    decreases a.len(),
{
    if a.len() == 0 && b.len() == 0 {
        assert(a =~= b);
    }
    if a.len() > 0 && b.len() > 0 && a[0] == b[0] {
        lemma_seq_lex_gt_total(a.drop_first(), b.drop_first());
        if a.drop_first() == b.drop_first() {
            assert(a.len() == b.len());
            assert forall|i: int| 0 <= i < a.len() implies a[i] == b[i] by {
                if i > 0 {
                    assert(a[i] == a.drop_first()[i - 1]);
                    assert(b[i] == b.drop_first()[i - 1]);
                }
            }
            assert(a =~= b);
        }
    }
}

/// Law: a version is never newer than itself.
pub proof fn lemma_version_newer_irreflexive(a: Seq<char>)
    ensures
        !version_newer(a, a),
{
    lemma_seq_lex_gt_irreflexive(version_segments(a));
}

/// Law: two versions are never each newer than the other.
pub proof fn lemma_version_newer_asymmetric(a: Seq<char>, b: Seq<char>)
    requires
        version_newer(a, b),
    ensures
        !version_newer(b, a),
{
    lemma_seq_lex_gt_asymmetric(version_segments(a), version_segments(b));
}

/// Law: newer-than is transitive.
pub proof fn lemma_version_newer_transitive(a: Seq<char>, b: Seq<char>, c: Seq<char>)
    requires
        version_newer(a, b),
        version_newer(b, c),
    ensures
        version_newer(a, c),
{
    lemma_seq_lex_gt_transitive(version_segments(a), version_segments(b), version_segments(c));
}

/// Law: any two versions compare — one is newer than the other, or their
/// segment sequences are equal (as for two strings whose segments all parse
/// to the same values, such as one with a malformed segment and one with a
/// zero in its place).
pub proof fn lemma_version_newer_total(a: Seq<char>, b: Seq<char>)
    ensures
        version_newer(a, b) || version_newer(b, a) || version_segments(a) == version_segments(b),
{
    lemma_seq_lex_gt_total(version_segments(a), version_segments(b));
}

/// Law: a segment that fails to parse — empty, not all digits, or too large
/// for a `u32` — degrades to zero rather than failing.
pub proof fn lemma_unparsed_segment_is_zero(s: Seq<char>)
    requires
        s.len() == 0 || !all_digits(s) || digits_value(s) > u32::MAX,
    ensures
        segment_value(s) == 0,
{
}

/// Returns true iff `remote` names a strictly newer version than `local`:
/// the dotted-numeric segments of `remote`, with unparseable segments counted
/// as zero, are lexicographically greater than those of `local`.
pub fn compare_versions(remote: &str, local: &str) -> (r: bool)
    ensures
        r == version_newer(remote@, local@),
{
    let a = version_parts(remote);
    let b = version_parts(local);
    lex_gt(&a, &b)
}

} // verus!
