//! Release version numbers: `1.2.10`, optionally written with a leading `v`,
//! compared part by part as numbers.
use vstd::prelude::*;

verus! {

/// `s` without one leading `v`.
pub open spec fn strip_v(s: Seq<char>) -> Seq<char> {
    if s.len() > 0 && s[0] == 'v' {
        s.drop_first()
    } else {
        s
    }
}

/// The pieces of `s` between dots (`"1.20."` has the pieces `1`, `20` and the empty one).
pub open spec fn split_dots(s: Seq<char>) -> Seq<Seq<char>>
    decreases s.len(),
{
    if s.len() == 0 {
        seq![Seq::empty()]
    } else {
        let parts = split_dots(s.drop_last());
        if s.last() == '.' {
            parts.push(Seq::empty())
        } else {
            parts.update(parts.len() - 1, parts.last().push(s.last()))
        }
    }
}

pub open spec fn is_digit(c: char) -> bool {
    '0' <= c && c <= '9'
}

/// The number that the decimal digits `s` write.
pub open spec fn decimal_value(s: Seq<char>) -> nat
    decreases s.len(),
{
    if s.len() == 0 {
        0
    } else {
        decimal_value(s.drop_last()) * 10 + (s.last() as nat - '0' as nat) as nat
    }
}

/// A version part: one or more decimal digits whose value fits in 64 bits.
pub open spec fn is_number_part(p: Seq<char>) -> bool {
    &&& p.len() > 0
    &&& forall|i: int| 0 <= i < p.len() ==> is_digit(#[trigger] p[i])
    &&& decimal_value(p) <= u64::MAX
}

/// The numbers a version string names, if it is one: after an optional
/// leading `v`, number parts separated by single dots.
pub open spec fn parse_version(s: Seq<char>) -> Option<Seq<nat>> {
    let parts = split_dots(strip_v(s));
    if forall|i: int| 0 <= i < parts.len() ==> is_number_part(#[trigger] parts[i]) {
        Some(parts.map_values(|p: Seq<char>| decimal_value(p)))
    } else {
        None
    }
}

/// Part `i` of a version, where missing parts count as 0.
pub open spec fn part_at(a: Seq<nat>, i: int) -> nat {
    if 0 <= i < a.len() {
        a[i]
    } else {
        0
    }
}

/// Sign of the comparison of `a` and `b` from part `i` on: the first part that
/// differs decides; versions that differ only by trailing zero parts are equal.
pub open spec fn compare_from(a: Seq<nat>, b: Seq<nat>, i: nat) -> int
    decreases (if a.len() > b.len() { a.len() } else { b.len() }) - i,
{
    if i >= a.len() && i >= b.len() {
        0
    } else if part_at(a, i as int) < part_at(b, i as int) {
        -1
    } else if part_at(a, i as int) > part_at(b, i as int) {
        1
    } else {
        compare_from(a, b, i + 1)
    }
}

pub open spec fn compare_versions(a: Seq<nat>, b: Seq<nat>) -> int {
    compare_from(a, b, 0)
}

/// `latest` names a later version than `current`; when either is not a version
/// string, nothing counts as later.
pub open spec fn is_newer(latest: Seq<char>, current: Seq<char>) -> bool {
    match (parse_version(latest), parse_version(current)) {
        (Some(a), Some(b)) => compare_versions(a, b) > 0,
        _ => false,
    }
}

proof fn lemma_split_nonempty(s: Seq<char>)
    ensures
        split_dots(s).len() >= 1,
    decreases s.len(),
{
    if s.len() > 0 {
        lemma_split_nonempty(s.drop_last());
    }
}

/// Reads one number part, or `None` when it is not one.
fn parse_number_part(p: &Vec<char>) -> (r: Option<u64>)
    ensures
        r is Some <==> is_number_part(p@),
        r matches Some(v) ==> v == decimal_value(p@),
{
    if p.len() == 0 {
        return None;
    }
    let mut value: u64 = 0;
    let mut i: usize = 0;
    while i < p.len()
        invariant
            i <= p.len(),
            p.len() > 0,
            value == decimal_value(p@.take(i as int)),
            forall|k: int| 0 <= k < i ==> is_digit(#[trigger] p@[k]),
        decreases p.len() - i,
    {
        assert(p@.take(i + 1).drop_last() == p@.take(i as int));
        let c = p[i];
        if !('0' <= c && c <= '9') {
            assert(!is_digit(p@[i as int]));
            return None;
        }
        let d = (c as u32 - '0' as u32) as u64;
        let ten = value.checked_mul(10);
        match ten {
            None => {
                proof { lemma_value_grows(p@, i as int + 1); }
                return None;
            },
            Some(t) => match t.checked_add(d) {
                None => {
                    proof { lemma_value_grows(p@, i as int + 1); }
                    return None;
                },
                Some(v) => {
                    value = v;
                },
            },
        }
        i += 1;
    }
    assert(p@.take(p.len() as int) == p@);
    Some(value)
}

/// The value of a digit string is at least the value of any of its prefixes.
proof fn lemma_value_grows(p: Seq<char>, k: int)
    requires
        0 <= k <= p.len(),
        forall|j: int| 0 <= j < k ==> is_digit(#[trigger] p[j]),
    ensures
        (forall|j: int| 0 <= j < p.len() ==> is_digit(#[trigger] p[j])) ==> decimal_value(
            p.take(k),
        ) <= decimal_value(p),
    decreases p.len() - k,
{
    if k < p.len() && (forall|j: int| 0 <= j < p.len() ==> is_digit(#[trigger] p[j])) {
        lemma_value_grows(p, k + 1);
        assert(p.take(k + 1).drop_last() == p.take(k));
        assert(is_digit(p[k]));
    } else if k == p.len() {
        assert(p.take(k) == p);
    }
}


proof fn lemma_split_step(s: Seq<char>, i: int)
    requires
        0 <= i < s.len(),
    ensures
        split_dots(s.take(i + 1)) == (if s[i] == '.' {
            split_dots(s.take(i)).push(Seq::empty())
        } else {
            let parts = split_dots(s.take(i));
            parts.update(parts.len() - 1, parts.last().push(s[i]))
        }),
{
    assert(s.take(i + 1).drop_last() == s.take(i));
}

/// The numbers of a version string, or `None` when it is not one.
pub fn parse_version_numbers(s: &str) -> (r: Option<Vec<u64>>)
    ensures
        r is Some <==> parse_version(s@) is Some,
        r matches Some(v) ==> parse_version(s@) == Some(v@.map_values(|x: u64| x as nat)),
{
    let all = crate::text::chars_of(s);
    let start: usize = if all.len() > 0 && all[0] == 'v' { 1 } else { 0 };
    let ghost body = strip_v(s@);
    assert(body == all@.subrange(start as int, all.len() as int));
    let mut nums: Vec<u64> = Vec::new();
    let mut cur: Vec<char> = Vec::new();
    let mut i: usize = start;
    assert(body.take(0) == Seq::<char>::empty());
    while i < all.len()
        invariant
            start <= i <= all.len(),
            body == strip_v(s@),
            body == all@.subrange(start as int, all.len() as int),
            ({
                let parts = split_dots(body.take(i - start));
                &&& parts.len() == nums.len() + 1
                &&& parts.last() == cur@
                &&& forall|k: int|
                    0 <= k < nums.len() ==> is_number_part(#[trigger] parts[k]) && nums@[k]
                        == decimal_value(parts[k])
            }),
        decreases all.len() - i,
    {
        let ghost j = i - start;
        proof {
            lemma_split_step(body, j);
            lemma_split_nonempty(body.take(j));
        }
        let c = all[i];
        if c == '.' {
            match parse_number_part(&cur) {
                None => {
                    proof {
                        let parts = split_dots(body.take(j));
                        let longer = split_dots(body.take(j + 1));
                        assert(longer.len() == nums.len() + 2);
                        assert(longer[nums.len() as int] == cur@);
                        lemma_split_prefix_parts(body, j + 1, body.len() as int);
                        assert(body.take(body.len() as int) == body);
                        let whole = split_dots(body.take(body.len() as int));
                        assert(whole[nums.len() as int] == cur@);
                        assert(split_dots(body) == whole);
                        assert(!is_number_part(split_dots(body)[nums.len() as int]));
                        assert(strip_v(s@) == body);
                    }
                    return None;
                },
                Some(n) => {
                    nums.push(n);
                    cur = Vec::new();
                },
            }
        } else {
            cur.push(c);
        }
        i += 1;
    }
    assert(body.take(body.len() as int) == body);
    match parse_number_part(&cur) {
        None => None,
        Some(n) => {
            nums.push(n);
            proof {
                let parts = split_dots(body);
                assert forall|k: int| 0 <= k < parts.len() implies is_number_part(
                    #[trigger] parts[k],
                ) by {
                    if k < nums.len() - 1 {
                    } else {
                    }
                }
                assert(parts.map_values(|p: Seq<char>| decimal_value(p)) =~= nums@.map_values(
                    |x: u64| x as nat,
                ));
            }
            Some(nums)
        },
    }
}

/// Pieces finished in a prefix stay pieces of the longer string.
proof fn lemma_split_prefix_parts(s: Seq<char>, i: int, j: int)
    requires
        0 <= i <= j <= s.len(),
    ensures
        split_dots(s.take(i)).len() <= split_dots(s.take(j)).len(),
        forall|k: int|
            0 <= k < split_dots(s.take(i)).len() - 1 ==> #[trigger] split_dots(s.take(j))[k]
                == split_dots(s.take(i))[k],
    decreases j - i,
{
    if i < j {
        lemma_split_prefix_parts(s, i, j - 1);
        lemma_split_step(s, j - 1);
        lemma_split_nonempty(s.take(j - 1));
    }
}


pub open spec fn as_nats(v: Seq<u64>) -> Seq<nat> {
    v.map_values(|x: u64| x as nat)
}

/// Compares two versions given by their numbers: -1, 0 or 1.
fn compare_numbers(a: &Vec<u64>, b: &Vec<u64>) -> (r: i8)
    ensures
        r as int == compare_versions(as_nats(a@), as_nats(b@)),
{
    let ghost x = as_nats(a@);
    let ghost y = as_nats(b@);
    let mut i: usize = 0;
    while i < a.len() || i < b.len()
        invariant
            x == as_nats(a@),
            y == as_nats(b@),
            compare_versions(x, y) == compare_from(x, y, i as nat),
        decreases (if a.len() > b.len() { a.len() } else { b.len() }) - i,
    {
        let p: u64 = if i < a.len() { a[i] } else { 0 };
        let q: u64 = if i < b.len() { b[i] } else { 0 };
        assert(p == part_at(x, i as int));
        assert(q == part_at(y, i as int));
        if p < q {
            return -1;
        } else if p > q {
            return 1;
        }
        i += 1;
    }
    0
}

/// Whether `latest` names a later version than `current`.
pub fn is_newer_version(latest: &str, current: &str) -> (b: bool)
    ensures
        b == is_newer(latest@, current@),
{
    match (parse_version_numbers(latest), parse_version_numbers(current)) {
        (Some(a), Some(c)) => compare_numbers(&a, &c) > 0,
        _ => false,
    }
}

proof fn lemma_compare_self(a: Seq<nat>, i: nat)
    ensures
        compare_from(a, a, i) == 0,
    decreases a.len() - i,
{
    if i < a.len() {
        lemma_compare_self(a, i + 1);
    }
}

proof fn lemma_compare_flip(a: Seq<nat>, b: Seq<nat>, i: nat)
    ensures
        compare_from(a, b, i) == -compare_from(b, a, i),
    decreases (if a.len() > b.len() { a.len() } else { b.len() }) - i,
{
    if !(i >= a.len() && i >= b.len()) && part_at(a, i as int) == part_at(b, i as int) {
        lemma_compare_flip(a, b, i + 1);
    }
}

proof fn lemma_compare_chain(a: Seq<nat>, b: Seq<nat>, c: Seq<nat>, i: nat)
    requires
        compare_from(a, b, i) > 0,
        compare_from(b, c, i) > 0,
    ensures
        compare_from(a, c, i) > 0,
    decreases (if a.len() > b.len() { if a.len() > c.len() { a.len() } else { c.len() } } else {
        if b.len() > c.len() { b.len() } else { c.len() }
    }) - i,
{
    if part_at(a, i as int) == part_at(b, i as int) && part_at(b, i as int) == part_at(
        c,
        i as int,
    ) {
        lemma_compare_chain(a, b, c, i + 1);
    }
}

/// No version is newer than itself.
pub proof fn law_not_newer_than_itself(v: Seq<char>)
    ensures
        !is_newer(v, v),
{
    if let Some(a) = parse_version(v) {
        lemma_compare_self(a, 0);
    }
}

/// When one version is newer than another, the second is not newer than the first.
pub proof fn law_newer_is_asymmetric(a: Seq<char>, b: Seq<char>)
    requires
        is_newer(a, b),
    ensures
        !is_newer(b, a),
{
    lemma_compare_flip(parse_version(a).unwrap(), parse_version(b).unwrap(), 0);
}

/// Being newer is transitive.
pub proof fn law_newer_is_transitive(a: Seq<char>, b: Seq<char>, c: Seq<char>)
    requires
        is_newer(a, b),
        is_newer(b, c),
    ensures
        is_newer(a, c),
{
    lemma_compare_chain(parse_version(a).unwrap(), parse_version(b).unwrap(), parse_version(c).unwrap(), 0);
}

/// A leading `v` does not change what a version is newer or older than.
pub proof fn law_leading_v_ignored(s: Seq<char>, other: Seq<char>)
    requires
        !(s.len() > 0 && s[0] == 'v'),
    ensures
        is_newer(seq!['v'] + s, other) == is_newer(s, other),
        is_newer(other, seq!['v'] + s) == is_newer(other, s),
{
    assert((seq!['v'] + s).drop_first() == s);
}

proof fn lemma_compare_from_positive(a: Seq<nat>, b: Seq<nat>, i: nat)
    ensures
        compare_from(a, b, i) > 0 <==> exists|k: int|
            i <= k && (forall|j: int| i <= j < k ==> #[trigger] part_at(a, j) == part_at(b, j)) && #[trigger] part_at(a, k)
                > part_at(b, k),
    decreases (if a.len() > b.len() { a.len() } else { b.len() }) - i,
{
    if i >= a.len() && i >= b.len() {
        assert forall|k: int| i <= k implies !(#[trigger] part_at(a, k) > part_at(b, k)) by {}
    } else if part_at(a, i as int) < part_at(b, i as int) {
        assert forall|k: int|
            i <= k && (forall|j: int| i <= j < k ==> #[trigger] part_at(a, j) == part_at(b, j)) implies !(#[trigger] part_at(a, k)
                > part_at(b, k)) by {
            if k > i {
                assert(part_at(a, i as int) == part_at(b, i as int));
            }
        }
    } else if part_at(a, i as int) > part_at(b, i as int) {
        assert(part_at(a, i as int) > part_at(b, i as int));
    } else {
        lemma_compare_from_positive(a, b, i + 1);
        if compare_from(a, b, i + 1) > 0 {
            let k = choose|k: int|
                i + 1 <= k && (forall|j: int| i + 1 <= j < k ==> #[trigger] part_at(a, j) == part_at(b, j))
                    && #[trigger] part_at(a, k) > part_at(b, k);
            assert forall|j: int| i <= j < k implies #[trigger] part_at(a, j) == part_at(b, j) by {}
        } else {
            assert forall|k: int|
                i <= k && (forall|j: int| i <= j < k ==> #[trigger] part_at(a, j) == part_at(b, j)) implies !(
                #[trigger] part_at(a, k) > part_at(b, k)) by {
                if k > i {
                    assert forall|j: int| i + 1 <= j < k implies #[trigger] part_at(a, j) == part_at(b, j) by {}
                }
            }
        }
    }
}

/// One version's numbers are later than another's exactly when, reading the
/// parts from the left (a missing part counting as 0), the first part where
/// they differ is larger: `1.10` is later than `1.9`, and `1.2` is not later
/// than `1.2.0`.
pub proof fn law_newer_decided_by_first_differing_part(a: Seq<nat>, b: Seq<nat>)
    ensures
        compare_versions(a, b) > 0 <==> exists|k: int|
            0 <= k && (forall|j: int| 0 <= j < k ==> #[trigger] part_at(a, j) == part_at(b, j)) && #[trigger] part_at(a, k)
                > part_at(b, k),
{
    lemma_compare_from_positive(a, b, 0);
}

proof fn lemma_split_append_part(t: Seq<char>, d: char)
    requires
        d != '.',
    ensures
        split_dots(t + seq!['.', d]) == split_dots(t).push(seq![d]),
{
    let u = t.push('.');
    assert((t + seq!['.', d]).drop_last() =~= u);
    assert(u.drop_last() =~= t);
    assert(split_dots(u) == split_dots(t).push(Seq::empty()));
    assert(split_dots(t + seq!['.', d]) =~= split_dots(t).push(seq![d]));
}

proof fn lemma_parse_append_part(s: Seq<char>, d: char)
    requires
        parse_version(s) is Some,
        is_digit(d),
    ensures
        parse_version(s + seq!['.', d]) == Some(parse_version(s)->0.push((d as nat - '0' as nat) as nat)),
{
    let body = strip_v(s);
    lemma_split_nonempty(body);
    assert(is_number_part(split_dots(body)[0]));
    assert(body.len() > 0) by {
        if body.len() == 0 {
            assert(split_dots(body) =~= seq![Seq::<char>::empty()]);
        }
    }
    assert(strip_v(s + seq!['.', d]) =~= body + seq!['.', d]);
    lemma_split_append_part(body, d);
    let parts = split_dots(body);
    let more = parts.push(seq![d]);
    assert(decimal_value(seq![d]) == (d as nat - '0' as nat) as nat) by {
        assert(seq![d].drop_last() =~= Seq::<char>::empty());
        assert(decimal_value(Seq::<char>::empty()) == 0);
        assert(seq![d].last() == d);
        assert(decimal_value(seq![d]) == decimal_value(seq![d].drop_last()) * 10 + (d as nat - '0' as nat) as nat);
    }
    assert(is_number_part(seq![d]));
    assert forall|i: int| 0 <= i < more.len() implies is_number_part(#[trigger] more[i]) by {
        if i < parts.len() {
            assert(more[i] == parts[i]);
        }
    }
    assert(more.map_values(|p: Seq<char>| decimal_value(p)) =~= parts.map_values(|p: Seq<char>| decimal_value(p)).push(
        (d as nat - '0' as nat) as nat,
    ));
}

/// Adding a part to a version makes it later exactly when the part is not
/// zero: `1.2.1` is later than `1.2`, while `1.2.0` and `1.2` are the same
/// version, neither later than the other.
pub proof fn law_added_part_counts_unless_zero(s: Seq<char>)
    requires
        parse_version(s) is Some,
    ensures
        is_newer(s + ".1"@, s),
        !is_newer(s, s + ".1"@),
        !is_newer(s + ".0"@, s),
        !is_newer(s, s + ".0"@),
{
    reveal_strlit(".1");
    reveal_strlit(".0");
    assert(".1"@ =~= seq!['.', '1']);
    assert(".0"@ =~= seq!['.', '0']);
    lemma_parse_append_part(s, '1');
    lemma_parse_append_part(s, '0');
    let a = parse_version(s)->0;
    let one = a.push(1);
    let zero = a.push(0);
    assert(part_at(one, a.len() as int) > part_at(a, a.len() as int));
    assert forall|j: int| 0 <= j < a.len() implies #[trigger] part_at(one, j) == part_at(a, j) by {}
    law_newer_decided_by_first_differing_part(one, a);
    law_newer_decided_by_first_differing_part(a, one);
    law_newer_decided_by_first_differing_part(zero, a);
    law_newer_decided_by_first_differing_part(a, zero);
    assert forall|k: int| 0 <= k implies #[trigger] part_at(zero, k) == part_at(a, k) by {}
    assert forall|k: int|
        0 <= k && (forall|j: int| 0 <= j < k ==> #[trigger] part_at(a, j) == part_at(one, j)) implies !(#[trigger] part_at(a, k)
            > part_at(one, k)) by {}
}

} // verus!
