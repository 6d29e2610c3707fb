//! Default names for modules created without one: `"Module.<NNN>"`, where `NNN` is the
//! least suffix from `001` on that no name in the sibling scope carries.

use vstd::prelude::*;

verus! {

/// Prefix of generated module names.
pub open spec fn default_prefix() -> Seq<char> {
    seq!['M', 'o', 'd', 'u', 'l', 'e', '.']
}

pub open spec fn is_digit(c: char) -> bool {
    '0' <= c && c <= '9'
}

pub open spec fn digit_value(c: char) -> nat {
    (c as nat - '0' as nat) as nat
}

/// The number a name carries after its separator, if it follows the naming pattern: the
/// fourth character from the end is `.` and the last three are decimal digits.
pub open spec fn suffix_of(name: Seq<char>) -> Option<nat> {
    if name.len() >= 4 && name[name.len() - 4] == '.' {
        let a = name[name.len() - 3];
        let b = name[name.len() - 2];
        let c = name[name.len() - 1];
        if is_digit(a) && is_digit(b) && is_digit(c) {
            Some(100 * digit_value(a) + 10 * digit_value(b) + digit_value(c))
        } else {
            None
        }
    } else {
        None
    }
}

/// Some sibling name carries suffix `n`.
pub open spec fn occupied(names: Seq<String>, n: nat) -> bool {
    exists|i: int| 0 <= i < names.len() && #[trigger] suffix_of(names[i]@) == Some(n)
}

/// The first suffix from `k` on that no sibling carries (every suffix is below 1000).
pub open spec fn free_from(names: Seq<String>, k: nat) -> nat
    decreases 1000 - k,
{
    if k >= 1000 || !occupied(names, k) {
        k
    } else {
        free_from(names, k + 1)
    }
}

/// The suffix that follows the contiguous run `1, 2, ...` of occupied suffixes.
pub open spec fn next_suffix(names: Seq<String>) -> nat {
    free_from(names, 1)
}

pub open spec fn digit_char(d: nat) -> char {
    ((d % 10) + '0' as nat) as char
}

/// Decimal digits of `n`, most significant first.
pub open spec fn decimal(n: nat) -> Seq<char>
    decreases n,
{
    if n < 10 {
        seq![digit_char(n)]
    } else {
        decimal(n / 10).push(digit_char(n % 10))
    }
}

/// Decimal digits of `n`, left-padded with `0` to width three.
pub open spec fn zero_padded(n: nat) -> Seq<char> {
    if n < 10 {
        seq!['0', '0'] + decimal(n)
    } else if n < 100 {
        seq!['0'] + decimal(n)
    } else {
        decimal(n)
    }
}

/// The default name given to a module created among `names`.
pub open spec fn default_name(names: Seq<String>) -> Seq<char> {
    default_prefix() + zero_padded(next_suffix(names))
}

proof fn lemma_free_from_is_least(names: Seq<String>, k: nat, n: nat)
    requires
        1 <= k <= n <= 1000,
        n == 1000 || !occupied(names, n),
        forall|j: nat| k <= j < n ==> occupied(names, j),
    ensures
        free_from(names, k) == n,
    decreases n - k,
{
    if k < n {
        assert(occupied(names, k));
        lemma_free_from_is_least(names, k + 1, n);
    }
}

proof fn lemma_free_from_bounds(names: Seq<String>, k: nat)
    requires
        1 <= k <= 1000,
    ensures
        k <= free_from(names, k) <= 1000,
        free_from(names, k) == 1000 || !occupied(names, free_from(names, k)),
    decreases 1000 - k,
{
    if k < 1000 && occupied(names, k) {
        lemma_free_from_bounds(names, k + 1);
    }
}

proof fn lemma_digit_char(d: nat)
    requires
        d < 10,
    ensures
        is_digit(digit_char(d)),
        digit_value(digit_char(d)) == d,
{
}

proof fn lemma_zero_padded_digits(n: nat)
    requires
        n < 1000,
    ensures
        zero_padded(n) == seq![digit_char(n / 100), digit_char((n / 10) % 10), digit_char(n % 10)],
{
    if n < 10 {
        assert(zero_padded(n) =~= seq![digit_char(n / 100), digit_char((n / 10) % 10), digit_char(n % 10)]);
    } else if n < 100 {
        assert(decimal(n / 10) == seq![digit_char(n / 10)]);
        assert(zero_padded(n) =~= seq![digit_char(n / 100), digit_char((n / 10) % 10), digit_char(n % 10)]);
    } else {
        assert(n / 10 / 10 == n / 100);
        assert(decimal(n / 100) == seq![digit_char(n / 100)]);
        assert(decimal(n / 10) == decimal(n / 100).push(digit_char((n / 10) % 10)));
        assert(zero_padded(n) =~= seq![digit_char(n / 100), digit_char((n / 10) % 10), digit_char(n % 10)]);
    }
}

proof fn lemma_default_name_suffix(n: nat)
    requires
        n < 1000,
    ensures
        suffix_of(default_prefix() + zero_padded(n)) == Some(n),
        (default_prefix() + zero_padded(n)).len() == 10,
{
    lemma_zero_padded_digits(n);
    lemma_digit_char(n / 100);
    lemma_digit_char((n / 10) % 10);
    lemma_digit_char(n % 10);
    let name = default_prefix() + zero_padded(n);
    assert(name[6] == '.');
    assert(name[7] == digit_char(n / 100));
    assert(name[8] == digit_char((n / 10) % 10));
    assert(name[9] == digit_char(n % 10));
    assert(100 * (n / 100) + 10 * ((n / 10) % 10) + n % 10 == n);
}

/// A scope in which no sibling name follows the naming pattern gets suffix `"001"`.
pub proof fn lemma_unpatterned_scope_starts_at_one(names: Seq<String>)
    requires
        forall|i: int| 0 <= i < names.len() ==> #[trigger] suffix_of(names[i]@) is None,
    ensures
        next_suffix(names) == 1,
        zero_padded(next_suffix(names)) == seq!['0', '0', '1'],
{
    assert(!occupied(names, 1));
    assert(decimal(1) == seq!['1']);
    assert(zero_padded(1) =~= seq!['0', '0', '1']);
}

/// The default name is not the name of any sibling, unless every suffix up to 999 is taken.
pub proof fn lemma_default_name_is_fresh(names: Seq<String>)
    requires
        next_suffix(names) < 1000,
    ensures
        forall|i: int| 0 <= i < names.len() ==> names[i]@ != default_name(names),
{
    let n = next_suffix(names);
    lemma_free_from_bounds(names, 1);
    lemma_default_name_suffix(n);
    assert forall|i: int| 0 <= i < names.len() implies names[i]@ != default_name(names) by {
        if names[i]@ == default_name(names) {
            assert(suffix_of(names[i]@) == Some(n));
        }
    }
}

/// Two modules created one after the other in one scope, the second seeing the first,
/// get different default names.
pub proof fn lemma_successive_defaults_differ(names: Seq<String>, created: String)
    requires
        created@ == default_name(names),
        next_suffix(names) < 1000,
    ensures
        default_name(names.push(created)) != created@,
{
    let n = next_suffix(names);
    let after = names.push(created);
    let m = next_suffix(after);
    lemma_default_name_suffix(n);
    lemma_free_from_bounds(after, 1);
    assert(after[names.len() as int] == created);
    assert(occupied(after, n));
    if m < 1000 {
        lemma_default_name_suffix(m);
    } else {
        assert(decimal(1000) =~= seq!['1', '0', '0', '0']) by {
            assert(decimal(1) == seq!['1']);
            assert(decimal(10) == decimal(1).push('0'));
            assert(decimal(100) == decimal(10).push('0'));
        }
        assert(default_name(after).len() == 11);
    }
}

/// Reads the suffix of a name as `suffix_of` describes it.
pub fn parse_suffix(name: &str) -> (r: Option<u32>)
    ensures
        match suffix_of(name@) {
            Some(v) => r == Some(v as u32) && v < 1000,
            None => r is None,
        },
{
    let len: usize = name.unicode_len();
    if len < 4 {
        return None;
    }
    if name.get_char(len - 4) != '.' {
        return None;
    }
    let a = name.get_char(len - 3);
    let b = name.get_char(len - 2);
    let c = name.get_char(len - 1);
    if '0' <= a && a <= '9' && '0' <= b && b <= '9' && '0' <= c && c <= '9' {
        Some((a as u32 - '0' as u32) * 100 + (b as u32 - '0' as u32) * 10 + (c as u32 - '0' as u32))
    } else {
        None
    }
}

/// The number of the next default name among `names`: the least suffix, from 1 on,
/// that no sibling carries. Where the siblings' suffixes ascend strictly in the order given,
/// this is where a walk over the run `1, 2, ...` stops at its first gap. Where they do not
/// (a duplicate, or a suffix below one seen before it), the walk is ill-defined; this rule
/// settles those cases by ignoring the order of `names` altogether, so that a suffix that
/// some sibling carries is never handed out again.
pub fn next_suffix_number(names: &Vec<String>) -> (r: u32)
    ensures
        r as nat == next_suffix(names@),
        1 <= r <= 1000,
        !occupied(names@, r as nat),
        forall|k: nat| 1 <= k < r ==> occupied(names@, k),
{
    let mut seen: Vec<bool> = Vec::new();
    let mut i: usize = 0;
    while i < 1000
        invariant
            i <= 1000,
            seen@.len() == i,
            forall|k: int| 0 <= k < i ==> !seen@[k],
        decreases 1000 - i,
    {
        seen.push(false);
        i = i + 1;
    }
    let mut j: usize = 0;
    while j < names.len()
        invariant
            j <= names@.len(),
            seen@.len() == 1000,
            forall|k: int|
                0 <= k < 1000 ==> (seen@[k] <==> exists|m: int|
                    0 <= m < j && #[trigger] suffix_of(names@[m]@) == Some(k as nat)),
        decreases names@.len() - j,
    {
        let found = parse_suffix(names[j].as_str());
        if let Some(v) = found {
            seen.set(v as usize, true);
        }
        assert forall|k: int|
            0 <= k < 1000 implies (seen@[k] <==> exists|m: int|
                0 <= m < j + 1 && #[trigger] suffix_of(names@[m]@) == Some(k as nat)) by {
            if seen@[k] && !(exists|m: int| 0 <= m < j && #[trigger] suffix_of(names@[m]@) == Some(k as nat)) {
                assert(suffix_of(names@[j as int]@) == Some(k as nat));
            }
        }
        j = j + 1;
    }
    let mut n: usize = 1;
    while n < 1000 && seen[n]
        invariant
            1 <= n <= 1000,
            seen@.len() == 1000,
            forall|k: int|
                0 <= k < 1000 ==> (seen@[k] <==> exists|m: int|
                    0 <= m < names@.len() && #[trigger] suffix_of(names@[m]@) == Some(k as nat)),
            forall|k: nat| 1 <= k < n ==> occupied(names@, k),
        decreases 1000 - n,
    {
        assert(occupied(names@, n as nat)) by {
            assert(seen@[n as int]);
        }
        n = n + 1;
    }
    proof {
        if n == 1000 {
            assert(!occupied(names@, 1000)) by {
                if occupied(names@, 1000) {
                    let m = choose|m: int| 0 <= m < names@.len() && #[trigger] suffix_of(names@[m]@) == Some(1000nat);
                    assert(suffix_of(names@[m]@) == Some(1000nat));
                }
            }
        } else {
            assert(!seen@[n as int]);
            assert(!occupied(names@, n as nat)) by {
                if occupied(names@, n as nat) {
                    let m = choose|m: int| 0 <= m < names@.len() && #[trigger] suffix_of(names@[m]@) == Some(n as nat);
                    assert(seen@[n as int]);
                }
            }
        }
        lemma_free_from_is_least(names@, 1, n as nat);
    }
    n as u32
}

fn digit_str(d: u32) -> (r: &'static str)
    requires
        d < 10,
    ensures
        r@ == seq![digit_char(d as nat)],
{
    proof {
        reveal_strlit("0");
        reveal_strlit("1");
        reveal_strlit("2");
        reveal_strlit("3");
        reveal_strlit("4");
        reveal_strlit("5");
        reveal_strlit("6");
        reveal_strlit("7");
        reveal_strlit("8");
        reveal_strlit("9");
    }
    if d == 0 {
        "0"
    } else if d == 1 {
        "1"
    } else if d == 2 {
        "2"
    } else if d == 3 {
        "3"
    } else if d == 4 {
        "4"
    } else if d == 5 {
        "5"
    } else if d == 6 {
        "6"
    } else if d == 7 {
        "7"
    } else if d == 8 {
        "8"
    } else {
        "9"
    }
}

fn decimal_string(n: u32) -> (r: String)
    ensures
        r@ == decimal(n as nat),
    decreases n,
{
    if n < 10 {
        String::from_str(digit_str(n))
    } else {
        let mut s = decimal_string(n / 10);
        s.append(digit_str(n % 10));
        s
    }
}

/// `n` in decimal, left-padded with `0` to width three (`7` gives `"007"`).
pub fn zero_padded_string(n: u32) -> (r: String)
    ensures
        r@ == zero_padded(n as nat),
{
    let digits = decimal_string(n);
    if n < 10 {
        proof {
            reveal_strlit("00");
        }
        let mut s = String::from_str("00");
        s.append(digits.as_str());
        s
    } else if n < 100 {
        proof {
            reveal_strlit("0");
        }
        let mut s = String::from_str("0");
        s.append(digits.as_str());
        s
    } else {
        digits
    }
}

/// The zero-padded suffix of the next default name among the sibling names `names`.
pub fn next_module_suffix(names: &Vec<String>) -> (r: String)
    ensures
        r@ == zero_padded(next_suffix(names@)),
{
    let n: u32 = next_suffix_number(names);
    zero_padded_string(n)
}

/// The default name of a module created among the sibling names `names`.
pub fn default_module_name(names: &Vec<String>) -> (r: String)
    ensures
        r@ == default_name(names@),
{
    proof {
        reveal_strlit("Module.");
    }
    let mut name = String::from_str("Module.");
    let suffix = next_module_suffix(names);
    name.append(suffix.as_str());
    name
}

} // verus!
