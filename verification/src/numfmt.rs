//! Decimal formatting of counts and ranks with thousands separators.

use vstd::prelude::*;

use crate::text::push_char;

verus! {

/// The character for a decimal digit `d` (0..=9).
pub open spec fn digit_char(d: nat) -> char {
    if d == 0 { '0' }
    else if d == 1 { '1' }
    else if d == 2 { '2' }
    else if d == 3 { '3' }
    else if d == 4 { '4' }
    else if d == 5 { '5' }
    else if d == 6 { '6' }
    else if d == 7 { '7' }
    else if d == 8 { '8' }
    else { '9' }
}

/// The shortest decimal representation of `n` (no sign, no leading zeros).
pub open spec fn decimal(n: nat) -> Seq<char>
    decreases n,
{
    if n < 10 {
        seq![digit_char(n)]
    } else {
        decimal(n / 10).push(digit_char(n % 10))
    }
}

fn exec_digit_char(d: u64) -> (c: char)
    requires
        d < 10,
    ensures
        c == digit_char(d as nat),
{
    if d == 0 { '0' }
    else if d == 1 { '1' }
    else if d == 2 { '2' }
    else if d == 3 { '3' }
    else if d == 4 { '4' }
    else if d == 5 { '5' }
    else if d == 6 { '6' }
    else if d == 7 { '7' }
    else if d == 8 { '8' }
    else { '9' }
}

/// The decimal digits of `n`, most significant first.
pub fn decimal_digits(n: u64) -> (digits: Vec<char>)
    ensures
        digits@ == decimal(n as nat),
{
    let mut rest: u64 = n / 10;
    let mut acc: Vec<char> = Vec::new();
    acc.push(exec_digit_char(n % 10));
    assert(acc@ == seq![digit_char((n % 10) as nat)]);
    while rest > 0
        invariant
            rest > 0 ==> decimal(n as nat) == decimal(rest as nat) + acc@,
            rest == 0 ==> decimal(n as nat) == acc@,
        decreases rest,
    {
        acc.insert(0, exec_digit_char(rest % 10));
        rest = rest / 10;
    }
    acc
}

/// `s` with a comma inserted between each group of three characters,
/// the groups counted from the right; the leftmost group keeps one to
/// three characters.
pub open spec fn group_thousands(s: Seq<char>) -> Seq<char>
    decreases s.len(),
{
    if s.len() <= 3 {
        s
    } else {
        group_thousands(s.take(s.len() - 3)) + seq![','] + s.skip(s.len() - 3)
    }
}

/// The first `i` characters of `s` written out with a comma before each
/// position `j > 0` whose distance `total - j` from the end is a multiple of three.
pub open spec fn grouped_prefix(s: Seq<char>, i: nat, total: nat) -> Seq<char>
    decreases i,
{
    if i == 0 {
        Seq::empty()
    } else {
        let j = (i - 1) as nat;
        let sep: Seq<char> = if j > 0 && (total - j) % 3 == 0 { seq![','] } else { Seq::empty() };
        grouped_prefix(s, j, total) + sep + seq![s[j as int]]
    }
}

proof fn lemma_grouped_prefix_congruent(s: Seq<char>, t: Seq<char>, i: nat, total1: nat, total2: nat)
    requires
        i <= s.len(),
        i <= t.len(),
        s.take(i as int) =~= t.take(i as int),
        i <= total1,
        i <= total2,
        total1 % 3 == total2 % 3,
    ensures
        grouped_prefix(s, i, total1) == grouped_prefix(t, i, total2),
    decreases i,
{
    if i > 0 {
        let j = (i - 1) as nat;
        assert(s.take(j as int) =~= t.take(j as int)) by {
            assert forall|k: int| 0 <= k < j implies s.take(j as int)[k] == t.take(j as int)[k] by {
                assert(s.take(i as int)[k] == t.take(i as int)[k]);
            }
        }
        assert(s[j as int] == s.take(i as int)[j as int]);
        assert(t[j as int] == t.take(i as int)[j as int]);
        assert((total1 - j) % 3 == (total2 - j) % 3) by (nonlinear_arith)
            requires
                total1 % 3 == total2 % 3,
                j <= total1,
                j <= total2,
        ;
        lemma_grouped_prefix_congruent(s, t, j, total1, total2);
    }
}

/// Writing the digits out left to right, with a comma before each position
/// whose distance from the end is a positive multiple of three, yields the
/// grouping by threes from the right.
proof fn lemma_grouped_prefix_is_grouping(s: Seq<char>)
    ensures
        grouped_prefix(s, s.len(), s.len()) == group_thousands(s),
    decreases s.len(),
{
    let n = s.len();
    if n <= 3 {
        reveal_with_fuel(grouped_prefix, 4);
        if n == 0 {
            assert(grouped_prefix(s, 0, 0) =~= s);
        } else if n == 1 {
            assert(grouped_prefix(s, 1, 1) =~= s);
        } else if n == 2 {
            assert(grouped_prefix(s, 2, 2) =~= s);
        } else {
            assert(grouped_prefix(s, 3, 3) =~= s);
        }
    } else {
        let m = (n - 3) as nat;
        let head = s.take(m as int);
        reveal_with_fuel(grouped_prefix, 4);
        assert(grouped_prefix(s, n, n) =~= grouped_prefix(s, m, n) + seq![','] + seq![s[m as int], s[m + 1int], s[m + 2int]]);
        lemma_grouped_prefix_congruent(s, head, m, n, m);
        lemma_grouped_prefix_is_grouping(head);
        assert(s.skip(m as int) =~= seq![s[m as int], s[m + 1int], s[m + 2int]]);
    }
}

/// `val` in decimal, with a comma between each group of three digits
/// counted from the right (1234567 is written "1,234,567").
pub fn format_number(val: u64) -> (res: String)
    ensures
        res@ == group_thousands(decimal(val as nat)),
{
    let digits = decimal_digits(val);
    let total = digits.len();
    let mut res = String::new();
    let mut i: usize = 0;
    while i < total
        invariant
            total == digits@.len(),
            i <= total,
            res@ == grouped_prefix(digits@, i as nat, total as nat),
        decreases total - i,
    {
        if i > 0 && (total - i) % 3 == 0 {
            push_char(&mut res, ',');
        }
        push_char(&mut res, digits[i]);
        i = i + 1;
    }
    proof {
        lemma_grouped_prefix_is_grouping(digits@);
    }
    res
}

/// The magnitude of a signed rank.
pub open spec fn magnitude(raw: i64) -> nat {
    if raw < 0 { (-raw) as nat } else { raw as nat }
}

/// `|raw|` as a `u64`; defined for every `i64`, `i64::MIN` included.
pub fn unsigned_magnitude(raw: i64) -> (m: u64)
    ensures
        m as nat == magnitude(raw),
{
    if raw < 0 {
        let below: i64 = -(raw + 1);
        (below as u64) + 1
    } else {
        raw as u64
    }
}

/// A rank as shown to the user: its magnitude with thousands separators,
/// followed by `+` when the rank is negative.
pub open spec fn formatted_rank(raw: i64) -> Seq<char> {
    group_thousands(decimal(magnitude(raw))) + (if raw < 0 {
        seq!['+']
    } else {
        Seq::<char>::empty()
    })
}

/// A rank as shown to the user: its magnitude with thousands separators,
/// followed by `+` when the rank is negative (the service reports a rank
/// it only knows a bound of as a negative number).
pub fn format_rank(raw: i64) -> (res: String)
    ensures
        res@ == formatted_rank(raw),
{
    let val = unsigned_magnitude(raw);
    let mut formatted = format_number(val);
    if raw < 0 {
        push_char(&mut formatted, '+');
    }
    formatted
}

proof fn lemma_grouping_keeps_last(s: Seq<char>)
    requires
        s.len() >= 1,
    ensures
        group_thousands(s).len() >= 1,
        group_thousands(s).last() == s.last(),
    decreases s.len(),
{
    if s.len() > 3 {
        let k = s.len() - 3;
        assert(s.skip(k).last() == s.last());
    }
}

proof fn lemma_decimal_ends_in_digit(n: nat)
    ensures
        decimal(n).len() >= 1,
        decimal(n).last() != '+',
        decimal(n).last() != ',',
    decreases n,
{
    if n >= 10 {
        lemma_decimal_ends_in_digit(n / 10);
    }
}

/// Law: a rank ends in `+` exactly when it is negative. A rank that is not
/// negative is shown exactly as the count `format_number` shows for it; a
/// negative one as the count of its magnitude followed by `+`.
pub proof fn law_rank_plus_only_when_negative(raw: i64)
    ensures
        formatted_rank(raw).len() >= 1,
        (formatted_rank(raw).last() == '+') <==> raw < 0,
        raw >= 0 ==> formatted_rank(raw) == group_thousands(decimal(raw as nat)),
        raw < 0 ==> formatted_rank(raw) == group_thousands(decimal((-raw) as nat)).push('+'),
{
    lemma_decimal_ends_in_digit(magnitude(raw));
    lemma_grouping_keeps_last(decimal(magnitude(raw)));
    let g = group_thousands(decimal(magnitude(raw)));
    if raw < 0 {
        assert(formatted_rank(raw) =~= g.push('+'));
    } else {
        assert(formatted_rank(raw) =~= g);
        assert(magnitude(raw) == raw as nat);
    }
}

/// An `i64` in decimal as Rust's `Display` writes it: a leading `-` for
/// negative values, no separators.
pub open spec fn signed_decimal(n: i64) -> Seq<char> {
    if n < 0 { seq!['-'] + decimal(magnitude(n)) } else { decimal(magnitude(n)) }
}

/// `n` in plain decimal, with a leading `-` when negative.
pub fn format_integer(n: i64) -> (res: String)
    ensures
        res@ == signed_decimal(n),
{
    let digits = decimal_digits(unsigned_magnitude(n));
    let mut res = String::new();
    if n < 0 {
        push_char(&mut res, '-');
    }
    let ghost start = res@;
    let mut i: usize = 0;
    while i < digits.len()
        invariant
            i <= digits@.len(),
            res@ == start + digits@.take(i as int),
        decreases digits.len() - i,
    {
        push_char(&mut res, digits[i]);
        i = i + 1;
        assert(digits@.take(i as int) =~= digits@.take(i - 1).push(digits@[i - 1]));
    }
    assert(digits@.take(digits@.len() as int) =~= digits@);
    res
}

/// The value of a decimal digit character.
pub open spec fn digit_value(c: char) -> nat {
    if c == '1' { 1 }
    else if c == '2' { 2 }
    else if c == '3' { 3 }
    else if c == '4' { 4 }
    else if c == '5' { 5 }
    else if c == '6' { 6 }
    else if c == '7' { 7 }
    else if c == '8' { 8 }
    else if c == '9' { 9 }
    else { 0 }
}

/// The number a string of decimal digits denotes.
pub open spec fn digits_value(s: Seq<char>) -> nat
    decreases s.len(),
{
    if s.len() == 0 {
        0
    } else {
        digits_value(s.drop_last()) * 10 + digit_value(s.last())
    }
}

/// `s` with every comma removed.
pub open spec fn strip_commas(s: Seq<char>) -> Seq<char>
    decreases s.len(),
{
    if s.len() == 0 {
        s
    } else if s.last() == ',' {
        strip_commas(s.drop_last())
    } else {
        strip_commas(s.drop_last()).push(s.last())
    }
}

proof fn lemma_strip_commas_append(a: Seq<char>, b: Seq<char>)
    ensures
        strip_commas(a + b) == strip_commas(a) + strip_commas(b),
    decreases b.len(),
{
    if b.len() == 0 {
        assert(a + b =~= a);
        assert(strip_commas(b) =~= Seq::<char>::empty());
        assert(strip_commas(a) + strip_commas(b) =~= strip_commas(a));
    } else {
        assert((a + b).drop_last() =~= a + b.drop_last());
        assert((a + b).last() == b.last());
        lemma_strip_commas_append(a, b.drop_last());
        if b.last() == ',' {
        } else {
            assert(strip_commas(a + b) =~= strip_commas(a) + strip_commas(b.drop_last()).push(b.last()));
        }
    }
}

proof fn lemma_decimal_has_no_commas(n: nat)
    ensures
        strip_commas(decimal(n)) == decimal(n),
        decimal(n).len() >= 1,
    decreases n,
{
    if n < 10 {
        assert(decimal(n).drop_last() =~= Seq::<char>::empty());
        assert(strip_commas(decimal(n).drop_last()) =~= Seq::<char>::empty());
        assert(strip_commas(decimal(n)) =~= Seq::<char>::empty().push(digit_char(n)));
    } else {
        lemma_decimal_has_no_commas(n / 10);
        assert(decimal(n).drop_last() =~= decimal(n / 10));
    }
}

proof fn lemma_strip_grouping(s: Seq<char>)
    requires
        strip_commas(s) == s,
    ensures
        strip_commas(group_thousands(s)) == s,
    decreases s.len(),
{
    if s.len() > 3 {
        let k = s.len() - 3;
        let head = s.take(k);
        let tail = s.skip(k);
        assert(s =~= head + tail);
        lemma_strip_commas_append(head, tail);
        // each part is free of commas because the whole is
        lemma_strip_commas_len(head);
        lemma_strip_commas_len(tail);
        lemma_strip_grouping(head);
        lemma_strip_commas_append(group_thousands(head) + seq![','], tail);
        lemma_strip_commas_append(group_thousands(head), seq![',']);
        let comma: Seq<char> = seq![','];
        assert(comma.last() == ',');
        assert(comma.drop_last() =~= Seq::<char>::empty());
        assert(strip_commas(Seq::<char>::empty()) == Seq::<char>::empty());
        assert(strip_commas(comma) =~= Seq::<char>::empty());
        assert(strip_commas(group_thousands(s)) =~= head + tail);
    }
}

proof fn lemma_strip_commas_len(s: Seq<char>)
    ensures
        strip_commas(s).len() <= s.len(),
        strip_commas(s).len() == s.len() ==> strip_commas(s) == s,
    decreases s.len(),
{
    if s.len() > 0 {
        lemma_strip_commas_len(s.drop_last());
        if s.last() != ',' && strip_commas(s).len() == s.len() {
            assert(s =~= s.drop_last().push(s.last()));
        }
    }
}

proof fn lemma_digit_value_of_char(d: nat)
    requires
        d < 10,
    ensures
        digit_value(digit_char(d)) == d,
{
}

proof fn lemma_digits_value_of_decimal(n: nat)
    ensures
        digits_value(decimal(n)) == n,
    decreases n,
{
    if n >= 10 {
        lemma_digits_value_of_decimal(n / 10);
        lemma_digit_value_of_char(n % 10);
        assert(decimal(n).drop_last() =~= decimal(n / 10));
        assert(decimal(n).last() == digit_char(n % 10));
        assert((n / 10) * 10 + n % 10 == n);
        assert(digits_value(decimal(n)) == digits_value(decimal(n / 10)) * 10 + digit_value(digit_char(n % 10)));
    } else {
        lemma_digit_value_of_char(n);
        assert(decimal(n).drop_last() =~= Seq::<char>::empty());
        assert(decimal(n).last() == digit_char(n));
        assert(digits_value(Seq::<char>::empty()) == 0);
        assert(digits_value(decimal(n)) == 0 * 10 + digit_value(digit_char(n)));
    }
}

/// Law: removing the separators from a formatted count gives back exactly
/// its plain decimal digits, and those digits denote the count itself.
pub proof fn law_format_number_round_trip(val: u64)
    ensures
        strip_commas(group_thousands(decimal(val as nat))) == decimal(val as nat),
        digits_value(strip_commas(group_thousands(decimal(val as nat)))) == val,
{
    lemma_decimal_has_no_commas(val as nat);
    lemma_strip_grouping(decimal(val as nat));
    lemma_digits_value_of_decimal(val as nat);
}

} // verus!
