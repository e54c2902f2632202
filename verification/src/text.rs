//! Decimal and thousands-grouped rendering of integers, as shown in the
//! control panel's readouts.
use vstd::prelude::*;

verus! {

/// The ASCII digit for `d` (meant for `d < 10`).
pub open spec fn digit_char(d: nat) -> char {
    if d == 0 {
        '0'
    } else if d == 1 {
        '1'
    } else if d == 2 {
        '2'
    } else if d == 3 {
        '3'
    } else if d == 4 {
        '4'
    } else if d == 5 {
        '5'
    } else if d == 6 {
        '6'
    } else if d == 7 {
        '7'
    } else if d == 8 {
        '8'
    } else {
        '9'
    }
}

/// The decimal digits of `n`, most significant first, without leading zeros.
pub open spec fn decimal(n: nat) -> Seq<char>
    decreases n,
{
    if n < 10 {
        seq![digit_char(n)]
    } else {
        decimal(n / 10).push(digit_char(n % 10))
    }
}

/// `v` written in decimal, with a leading `-` when negative.
pub open spec fn signed_decimal(v: int) -> Seq<char> {
    if v < 0 {
        seq!['-'] + decimal((-v) as nat)
    } else {
        decimal(v as nat)
    }
}

/// The three decimal digits of `n < 1000`, zero-padded.
pub open spec fn three_digits(n: nat) -> Seq<char> {
    seq![digit_char(n / 100), digit_char((n / 10) % 10), digit_char(n % 10)]
}

/// The decimal digits of `n` with a `,` between each group of three digits,
/// counted from the right.
pub open spec fn grouped(n: nat) -> Seq<char>
    decreases n,
{
    if n < 1000 {
        decimal(n)
    } else {
        grouped(n / 1000) + seq![','] + three_digits(n % 1000)
    }
}

/// `v` written with thousands separators, with a leading `-` when negative.
pub open spec fn thousands(v: int) -> Seq<char> {
    if v < 0 {
        seq!['-'] + grouped((-v) as nat)
    } else {
        grouped(v as nat)
    }
}

/// `s` with every `,` left out.
pub open spec fn without_commas(s: Seq<char>) -> Seq<char> {
    s.filter(|c: char| c != ',')
}

proof fn lemma_no_comma_push(s: Seq<char>, c: char)
    requires
        c != ',',
    ensures
        without_commas(s.push(c)) == without_commas(s).push(c),
{
    reveal_with_fuel(Seq::filter, 1);
    assert(s.push(c).drop_last() =~= s);
}

proof fn lemma_decimal_has_no_commas(n: nat)
    ensures
        without_commas(decimal(n)) == decimal(n),
    decreases n,
{
    if n < 10 {
        lemma_no_comma_push(Seq::<char>::empty(), digit_char(n));
        reveal_with_fuel(Seq::filter, 1);
        assert(Seq::<char>::empty().push(digit_char(n)) =~= decimal(n));
    } else {
        lemma_decimal_has_no_commas(n / 10);
        lemma_no_comma_push(decimal(n / 10), digit_char(n % 10));
    }
}

proof fn lemma_decimal_splits_at_thousands(n: nat)
    requires
        n >= 1000,
    ensures
        decimal(n) == decimal(n / 1000) + three_digits(n % 1000),
{
    assert(n / 10 >= 100);
    assert((n / 10) / 10 == n / 100);
    assert((n / 100) / 10 == n / 1000);
    assert((n % 1000) / 100 == (n / 100) % 10);
    assert(((n % 1000) / 10) % 10 == (n / 10) % 10);
    assert((n % 1000) % 10 == n % 10);
    assert(decimal(n / 100) == decimal(n / 1000).push(digit_char((n / 100) % 10)));
    assert(decimal(n / 10) == decimal(n / 100).push(digit_char((n / 10) % 10)));
    assert(decimal(n) == decimal(n / 10).push(digit_char(n % 10)));
    assert(decimal(n) =~= decimal(n / 1000) + three_digits(n % 1000));
}

/// Grouping only inserts separators: leaving out the commas of the grouped
/// rendering of `n` gives back its plain decimal digits.
pub proof fn lemma_grouping_keeps_digits(n: nat)
    ensures
        without_commas(grouped(n)) == decimal(n),
    decreases n,
{
    if n < 1000 {
        lemma_decimal_has_no_commas(n);
    } else {
        let f = |c: char| c != ',';
        lemma_grouping_keeps_digits(n / 1000);
        lemma_decimal_splits_at_thousands(n);
        let head = grouped(n / 1000) + seq![','];
        Seq::filter_distributes_over_add(head, three_digits(n % 1000), f);
        Seq::filter_distributes_over_add(grouped(n / 1000), seq![','], f);
        reveal_with_fuel(Seq::filter, 4);
        assert(seq![','].filter(f) =~= Seq::<char>::empty());
        assert(three_digits(n % 1000).filter(f) =~= three_digits(n % 1000));
        assert(without_commas(grouped(n)) =~= decimal(n / 1000) + three_digits(n % 1000));
    }
}

/// The thousands rendering of any `v`, with its commas left out, is the plain
/// decimal rendering of `v`.
pub proof fn lemma_thousands_keeps_digits(v: int)
    ensures
        without_commas(thousands(v)) == signed_decimal(v),
{
    let f = |c: char| c != ',';
    if v < 0 {
        lemma_grouping_keeps_digits((-v) as nat);
        Seq::filter_distributes_over_add(seq!['-'], grouped((-v) as nat), f);
        reveal_with_fuel(Seq::filter, 2);
        assert(seq!['-'].filter(f) =~= seq!['-']);
    } else {
        lemma_grouping_keeps_digits(v as nat);
    }
}

fn digit_str(d: u64) -> (s: &'static str)
    requires
        d < 10,
    ensures
        s@ == seq![digit_char(d as nat)],
{
    if d == 0 {
        proof { reveal_strlit("0"); }
        "0"
    } else if d == 1 {
        proof { reveal_strlit("1"); }
        "1"
    } else if d == 2 {
        proof { reveal_strlit("2"); }
        "2"
    } else if d == 3 {
        proof { reveal_strlit("3"); }
        "3"
    } else if d == 4 {
        proof { reveal_strlit("4"); }
        "4"
    } else if d == 5 {
        proof { reveal_strlit("5"); }
        "5"
    } else if d == 6 {
        proof { reveal_strlit("6"); }
        "6"
    } else if d == 7 {
        proof { reveal_strlit("7"); }
        "7"
    } else if d == 8 {
        proof { reveal_strlit("8"); }
        "8"
    } else {
        proof { reveal_strlit("9"); }
        "9"
    }
}

fn push_decimal(out: &mut String, n: u64)
    ensures
        final(out)@ == old(out)@ + decimal(n as nat),
    decreases n,
{
    if n < 10 {
        out.append(digit_str(n));
    } else {
        push_decimal(out, n / 10);
        out.append(digit_str(n % 10));
        assert(decimal(n as nat) == decimal((n / 10) as nat) + seq![digit_char((n % 10) as nat)]);
    }
}

fn push_three_digits(out: &mut String, n: u64)
    requires
        n < 1000,
    ensures
        final(out)@ == old(out)@ + three_digits(n as nat),
{
    out.append(digit_str(n / 100));
    out.append(digit_str((n / 10) % 10));
    out.append(digit_str(n % 10));
}

fn push_grouped(out: &mut String, n: u64)
    ensures
        final(out)@ == old(out)@ + grouped(n as nat),
    decreases n,
{
    if n < 1000 {
        push_decimal(out, n);
    } else {
        push_grouped(out, n / 1000);
        proof { reveal_strlit(","); }
        out.append(",");
        push_three_digits(out, n % 1000);
    }
}

/// The distance of `v` from zero, as an unsigned integer (`i64::unsigned_abs`).
fn magnitude(v: i64) -> (m: u64)
    ensures
        m as int == (if v < 0 { -(v as int) } else { v as int }),
{
    if v < 0 {
        let inner: i64 = -(v + 1);
        inner as u64 + 1
    } else {
        v as u64
    }
}

/// Renders `value` in decimal, with a leading `-` when negative (Rust's `{}`).
pub fn format_decimal(value: i64) -> (s: String)
    ensures
        s@ == signed_decimal(value as int),
{
    let mut out = String::new();
    if value < 0 {
        proof { reveal_strlit("-"); }
        out.append("-");
    }
    push_decimal(&mut out, magnitude(value));
    out
}

/// Renders `value` with a `,` between each group of three digits counted from
/// the right, and a leading `-` when negative: `1234567` gives `1,234,567`.
pub fn format_thousands(value: i64) -> (s: String)
    ensures
        s@ == thousands(value as int),
{
    let mut out = String::new();
    if value < 0 {
        proof { reveal_strlit("-"); }
        out.append("-");
    }
    push_grouped(&mut out, magnitude(value));
    out
}

/// The jam test's report: how long the main thread was blocked, in
/// milliseconds, and how many frames the engine advanced meanwhile, grouped
/// by thousands.
pub fn jam_report(blocked_ms: i64, advanced_frames: i64) -> (report: String)
    ensures
        report@ == "Main thread blocked "@ + signed_decimal(blocked_ms as int)
            + " ms. nightshade advanced "@ + thousands(advanced_frames as int)
            + " frames meanwhile."@,
{
    let mut report = String::from_str("Main thread blocked ");
    let blocked = format_decimal(blocked_ms);
    report.append(blocked.as_str());
    report.append(" ms. nightshade advanced ");
    let advanced = format_thousands(advanced_frames);
    report.append(advanced.as_str());
    report.append(" frames meanwhile.");
    report
}

} // verus!
