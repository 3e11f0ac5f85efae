//! Human-readable rendering of a number of seconds as days, hours, minutes
//! and seconds, with a reader that recovers the number from the text.
use vstd::prelude::*;

verus! {

pub const SECS_PER_DAY: u64 = 86400;

pub const SECS_PER_HOUR: u64 = 3600;

pub const SECS_PER_MINUTE: u64 = 60;

/// The character of a decimal digit `d < 10`.
pub open spec fn digit_char(d: nat) -> char {
    if d == 0 {
        '0'
    } else if d == 1 {
        '1'
    } else if d == 2 {
        '2'
    } else if d == 3 {
        '3'
    } else if d == 4 {
        '4'
    } else if d == 5 {
        '5'
    } else if d == 6 {
        '6'
    } else if d == 7 {
        '7'
    } else if d == 8 {
        '8'
    } else {
        '9'
    }
}

/// The value of a decimal digit character, `None` for any other character.
pub open spec fn digit_value(c: char) -> Option<nat> {
    if c == '0' {
        Some(0)
    } else if c == '1' {
        Some(1)
    } else if c == '2' {
        Some(2)
    } else if c == '3' {
        Some(3)
    } else if c == '4' {
        Some(4)
    } else if c == '5' {
        Some(5)
    } else if c == '6' {
        Some(6)
    } else if c == '7' {
        Some(7)
    } else if c == '8' {
        Some(8)
    } else if c == '9' {
        Some(9)
    } else {
        None
    }
}

/// The decimal notation of `n`, without leading zeros.
pub open spec fn decimal(n: nat) -> Seq<char>
    decreases n,
{
    if n < 10 {
        seq![digit_char(n)]
    } else {
        decimal(n / 10).push(digit_char(n % 10))
    }
}

/// The breakdown of `secs` into whole days, then hours, minutes and seconds
/// of what remains.
pub open spec fn duration_parts(secs: nat) -> (nat, nat, nat, nat) {
    (
        secs / 86400,
        (secs % 86400) / 3600,
        (secs % 3600) / 60,
        secs % 60,
    )
}

pub open spec fn days_word() -> Seq<char> {
    seq!['d', 'a', 'y', 's']
}

pub open spec fn hours_word() -> Seq<char> {
    seq!['h', 'o', 'u', 'r', 's']
}

pub open spec fn minutes_word() -> Seq<char> {
    seq!['m', 'i', 'n', 'u', 't', 'e', 's']
}

pub open spec fn seconds_word() -> Seq<char> {
    seq!['s', 'e', 'c', 'o', 'n', 'd', 's']
}

/// One unit of the rendering: `" <n> <unit>"`.
pub open spec fn unit_group(n: nat, unit: Seq<char>) -> Seq<char> {
    seq![' '] + decimal(n) + seq![' '] + unit
}

/// The group of a unit that is shown only when its count is not zero.
pub open spec fn optional_group(n: nat, unit: Seq<char>) -> Seq<char> {
    if n > 0 {
        unit_group(n, unit)
    } else {
        Seq::empty()
    }
}

/// The text of `secs`: the non-zero units among days, hours and minutes,
/// largest first, then the seconds, which are always shown.
pub open spec fn duration_text(secs: nat) -> Seq<char> {
    let (d, h, m, s) = duration_parts(secs);
    optional_group(d, days_word()) + optional_group(h, hours_word()) + optional_group(
        m,
        minutes_word(),
    ) + unit_group(s, seconds_word())
}

/// The seconds that a unit stands for, by the first letter of its name.
pub open spec fn unit_seconds(c: char) -> Option<nat> {
    if c == 'd' {
        Some(86400)
    } else if c == 'h' {
        Some(3600)
    } else if c == 'm' {
        Some(60)
    } else if c == 's' {
        Some(1)
    } else {
        None
    }
}

/// One step of reading a rendered duration back. The state holds the count
/// being read, whether that count still waits for its unit, and the seconds
/// gathered so far. Digits extend the count; the first letter of a unit after
/// a count adds the count times that unit; anything else is skipped.
pub open spec fn read_step(st: (nat, bool, nat), c: char) -> (nat, bool, nat) {
    match digit_value(c) {
        Some(v) => (st.0 * 10 + v, true, st.2),
        None => match unit_seconds(c) {
            Some(k) if st.1 => (0, false, st.2 + st.0 * k),
            _ => st,
        },
    }
}

pub open spec fn read_from(st: (nat, bool, nat), t: Seq<char>) -> (nat, bool, nat)
    decreases t.len(),
{
    if t.len() == 0 {
        st
    } else {
        read_from(read_step(st, t[0]), t.drop_first())
    }
}

/// The number of seconds that a text lists: each count times its unit,
/// summed.
pub open spec fn read_back(t: Seq<char>) -> nat {
    read_from((0, false, 0), t).2
}

proof fn lemma_read_concat(st: (nat, bool, nat), a: Seq<char>, b: Seq<char>)
    ensures
        read_from(st, a + b) == read_from(read_from(st, a), b),
    decreases a.len(),
{
    if a.len() == 0 {
        assert(a + b =~= b);
    } else {
        assert((a + b).drop_first() =~= a.drop_first() + b);
        lemma_read_concat(read_step(st, a[0]), a.drop_first(), b);
    }
}

proof fn lemma_read_one(st: (nat, bool, nat), c: char)
    ensures
        read_from(st, seq![c]) == read_step(st, c),
{
    assert(seq![c].drop_first() =~= Seq::<char>::empty());
    reveal_with_fuel(read_from, 2);
}

proof fn lemma_read_decimal(n: nat, total: nat)
    ensures
        read_from((0, false, total), decimal(n)) == (n, true, total),
    decreases n,
{
    let c = digit_char(n % 10);
    assert(digit_value(c) == Some(n % 10));
    if n < 10 {
        lemma_read_one((0, false, total), c);
    } else {
        lemma_read_decimal(n / 10, total);
        assert(decimal(n) =~= decimal(n / 10) + seq![c]);
        lemma_read_concat((0, false, total), decimal(n / 10), seq![c]);
        lemma_read_one((n / 10, true, total), c);
    }
}

/// Reading text with no digit in it, with no count waiting, changes nothing.
proof fn lemma_read_skips(st: (nat, bool, nat), t: Seq<char>)
    requires
        !st.1,
        forall|i: int| 0 <= i < t.len() ==> digit_value(#[trigger] t[i]).is_none(),
    ensures
        read_from(st, t) == st,
    decreases t.len(),
{
    if t.len() > 0 {
        assert(digit_value(t[0]).is_none());
        lemma_read_skips(st, t.drop_first());
    }
}

proof fn lemma_read_group(n: nat, unit: Seq<char>, total: nat)
    requires
        unit.len() > 0,
        unit_seconds(unit[0]).is_some(),
        forall|i: int| 0 <= i < unit.len() ==> digit_value(#[trigger] unit[i]).is_none(),
    ensures
        read_from((0, false, total), unit_group(n, unit)) == (
            0nat,
            false,
            total + n * unit_seconds(unit[0]).unwrap(),
        ),
{
    let k = unit_seconds(unit[0]).unwrap();
    let head = seq![' '] + decimal(n) + seq![' '];
    assert(unit_group(n, unit) =~= head + unit);
    lemma_read_concat((0, false, total), head, unit);
    lemma_read_concat((0, false, total), seq![' '] + decimal(n), seq![' ']);
    lemma_read_concat((0, false, total), seq![' '], decimal(n));
    lemma_read_one((0, false, total), ' ');
    lemma_read_decimal(n, total);
    lemma_read_one((n, true, total), ' ');
    let after = (0nat, false, total + n * k);
    assert(unit =~= seq![unit[0]] + unit.drop_first());
    lemma_read_concat((n, true, total), seq![unit[0]], unit.drop_first());
    lemma_read_one((n, true, total), unit[0]);
    lemma_read_skips(after, unit.drop_first());
}

proof fn lemma_read_optional_group(n: nat, unit: Seq<char>, total: nat)
    requires
        unit.len() > 0,
        unit_seconds(unit[0]).is_some(),
        forall|i: int| 0 <= i < unit.len() ==> digit_value(#[trigger] unit[i]).is_none(),
    ensures
        read_from((0, false, total), optional_group(n, unit)) == (
            0nat,
            false,
            total + n * unit_seconds(unit[0]).unwrap(),
        ),
{
    if n > 0 {
        lemma_read_group(n, unit, total);
    }
}

/// Reading the rendering of `secs` back, each count times its unit, gives
/// `secs`; the counts are whole days and the hours, minutes and seconds left
/// over, each below the next unit.
pub proof fn lemma_duration_reads_back(secs: nat)
    ensures
        read_back(duration_text(secs)) == secs,
        ({
            let (d, h, m, s) = duration_parts(secs);
            &&& d * 86400 + h * 3600 + m * 60 + s == secs
            &&& h < 24
            &&& m < 60
            &&& s < 60
        }),
{
    let (d, h, m, s) = duration_parts(secs);
    assert(d * 86400 + h * 3600 + m * 60 + s == secs && h < 24 && m < 60 && s < 60)
        by (nonlinear_arith)
        requires
            d == secs / 86400,
            h == (secs % 86400) / 3600,
            m == (secs % 3600) / 60,
            s == secs % 60,
    {
        vstd::arithmetic::div_mod::lemma_mod_mod(secs as int, 3600, 24);
        vstd::arithmetic::div_mod::lemma_mod_mod(secs as int, 60, 60);
    }
    let g1 = optional_group(d, days_word());
    let g2 = optional_group(h, hours_word());
    let g3 = optional_group(m, minutes_word());
    let g4 = unit_group(s, seconds_word());
    let t1: nat = d * 86400;
    let t2: nat = t1 + h * 3600;
    let t3: nat = t2 + m * 60;
    lemma_read_optional_group(d, days_word(), 0);
    lemma_read_optional_group(h, hours_word(), t1);
    lemma_read_optional_group(m, minutes_word(), t2);
    lemma_read_group(s, seconds_word(), t3);
    lemma_read_concat((0, false, 0), g1 + g2 + g3, g4);
    lemma_read_concat((0, false, 0), g1 + g2, g3);
    lemma_read_concat((0, false, 0), g1, g2);
    assert(duration_text(secs) == g1 + g2 + g3 + g4);
    assert(unit_seconds(days_word()[0]) == Some(86400nat));
    assert(unit_seconds(hours_word()[0]) == Some(3600nat));
    assert(unit_seconds(minutes_word()[0]) == Some(60nat));
    assert(unit_seconds(seconds_word()[0]) == Some(1nat));
    let one = unit_seconds(seconds_word()[0]).unwrap();
    assert(s * one == s) by (nonlinear_arith)
        requires
            one == 1,
    ;
}

fn digit_text(d: u64) -> (r: &'static str)
    requires
        d < 10,
    ensures
        r@ == seq![digit_char(d as nat)],
{
    if d == 0 {
        proof { reveal_strlit("0"); }
        "0"
    } else if d == 1 {
        proof { reveal_strlit("1"); }
        "1"
    } else if d == 2 {
        proof { reveal_strlit("2"); }
        "2"
    } else if d == 3 {
        proof { reveal_strlit("3"); }
        "3"
    } else if d == 4 {
        proof { reveal_strlit("4"); }
        "4"
    } else if d == 5 {
        proof { reveal_strlit("5"); }
        "5"
    } else if d == 6 {
        proof { reveal_strlit("6"); }
        "6"
    } else if d == 7 {
        proof { reveal_strlit("7"); }
        "7"
    } else if d == 8 {
        proof { reveal_strlit("8"); }
        "8"
    } else {
        proof { reveal_strlit("9"); }
        "9"
    }
}

/// Appends the decimal notation of `n` to `out`.
pub fn append_decimal(out: &mut String, n: u64)
    ensures
        final(out)@ == old(out)@ + decimal(n as nat),
    decreases n,
{
    let ghost start = out@;
    if n >= 10 {
        append_decimal(out, n / 10);
    }
    out.append(digit_text(n % 10));
    proof {
        if n >= 10 {
            assert(out@ =~= start + decimal(n as nat));
        } else {
            assert(out@ =~= start + decimal(n as nat));
        }
    }
}

fn append_group(out: &mut String, n: u64, unit: &str)
    ensures
        final(out)@ == old(out)@ + seq![' '] + decimal(n as nat) + seq![' '] + unit@,
{
    proof { reveal_strlit(" "); }
    out.append(" ");
    append_decimal(out, n);
    out.append(" ");
    out.append(unit);
}

/// Renders `secs` as its non-zero days, hours and minutes followed by its
/// seconds, each as `" <count> <unit>"`: 90061 gives
/// `" 1 days 1 hours 1 minutes 1 seconds"`, 0 gives `" 0 seconds"`.
pub fn secs_to_string(secs: u64) -> (r: String)
    ensures
        r@ == duration_text(secs as nat),
{
    let days = secs / SECS_PER_DAY;
    let remainder = secs % SECS_PER_DAY;
    let hours = remainder / SECS_PER_HOUR;
    let remainder = remainder % SECS_PER_HOUR;
    let minutes = remainder / SECS_PER_MINUTE;
    let seconds = remainder % SECS_PER_MINUTE;
    proof {
        let (d, h, m, s) = duration_parts(secs as nat);
        assert(days == d && hours == h && minutes == m && seconds == s) by (nonlinear_arith)
            requires
                days == secs / 86400,
                hours == (secs % 86400) / 3600,
                minutes == ((secs % 86400) % 3600) / 60,
                seconds == ((secs % 86400) % 3600) % 60,
                d == secs / 86400,
                h == (secs % 86400) / 3600,
                m == (secs % 3600) / 60,
                s == secs % 60,
        {
            assert((secs % 86400) % 3600 == secs % 3600) by {
                vstd::arithmetic::div_mod::lemma_mod_mod(secs as int, 3600, 24);
            }
            assert(((secs % 86400) % 3600) % 60 == secs % 60) by {
                vstd::arithmetic::div_mod::lemma_mod_mod(secs as int, 60, 60);
            }
        }
        reveal_strlit("days");
        reveal_strlit("hours");
        reveal_strlit("minutes");
        reveal_strlit("seconds");
    }
    let mut output = String::new();
    if days > 0 {
        append_group(&mut output, days, "days");
    }
    let ghost after_days = output@;
    if hours > 0 {
        append_group(&mut output, hours, "hours");
    }
    let ghost after_hours = output@;
    if minutes > 0 {
        append_group(&mut output, minutes, "minutes");
    }
    let ghost after_minutes = output@;
    append_group(&mut output, seconds, "seconds");
    proof {
        assert(after_days =~= optional_group(days as nat, days_word()));
        assert(after_hours =~= after_days + optional_group(hours as nat, hours_word()));
        assert(after_minutes =~= after_hours + optional_group(minutes as nat, minutes_word()));
        assert(output@ =~= after_minutes + unit_group(seconds as nat, seconds_word()));
    }
    output
}

} // verus!
