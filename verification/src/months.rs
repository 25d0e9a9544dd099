//! Months as the dashboard names them (`YYYY-MM`), and the number of days over
//! which a month's expenses are averaged.

use vstd::prelude::*;

use crate::text::{append_decimal, decimal, digit_char, digit_value, digits_value, is_digit, push_char, same_text, text_chars};

verus! {

/// `n` in decimal, left-padded with zeros to at least `width` characters.
pub open spec fn zero_padded(n: nat, width: nat) -> Seq<char> {
    let d = decimal(n);
    if d.len() < width {
        Seq::new((width - d.len()) as nat, |i: int| '0') + d
    } else {
        d
    }
}

/// A year padded to four characters, the sign counting as one (`-1` is `-001`).
pub open spec fn year_text(y: int) -> Seq<char> {
    if y < 0 {
        seq!['-'] + zero_padded((-y) as nat, 3)
    } else {
        zero_padded(y as nat, 4)
    }
}

/// The name of a month, `YYYY-MM`.
pub open spec fn month_key_text(year: int, month: nat) -> Seq<char> {
    year_text(year) + seq!['-'] + zero_padded(month, 2)
}

/// The four leading characters read as a year: four digits, or `+` and three digits.
pub open spec fn year_field_ok(t: Seq<char>) -> bool {
    &&& t.len() == 4
    &&& forall|i: int| 1 <= i < 4 ==> is_digit(#[trigger] t[i])
    &&& (is_digit(t[0]) || t[0] == '+')
}

pub open spec fn year_field_value(t: Seq<char>) -> int {
    if t[0] == '+' {
        digits_value(t.skip(1))
    } else {
        digits_value(t)
    }
}

/// A month name from which a year can be read: a year field, one more ASCII
/// character, and then the month part.
pub open spec fn month_name_readable(s: Seq<char>) -> bool {
    &&& s.len() >= 5
    &&& year_field_ok(s.take(4))
    &&& s[4] <= '\u{7f}'
}

pub open spec fn is_leap_year(y: int) -> bool {
    (y % 4 == 0 && y % 100 != 0) || y % 400 == 0
}

pub open spec fn days_in_month(m: int, leap: bool) -> int {
    if m == 2 {
        if leap { 29 } else { 28 }
    } else if m == 4 || m == 6 || m == 9 || m == 11 {
        30
    } else {
        31
    }
}

/// The days of the month named by the part after `YYYY-`: a two-digit month
/// `01` to `12` gives its length, anything else gives 31.
pub open spec fn month_part_days(rest: Seq<char>, leap: bool) -> int {
    if rest.len() == 2 && is_digit(rest[0]) && is_digit(rest[1]) && 1 <= digit_value(rest[0]) * 10
        + digit_value(rest[1]) <= 12 {
        days_in_month(digit_value(rest[0]) * 10 + digit_value(rest[1]), leap)
    } else {
        31
    }
}

/// The days a month's expenses are averaged over: the days elapsed so far for
/// the current month, the length of the month otherwise.
pub open spec fn averaging_days(selected: Seq<char>, now_year: int, now_month: nat, now_day: nat) -> int {
    if selected == month_key_text(now_year, now_month) {
        now_day as int
    } else {
        month_part_days(selected.skip(5), is_leap_year(year_field_value(selected.take(4))))
    }
}

proof fn lemma_digit_char(d: nat)
    requires
        d < 10,
    ensures
        is_digit(digit_char(d)),
        digit_value(digit_char(d)) == d,
{
}

proof fn lemma_decimal_digits(n: nat)
    ensures
        forall|i: int| 0 <= i < decimal(n).len() ==> is_digit(#[trigger] decimal(n)[i]),
        digits_value(decimal(n)) == n,
        decimal(n).len() >= 1,
        n < 10 ==> decimal(n).len() == 1,
        n < 100 ==> decimal(n).len() <= 2,
        n < 1000 ==> decimal(n).len() <= 3,
        n < 10000 ==> decimal(n).len() <= 4,
    decreases n,
{
    lemma_digit_char(n % 10);
    if n >= 10 {
        lemma_decimal_digits(n / 10);
        let d = decimal(n / 10);
        let e = d.push(digit_char(n % 10));
        assert(e.drop_last() =~= d);
        assert forall|i: int| 0 <= i < e.len() implies is_digit(#[trigger] e[i]) by {
            if i < d.len() {
                assert(e[i] == d[i]);
            }
        }
    } else {
        assert(seq![digit_char(n)].drop_last() =~= Seq::<char>::empty());
        assert(digits_value(Seq::<char>::empty()) == 0);
    }
}

proof fn lemma_zeros_value(k: nat)
    ensures
        digits_value(Seq::new(k, |i: int| '0')) == 0,
    decreases k,
{
    if k > 0 {
        let z = Seq::new(k, |i: int| '0');
        assert(z.drop_last() =~= Seq::new((k - 1) as nat, |i: int| '0'));
        lemma_zeros_value((k - 1) as nat);
    }
}

proof fn lemma_leading_zeros_value(k: nat, d: Seq<char>)
    ensures
        digits_value(Seq::new(k, |i: int| '0') + d) == digits_value(d),
    decreases d.len(),
{
    let z = Seq::new(k, |i: int| '0');
    if d.len() == 0 {
        assert(z + d =~= z);
        lemma_zeros_value(k);
    } else {
        assert((z + d).drop_last() =~= z + d.drop_last());
        assert((z + d).last() == d.last());
        lemma_leading_zeros_value(k, d.drop_last());
    }
}

proof fn lemma_zero_padded(n: nat, width: nat)
    requires
        decimal(n).len() <= width,
    ensures
        zero_padded(n, width).len() == width,
        forall|i: int| 0 <= i < width ==> is_digit(#[trigger] zero_padded(n, width)[i]),
        digits_value(zero_padded(n, width)) == n,
{
    lemma_decimal_digits(n);
    let d = decimal(n);
    if d.len() < width {
        let k = (width - d.len()) as nat;
        let z = Seq::new(k, |i: int| '0');
        lemma_leading_zeros_value(k, d);
        assert forall|i: int| 0 <= i < width implies is_digit(#[trigger] zero_padded(n, width)[i]) by {
            if i >= k {
                assert((z + d)[i] == d[i - k]);
            }
        }
    }
}

/// A month's name reads back as that month: for the years 0 to 9999 and the
/// months 1 to 12, `YYYY-MM` is a readable month name whose year field is the
/// year and whose month part gives the length of that month.
pub proof fn lemma_month_key_reads_back(year: int, month: int, leap: bool)
    requires
        0 <= year <= 9999,
        1 <= month <= 12,
    ensures
        month_name_readable(month_key_text(year, month as nat)),
        year_field_value(month_key_text(year, month as nat).take(4)) == year,
        month_part_days(month_key_text(year, month as nat).skip(5), leap) == days_in_month(month, leap),
{
    lemma_decimal_digits(year as nat);
    lemma_decimal_digits(month as nat);
    lemma_zero_padded(year as nat, 4);
    lemma_zero_padded(month as nat, 2);
    let y = zero_padded(year as nat, 4);
    let m = zero_padded(month as nat, 2);
    let t = month_key_text(year, month as nat);
    assert(t == y + seq!['-'] + m);
    assert(t.take(4) =~= y);
    assert(t.skip(5) =~= m);
    assert(t[4] == '-');
    assert(is_digit(y[0]));
    assert(y[0] != '+');
    assert(m.drop_last().drop_last() =~= Seq::<char>::empty());
    assert(m.drop_last() =~= seq![m[0]]);
    assert(digits_value(Seq::<char>::empty()) == 0);
    assert(digits_value(seq![m[0]]) == digit_value(m[0]));
    assert(digits_value(m) == digit_value(m[0]) * 10 + digit_value(m[1]));
    assert(is_digit(m[0]) && is_digit(m[1]));
}

/// The two characters `a` and `b`.
pub open spec fn two_chars(a: char, b: char) -> Seq<char> {
    seq![a, b]
}

/// The expenses of the current month are averaged over the days elapsed in it:
/// whatever the day, the current month's name gives exactly that day.
pub proof fn lemma_current_month_uses_the_day(now_year: int, now_month: nat, now_day: nat, other_day: nat)
    ensures
        averaging_days(month_key_text(now_year, now_month), now_year, now_month, now_day) == now_day,
        now_day != other_day ==> averaging_days(month_key_text(now_year, now_month), now_year, now_month, now_day)
            != averaging_days(month_key_text(now_year, now_month), now_year, now_month, other_day),
{
}

/// Another month named `YYYY-MM` is averaged over its calendar length: 30 days
/// for April, June, September and November; for February 29 days in a
/// Gregorian leap year (divisible by 4 and not by 100, or by 400) and 28
/// otherwise; 31 days for the other seven months; and 31 for a month part that
/// names no month.
pub proof fn lemma_other_month_uses_its_length(selected: Seq<char>, now_year: int, now_month: nat, now_day: nat)
    requires
        selected != month_key_text(now_year, now_month),
        selected.len() == 7,
        is_digit(selected[0]),
        is_digit(selected[1]),
        is_digit(selected[2]),
        is_digit(selected[3]),
    ensures
        ({
            let y = ((selected[0] as int - 48) * 1000 + (selected[1] as int - 48) * 100 + (selected[2] as int - 48) * 10
                + (selected[3] as int - 48));
            let mm = selected.subrange(5, 7);
            let days = averaging_days(selected, now_year, now_month, now_day);
            &&& (mm == two_chars('0', '4') || mm == two_chars('0', '6') || mm == two_chars('0', '9') || mm
                == two_chars('1', '1')) ==> days == 30
            &&& mm == two_chars('0', '2') ==> days == if (y % 4 == 0 && y % 100 != 0) || y % 400 == 0 {
                29int
            } else {
                28int
            }
            &&& (mm == two_chars('0', '1') || mm == two_chars('0', '3') || mm == two_chars('0', '5') || mm
                == two_chars('0', '7') || mm == two_chars('0', '8') || mm == two_chars('1', '0') || mm
                == two_chars('1', '2')) ==> days == 31
            &&& !(is_digit(mm[0]) && is_digit(mm[1]) && 1 <= (mm[0] as int - 48) * 10 + (mm[1] as int - 48) <= 12)
                ==> days == 31
        }),
{
    let t = selected.take(4);
    assert(t.drop_last().drop_last().drop_last().drop_last() =~= Seq::<char>::empty());
    assert(t.drop_last().drop_last().drop_last() =~= seq![t[0]]);
    assert(t.drop_last().drop_last() =~= seq![t[0], t[1]]);
    assert(t.drop_last() =~= seq![t[0], t[1], t[2]]);
    assert(digits_value(Seq::<char>::empty()) == 0);
    assert(digits_value(seq![t[0]]) == digit_value(t[0]));
    assert(digits_value(seq![t[0], t[1]]) == digit_value(t[0]) * 10 + digit_value(t[1]));
    assert(digits_value(seq![t[0], t[1], t[2]]) == (digit_value(t[0]) * 10 + digit_value(t[1])) * 10 + digit_value(t[2]));
    assert(year_field_value(t) == ((digit_value(t[0]) * 10 + digit_value(t[1])) * 10 + digit_value(t[2])) * 10
        + digit_value(t[3]));
    let rest = selected.skip(5);
    assert(rest =~= selected.subrange(5, 7));
}

fn append_zero_padded(s: &mut String, n: u64, width: usize)
    ensures
        final(s)@ == old(s)@ + zero_padded(n as nat, width as nat),
{
    let mut digits = String::new();
    append_decimal(&mut digits, n);
    assert(digits@ =~= decimal(n as nat));
    let len = digits.as_str().unicode_len();
    let ghost start = s@;
    if len < width {
        let mut k: usize = 0;
        while k < width - len
            invariant
                len < width,
                k <= width - len,
                s@ == start + Seq::new(k as nat, |i: int| '0'),
            decreases width - len - k,
        {
            push_char(s, '0');
            k = k + 1;
            assert(s@ =~= start + Seq::new(k as nat, |i: int| '0'));
        }
    }
    s.append(digits.as_str());
    assert(s@ =~= start + zero_padded(n as nat, width as nat));
}

/// The name of the month `month` of `year`, as `format!("{:04}-{:02}")` writes it.
pub fn month_key(year: i32, month: u32) -> (s: String)
    ensures
        s@ == month_key_text(year as int, month as nat),
{
    let mut s = String::new();
    if year < 0 {
        push_char(&mut s, '-');
        let a: u64 = (0i64 - (year as i64)) as u64;
        append_zero_padded(&mut s, a, 3);
    } else {
        append_zero_padded(&mut s, year as u64, 4);
    }
    push_char(&mut s, '-');
    append_zero_padded(&mut s, month as u64, 2);
    assert(s@ =~= month_key_text(year as int, month as nat));
    s
}

/// The month the dashboard shows: the one asked for, or else the current one.
pub fn selected_month(requested: Option<String>, now_year: i32, now_month: u32) -> (s: String)
    ensures
        s@ == match requested {
            Some(m) => m@,
            None => month_key_text(now_year as int, now_month as nat),
        },
{
    match requested {
        Some(m) => m,
        None => month_key(now_year, now_month),
    }
}

fn digit_of(c: char) -> (d: u16)
    requires
        is_digit(c),
    ensures
        d == digit_value(c),
{
    (c as u32 - '0' as u32) as u16
}

/// Whether a year and a month part can be read from `selected`.
pub fn readable_month_name(selected: &str) -> (r: bool)
    ensures
        r == month_name_readable(selected@),
{
    let cs = text_chars(selected);
    if cs.len() < 5 {
        return false;
    }
    let ghost t = selected@.take(4);
    assert(t.len() == 4);
    assert(forall|i: int| 0 <= i < 4 ==> t[i] == cs@[i]);
    let lead_ok = ('0' <= cs[0] && cs[0] <= '9') || cs[0] == '+';
    let digits_ok = '0' <= cs[1] && cs[1] <= '9' && '0' <= cs[2] && cs[2] <= '9' && '0' <= cs[3] && cs[3] <= '9';
    let ascii_ok = cs[4] <= '\u{7f}';
    proof {
        if digits_ok {
            assert forall|i: int| 1 <= i < 4 implies is_digit(#[trigger] t[i]) by {}
        }
        if !digits_ok {
            assert(!is_digit(t[1]) || !is_digit(t[2]) || !is_digit(t[3]));
        }
    }
    lead_ok && digits_ok && ascii_ok
}

/// The number of days over which the expenses of `selected` are averaged.
pub fn averaging_day_count(selected: &str, now_year: i32, now_month: u32, now_day: u32) -> (d: u32)
    requires
        selected@ != month_key_text(now_year as int, now_month as nat) ==> month_name_readable(selected@),
    ensures
        d == averaging_days(selected@, now_year as int, now_month as nat, now_day as nat),
{
    let current = month_key(now_year, now_month);
    if same_text(selected, current.as_str()) {
        return now_day;
    }
    let cs = text_chars(selected);
    let ghost t = selected@.take(4);
    assert(t[1] == cs@[1] && t[2] == cs@[2] && t[3] == cs@[3] && t[0] == cs@[0]);
    assert(is_digit(t[1]) && is_digit(t[2]) && is_digit(t[3]));
    let year: u16 = if cs[0] == '+' {
        proof {
            let u = t.skip(1);
            assert(u.drop_last().drop_last().drop_last() =~= Seq::<char>::empty());
            assert(u.drop_last().drop_last() =~= seq![u[0]]);
            assert(u.drop_last() =~= seq![u[0], u[1]]);
            assert(digits_value(Seq::<char>::empty()) == 0);
            assert(digits_value(seq![u[0]]) == digit_value(u[0]));
            assert(digits_value(seq![u[0], u[1]]) == digit_value(u[0]) * 10 + digit_value(u[1]));
            assert(digits_value(u) == (digit_value(u[0]) * 10 + digit_value(u[1])) * 10 + digit_value(u[2]));
            assert(u[0] == cs@[1] && u[1] == cs@[2] && u[2] == cs@[3]);
        }
        digit_of(cs[1]) * 100 + digit_of(cs[2]) * 10 + digit_of(cs[3])
    } else {
        proof {
            assert(t.drop_last().drop_last().drop_last().drop_last() =~= Seq::<char>::empty());
            assert(t.drop_last().drop_last().drop_last() =~= seq![t[0]]);
            assert(t.drop_last().drop_last() =~= seq![t[0], t[1]]);
            assert(t.drop_last() =~= seq![t[0], t[1], t[2]]);
            assert(digits_value(Seq::<char>::empty()) == 0);
            assert(digits_value(seq![t[0]]) == digit_value(t[0]));
            assert(digits_value(seq![t[0], t[1]]) == digit_value(t[0]) * 10 + digit_value(t[1]));
            assert(digits_value(seq![t[0], t[1], t[2]]) == (digit_value(t[0]) * 10 + digit_value(t[1])) * 10 + digit_value(t[2]));
            assert(digits_value(t) == ((digit_value(t[0]) * 10 + digit_value(t[1])) * 10 + digit_value(t[2])) * 10 + digit_value(t[3]));
        }
        digit_of(cs[0]) * 1000 + digit_of(cs[1]) * 100 + digit_of(cs[2]) * 10 + digit_of(cs[3])
    };
    assert(year == year_field_value(t));
    let leap = (year % 4 == 0 && year % 100 != 0) || year % 400 == 0;
    let ghost rest = selected@.skip(5);
    if cs.len() == 7 && '0' <= cs[5] && cs[5] <= '9' && '0' <= cs[6] && cs[6] <= '9' {
        assert(rest[0] == cs@[5] && rest[1] == cs@[6] && rest.len() == 2);
        let m = digit_of(cs[5]) * 10 + digit_of(cs[6]);
        if m == 2 {
            if leap { 29 } else { 28 }
        } else if m == 4 || m == 6 || m == 9 || m == 11 {
            30
        } else {
            31
        }
    } else {
        31
    }
}

} // verus!
