//! Text helpers: decimal rendering, amounts in cents, and code-point order.

use vstd::prelude::*;

verus! {

/// The character of the decimal digit `d` (for `d < 10`).
pub open spec fn digit_char(d: nat) -> char {
    (d + 48) as char
}

/// The decimal representation of a natural number, most significant digit first.
pub open spec fn decimal(n: nat) -> Seq<char>
    decreases n,
{
    if n < 10 {
        seq![digit_char(n)]
    } else {
        decimal(n / 10).push(digit_char(n % 10))
    }
}

/// The decimal representation of an integer, with a leading `-` when negative.
pub open spec fn signed_decimal(n: int) -> Seq<char> {
    if n < 0 {
        seq!['-'] + decimal((-n) as nat)
    } else {
        decimal(n as nat)
    }
}

/// An amount of cents shown as units with exactly two decimals, e.g. `-1234` is `-12.34`.
pub open spec fn cents_text(c: int) -> Seq<char> {
    let a: nat = if c < 0 { (-c) as nat } else { c as nat };
    let sign: Seq<char> = if c < 0 { seq!['-'] } else { Seq::empty() };
    sign + decimal(a / 100) + seq!['.', digit_char((a % 100) / 10), digit_char(a % 10)]
}

/// The amounts of cents whose money text is the one stated: the amounts of
/// magnitude below 100 * 2^46 cents. Within them the text is exactly `c / 100`
/// with two decimals; beyond them only its shape and sign are stated.
pub open spec fn money_exact(c: int) -> bool {
    -7036874417766400 < c < 7036874417766400
}

/// A decimal digit character.
pub open spec fn is_digit(c: char) -> bool {
    '0' <= c && c <= '9'
}

/// The value of a decimal digit character.
pub open spec fn digit_value(c: char) -> int {
    c as int - '0' as int
}

/// The value of a run of decimal digits.
pub open spec fn digits_value(t: Seq<char>) -> int
    decreases t.len(),
{
    if t.len() == 0 {
        0
    } else {
        digits_value(t.drop_last()) * 10 + digit_value(t.last())
    }
}

/// A money text without its sign: digits, a point, and two more digits, with
/// no leading zero before the point other than a lone `0`.
pub open spec fn money_body(b: Seq<char>) -> bool {
    &&& b.len() >= 4
    &&& b[b.len() - 3] == '.'
    &&& forall|i: int| 0 <= i < b.len() && i != b.len() - 3 ==> is_digit(#[trigger] b[i])
    &&& (b[0] == '0' ==> b.len() == 4)
}

/// Whether a money text is negative: it starts with `-`.
pub open spec fn money_negative(s: Seq<char>) -> bool {
    s.len() > 0 && s[0] == '-'
}

/// A money text without its sign.
pub open spec fn money_unsigned(s: Seq<char>) -> Seq<char> {
    if money_negative(s) {
        s.drop_first()
    } else {
        s
    }
}

/// The shape of a money text: an optional `-`, then `digits.dd`.
pub open spec fn money_shape(s: Seq<char>) -> bool {
    money_body(money_unsigned(s))
}

/// The amount of cents a money text of that shape denotes.
pub open spec fn money_cents(s: Seq<char>) -> int {
    let b = money_unsigned(s);
    let v = digits_value(b.take(b.len() - 3)) * 100 + digits_value(b.subrange(b.len() - 2, b.len() as int));
    if money_negative(s) {
        -v
    } else {
        v
    }
}

proof fn lemma_digit_value(d: nat)
    requires
        d < 10,
    ensures
        digit_char(d) as int == d + 48,
        is_digit(digit_char(d)),
        digit_char(d) != '-',
        (digit_char(d) == '0') == (d == 0),
{
}

/// The decimal text of `n` is a nonempty run of digits that reads back as `n`,
/// starting with `0` only for `0` itself.
proof fn lemma_decimal_reads_back(n: nat)
    ensures
        decimal(n).len() >= 1,
        forall|i: int| 0 <= i < decimal(n).len() ==> is_digit(#[trigger] decimal(n)[i]),
        digits_value(decimal(n)) == n,
        (decimal(n)[0] == '0') == (n == 0),
    decreases n,
{
    lemma_digit_value(n % 10);
    if n < 10 {
        assert(decimal(n).drop_last() =~= Seq::<char>::empty());
        assert(digits_value(Seq::<char>::empty()) == 0);
        assert(digits_value(decimal(n)) == digits_value(decimal(n).drop_last()) * 10 + (n + 48 - 48));
    } else {
        let p = decimal(n / 10);
        lemma_decimal_reads_back(n / 10);
        let q = p.push(digit_char(n % 10));
        assert(decimal(n) == q);
        assert(q.drop_last() =~= p);
        assert(digits_value(q) == digits_value(p) * 10 + (n % 10));
        assert(n == (n / 10) * 10 + n % 10);
        assert(q[0] == p[0]);
    }
}

proof fn lemma_two_digits(x: nat, y: nat)
    requires
        x < 10,
        y < 10,
    ensures
        digits_value(seq![digit_char(x), digit_char(y)]) == x * 10 + y,
{
    lemma_digit_value(x);
    lemma_digit_value(y);
    let t = seq![digit_char(x), digit_char(y)];
    assert(t.drop_last() =~= seq![digit_char(x)]);
    assert(t.drop_last().drop_last() =~= Seq::<char>::empty());
    assert(digits_value(Seq::<char>::empty()) == 0);
    assert(digits_value(t.drop_last()) == x);
}

proof fn lemma_cents_split(a: nat)
    ensures
        ((a % 100) / 10) * 10 + a % 10 == a % 100,
        a == (a / 100) * 100 + a % 100,
        (a % 100) / 10 < 10,
        a % 10 < 10,
{
    assert(a % 100 == ((a % 100) / 10) * 10 + (a % 100) % 10);
    vstd::arithmetic::div_mod::lemma_mod_mod(a as int, 10, 10);
}

/// Every money text has the shape `-?digits.dd`, starts with `-` exactly when
/// the amount is negative, and reads back as the amount it was made from.
pub proof fn lemma_money_text_reads_back(c: int)
    ensures
        money_shape(cents_text(c)),
        money_negative(cents_text(c)) == (c < 0),
        money_cents(cents_text(c)) == c,
{
    let a: nat = if c < 0 { (-c) as nat } else { c as nat };
    let d = decimal(a / 100);
    let t = seq!['.', digit_char((a % 100) / 10), digit_char(a % 10)];
    let body = d + t;
    lemma_decimal_reads_back(a / 100);
    lemma_digit_value((a % 100) / 10);
    lemma_digit_value(a % 10);
    let s = cents_text(c);
    if c < 0 {
        assert(s == seq!['-'] + body);
        assert(money_unsigned(s) =~= body);
    } else {
        assert(s =~= body);
        assert(s[0] == d[0]);
    }
    assert forall|i: int| 0 <= i < body.len() && i != body.len() - 3 implies is_digit(#[trigger] body[i]) by {
        if i < d.len() {
            assert(body[i] == d[i]);
        }
    }
    assert(body.take(body.len() - 3) =~= d);
    lemma_cents_split(a);
    lemma_two_digits((a % 100) / 10, a % 10);
    assert(body.subrange(body.len() - 2, body.len() as int) =~= seq![digit_char((a % 100) / 10), digit_char(a % 10)]);
}

/// The text shown for an amount of `c` cents: `-?digits.dd`, starting with `-`
/// exactly when `c` is negative, and, where the amount is within `money_exact`,
/// exactly `c / 100` with two decimals (so it reads back as `c`).
pub open spec fn shows_money(s: Seq<char>, c: int) -> bool {
    &&& money_shape(s)
    &&& money_negative(s) == (c < 0)
    &&& money_exact(c) ==> s == cents_text(c) && money_cents(s) == c
}

/// Money texts rise with the amounts they show: of two texts shown for amounts
/// `a <= b` (within `money_exact`), the first reads back to no more cents than
/// the second.
pub proof fn lemma_money_text_monotone(s: Seq<char>, t: Seq<char>, a: int, b: int)
    requires
        shows_money(s, a),
        shows_money(t, b),
        money_exact(a),
        money_exact(b),
        a <= b,
    ensures
        money_cents(s) <= money_cents(t),
{
}

/// `String::push`: appends the character `c`.
#[verifier::external_body]
pub(crate) fn push_char(s: &mut String, c: char)
    ensures
        final(s)@ == old(s)@.push(c),
{
    s.push(c);
}

fn digit(d: u64) -> (c: char)
    requires
        d < 10,
    ensures
        c == digit_char(d as nat),
{
    ((d as u8) + 48u8) as char
}

/// Appends the decimal representation of `n` to `s`.
pub fn append_decimal(s: &mut String, n: u64)
    ensures
        final(s)@ == old(s)@ + decimal(n as nat),
    decreases n,
{
    if n >= 10 {
        append_decimal(s, n / 10);
    }
    push_char(s, digit(n % 10));
    proof {
        if n >= 10 {
            assert(decimal(n as nat) == decimal((n / 10) as nat).push(digit_char((n % 10) as nat)));
        }
    }
    assert(s@ =~= old(s)@ + decimal(n as nat));
}

/// The decimal representation of a signed integer.
pub fn signed_decimal_text(n: i64) -> (s: String)
    ensures
        s@ == signed_decimal(n as int),
{
    let mut s = String::new();
    if n < 0 {
        push_char(&mut s, '-');
        let a: u64 = (0i128 - (n as i128)) as u64;
        append_decimal(&mut s, a);
    } else {
        append_decimal(&mut s, n as u64);
    }
    assert(s@ =~= signed_decimal(n as int));
    s
}

/// An amount in cents rendered with two decimals, as the pages show money.
pub fn cents_to_text(c: i64) -> (s: String)
    ensures
        s@ == cents_text(c as int),
{
    let neg = c < 0;
    let a: u64 = if neg { (0i128 - (c as i128)) as u64 } else { c as u64 };
    let mut s = String::new();
    if neg {
        push_char(&mut s, '-');
    }
    append_decimal(&mut s, a / 100);
    push_char(&mut s, '.');
    push_char(&mut s, digit((a % 100) / 10));
    push_char(&mut s, digit(a % 10));
    assert(s@ =~= cents_text(c as int));
    s
}

/// Whether every character of a text is ASCII.
pub open spec fn all_ascii(s: Seq<char>) -> bool {
    forall|i: int| 0 <= i < s.len() ==> (#[trigger] s[i] as int) < 128
}

/// ASCII upper-casing: `a` to `z` become `A` to `Z`, everything else stays.
pub open spec fn ascii_upper(s: Seq<char>) -> Seq<char> {
    s.map_values(|c: char| if 'a' <= c && c <= 'z' { ((c as int) - 32) as char } else { c })
}

/// What `str::to_uppercase` returns for a text.
pub uninterp spec fn spec_to_uppercase(s: Seq<char>) -> Seq<char>;

/// `str::to_uppercase`: the upper-case equivalent of `s` by Unicode's case
/// mapping. Claimed beyond the name: on ASCII text it maps `a` to `z` to `A` to
/// `Z` and leaves every other character as it is.
#[verifier::external_body]
pub(crate) fn to_uppercase(s: &str) -> (r: String)
    ensures
        r@ == spec_to_uppercase(s@),
        all_ascii(s@) ==> r@ == ascii_upper(s@),
{
    s.to_uppercase()
}

/// Lexicographic order of texts by Unicode code point; for UTF-8 strings this is
/// the order in which `String`s compare.
pub open spec fn text_lt(a: Seq<char>, b: Seq<char>) -> bool
    decreases a.len(),
{
    if a.len() == 0 {
        b.len() > 0
    } else if b.len() == 0 {
        false
    } else if a[0] != b[0] {
        (a[0] as int) < (b[0] as int)
    } else {
        text_lt(a.drop_first(), b.drop_first())
    }
}

/// `text_lt` is irreflexive.
pub proof fn lemma_text_lt_irreflexive(a: Seq<char>)
    ensures
        !text_lt(a, a),
    decreases a.len(),
{
    if a.len() > 0 {
        lemma_text_lt_irreflexive(a.drop_first());
    }
}

/// `text_lt` is transitive.
pub proof fn lemma_text_lt_transitive(a: Seq<char>, b: Seq<char>, c: Seq<char>)
    requires
        text_lt(a, b),
        text_lt(b, c),
    ensures
        text_lt(a, c),
    decreases a.len(),
{
    if a.len() > 0 && b.len() > 0 && c.len() > 0 && a[0] == b[0] && b[0] == c[0] {
        lemma_text_lt_transitive(a.drop_first(), b.drop_first(), c.drop_first());
    }
}

/// Any two texts are equal or ordered one way or the other.
pub proof fn lemma_text_lt_total(a: Seq<char>, b: Seq<char>)
    ensures
        text_lt(a, b) || text_lt(b, a) || a == b,
    decreases a.len(),
{
    if a.len() > 0 && b.len() > 0 && a[0] == b[0] {
        lemma_text_lt_total(a.drop_first(), b.drop_first());
        if a.drop_first() == b.drop_first() {
            assert(a.drop_first().len() == a.len() - 1);
            assert(b.drop_first().len() == b.len() - 1);
            assert(a.len() == b.len());
            assert(a =~= b) by {
                assert forall|i: int| 0 <= i < a.len() implies a[i] == b[i] by {
                    if i > 0 {
                        assert(a[i] == a.drop_first()[i - 1]);
                        assert(b[i] == b.drop_first()[i - 1]);
                    }
                }
            }
        }
    } else if a.len() > 0 && b.len() > 0 {
        assert((a[0] as int) != (b[0] as int));
    } else if a.len() == 0 && b.len() == 0 {
        assert(a =~= b);
    }
}

/// The characters of a text, one by one.
pub fn text_chars(s: &str) -> (v: Vec<char>)
    ensures
        v@ == s@,
{
    let n = s.unicode_len();
    let mut v: Vec<char> = Vec::new();
    let mut i: usize = 0;
    while i < n
        invariant
            n == s@.len(),
            i <= n,
            v@ == s@.take(i as int),
        decreases n - i,
    {
        let c = s.get_char(i);
        v.push(c);
        i = i + 1;
        assert(v@ =~= s@.take(i as int));
    }
    assert(s@.take(n as int) =~= s@);
    v
}

/// Whether two texts hold the same characters.
pub fn same_text(a: &str, b: &str) -> (r: bool)
    ensures
        r == (a@ == b@),
{
    let x = text_chars(a);
    let y = text_chars(b);
    if x.len() != y.len() {
        return false;
    }
    let mut i: usize = 0;
    while i < x.len()
        invariant
            x@ == a@,
            y@ == b@,
            x.len() == y.len(),
            i <= x.len(),
            forall|j: int| 0 <= j < i ==> x@[j] == y@[j],
        decreases x.len() - i,
    {
        if x[i] != y[i] {
            return false;
        }
        i = i + 1;
    }
    assert(x@ =~= y@);
    true
}

/// Whether `a` comes strictly before `b` in code-point order.
pub fn text_less(a: &str, b: &str) -> (r: bool)
    ensures
        r == text_lt(a@, b@),
{
    let x = text_chars(a);
    let y = text_chars(b);
    let mut i: usize = 0;
    assert(a@.skip(0) =~= a@);
    assert(b@.skip(0) =~= b@);
    while i < x.len() && i < y.len() && x[i] == y[i]
        invariant
            x@ == a@,
            y@ == b@,
            i <= x.len(),
            i <= y.len(),
            text_lt(a@, b@) == text_lt(a@.skip(i as int), b@.skip(i as int)),
        decreases x.len() - i,
    {
        proof {
            let sa = a@.skip(i as int);
            let sb = b@.skip(i as int);
            assert(sa.drop_first() =~= a@.skip(i + 1));
            assert(sb.drop_first() =~= b@.skip(i + 1));
            assert(sa[0] == sb[0]);
        }
        i = i + 1;
    }
    proof {
        let sa = a@.skip(i as int);
        let sb = b@.skip(i as int);
        if i < x.len() && i < y.len() {
            assert(sa[0] == x@[i as int]);
            assert(sb[0] == y@[i as int]);
        }
    }
    if i == x.len() {
        i < y.len()
    } else if i == y.len() {
        false
    } else {
        let (p, q) = (x[i], y[i]);
        p < q
    }
}

} // verus!
