//! Rendering of a second count as a zero-padded clock face.
use vstd::prelude::*;

verus! {

/// The decimal digit character for `d` (`d < 10`).
pub open spec fn digit_char(d: nat) -> char {
    seq!['0', '1', '2', '3', '4', '5', '6', '7', '8', '9'][d as int]
}

/// The numeric value of a decimal digit character.
pub open spec fn digit_value(c: char) -> int {
    c as int - '0' as int
}

/// Decimal rendering of `n`, without leading zeros.
pub open spec fn decimal(n: nat) -> Seq<char>
    decreases n,
{
    if n < 10 {
        seq![digit_char(n)]
    } else {
        decimal(n / 10).push(digit_char(n % 10))
    }
}

/// Decimal rendering of `n` with at least two digits, a leading zero added
/// below ten.
pub open spec fn padded(n: nat) -> Seq<char> {
    if n < 10 {
        seq!['0'] + decimal(n)
    } else {
        decimal(n)
    }
}

/// The clock face of `t` seconds: `mm:ss` below one hour, `hh:mm:ss` from
/// one hour on, each field zero-padded to two digits.
pub open spec fn clock_text(t: nat) -> Seq<char> {
    let h = t / 3600;
    let m = (t % 3600) / 60;
    let s = t % 60;
    if h == 0 {
        padded(m) + seq![':'] + padded(s)
    } else {
        padded(h) + seq![':'] + padded(m) + seq![':'] + padded(s)
    }
}

/// The value of a run of decimal digits, most significant first.
pub open spec fn parse_decimal(s: Seq<char>) -> int
    decreases s.len(),
{
    if s.len() == 0 {
        0
    } else {
        parse_decimal(s.drop_last()) * 10 + digit_value(s.last())
    }
}

/// Index of the last `':'` in `s`, or `-1` when there is none.
pub open spec fn last_colon(s: Seq<char>) -> int
    decreases s.len(),
{
    if s.len() == 0 {
        -1
    } else if s.last() == ':' {
        s.len() - 1
    } else {
        last_colon(s.drop_last())
    }
}

/// The number of seconds that a clock face of colon-separated decimal fields
/// stands for, each field counting sixty of the one after it.
pub open spec fn parse_clock(s: Seq<char>) -> int
    decreases s.len(),
{
    let i = last_colon(s);
    if 0 <= i < s.len() {
        parse_clock(s.subrange(0, i)) * 60 + parse_decimal(s.subrange(i + 1, s.len() as int))
    } else {
        parse_decimal(s)
    }
}

proof fn lemma_digit(d: nat)
    requires
        d < 10,
    ensures
        digit_value(digit_char(d)) == d,
        digit_char(d) != ':',
{
}

/// A colon-free field reads as a plain decimal.
proof fn lemma_single_field(s: Seq<char>)
    requires
        forall|i: int| 0 <= i < s.len() ==> s[i] != ':',
    ensures
        last_colon(s) == -1,
        parse_clock(s) == parse_decimal(s),
    decreases s.len(),
{
    if s.len() > 0 {
        lemma_single_field(s.drop_last());
    }
}

proof fn lemma_decimal(n: nat)
    ensures
        parse_decimal(decimal(n)) == n,
        forall|i: int| 0 <= i < decimal(n).len() ==> decimal(n)[i] != ':',
    decreases n,
{
    lemma_digit(n % 10);
    if n < 10 {
        assert(decimal(n).drop_last() =~= Seq::<char>::empty());
        assert(parse_decimal(Seq::<char>::empty()) == 0);
    } else {
        lemma_decimal(n / 10);
        assert(decimal(n).drop_last() =~= decimal(n / 10));
        assert(n == (n / 10) * 10 + n % 10);
    }
}

proof fn lemma_padded(n: nat)
    ensures
        parse_decimal(padded(n)) == n,
        forall|i: int| 0 <= i < padded(n).len() ==> padded(n)[i] != ':',
{
    lemma_decimal(n);
    if n < 10 {
        let p = padded(n);
        assert(p.drop_last() =~= seq!['0']);
        assert(seq!['0'].drop_last() =~= Seq::<char>::empty());
        assert(parse_decimal(Seq::<char>::empty()) == 0);
        assert(parse_decimal(seq!['0']) == 0);
    }
}

/// Appending a colon-free tail after a colon makes that colon the last one.
proof fn lemma_last_colon_append(a: Seq<char>, b: Seq<char>)
    requires
        forall|i: int| 0 <= i < b.len() ==> b[i] != ':',
    ensures
        last_colon(a + seq![':'] + b) == a.len(),
    decreases b.len(),
{
    let s = a + seq![':'] + b;
    if b.len() > 0 {
        assert(s.drop_last() =~= a + seq![':'] + b.drop_last());
        lemma_last_colon_append(a, b.drop_last());
    }
}

/// Splitting `a:b` at its last colon, where `b` holds no colon.
proof fn lemma_parse_field(a: Seq<char>, b: Seq<char>)
    requires
        forall|i: int| 0 <= i < b.len() ==> b[i] != ':',
    ensures
        parse_clock(a + seq![':'] + b) == parse_clock(a) * 60 + parse_decimal(b),
{
    let s = a + seq![':'] + b;
    lemma_last_colon_append(a, b);
    assert(s.subrange(0, a.len() as int) =~= a);
    assert(s.subrange(a.len() as int + 1, s.len() as int) =~= b);
}

/// Reading a rendered clock face back gives the number of seconds rendered.
pub proof fn lemma_clock_round_trip(t: nat)
    ensures
        parse_clock(clock_text(t)) == t,
{
    let h = t / 3600;
    let m = (t % 3600) / 60;
    let s = t % 60;
    lemma_padded(h);
    lemma_padded(m);
    lemma_padded(s);
    lemma_parse_field(padded(m), padded(s));
    lemma_parse_field(padded(h) + seq![':'] + padded(m), padded(s));
    lemma_parse_field(padded(h), padded(m));
    lemma_single_field(padded(m));
    lemma_single_field(padded(h));
    assert(t == (h * 60 + m) * 60 + s) by (nonlinear_arith)
        requires
            h == t / 3600,
            m == (t % 3600) / 60,
            s == t % 60,
    ;
}

/// The one-character string of the decimal digit `d`.
fn digit_str(d: u32) -> (r: &'static str)
    requires
        d < 10,
    ensures
        r@ == seq![digit_char(d as nat)],
{
    proof {
        reveal_strlit("0");
        reveal_strlit("1");
        reveal_strlit("2");
        reveal_strlit("3");
        reveal_strlit("4");
        reveal_strlit("5");
        reveal_strlit("6");
        reveal_strlit("7");
        reveal_strlit("8");
        reveal_strlit("9");
    }
    let r = match d {
        0 => "0",
        1 => "1",
        2 => "2",
        3 => "3",
        4 => "4",
        5 => "5",
        6 => "6",
        7 => "7",
        8 => "8",
        _ => "9",
    };
    assert(r@ =~= seq![digit_char(d as nat)]);
    r
}

/// Appends the decimal digits of `n` to `out`.
fn push_decimal(out: &mut String, n: u32)
    ensures
        final(out)@ == old(out)@ + decimal(n as nat),
    decreases n,
{
    if n >= 10 {
        push_decimal(out, n / 10);
    }
    out.append(digit_str(n % 10));
    assert(final(out)@ =~= old(out)@ + decimal(n as nat));
}

/// Appends `n` to `out` with at least two digits.
fn push_padded(out: &mut String, n: u32)
    ensures
        final(out)@ == old(out)@ + padded(n as nat),
{
    if n < 10 {
        out.append("0");
        proof {
            reveal_strlit("0");
        }
    }
    push_decimal(out, n);
    assert(final(out)@ =~= old(out)@ + padded(n as nat));
}

/// Renders `total_seconds` as `mm:ss`, or as `hh:mm:ss` from one hour on.
pub fn format_time(total_seconds: u32) -> (r: String)
    ensures
        r@ == clock_text(total_seconds as nat),
{
    let hours = total_seconds / 3600;
    let minutes = (total_seconds % 3600) / 60;
    let seconds = total_seconds % 60;
    proof {
        reveal_strlit(":");
    }
    let mut out = String::new();
    if hours > 0 {
        push_padded(&mut out, hours);
        out.append(":");
    }
    push_padded(&mut out, minutes);
    out.append(":");
    push_padded(&mut out, seconds);
    assert(out@ =~= clock_text(total_seconds as nat));
    out
}

} // verus!
