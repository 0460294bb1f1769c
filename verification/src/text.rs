use vstd::prelude::*;

verus! {

/// The decimal digit character for one digit value.
pub open spec fn spec_digit_char(d: int) -> char {
    if d == 0 {
        '0'
    } else if d == 1 {
        '1'
    } else if d == 2 {
        '2'
    } else if d == 3 {
        '3'
    } else if d == 4 {
        '4'
    } else if d == 5 {
        '5'
    } else if d == 6 {
        '6'
    } else if d == 7 {
        '7'
    } else if d == 8 {
        '8'
    } else {
        '9'
    }
}

/// The decimal rendering of a natural number: most significant digit
/// first, no leading zeros, a single zero for zero itself.
pub open spec fn spec_decimal_nat(n: nat) -> Seq<char>
    decreases n,
{
    if n < 10 {
        seq![spec_digit_char(n as int)]
    } else {
        spec_decimal_nat(n / 10) + seq![spec_digit_char((n % 10) as int)]
    }
}

/// The decimal rendering of an integer: a minus sign before the magnitude
/// for negative values.
pub open spec fn spec_decimal_int(i: int) -> Seq<char> {
    if i < 0 {
        seq!['-'] + spec_decimal_nat((-i) as nat)
    } else {
        spec_decimal_nat(i as nat)
    }
}

/// The decimal rendering of a natural number, zero-padded on the left up
/// to a minimum width.
pub open spec fn spec_decimal_pad(n: nat, width: nat) -> Seq<char> {
    if spec_decimal_nat(n).len() >= width {
        spec_decimal_nat(n)
    } else {
        Seq::new((width - spec_decimal_nat(n).len()) as nat, |i: int| '0') + spec_decimal_nat(n)
    }
}

/// One decimal digit as a borrowed one-character string.
fn digit_str(d: u8) -> (r: &'static str)
    requires
        d < 10,
    ensures
        r@ == seq![spec_digit_char(d as int)],
{
    if d == 0 {
        proof {
            reveal_strlit("0");
            assert("0"@ =~= seq!['0']);
        }
        "0"
    } else if d == 1 {
        proof {
            reveal_strlit("1");
            assert("1"@ =~= seq!['1']);
        }
        "1"
    } else if d == 2 {
        proof {
            reveal_strlit("2");
            assert("2"@ =~= seq!['2']);
        }
        "2"
    } else if d == 3 {
        proof {
            reveal_strlit("3");
            assert("3"@ =~= seq!['3']);
        }
        "3"
    } else if d == 4 {
        proof {
            reveal_strlit("4");
            assert("4"@ =~= seq!['4']);
        }
        "4"
    } else if d == 5 {
        proof {
            reveal_strlit("5");
            assert("5"@ =~= seq!['5']);
        }
        "5"
    } else if d == 6 {
        proof {
            reveal_strlit("6");
            assert("6"@ =~= seq!['6']);
        }
        "6"
    } else if d == 7 {
        proof {
            reveal_strlit("7");
            assert("7"@ =~= seq!['7']);
        }
        "7"
    } else if d == 8 {
        proof {
            reveal_strlit("8");
            assert("8"@ =~= seq!['8']);
        }
        "8"
    } else {
        proof {
            reveal_strlit("9");
            assert("9"@ =~= seq!['9']);
        }
        "9"
    }
}

/// Render an unsigned number in decimal.
pub fn decimal_u64(n: u64) -> (r: String)
    ensures
        r@ == spec_decimal_nat(n as nat),
    decreases n,
{
    if n < 10 {
        String::from_str(digit_str(n as u8))
    } else {
        let mut s = decimal_u64(n / 10);
        s.append(digit_str((n % 10) as u8));
        s
    }
}

/// Render a signed number in decimal, minus sign included.
pub fn decimal_i64(n: i64) -> (r: String)
    ensures
        r@ == spec_decimal_int(n as int),
{
    if n >= 0 {
        decimal_u64(n as u64)
    } else {
        let wide = n as i128;
        let mag = (-wide) as u64;
        let mut s = String::new();
        proof {
            reveal_strlit("-");
            assert("-"@ =~= seq!['-']);
        }
        s.append("-");
        let digits = decimal_u64(mag);
        s.append(digits.as_str());
        proof {
            assert(s@ =~= spec_decimal_int(n as int));
        }
        s
    }
}

/// Render an unsigned number in decimal, zero-padded on the left up to a
/// minimum width.
pub fn decimal_pad(n: u64, width: usize) -> (r: String)
    ensures
        r@ == spec_decimal_pad(n as nat, width as nat),
    decreases width,
{
    let digits = decimal_u64(n);
    let len = digits.as_str().unicode_len();
    if len >= width {
        proof {
            assert(digits@ =~= spec_decimal_pad(n as nat, width as nat));
        }
        digits
    } else {
        proof {
            reveal_strlit("0");
            assert("0"@ =~= seq!['0']);
        }
        let mut s = String::new();
        let mut k: usize = 0;
        while k < width - len
            invariant
                k <= width - len,
                len == spec_decimal_nat(n as nat).len(),
                len < width,
                s@ =~= Seq::new(k as nat, |i: int| '0'),
            decreases width - len - k,
        {
            s.append("0");
            proof {
                reveal_strlit("0");
                assert("0"@ =~= seq!['0']);
                assert(s@ =~= Seq::new((k + 1) as nat, |i: int| '0'));
            }
            k = k + 1;
        }
        s.append(digits.as_str());
        proof {
            assert(s@ =~= spec_decimal_pad(n as nat, width as nat));
        }
        s
    }
}

/// The hexadecimal digit character for one digit value, lower case.
pub open spec fn spec_hex_char(d: int) -> char {
    if d < 10 {
        spec_digit_char(d)
    } else if d == 10 {
        'a'
    } else if d == 11 {
        'b'
    } else if d == 12 {
        'c'
    } else if d == 13 {
        'd'
    } else if d == 14 {
        'e'
    } else {
        'f'
    }
}

/// The fixed-width hexadecimal rendering of a number: exactly `width`
/// digits, most significant first, leading zeros kept.
pub open spec fn spec_hex_fixed(n: nat, width: nat) -> Seq<char>
    decreases width,
{
    if width == 0 {
        Seq::empty()
    } else {
        spec_hex_fixed(n / 16, (width - 1) as nat) + seq![spec_hex_char((n % 16) as int)]
    }
}

/// One hexadecimal digit as a borrowed one-character string, lower case.
fn hex_digit_str(d: u8) -> (r: &'static str)
    requires
        d < 16,
    ensures
        r@ == seq![spec_hex_char(d as int)],
{
    if d < 10 {
        digit_str(d)
    } else if d == 10 {
        proof {
            reveal_strlit("a");
            assert("a"@ =~= seq!['a']);
        }
        "a"
    } else if d == 11 {
        proof {
            reveal_strlit("b");
            assert("b"@ =~= seq!['b']);
        }
        "b"
    } else if d == 12 {
        proof {
            reveal_strlit("c");
            assert("c"@ =~= seq!['c']);
        }
        "c"
    } else if d == 13 {
        proof {
            reveal_strlit("d");
            assert("d"@ =~= seq!['d']);
        }
        "d"
    } else if d == 14 {
        proof {
            reveal_strlit("e");
            assert("e"@ =~= seq!['e']);
        }
        "e"
    } else {
        proof {
            reveal_strlit("f");
            assert("f"@ =~= seq!['f']);
        }
        "f"
    }
}

/// Render a number in fixed-width hexadecimal, lower case.
pub fn hex_fixed_u128(n: u128, width: usize) -> (r: String)
    ensures
        r@ == spec_hex_fixed(n as nat, width as nat),
    decreases width,
{
    if width == 0 {
        let s = String::new();
        proof {
            assert(s@ =~= spec_hex_fixed(n as nat, 0));
        }
        s
    } else {
        let mut s = hex_fixed_u128(n / 16, width - 1);
        s.append(hex_digit_str((n % 16) as u8));
        s
    }
}

} // verus!

verus! {

/// Floor division by a positive divisor, the division of the
/// specification language.
pub fn div_floor(a: i64, b: i64) -> (q: i64)
    requires
        b > 0,
    ensures
        q == a as int / b as int,
{
    if a >= 0 {
        let q = (a as u64) / (b as u64);
        q as i64
    } else {
        let m = (-(a as i128)) as u64;
        let bb = b as u64;
        let qm = (m + (bb - 1)) / bb;
        proof {
            assert(m >= 1);
            assert(qm <= m) by (nonlinear_arith)
                requires
                    m >= 1,
                    bb >= 1,
                    qm == (m + (bb - 1)) as int / bb as int,
            ;
        }
        let q = -((qm as i128)) as i64;
        proof {
            assert(qm == (m + (bb - 1)) as int / bb as int);
            assert(-((qm) as int) == a as int / b as int) by (nonlinear_arith)
                requires
                    m == -(a as int),
                    bb == b,
                    a < 0,
                    b > 0,
                    qm == (m + (bb - 1)) as int / bb as int,
            ;
        }
        q
    }
}

/// The remainder matching [`div_floor`]: always in `[0, b)`.
pub fn mod_floor(a: i64, b: i64) -> (r: i64)
    requires
        b > 0,
    ensures
        r == a as int % b as int,
        0 <= r < b,
{
    let q = div_floor(a, b);
    proof {
        vstd::arithmetic::div_mod::lemma_fundamental_div_mod(a as int, b as int);
        assert(b as int * (q as int) == a as int - (a as int % b as int));
        assert(0 <= (a as int % b as int) && (a as int % b as int) < b as int);
    }
    let wide = (a as i128) - (b as i128) * (q as i128);
    wide as i64
}

/// The proleptic Gregorian calendar date, as (year, month, day), of a day
/// count relative to the host epoch 2000-01-01. Years run astronomically:
/// year 0 and below stand for the years before year 1.
pub open spec fn spec_civil_of_days(days: int) -> (int, int, int) {
    let zz = days + 730425 + 2147625900;
    let era = zz / 146097;
    let doe = zz % 146097;
    let yoe = (doe - doe / 1460 + doe / 36524 - doe / 146096) / 365;
    let y0 = yoe + (era - 14700) * 400;
    let doy = doe - (365 * yoe + yoe / 4 - yoe / 100);
    let mp = (5 * doy + 2) / 153;
    let d = doy - (153 * mp + 2) / 5 + 1;
    let m = if mp < 10 {
        mp + 3
    } else {
        mp - 9
    };
    let y = if m <= 2 {
        y0 + 1
    } else {
        y0
    };
    (y, m, d)
}

/// Compute the calendar date of a day count, era by era.
pub fn civil_of_days(days: i32) -> (r: (i64, i64, i64))
    ensures
        (r.0 as int, r.1 as int, r.2 as int) == spec_civil_of_days(days as int),
        -6000000 < r.0 < 6000000,
{
    let zz: i64 = days as i64 + 730425 + 2147625900;
    let era = div_floor(zz, 146097);
    let doe = mod_floor(zz, 146097);
    let yoe = div_floor(
        doe - div_floor(doe, 1460) + div_floor(doe, 36524) - div_floor(doe, 146096),
        365,
    );
    let y0 = yoe + (era - 14700) * 400;
    let doy = doe - (365 * yoe + div_floor(yoe, 4) - div_floor(yoe, 100));
    let mp = div_floor(5 * doy + 2, 153);
    let d = doy - div_floor(153 * mp + 2, 5) + 1;
    let m = if mp < 10 {
        mp + 3
    } else {
        mp - 9
    };
    let y = if m <= 2 {
        y0 + 1
    } else {
        y0
    };
    (y, m, d)
}

} // verus!

verus! {

/// The decimal rendering of an integer, zero-padded on the left up to a
/// minimum width, with a minus sign before the padded magnitude.
pub open spec fn spec_decimal_pad_int(i: int, width: nat) -> Seq<char> {
    if i < 0 {
        seq!['-'] + spec_decimal_pad((-i) as nat, width)
    } else {
        spec_decimal_pad(i as nat, width)
    }
}

/// Render a signed number in zero-padded decimal.
pub fn decimal_pad_i64(n: i64, width: usize) -> (r: String)
    ensures
        r@ == spec_decimal_pad_int(n as int, width as nat),
{
    if n >= 0 {
        decimal_pad(n as u64, width)
    } else {
        let mag = (-(n as i128)) as u64;
        let mut s = String::new();
        proof {
            reveal_strlit("-");
            assert("-"@ =~= seq!['-']);
        }
        s.append("-");
        let digits = decimal_pad(mag, width);
        s.append(digits.as_str());
        proof {
            assert(s@ =~= spec_decimal_pad_int(n as int, width as nat));
        }
        s
    }
}

/// The rendering of a truth value.
pub open spec fn spec_bool_text(b: bool) -> Seq<char> {
    if b {
        "true"@
    } else {
        "false"@
    }
}

/// Render a truth value.
pub fn bool_text(b: bool) -> (r: String)
    ensures
        r@ == spec_bool_text(b),
{
    if b {
        String::from_str("true")
    } else {
        String::from_str("false")
    }
}

/// A text wrapped in single quotes, for embedding as a literal.
pub open spec fn spec_quoted(s: Seq<char>) -> Seq<char> {
    seq!['\''] + s + seq!['\'']
}

/// Wrap a text in single quotes.
pub fn quoted(s: &str) -> (r: String)
    ensures
        r@ == spec_quoted(s@),
{
    let mut r = String::new();
    proof {
        reveal_strlit("'");
        assert("'"@ =~= seq!['\'']);
    }
    r.append("'");
    r.append(s);
    r.append("'");
    proof {
        assert(r@ =~= spec_quoted(s@));
    }
    r
}

pub open spec fn spec_pow10(w: nat) -> nat
    decreases w,
{
    if w == 0 {
        1
    } else {
        10 * spec_pow10((w - 1) as nat)
    }
}

/// The rendering of a fractional part of up to `w` decimal places:
/// zero-padded to full width, then trailing zeros dropped.
pub open spec fn spec_frac_text(f: nat, w: nat) -> Seq<char>
    decreases w,
{
    if w == 0 {
        Seq::empty()
    } else if f % 10 == 0 {
        spec_frac_text(f / 10, (w - 1) as nat)
    } else {
        spec_decimal_pad(f, w)
    }
}

/// The rendering of a non-negative count of microseconds as a time of day:
/// two-digit hours, minutes and seconds, and the fractional seconds with
/// trailing zeros dropped, when there are any.
pub open spec fn spec_time_of_day_text(us: nat) -> Seq<char> {
    let h = us / 3600000000;
    let mi = (us / 60000000) % 60;
    let se = (us / 1000000) % 60;
    let f = us % 1000000;
    spec_decimal_pad(h, 2) + seq![':'] + spec_decimal_pad(mi, 2) + seq![':'] + spec_decimal_pad(
        se,
        2,
    ) + if f == 0 {
        Seq::<char>::empty()
    } else {
        seq!['.'] + spec_frac_text(f, 6)
    }
}

/// The rendering of a count of microseconds as a time of day, a minus sign
/// before a negative count.
pub open spec fn spec_time_text(t: int) -> Seq<char> {
    if t < 0 {
        seq!['-'] + spec_time_of_day_text((-t) as nat)
    } else {
        spec_time_of_day_text(t as nat)
    }
}

/// Render a non-negative count of microseconds as a time of day.
pub fn time_of_day_text(us: u64) -> (r: String)
    ensures
        r@ == spec_time_of_day_text(us as nat),
{
    let h = us / 3600000000;
    let mi = (us / 60000000) % 60;
    let se = (us / 1000000) % 60;
    let f0 = us % 1000000;
    let mut s = decimal_pad(h, 2);
    proof {
        reveal_strlit(":");
        assert(":"@ =~= seq![':']);
    }
    s.append(":");
    let mi_text = decimal_pad(mi, 2);
    s.append(mi_text.as_str());
    s.append(":");
    let se_text = decimal_pad(se, 2);
    s.append(se_text.as_str());
    if f0 > 0 {
        proof {
            reveal_strlit(".");
            assert("."@ =~= seq!['.']);
        }
        s.append(".");
        let mut f = f0;
        let mut w: usize = 6;
        proof {
            reveal_with_fuel(spec_pow10, 8);
            assert(f0 < spec_pow10(6));
        }
        while f % 10 == 0
            invariant
                f > 0,
                1 <= w <= 6,
                f < spec_pow10(w as nat),
                spec_frac_text(f0 as nat, 6) == spec_frac_text(f as nat, w as nat),
            decreases w,
        {
            proof {
                reveal_with_fuel(spec_pow10, 8);
                assert(w >= 2) by {
                    if w == 1 {
                        assert(f < 10);
                        assert(f % 10 == 0);
                        assert(f == 0);
                    }
                }
                assert(f / 10 < spec_pow10((w - 1) as nat)) by (nonlinear_arith)
                    requires
                        f > 0,
                        f < spec_pow10(w as nat),
                        spec_pow10(w as nat) == 10 * spec_pow10((w - 1) as nat),
                        f % 10 == 0,
                ;
            }
            f = f / 10;
            w = w - 1;
        }
        let frac = decimal_pad(f, w);
        s.append(frac.as_str());
        proof {
            assert(s@ =~= spec_time_of_day_text(us as nat));
        }
        s
    } else {
        proof {
            assert(s@ =~= spec_time_of_day_text(us as nat));
        }
        s
    }
}

/// Render a count of microseconds as a time of day, sign included.
pub fn time_text(t: i64) -> (r: String)
    ensures
        r@ == spec_time_text(t as int),
{
    if t >= 0 {
        time_of_day_text(t as u64)
    } else {
        let mag = (-(t as i128)) as u64;
        let mut s = String::new();
        proof {
            reveal_strlit("-");
            assert("-"@ =~= seq!['-']);
        }
        s.append("-");
        let rest = time_of_day_text(mag);
        s.append(rest.as_str());
        proof {
            assert(s@ =~= spec_time_text(t as int));
        }
        s
    }
}

/// The rendering of a day count as a calendar date: year, month and day,
/// zero-padded and dash-separated, with years before year one rendered by
/// their positive count and a BC marker.
pub open spec fn spec_date_text(days: int) -> Seq<char> {
    let ymd = spec_civil_of_days(days);
    let y = ymd.0;
    let core = seq!['-'] + spec_decimal_pad_int(ymd.1, 2) + seq!['-'] + spec_decimal_pad_int(
        ymd.2,
        2,
    );
    if y >= 1 {
        spec_decimal_pad_int(y, 4) + core
    } else {
        spec_decimal_pad_int(1 - y, 4) + core + " BC"@
    }
}

/// Render a day count as a calendar date.
pub fn date_text(days: i32) -> (r: String)
    ensures
        r@ == spec_date_text(days as int),
{
    let (y, m, d) = civil_of_days(days);
    proof {
        reveal_strlit("-");
        assert("-"@ =~= seq!['-']);
    }
    let mut s = if y >= 1 {
        decimal_pad_i64(y, 4)
    } else {
        decimal_pad_i64(1 - y, 4)
    };
    s.append("-");
    let m_text = decimal_pad_i64(m, 2);
    s.append(m_text.as_str());
    s.append("-");
    let d_text = decimal_pad_i64(d, 2);
    s.append(d_text.as_str());
    if y >= 1 {
        proof {
            assert(s@ =~= spec_date_text(days as int));
        }
        s
    } else {
        s.append(" BC");
        proof {
            assert(s@ =~= spec_date_text(days as int));
        }
        s
    }
}

/// The rendering of a count of microseconds since the host epoch as a
/// timestamp: the calendar date, a space, and the time of day.
pub open spec fn spec_timestamp_text(us: int) -> Seq<char> {
    spec_date_text(us / 86400000000) + seq![' '] + spec_time_of_day_text(
        (us % 86400000000) as nat,
    )
}

/// Render a count of microseconds since the host epoch as a timestamp.
pub fn timestamp_text(us: i64) -> (r: String)
    ensures
        r@ == spec_timestamp_text(us as int),
{
    let days = div_floor(us, 86400000000);
    let tod = mod_floor(us, 86400000000);
    proof {
        assert(-106751992 <= days <= 106751992);
        reveal_strlit(" ");
        assert(" "@ =~= seq![' ']);
    }
    let mut s = date_text(days as i32);
    s.append(" ");
    let tod_text = time_of_day_text(tod as u64);
    s.append(tod_text.as_str());
    proof {
        assert(s@ =~= spec_timestamp_text(us as int));
    }
    s
}

/// The rendering of a zoned timestamp, carried in UTC: the timestamp with
/// the zero offset marker.
pub open spec fn spec_timestamptz_text(us: int) -> Seq<char> {
    spec_timestamp_text(us) + "+00"@
}

/// Render a zoned timestamp, carried in UTC.
pub fn timestamptz_text(us: i64) -> (r: String)
    ensures
        r@ == spec_timestamptz_text(us as int),
{
    let mut s = timestamp_text(us);
    s.append("+00");
    s
}

/// The rendering of an interval: its months, its days, and its sub-day
/// part as a signed time of day, each in the host's own decomposition.
pub open spec fn spec_interval_text(months: int, days: int, micros: int) -> Seq<char> {
    spec_decimal_int(months) + " mons "@ + spec_decimal_int(days) + " days "@ + spec_time_text(
        micros,
    )
}

/// Render an interval.
pub fn interval_text(months: i32, days: i32, micros: i64) -> (r: String)
    ensures
        r@ == spec_interval_text(months as int, days as int, micros as int),
{
    let mut s = decimal_i64(months as i64);
    s.append(" mons ");
    let days_text = decimal_i64(days as i64);
    s.append(days_text.as_str());
    s.append(" days ");
    let time_part = time_text(micros);
    s.append(time_part.as_str());
    s
}

/// The rendering of a 128-bit unique identifier: thirty-two lower-case
/// hexadecimal digits in the usual five dash-separated groups, most
/// significant first.
pub open spec fn spec_uuid_text(v: u128) -> Seq<char> {
    spec_hex_fixed((v / 0x1000000000000000000000000) as nat, 8) + seq!['-'] + spec_hex_fixed(
        ((v / 0x100000000000000000000) % 0x10000) as nat,
        4,
    ) + seq!['-'] + spec_hex_fixed(((v / 0x10000000000000000) % 0x10000) as nat, 4) + seq!['-']
        + spec_hex_fixed(((v / 0x1000000000000) % 0x10000) as nat, 4) + seq!['-'] + spec_hex_fixed(
        (v % 0x1000000000000) as nat,
        12,
    )
}

/// Render a 128-bit unique identifier.
pub fn uuid_text(v: u128) -> (r: String)
    ensures
        r@ == spec_uuid_text(v),
{
    proof {
        reveal_strlit("-");
        assert("-"@ =~= seq!['-']);
    }
    let mut s = hex_fixed_u128(v / 0x1000000000000000000000000, 8);
    s.append("-");
    let g2 = hex_fixed_u128((v / 0x100000000000000000000) % 0x10000, 4);
    s.append(g2.as_str());
    s.append("-");
    let g3 = hex_fixed_u128((v / 0x10000000000000000) % 0x10000, 4);
    s.append(g3.as_str());
    s.append("-");
    let g4 = hex_fixed_u128((v / 0x1000000000000) % 0x10000, 4);
    s.append(g4.as_str());
    s.append("-");
    let g5 = hex_fixed_u128(v % 0x1000000000000, 12);
    s.append(g5.as_str());
    proof {
        assert(s@ =~= spec_uuid_text(v));
    }
    s
}

} // verus!
