use vstd::prelude::*;

verus! {

/// The lower-case hexadecimal digit of the low four bits of `d`.
pub open spec fn hex_digit(d: u8) -> Seq<char> {
    match d % 16 {
        0 => "0"@,
        1 => "1"@,
        2 => "2"@,
        3 => "3"@,
        4 => "4"@,
        5 => "5"@,
        6 => "6"@,
        7 => "7"@,
        8 => "8"@,
        9 => "9"@,
        10 => "a"@,
        11 => "b"@,
        12 => "c"@,
        13 => "d"@,
        14 => "e"@,
        _ => "f"@,
    }
}

/// Two hexadecimal digits, high nibble first.
pub open spec fn hex_byte(b: u8) -> Seq<char> {
    hex_digit(b / 16) + hex_digit(b % 16)
}

/// Four hexadecimal digits, high byte first.
pub open spec fn hex_word(w: u16) -> Seq<char> {
    hex_byte((w / 256) as u8) + hex_byte((w % 256) as u8)
}

/// The decimal digits of `n`, without leading zeros.
pub open spec fn decimal(n: nat) -> Seq<char>
    decreases n,
{
    if n < 10 {
        hex_digit(n as u8)
    } else {
        decimal(n / 10) + hex_digit((n % 10) as u8)
    }
}

/// The hexadecimal digits of `n`, without leading zeros.
pub open spec fn hex_digits(n: nat) -> Seq<char>
    decreases n,
{
    if n < 16 {
        hex_digit(n as u8)
    } else {
        hex_digits(n / 16) + hex_digit((n % 16) as u8)
    }
}

/// `s` preceded by zeros up to `width` characters.
pub open spec fn pad_zeros(s: Seq<char>, width: nat) -> Seq<char> {
    if s.len() >= width {
        s
    } else {
        Seq::new((width - s.len()) as nat, |i: int| '0') + s
    }
}

/// `s` followed by spaces up to `width` characters.
pub open spec fn pad_right(s: Seq<char>, width: nat) -> Seq<char> {
    if s.len() >= width {
        s
    } else {
        s + Seq::new((width - s.len()) as nat, |i: int| ' ')
    }
}

fn hex_digit_str(d: u8) -> (r: &'static str)
    ensures
        r@ == hex_digit(d),
{
    match d % 16 {
        0 => "0",
        1 => "1",
        2 => "2",
        3 => "3",
        4 => "4",
        5 => "5",
        6 => "6",
        7 => "7",
        8 => "8",
        9 => "9",
        10 => "a",
        11 => "b",
        12 => "c",
        13 => "d",
        14 => "e",
        _ => "f",
    }
}

pub fn push_hex_byte(s: &mut String, b: u8)
    ensures
        final(s)@ == old(s)@ + hex_byte(b),
{
    s.append(hex_digit_str(b / 16));
    s.append(hex_digit_str(b % 16));
    assert(final(s)@ =~= old(s)@ + hex_byte(b));
}

pub fn push_hex_word(s: &mut String, w: u16)
    ensures
        final(s)@ == old(s)@ + hex_word(w),
{
    push_hex_byte(s, (w / 256) as u8);
    push_hex_byte(s, (w % 256) as u8);
    assert(final(s)@ =~= old(s)@ + hex_word(w));
}

pub fn push_decimal(s: &mut String, n: usize)
    ensures
        final(s)@ == old(s)@ + decimal(n as nat),
    decreases n,
{
    if n >= 10 {
        push_decimal(s, n / 10);
    }
    s.append(hex_digit_str((n % 10) as u8));
    assert(final(s)@ =~= old(s)@ + decimal(n as nat));
}

fn hex_string(n: usize) -> (r: String)
    ensures
        r@ == hex_digits(n as nat),
    decreases n,
{
    let mut s = if n >= 16 {
        hex_string(n / 16)
    } else {
        String::new()
    };
    s.append(hex_digit_str((n % 16) as u8));
    assert(s@ =~= hex_digits(n as nat));
    s
}

/// Appends `n` in hexadecimal, with at least four digits.
pub fn push_hex_min4(s: &mut String, n: usize)
    ensures
        final(s)@ == old(s)@ + pad_zeros(hex_digits(n as nat), 4),
{
    let digits = hex_string(n);
    let len = digits.as_str().unicode_len();
    let mut k = len;
    let ghost start = s@;
    while k < 4
        invariant
            len <= k <= 4 || (k == len && len > 4),
            len == hex_digits(n as nat).len(),
            s@ == start + Seq::new((k - len) as nat, |i: int| '0'),
        decreases 4 - k,
    {
        s.append("0");
        proof {
            reveal_strlit("0");
        }
        k = k + 1;
        assert(s@ =~= start + Seq::new((k - len) as nat, |i: int| '0'));
    }
    s.append(digits.as_str());
    assert(s@ =~= start + pad_zeros(hex_digits(n as nat), 4));
}

/// Appends spaces to `s` until it is `width` characters long.
pub fn pad_to(s: &mut String, width: usize)
    ensures
        final(s)@ == pad_right(old(s)@, width as nat),
{
    let ghost start = s@;
    let mut n: usize = s.as_str().unicode_len();
    while n < width
        invariant
            n <= width || n == start.len(),
            n == s@.len(),
            start.len() < width ==> s@ == start + Seq::new((n - start.len()) as nat, |i: int| ' '),
            start.len() >= width ==> s@ == start,
            n >= start.len(),
        decreases width - n,
    {
        s.append(" ");
        proof {
            reveal_strlit(" ");
        }
        n = n + 1;
        assert(s@ =~= start + Seq::new((n - start.len()) as nat, |i: int| ' '));
    }
    assert(final(s)@ =~= pad_right(start, width as nat));
}

} // verus!
