//! Decimal text of integers: printing (`to_string`) and reading (`str::parse`).

use vstd::prelude::*;
use crate::text::push_char;

verus! {

/// The decimal digit character for `d < 10`.
pub open spec fn digit_char(d: nat) -> char {
    (('0' as u32) + d) as char
}

/// Whether `c` is an ASCII decimal digit.
pub open spec fn is_digit(c: char) -> bool {
    '0' <= c <= '9'
}

/// The value of a digit character.
pub open spec fn digit_value(c: char) -> nat {
    ((c as u32) - ('0' as u32)) as nat
}

/// The decimal text of `n`, without leading zeros.
pub open spec fn decimal(n: nat) -> Seq<char>
    decreases n,
{
    if n < 10 {
        seq![digit_char(n)]
    } else {
        decimal(n / 10).push(digit_char(n % 10))
    }
}

/// The decimal text of `n`, with a leading `-` when it is negative
/// (`i64::to_string`).
pub open spec fn signed_decimal(n: int) -> Seq<char> {
    if n < 0 {
        seq!['-'] + decimal((-n) as nat)
    } else {
        decimal(n as nat)
    }
}

/// The value of a sequence of digit characters.
pub open spec fn digits_value(s: Seq<char>) -> nat
    decreases s.len(),
{
    if s.len() == 0 {
        0
    } else {
        digits_value(s.drop_last()) * 10 + digit_value(s.last())
    }
}

/// The decimal text of a number is made of digits, at least one.
pub proof fn lemma_decimal_digits(n: nat)
    ensures
        decimal(n).len() >= 1,
        forall|i: int| 0 <= i < decimal(n).len() ==> is_digit(#[trigger] decimal(n)[i]),
    decreases n,
{
    if n >= 10 {
        lemma_decimal_digits(n / 10);
        assert forall|i: int| 0 <= i < decimal(n).len() implies is_digit(#[trigger] decimal(n)[i]) by {
            if i < decimal(n / 10).len() {
                assert(decimal(n)[i] == decimal(n / 10)[i]);
            }
        }
    }
}

/// Reading the decimal text of a number gives the number back.
pub proof fn lemma_decimal_value(n: nat)
    ensures
        digits_value(decimal(n)) == n,
    decreases n,
{
    let s = decimal(n);
    if n < 10 {
        assert(s.drop_last() =~= Seq::<char>::empty());
        assert(digits_value(s.drop_last()) == 0);
        assert(s.last() == digit_char(n));
        assert(digit_value(digit_char(n)) == n);
    } else {
        lemma_decimal_value(n / 10);
        assert(s.drop_last() =~= decimal(n / 10));
        assert(s.last() == digit_char(n % 10));
        assert(digit_value(digit_char(n % 10)) == n % 10);
        assert(digits_value(s) == digits_value(s.drop_last()) * 10 + digit_value(s.last()));
        assert(n == (n / 10) * 10 + n % 10);
    }
}

/// The text of a code followed by `": "` begins with `"5003: "` exactly
/// when the code is 5003.
pub proof fn lemma_code_5003_prefix(c: int, m: Seq<char>)
    ensures
        crate::text::has_prefix(signed_decimal(c) + ": "@ + m, "5003: "@) <==> c == 5003,
{
    reveal_strlit("5003: ");
    reveal_strlit(": ");
    let t = "5003: "@;
    let d = signed_decimal(c);
    let w = d + ": "@ + m;
    if c == 5003 {
        assert(decimal(5003) =~= seq!['5', '0', '0', '3']) by {
            reveal_with_fuel(decimal, 5);
        }
        assert(w.subrange(0, 6) =~= t);
    } else if crate::text::has_prefix(w, t) {
        assert(w.subrange(0, 6) == t);
        assert(w[0] == t[0]);
        if c < 0 {
            assert(w[0] == '-');
        } else {
            let n = c as nat;
            lemma_decimal_digits(n);
            let l = d.len() as int;
            if l > 4 {
                assert(w[4] == d[4]);
                assert(is_digit(d[4]));
                assert(w[4] == t[4]);
            } else if l < 4 {
                assert(w[l] == ':');
                assert(w[l] == t[l]);
            } else {
                assert(d =~= seq!['5', '0', '0', '3']) by {
                    assert forall|i: int| 0 <= i < 4 implies d[i] == t[i] by {
                        assert(w[i] == d[i]);
                        assert(w[i] == t[i]);
                    }
                }
                lemma_decimal_value(n);
                assert(digits_value(seq!['5', '0', '0', '3']) == 5003) by {
                    reveal_with_fuel(digits_value, 5);
                    assert(seq!['5', '0', '0', '3'].drop_last() =~= seq!['5', '0', '0']);
                    assert(seq!['5', '0', '0'].drop_last() =~= seq!['5', '0']);
                    assert(seq!['5', '0'].drop_last() =~= seq!['5']);
                    assert(seq!['5'].drop_last() =~= Seq::<char>::empty());
                }
            }
        }
    }
}

/// Why `str::parse::<u16>` refuses a text (`core::num::IntErrorKind`).
#[derive(PartialEq, Eq, Structural, Debug, Clone, Copy)]
pub enum PortError {
    /// The text is empty.
    Empty,
    /// A character is not a decimal digit (a lone `+` counts as one).
    InvalidDigit,
    /// The value does not fit in 16 bits.
    PosOverflow,
}

impl PortError {
    /// The text of the error (`ParseIntError`'s `Display`).
    pub open spec fn text_spec(&self) -> Seq<char> {
        match self {
            PortError::Empty => "cannot parse integer from empty string"@,
            PortError::InvalidDigit => "invalid digit found in string"@,
            PortError::PosOverflow => "number too large to fit in target type"@,
        }
    }

    pub fn text(&self) -> (s: &'static str)
        ensures
            s@ == self.text_spec(),
    {
        match self {
            PortError::Empty => "cannot parse integer from empty string",
            PortError::InvalidDigit => "invalid digit found in string",
            PortError::PosOverflow => "number too large to fit in target type",
        }
    }
}

/// Reads the digits of `d` from index `i` on, `acc` being the value of
/// those before: the first character that is no digit, or the first digit
/// that takes the value past 16 bits, stops it.
pub open spec fn scan_u16(d: Seq<char>, i: int, acc: nat) -> Result<u16, PortError>
    decreases d.len() - i,
{
    if i < 0 || i >= d.len() {
        Ok(acc as u16)
    } else if !is_digit(d[i]) {
        Err(PortError::InvalidDigit)
    } else if acc * 10 + digit_value(d[i]) > 0xffff {
        Err(PortError::PosOverflow)
    } else {
        scan_u16(d, i + 1, acc * 10 + digit_value(d[i]))
    }
}

/// What `str::parse::<u16>` gives for `s`: an optional `+`, then at least one
/// digit and nothing else, with a value that fits in 16 bits.
pub open spec fn parse_u16(s: Seq<char>) -> Result<u16, PortError> {
    if s.len() == 0 {
        Err(PortError::Empty)
    } else if s == seq!['+'] {
        Err(PortError::InvalidDigit)
    } else if s[0] == '+' {
        scan_u16(s.drop_first(), 0, 0)
    } else {
        scan_u16(s, 0, 0)
    }
}

fn digit_of(d: u64) -> (c: char)
    requires
        d < 10,
    ensures
        c == digit_char(d as nat),
{
    let b = (d as u8) + 48;
    b as char
}

/// Appends the decimal text of `n` to `s`.
pub fn push_decimal(s: &mut String, n: u64)
    ensures
        final(s)@ == old(s)@ + decimal(n as nat),
    decreases n,
{
    if n >= 10 {
        push_decimal(s, n / 10);
    }
    push_char(s, digit_of(n % 10));
    proof {
        if n >= 10 {
            assert(old(s)@ + decimal(n as nat) =~= old(s)@ + decimal((n / 10) as nat) + seq![digit_char((n % 10) as nat)]);
        } else {
            assert(old(s)@ + decimal(n as nat) =~= old(s)@.push(digit_char(n as nat)));
        }
    }
}

/// The decimal text of `n` (`u64::to_string`).
pub fn u64_to_decimal(n: u64) -> (s: String)
    ensures
        s@ == decimal(n as nat),
{
    let mut s = String::new();
    push_decimal(&mut s, n);
    assert(Seq::<char>::empty() + decimal(n as nat) =~= decimal(n as nat));
    s
}

/// The decimal text of `n` (`i64::to_string`).
pub fn i64_to_decimal(n: i64) -> (s: String)
    ensures
        s@ == signed_decimal(n as int),
{
    let mut s = String::new();
    if n < 0 {
        push_char(&mut s, '-');
        let m: u64 = if n == i64::MIN {
            9223372036854775808u64
        } else {
            (-n) as u64
        };
        push_decimal(&mut s, m);
    } else {
        push_decimal(&mut s, n as u64);
        assert(Seq::<char>::empty() + decimal(n as nat) =~= decimal(n as nat));
    }
    s
}

/// Reads a port number as `str::parse::<u16>` does.
pub fn parse_port(s: &str) -> (r: Result<u16, PortError>)
    ensures
        r == parse_u16(s@),
{
    let v = crate::text::chars_of(s);
    if v.len() == 0 {
        return Err(PortError::Empty);
    }
    if v.len() == 1 && v[0] == '+' {
        assert(s@ =~= seq!['+']);
        return Err(PortError::InvalidDigit);
    }
    let start: usize = if v[0] == '+' {
        1
    } else {
        0
    };
    let ghost d = v@.subrange(start as int, v@.len() as int);
    assert(d =~= (if v@[0] == '+' { v@.drop_first() } else { v@ }));
    assert(s@ != seq!['+']) by {
        if s@ == seq!['+'] {
            assert(v@.len() == 1);
        }
    }
    let mut acc: u32 = 0;
    let mut i: usize = start;
    while i < v.len()
        invariant
            start <= i <= v@.len(),
            v@ == s@,
            d == v@.subrange(start as int, v@.len() as int),
            parse_u16(s@) == scan_u16(d, 0, 0),
            acc <= 0xffff,
            scan_u16(d, 0, 0) == scan_u16(d, i - start, acc as nat),
        decreases v@.len() - i,
    {
        let c = v[i];
        assert(d[i - start] == c);
        if !('0' <= c && c <= '9') {
            return Err(PortError::InvalidDigit);
        }
        let next = acc * 10 + ((c as u32) - 48);
        if next > 0xffff {
            return Err(PortError::PosOverflow);
        }
        acc = next;
        i = i + 1;
    }
    Ok(acc as u16)
}

} // verus!
