use vstd::prelude::*;

verus! {

/// The character of the lower-case hexadecimal digit `n`, for `n < 16`.
pub open spec fn hex_digit_spec(n: u8) -> char {
    if n < 10 {
        (48 + n) as char
    } else {
        (87 + n) as char
    }
}

/// The characters that `core::ascii::escape_default` produces for `b`:
/// `\t`, `\r`, `\n`, `\'`, `\"` and `\\` for those six bytes, printable ASCII
/// (`0x20..=0x7e`) as itself, and `\xNN` in lower-case hexadecimal for every other byte.
pub open spec fn escape_byte_spec(b: u8) -> Seq<char> {
    if b == 0x09 {
        seq!['\\', 't']
    } else if b == 0x0d {
        seq!['\\', 'r']
    } else if b == 0x0a {
        seq!['\\', 'n']
    } else if b == 0x27 {
        seq!['\\', '\'']
    } else if b == 0x22 {
        seq!['\\', '"']
    } else if b == 0x5c {
        seq!['\\', '\\']
    } else if 0x20 <= b <= 0x7e {
        seq![b as char]
    } else {
        seq!['\\', 'x', hex_digit_spec(b / 16), hex_digit_spec(b % 16)]
    }
}

/// The escaped text of `bytes`: the escape of each byte, in order.
pub open spec fn escape_ascii_spec(bytes: Seq<u8>) -> Seq<char>
    decreases bytes.len(),
{
    if bytes.len() == 0 {
        Seq::empty()
    } else {
        escape_ascii_spec(bytes.drop_last()) + escape_byte_spec(bytes.last())
    }
}

/// The decimal digits of `n`, most significant first, without leading zeros.
pub open spec fn decimal_spec(n: nat) -> Seq<char>
    decreases n,
{
    if n < 10 {
        seq![hex_digit_spec(n as u8)]
    } else {
        decimal_spec(n / 10).push(hex_digit_spec((n % 10) as u8))
    }
}

/// Calls `String::push`, which appends `c` to `s`.
#[verifier::external_body]
pub(crate) fn push_char(s: &mut String, c: char)
    ensures
        final(s)@ == old(s)@.push(c),
{
    s.push(c)
}

fn hex_digit(n: u8) -> (c: char)
    requires
        n < 16,
    ensures
        c == hex_digit_spec(n),
{
    if n < 10 {
        (48 + n) as char
    } else {
        (87 + n) as char
    }
}

/// Appends the decimal digits of `n` to `s`.
pub(crate) fn push_decimal(s: &mut String, n: usize)
    ensures
        final(s)@ == old(s)@ + decimal_spec(n as nat),
    decreases n,
{
    if n >= 10 {
        push_decimal(s, n / 10);
    }
    push_char(s, hex_digit((n % 10) as u8));
    proof {
        assert(s@ =~= old(s)@ + decimal_spec(n as nat));
    }
}

/// Appends the escape of `b` to `s`.
fn push_escaped(s: &mut String, b: u8)
    ensures
        final(s)@ == old(s)@ + escape_byte_spec(b),
{
    if b == 0x09 {
        push_char(s, '\\');
        push_char(s, 't');
    } else if b == 0x0d {
        push_char(s, '\\');
        push_char(s, 'r');
    } else if b == 0x0a {
        push_char(s, '\\');
        push_char(s, 'n');
    } else if b == 0x27 {
        push_char(s, '\\');
        push_char(s, '\'');
    } else if b == 0x22 {
        push_char(s, '\\');
        push_char(s, '"');
    } else if b == 0x5c {
        push_char(s, '\\');
        push_char(s, '\\');
    } else if 0x20 <= b && b <= 0x7e {
        push_char(s, b as char);
    } else {
        push_char(s, '\\');
        push_char(s, 'x');
        push_char(s, hex_digit(b / 16));
        push_char(s, hex_digit(b % 16));
    }
}

/// Converts a byte slice into a string.
/// Includes printable ASCII characters as-is.
/// Converts non-printable or non-ASCII characters to strings like "\n" and "\x19".
///
/// Each byte is escaped as `core::ascii::escape_default` escapes it.
/// This is useful for printing byte slices to logs and comparing byte slices in tests.
pub fn escape_ascii(input: &[u8]) -> (result: String)
    ensures
        result@ == escape_ascii_spec(input@),
{
    let mut result = String::new();
    let mut i: usize = 0;
    while i < input.len()
        invariant
            i <= input@.len(),
            result@ == escape_ascii_spec(input@.take(i as int)),
        decreases input@.len() - i,
    {
        let ghost before = input@.take(i as int);
        push_escaped(&mut result, input[i]);
        i = i + 1;
        proof {
            assert(input@.take(i as int).drop_last() =~= before);
        }
    }
    proof {
        assert(input@.take(i as int) =~= input@);
    }
    result
}

} // verus!
