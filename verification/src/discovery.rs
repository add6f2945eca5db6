//! The discovery line: `PORT:` followed by the port in decimal.

use vstd::prelude::*;
use vstd::slice::slice_subrange;
use vstd::string::StringSliceAdditionalSpecFns;

verus! {

/// The bytes of `PORT:`, which open a discovery line.
pub open spec fn port_prefix() -> Seq<u8> {
    seq![0x50u8, 0x4Fu8, 0x52u8, 0x54u8, 0x3Au8]
}

/// Whether `b` is one of the ASCII digits `0` to `9`.
pub open spec fn is_digit(b: u8) -> bool {
    0x30 <= b <= 0x39
}

/// The number that the ASCII digit `b` stands for; 0 for any other byte.
pub open spec fn digit_value(b: u8) -> nat {
    if is_digit(b) {
        (b - 0x30) as nat
    } else {
        0
    }
}

/// Whether every byte of `s` is an ASCII digit.
pub open spec fn all_digits(s: Seq<u8>) -> bool {
    forall|i: int| 0 <= i < s.len() ==> is_digit(#[trigger] s[i])
}

/// The number that `s` writes in decimal, most significant digit first.
pub open spec fn digits_value(s: Seq<u8>) -> nat
    decreases s.len(),
{
    if s.len() == 0 {
        0
    } else {
        digits_value(s.drop_last()) * 10 + digit_value(s.last())
    }
}

/// The digits of a number text: the text itself, without one leading `+`.
pub open spec fn unsigned_digits(text: Seq<u8>) -> Seq<u8> {
    if text.len() > 0 && text[0] == 0x2Bu8 {
        text.skip(1)
    } else {
        text
    }
}

/// The port that `text` writes, if it writes one.
///
/// A port text is an optional `+` followed by at least one ASCII digit and
/// nothing else, and its value is at most 65535. Leading zeros are allowed.
pub open spec fn port_of_text(text: Seq<u8>) -> Option<u16> {
    let digits = unsigned_digits(text);
    if digits.len() > 0 && all_digits(digits) && digits_value(digits) <= u16::MAX {
        Some(digits_value(digits) as u16)
    } else {
        None
    }
}

/// The port that the line announces, if it is a discovery line.
pub open spec fn discovery_port(line: Seq<u8>) -> Option<u16> {
    if port_prefix().is_prefix_of(line) {
        port_of_text(line.skip(5))
    } else {
        None
    }
}

/// The decimal writing of `n`, without leading zeros.
pub open spec fn decimal(n: nat) -> Seq<u8>
    decreases n,
{
    if n < 10 {
        seq![(0x30 + n) as u8]
    } else {
        decimal(n / 10).push((0x30 + n % 10) as u8)
    }
}

/// The discovery line that announces `port`.
pub open spec fn port_line(port: u16) -> Seq<u8> {
    port_prefix() + decimal(port as nat)
}

/// Whether `line` fails to be a discovery line: it does not open with
/// `PORT:`, or what follows is empty, holds something other than digits
/// after an optional `+`, or writes a number above 65535.
pub open spec fn is_ordinary_line(line: Seq<u8>) -> bool {
    ||| !port_prefix().is_prefix_of(line)
    ||| unsigned_digits(line.skip(5)).len() == 0
    ||| !all_digits(unsigned_digits(line.skip(5)))
    ||| digits_value(unsigned_digits(line.skip(5))) > u16::MAX
}

/// The decimal writing of a number is made of digits and reads back as
/// that number.
pub proof fn lemma_decimal_reads_back(n: nat)
    ensures
        decimal(n).len() > 0,
        all_digits(decimal(n)),
        digits_value(decimal(n)) == n,
    decreases n,
{
    if n < 10 {
        let s = decimal(n);
        assert(s.drop_last().len() == 0);
        assert(digits_value(s.drop_last()) == 0);
    } else {
        lemma_decimal_reads_back(n / 10);
        let s = decimal(n);
        assert(s.drop_last() =~= decimal(n / 10));
        assert(s.last() == (0x30 + n % 10) as u8);
    }
}

/// Every port is discovered from the line that announces it.
pub proof fn lemma_port_line_is_discovered(port: u16)
    ensures
        discovery_port(port_line(port)) == Some(port),
{
    let line = port_line(port);
    let text = decimal(port as nat);
    lemma_decimal_reads_back(port as nat);
    assert(line.subrange(0, 5) =~= port_prefix());
    assert(line.skip(5) =~= text);
    assert(is_digit(text[0]));
    assert(unsigned_digits(text) == text);
}

/// A line is an ordinary line exactly when no port is discovered from it.
pub proof fn lemma_ordinary_line_announces_nothing(line: Seq<u8>)
    ensures
        is_ordinary_line(line) <==> discovery_port(line) is None,
{
}

/// A longer digit string never writes a smaller number than its beginning.
pub proof fn lemma_digits_value_prefix(s: Seq<u8>, k: int)
    requires
        0 <= k <= s.len(),
    ensures
        digits_value(s.subrange(0, k)) <= digits_value(s),
    decreases s.len() - k,
{
    if k == s.len() {
        assert(s.subrange(0, k) =~= s);
    } else {
        lemma_digits_value_prefix(s.drop_last(), k);
        assert(s.drop_last().subrange(0, k) =~= s.subrange(0, k));
    }
}

/// Reads a port text. See [`port_of_text`].
pub fn parse_port(text: &[u8]) -> (port: Option<u16>)
    ensures
        port == port_of_text(text@),
{
    let n: usize = text.len();
    let start: usize = if n > 0 && text[0] == 0x2Bu8 {
        1
    } else {
        0
    };
    let ghost digits = unsigned_digits(text@);
    assert(digits =~= text@.subrange(start as int, n as int));
    if start == n {
        return None;
    }
    let mut value: u32 = 0;
    let mut i: usize = start;
    while i < n
        invariant
            start <= i <= n,
            n == text@.len(),
            digits == unsigned_digits(text@),
            digits == text@.subrange(start as int, n as int),
            all_digits(digits.subrange(0, i - start)),
            value == digits_value(digits.subrange(0, i - start)),
            value <= u16::MAX,
        decreases n - i,
    {
        let b: u8 = text[i];
        let ghost seen = digits.subrange(0, i - start);
        let ghost next = digits.subrange(0, i + 1 - start);
        assert(next.drop_last() =~= seen);
        assert(next.last() == b);
        if b < 0x30u8 || b > 0x39u8 {
            assert(!is_digit(digits[i - start]));
            return None;
        }
        value = value * 10 + (b - 0x30u8) as u32;
        assert(value == digits_value(next));
        if value > 0xFFFFu32 {
            proof {
                lemma_digits_value_prefix(digits, i + 1 - start);
            }
            return None;
        }
        assert forall|j: int| 0 <= j < next.len() implies is_digit(#[trigger] next[j]) by {
            if j < seen.len() {
                assert(seen[j] == next[j]);
            }
        }
        i = i + 1;
    }
    assert(digits.subrange(0, n - start) =~= digits);
    Some(value as u16)
}

/// Reads the bytes of one line, without its line ending. See [`discovery_port`].
pub fn parse_discovery_bytes(line: &[u8]) -> (port: Option<u16>)
    ensures
        port == discovery_port(line@),
{
    let n: usize = line.len();
    if n < 5 {
        return None;
    }
    if line[0] != 0x50u8 || line[1] != 0x4Fu8 || line[2] != 0x52u8 || line[3] != 0x54u8 || line[4]
        != 0x3Au8 {
        let ghost head = line@.subrange(0, 5);
        assert(head[0] == line@[0] && head[1] == line@[1] && head[2] == line@[2] && head[3]
            == line@[3] && head[4] == line@[4]);
        return None;
    }
    assert(port_prefix() =~= line@.subrange(0, 5));
    let rest: &[u8] = slice_subrange(line, 5, n);
    assert(rest@ =~= line@.skip(5));
    parse_port(rest)
}

/// Reads one line of the worker's standard output, without its line ending.
/// The line is taken by its bytes. See [`discovery_port`].
pub fn parse_discovery_line(line: &str) -> (port: Option<u16>)
    ensures
        port == discovery_port(line.spec_bytes()),
{
    let bytes: &[u8] = line.as_bytes();
    parse_discovery_bytes(bytes)
}

} // verus!
