//! Reading the textual form `host:port`.

use vstd::prelude::*;
use vstd::string::*;

verus! {

/// Whether `c` is one of the ten decimal digits.
pub open spec fn is_digit(c: char) -> bool {
    '0' as u32 <= c as u32 <= '9' as u32
}

/// The number that a decimal digit stands for; zero for any other character.
pub open spec fn digit_value(c: char) -> nat {
    if is_digit(c) {
        (c as u32 - '0' as u32) as nat
    } else {
        0
    }
}

/// The number that a run of decimal digits denotes.
pub open spec fn decimal_value(s: Seq<char>) -> nat
    decreases s.len(),
{
    if s.len() == 0 {
        0
    } else {
        decimal_value(s.drop_last()) * 10 + digit_value(s.last())
    }
}

/// Whether every character of `s` is a decimal digit.
pub open spec fn all_digits(s: Seq<char>) -> bool {
    forall|i: int| 0 <= i < s.len() ==> is_digit(#[trigger] s[i])
}

/// The digits of a port's text: the text itself, without one leading plus sign.
pub open spec fn port_digits(s: Seq<char>) -> Seq<char> {
    if s.len() > 0 && s[0] == '+' {
        s.skip(1)
    } else {
        s
    }
}

/// The port that `s` denotes: an optional plus sign, then one or more decimal
/// digits whose value is at most 65535. Leading zeros are allowed.
pub open spec fn port_of(s: Seq<char>) -> Option<u16> {
    let d = port_digits(s);
    if d.len() > 0 && all_digits(d) && decimal_value(d) <= 65535 {
        Some(decimal_value(d) as u16)
    } else {
        None
    }
}

/// The index of the last colon of `s`, if it holds one.
pub open spec fn last_colon(s: Seq<char>) -> Option<int>
    decreases s.len(),
{
    if s.len() == 0 {
        None
    } else if s.last() == ':' {
        Some(s.len() - 1)
    } else {
        last_colon(s.drop_last())
    }
}

/// A prefix of a digit run never denotes more than the whole run.
pub proof fn lemma_decimal_value_prefix(s: Seq<char>, k: int)
    requires
        0 <= k <= s.len(),
    ensures
        decimal_value(s.take(k)) <= decimal_value(s),
    decreases s.len() - k,
{
    if k == s.len() {
        assert(s.take(k) =~= s);
    } else {
        lemma_decimal_value_prefix(s, k + 1);
        assert(s.take(k + 1).drop_last() =~= s.take(k));
    }
}

/// `last_colon` finds a colon exactly when there is one, and no colon follows
/// the one it finds.
pub proof fn lemma_last_colon(s: Seq<char>)
    ensures
        match last_colon(s) {
            None => forall|j: int| 0 <= j < s.len() ==> s[j] != ':',
            Some(i) => 0 <= i < s.len() && s[i] == ':' && forall|j: int|
                i < j < s.len() ==> s[j] != ':',
        },
    decreases s.len(),
{
    if s.len() > 0 && s.last() != ':' {
        let t = s.drop_last();
        lemma_last_colon(t);
        assert forall|j: int| 0 <= j < t.len() implies t[j] == s[j] by {}
    }
}

/// Finds the last colon of `addr`, counted in characters.
pub fn find_last_colon(addr: &str) -> (found: Option<usize>)
    ensures
        match found {
            None => last_colon(addr@) is None,
            Some(i) => last_colon(addr@) == Some(i as int),
        },
{
    let n: usize = addr.unicode_len();
    let mut i: usize = n;
    assert(addr@.take(n as int) =~= addr@);
    while i > 0
        invariant
            i <= n,
            n == addr@.len(),
            last_colon(addr@) == last_colon(addr@.take(i as int)),
        decreases i,
    {
        let c = addr.get_char(i - 1);
        if c == ':' {
            return Some(i - 1);
        }
        assert(addr@.take(i as int).drop_last() =~= addr@.take(i as int - 1));
        i -= 1;
    }
    None
}

/// Reads a port: an optional plus sign and then decimal digits, with a value
/// that fits in 16 bits.
pub fn parse_port(text: &str) -> (port: Option<u16>)
    ensures
        port == port_of(text@),
{
    let n: usize = text.unicode_len();
    if n == 0 {
        return None;
    }
    let start: usize = if text.get_char(0) == '+' { 1 } else { 0 };
    if start == n {
        return None;
    }
    let ghost d = port_digits(text@);
    let mut value: u32 = 0;
    let mut i: usize = start;
    assert(d =~= text@.skip(start as int));
    while i < n
        invariant
            start <= i <= n,
            n == text@.len(),
            d == port_digits(text@),
            d =~= text@.skip(start as int),
            value <= 65535,
            value == decimal_value(d.take(i - start)),
            all_digits(d.take(i - start)),
        decreases n - i,
    {
        let c = text.get_char(i);
        assert(d[i - start] == c);
        let code: u32 = c as u32;
        if code < '0' as u32 || code > '9' as u32 {
            assert(!is_digit(d[i - start]));
            return None;
        }
        let digit: u32 = code - '0' as u32;
        assert(d.take(i - start + 1).drop_last() =~= d.take(i - start));
        assert(d.take(i - start + 1).last() == c);
        assert(decimal_value(d.take(i - start + 1)) == value * 10 + digit);
        let next: u32 = value * 10 + digit;
        if next > 65535 {
            proof {
                lemma_decimal_value_prefix(d, i - start + 1);
            }
            return None;
        }
        value = next;
        i += 1;
    }
    assert(d.take(n - start) =~= d);
    Some(value as u16)
}

} // verus!
