//! The text form of a bind address: four decimal groups separated by dots, a
//! colon, and a decimal port, as in `127.0.0.1:8079`; or an IPv6 address in
//! square brackets, a colon, and a decimal port, as in `[::1]:8079`.

use crate::address::{IpAddress, SocketAddress};
use crate::ipv6_text::{address, read_address, slice_of};
use crate::text::characters;
use vstd::prelude::*;

verus! {

/// Whether a character is a decimal digit.
pub open spec fn is_digit(c: char) -> bool {
    '0' <= c && c <= '9'
}

/// The value of a decimal digit.
pub open spec fn digit_value(c: char) -> nat {
    if is_digit(c) {
        (c as int - '0' as int) as nat
    } else {
        0
    }
}

/// Whether a text is made of decimal digits alone.
pub open spec fn all_digits(s: Seq<char>) -> bool {
    forall|i: int| 0 <= i < s.len() ==> is_digit(#[trigger] s[i])
}

/// The number that a text of decimal digits writes.
pub open spec fn decimal(s: Seq<char>) -> nat
    decreases s.len(),
{
    if s.len() == 0 {
        0
    } else {
        decimal(s.drop_last()) * 10 + digit_value(s.last())
    }
}

/// The number that a text writes, where it is one or more decimal digits and
/// the number is at most `max`.
pub open spec fn number(s: Seq<char>, max: nat) -> Option<nat> {
    if s.len() >= 1 && all_digits(s) && decimal(s) <= max {
        Some(decimal(s))
    } else {
        None
    }
}

/// A group of an address: one to three digits, no zero before another digit,
/// at most 255.
pub open spec fn octet(s: Seq<char>) -> Option<u8> {
    if s.len() <= 3 && !(s.len() > 1 && s[0] == '0') {
        match number(s, 255) {
            Some(n) => Some(n as u8),
            None => None,
        }
    } else {
        None
    }
}

/// A port: one or more digits, at most 65535.
pub open spec fn port(s: Seq<char>) -> Option<u16> {
    match number(s, 65535) {
        Some(n) => Some(n as u16),
        None => None,
    }
}

/// Whether `i` is the first place at or after `lo` that holds `sep`.
pub open spec fn is_first(s: Seq<char>, lo: int, sep: char, i: int) -> bool {
    &&& lo <= i < s.len()
    &&& s[i] == sep
    &&& forall|j: int| lo <= j < i ==> s[j] != sep
}

/// The first place at or after `lo` that holds `sep`, if there is one.
pub open spec fn first_from(s: Seq<char>, lo: int, sep: char) -> Option<int> {
    if exists|i: int| is_first(s, lo, sep, i) {
        Some(choose|i: int| is_first(s, lo, sep, i))
    } else {
        None
    }
}

/// The address that a text writes, in either form. A text of any other shape
/// writes no address.
pub open spec fn parsed(s: Seq<char>) -> Option<SocketAddress> {
    match parsed_v4(s) {
        Some(addr) => Some(addr),
        None => parsed_v6(s),
    }
}

/// The address that a text with brackets writes: the text starts with `[`,
/// the address stands up to the first `]`, and a colon and the port follow.
/// An address with a zone behind `%` is not read.
pub open spec fn parsed_v6(s: Seq<char>) -> Option<SocketAddress> {
    if s.len() > 0 && s[0] == '[' {
        match first_from(s, 1, ']') {
            None => None,
            Some(j) => if j + 1 < s.len() && s[j + 1] == ':' {
                match (address(s.subrange(1, j)), port(s.subrange(j + 2, s.len() as int))) {
                    (Some(g), Some(p)) => Some(
                        SocketAddress {
                            ip: IpAddress::V6(g[0], g[1], g[2], g[3], g[4], g[5], g[6], g[7]),
                            port: p,
                        },
                    ),
                    _ => None,
                }
            } else {
                None
            },
        }
    } else {
        None
    }
}

/// The address that a text with dots writes: the text is cut at its first
/// three dots and at the first colon behind them, the four pieces before the
/// colon are the groups and the piece behind it is the port.
pub open spec fn parsed_v4(s: Seq<char>) -> Option<SocketAddress> {
    match first_from(s, 0, '.') {
        None => None,
        Some(i1) => match first_from(s, i1 + 1, '.') {
            None => None,
            Some(i2) => match first_from(s, i2 + 1, '.') {
                None => None,
                Some(i3) => match first_from(s, i3 + 1, ':') {
                    None => None,
                    Some(i4) => match (
                        octet(s.subrange(0, i1)),
                        octet(s.subrange(i1 + 1, i2)),
                        octet(s.subrange(i2 + 1, i3)),
                        octet(s.subrange(i3 + 1, i4)),
                        port(s.subrange(i4 + 1, s.len() as int)),
                    ) {
                        (Some(a), Some(b), Some(c), Some(d), Some(p)) => Some(
                            SocketAddress { ip: IpAddress::V4(a, b, c, d), port: p },
                        ),
                        _ => None,
                    },
                },
            },
        },
    }
}

/// The number written by the first digits of a text is at most the number
/// written by the whole.
proof fn decimal_grows(s: Seq<char>, k: int)
    requires
        0 <= k <= s.len(),
    ensures
        decimal(s.take(k)) <= decimal(s),
    decreases s.len(),
{
    if k == s.len() {
        assert(s.take(k) =~= s);
    } else {
        decimal_grows(s.drop_last(), k);
        assert(s.drop_last().take(k) =~= s.take(k));
    }
}

/// Finds the first place at or after `lo` that holds `sep`.
fn find(v: &Vec<char>, lo: usize, sep: char) -> (r: Option<usize>)
    requires
        lo <= v.len(),
    ensures
        match r {
            Some(i) => first_from(v@, lo as int, sep) == Some(i as int) && lo <= i < v.len(),
            None => first_from(v@, lo as int, sep) is None,
        },
{
    let mut i: usize = lo;
    while i < v.len()
        invariant
            lo <= i <= v.len(),
            forall|j: int| lo <= j < i ==> v@[j] != sep,
        decreases v.len() - i,
    {
        if v[i] == sep {
            proof {
                assert(is_first(v@, lo as int, sep, i as int));
                let w = choose|w: int| is_first(v@, lo as int, sep, w);
                assert(w == i as int);
            }
            return Some(i);
        }
        i += 1;
    }
    None
}

/// Reads the number written between two places.
fn read_number(v: &Vec<char>, lo: usize, hi: usize, max: u32) -> (r: Option<u32>)
    requires
        lo <= hi <= v.len(),
        max <= 65535,
    ensures
        match r {
            Some(n) => number(v@.subrange(lo as int, hi as int), max as nat) == Some(n as nat),
            None => number(v@.subrange(lo as int, hi as int), max as nat) is None,
        },
{
    if lo == hi {
        return None;
    }
    let ghost s = v@.subrange(lo as int, hi as int);
    let mut acc: u32 = 0;
    let mut k: usize = lo;
    while k < hi
        invariant
            lo <= k <= hi <= v.len(),
            max <= 65535,
            acc <= max,
            s == v@.subrange(lo as int, hi as int),
            all_digits(s.take(k - lo)),
            acc == decimal(s.take(k - lo)),
        decreases hi - k,
    {
        let c = v[k];
        assert(s[k - lo] == c);
        if c < '0' || c > '9' {
            return None;
        }
        let d: u32 = c as u32 - 48;
        acc = acc * 10 + d;
        proof {
            let next = s.take(k - lo + 1);
            assert(next.drop_last() =~= s.take(k - lo));
            assert(next.last() == c);
            assert(all_digits(next));
            assert(acc == decimal(next));
        }
        if acc > max {
            proof {
                decimal_grows(s, k - lo + 1);
            }
            return None;
        }
        k += 1;
    }
    assert(s.take(hi - lo) =~= s);
    Some(acc)
}

/// Reads the group written between two places.
pub(crate) fn read_octet(v: &Vec<char>, lo: usize, hi: usize) -> (r: Option<u8>)
    requires
        lo <= hi <= v.len(),
    ensures
        r == octet(v@.subrange(lo as int, hi as int)),
{
    if hi - lo > 3 || (hi - lo > 1 && v[lo] == '0') {
        return None;
    }
    match read_number(v, lo, hi, 255) {
        Some(n) => Some(n as u8),
        None => None,
    }
}

/// Reads the port written between two places.
fn read_port(v: &Vec<char>, lo: usize, hi: usize) -> (r: Option<u16>)
    requires
        lo <= hi <= v.len(),
    ensures
        r == port(v@.subrange(lo as int, hi as int)),
{
    match read_number(v, lo, hi, 65535) {
        Some(n) => Some(n as u16),
        None => None,
    }
}

/// Reads an address from its text form.
pub fn parse_socket(text: &str) -> (r: Option<SocketAddress>)
    ensures
        r == parsed(text@),
{
    let v = characters(text);
    match read_v4(&v) {
        Some(addr) => Some(addr),
        None => read_v6(&v),
    }
}

/// Reads an address from its text form with brackets.
fn read_v6(v: &Vec<char>) -> (r: Option<SocketAddress>)
    ensures
        r == parsed_v6(v@),
{
    let n = v.len();
    if n == 0 || v[0] != '[' {
        return None;
    }
    let j = match find(v, 1, ']') {
        Some(j) => j,
        None => { return None; },
    };
    if j + 1 >= n || v[j + 1] != ':' {
        return None;
    }
    let inner = slice_of(v, 1, j);
    let groups = read_address(&inner);
    let p = read_port(v, j + 2, n);
    match (groups, p) {
        (Some(g), Some(p)) => Some(
            SocketAddress::new(IpAddress::V6(g[0], g[1], g[2], g[3], g[4], g[5], g[6], g[7]), p),
        ),
        _ => None,
    }
}

/// Reads an address from its text form with dots.
fn read_v4(v: &Vec<char>) -> (r: Option<SocketAddress>)
    ensures
        r == parsed_v4(v@),
{
    let n = v.len();
    let i1 = match find(v, 0, '.') {
        Some(i) => i,
        None => { return None; },
    };
    let i2 = match find(v, i1 + 1, '.') {
        Some(i) => i,
        None => { return None; },
    };
    let i3 = match find(v, i2 + 1, '.') {
        Some(i) => i,
        None => { return None; },
    };
    let i4 = match find(v, i3 + 1, ':') {
        Some(i) => i,
        None => { return None; },
    };
    let a = read_octet(v, 0, i1);
    let b = read_octet(v, i1 + 1, i2);
    let c = read_octet(v, i2 + 1, i3);
    let d = read_octet(v, i3 + 1, i4);
    let p = read_port(v, i4 + 1, n);
    match (a, b, c, d, p) {
        (Some(a), Some(b), Some(c), Some(d), Some(p)) => Some(
            SocketAddress::new(IpAddress::V4(a, b, c, d), p),
        ),
        _ => None,
    }
}

/// The first place that holds a separator is the only one that is first.
proof fn first_is(s: Seq<char>, lo: int, sep: char, i: int)
    requires
        is_first(s, lo, sep, i),
    ensures
        first_from(s, lo, sep) == Some(i),
{
    let w = choose|w: int| is_first(s, lo, sep, w);
    assert(w == i);
}

/// The text that writes four groups and a port.
pub open spec fn written(a: Seq<char>, b: Seq<char>, c: Seq<char>, d: Seq<char>, p: Seq<char>) -> Seq<
    char,
> {
    a + seq!['.'] + b + seq!['.'] + c + seq!['.'] + d + seq![':'] + p
}

/// Four groups and a port, written out with their dots and their colon, are
/// read back as the address that they write.
pub proof fn written_address_is_read(
    a: Seq<char>,
    b: Seq<char>,
    c: Seq<char>,
    d: Seq<char>,
    p: Seq<char>,
)
    requires
        octet(a) is Some,
        octet(b) is Some,
        octet(c) is Some,
        octet(d) is Some,
        port(p) is Some,
    ensures
        parsed(written(a, b, c, d, p)) == Some(
            SocketAddress {
                ip: IpAddress::V4(octet(a)->0, octet(b)->0, octet(c)->0, octet(d)->0),
                port: port(p)->0,
            },
        ),
{
    let s = written(a, b, c, d, p);
    let i1 = a.len() as int;
    let i2 = i1 + 1 + b.len();
    let i3 = i2 + 1 + c.len();
    let i4 = i3 + 1 + d.len();
    assert forall|j: int| 0 <= j < i1 implies s[j] != '.' by {
        assert(s[j] == a[j]);
    }
    assert forall|j: int| i1 + 1 <= j < i2 implies s[j] != '.' by {
        assert(s[j] == b[j - i1 - 1]);
    }
    assert forall|j: int| i2 + 1 <= j < i3 implies s[j] != '.' by {
        assert(s[j] == c[j - i2 - 1]);
    }
    assert forall|j: int| i3 + 1 <= j < i4 implies s[j] != ':' by {
        assert(s[j] == d[j - i3 - 1]);
    }
    first_is(s, 0, '.', i1);
    first_is(s, i1 + 1, '.', i2);
    first_is(s, i2 + 1, '.', i3);
    first_is(s, i3 + 1, ':', i4);
    assert(s.subrange(0, i1) =~= a);
    assert(s.subrange(i1 + 1, i2) =~= b);
    assert(s.subrange(i2 + 1, i3) =~= c);
    assert(s.subrange(i3 + 1, i4) =~= d);
    assert(s.subrange(i4 + 1, s.len() as int) =~= p);
}

} // verus!
