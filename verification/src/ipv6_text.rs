//! The text form of an IPv6 address: groups of up to four hexadecimal digits
//! separated by colons, where one run of zero groups may be left out as `::`
//! and the last two groups may be written as four decimal groups with dots.
//! A zone behind `%` is not part of this form.

use crate::socket_text::{is_digit, octet, read_octet};
use vstd::prelude::*;

verus! {

/// Whether a character is a hexadecimal digit.
pub open spec fn is_hex(c: char) -> bool {
    is_digit(c) || ('a' <= c && c <= 'f') || ('A' <= c && c <= 'F')
}

/// The value of a hexadecimal digit.
pub open spec fn hex_value(c: char) -> nat {
    if is_digit(c) {
        (c as int - '0' as int) as nat
    } else if 'a' <= c && c <= 'f' {
        (c as int - 'a' as int + 10) as nat
    } else if 'A' <= c && c <= 'F' {
        (c as int - 'A' as int + 10) as nat
    } else {
        0
    }
}

/// The number that the first `n` characters of a text of hexadecimal digits
/// write.
pub open spec fn hexadecimal(s: Seq<char>, n: nat) -> nat
    decreases n,
{
    if n == 0 {
        0
    } else {
        hexadecimal(s, (n - 1) as nat) * 16 + hex_value(s[n - 1])
    }
}

/// A group: one to four hexadecimal digits.
pub open spec fn group(s: Seq<char>) -> Option<u16> {
    if 1 <= s.len() <= 4 && (forall|i: int| 0 <= i < s.len() ==> is_hex(#[trigger] s[i])) {
        Some(hexadecimal(s, s.len()) as u16)
    } else {
        None
    }
}

/// The pieces that a separator cuts the first `n` characters of a text into.
/// There is always at least one piece; a separator at either end leaves an
/// empty piece there.
pub open spec fn pieces(s: Seq<char>, sep: char, n: nat) -> Seq<Seq<char>>
    decreases n,
{
    if n == 0 {
        seq![Seq::<char>::empty()]
    } else {
        let before = pieces(s, sep, (n - 1) as nat);
        if s[n - 1] == sep {
            before.push(Seq::<char>::empty())
        } else {
            before.drop_last().push(before.last().push(s[n - 1]))
        }
    }
}

/// Four decimal groups with dots: the four numbers they write.
pub open spec fn quad(s: Seq<char>) -> Option<(u8, u8, u8, u8)> {
    let ps = pieces(s, '.', s.len());
    if ps.len() == 4 {
        match (octet(ps[0]), octet(ps[1]), octet(ps[2]), octet(ps[3])) {
            (Some(a), Some(b), Some(c), Some(d)) => Some((a, b, c, d)),
            _ => None,
        }
    } else {
        None
    }
}

/// The two groups that four decimal groups stand for.
pub open spec fn quad_groups(q: (u8, u8, u8, u8)) -> Seq<u16> {
    seq![(q.0 as u16 * 256 + q.1 as u16) as u16, (q.2 as u16 * 256 + q.3 as u16) as u16]
}

/// The groups that the first `n` pieces write. Where `dotted` holds, the last
/// of all pieces may be four decimal groups with dots, which count as two
/// groups.
pub open spec fn groups_upto(ps: Seq<Seq<char>>, dotted: bool, n: nat) -> Option<Seq<u16>>
    decreases n,
{
    if n == 0 {
        Some(Seq::empty())
    } else {
        match groups_upto(ps, dotted, (n - 1) as nat) {
            None => None,
            Some(before) => match group(ps[n - 1]) {
                Some(g) => Some(before.push(g)),
                None => if dotted && n == ps.len() {
                    match quad(ps[n - 1]) {
                        Some(q) => Some(before + quad_groups(q)),
                        None => None,
                    }
                } else {
                    None
                },
            },
        }
    }
}

/// The groups that a run of groups with colons writes; an empty text writes
/// no group.
pub open spec fn groups(s: Seq<char>, dotted: bool) -> Option<Seq<u16>> {
    if s.len() == 0 {
        Some(Seq::empty())
    } else {
        let ps = pieces(s, ':', s.len());
        groups_upto(ps, dotted, ps.len())
    }
}

/// Whether two colons stand side by side at a place.
pub open spec fn gap_at(s: Seq<char>, i: int) -> bool {
    0 <= i < s.len() - 1 && s[i] == ':' && s[i + 1] == ':'
}

/// Whether `i` is the first place where two colons stand side by side.
pub open spec fn is_first_gap(s: Seq<char>, i: int) -> bool {
    &&& gap_at(s, i)
    &&& forall|j: int| 0 <= j < i ==> !#[trigger] gap_at(s, j)
}

/// The first place where two colons stand side by side, if there is one.
pub open spec fn first_gap(s: Seq<char>) -> Option<int> {
    if exists|i: int| is_first_gap(s, i) {
        Some(choose|i: int| is_first_gap(s, i))
    } else {
        None
    }
}

/// `n` zero groups.
pub open spec fn zeros(n: int) -> Seq<u16> {
    Seq::new(
        if n >= 0 {
            n as nat
        } else {
            0
        },
        |i: int| 0u16,
    )
}

/// The eight groups of an address. Without `::` the text writes all eight.
/// With it, the text before it and the text behind it write up to seven
/// together, and zero groups fill the gap; only the text behind it may end in
/// four decimal groups.
pub open spec fn address(s: Seq<char>) -> Option<Seq<u16>> {
    match first_gap(s) {
        None => match groups(s, true) {
            Some(all) => if all.len() == 8 {
                Some(all)
            } else {
                None
            },
            None => None,
        },
        Some(i) => match (groups(s.take(i), false), groups(s.skip(i + 2), true)) {
            (Some(head), Some(tail)) => if head.len() + tail.len() <= 7 {
                Some(head + zeros(8 - head.len() - tail.len()) + tail)
            } else {
                None
            },
            _ => None,
        },
    }
}

/// A piece of a text, as a text of its own.
pub(crate) fn slice_of(v: &Vec<char>, lo: usize, hi: usize) -> (r: Vec<char>)
    requires
        lo <= hi <= v.len(),
    ensures
        r@ == v@.subrange(lo as int, hi as int),
{
    let mut r: Vec<char> = Vec::new();
    let mut i: usize = lo;
    while i < hi
        invariant
            lo <= i <= hi <= v.len(),
            r@ == v@.subrange(lo as int, i as int),
        decreases hi - i,
    {
        r.push(v[i]);
        assert(v@.subrange(lo as int, i + 1) =~= v@.subrange(lo as int, i as int).push(v@[i as int]));
        i += 1;
    }
    r
}

/// What a list of texts stands for.
spec fn texts(ps: Seq<Vec<char>>) -> Seq<Seq<char>> {
    Seq::new(ps.len(), |k: int| ps[k]@)
}

/// Cuts a text at every separator.
fn split(v: &Vec<char>, sep: char) -> (r: Vec<Vec<char>>)
    ensures
        texts(r@) == pieces(v@, sep, v@.len()),
        r@.len() >= 1,
{
    let mut done: Vec<Vec<char>> = Vec::new();
    let mut current: Vec<char> = Vec::new();
    let mut i: usize = 0;
    while i < v.len()
        invariant
            i <= v.len(),
            texts(done@).push(current@) == pieces(v@, sep, i as nat),
        decreases v.len() - i,
    {
        let ghost before = pieces(v@, sep, i as nat);
        let ghost old_done = texts(done@);
        let ghost old_current = current@;
        let c = v[i];
        if c == sep {
            done.push(current);
            current = Vec::new();
            assert(texts(done@) =~= old_done.push(old_current));
        } else {
            current.push(c);
            assert(before.drop_last() =~= old_done);
            assert(before.last() == old_current);
        }
        i += 1;
    }
    let ghost old_done = texts(done@);
    let ghost last = current@;
    done.push(current);
    assert(texts(done@) =~= old_done.push(last));
    done
}

/// The value of a hexadecimal digit, if the character is one.
fn hex_digit_value(c: char) -> (r: Option<u32>)
    ensures
        match r {
            Some(d) => is_hex(c) && d == hex_value(c) && d < 16,
            None => !is_hex(c),
        },
{
    if c >= '0' && c <= '9' {
        Some(c as u32 - 48)
    } else if c >= 'a' && c <= 'f' {
        Some(c as u32 - 97 + 10)
    } else if c >= 'A' && c <= 'F' {
        Some(c as u32 - 65 + 10)
    } else {
        None
    }
}

/// Reads a group.
fn read_group(s: &Vec<char>) -> (r: Option<u16>)
    ensures
        r == group(s@),
{
    if s.len() < 1 || s.len() > 4 {
        return None;
    }
    let mut acc: u32 = 0;
    let mut k: usize = 0;
    while k < s.len()
        invariant
            k <= s.len() <= 4,
            forall|j: int| 0 <= j < k ==> is_hex(#[trigger] s@[j]),
            acc == hexadecimal(s@, k as nat),
            acc < pow16(k as nat),
        decreases s.len() - k,
    {
        match hex_digit_value(s[k]) {
            None => {
                return None;
            },
            Some(d) => {
                reveal_with_fuel(pow16, 5);
                acc = acc * 16 + d;
            },
        }
        k += 1;
    }
    proof {
        reveal_with_fuel(pow16, 5);
    }
    Some(acc as u16)
}

/// Sixteen to the power `n`.
spec fn pow16(n: nat) -> nat
    decreases n,
{
    if n == 0 {
        1
    } else {
        16 * pow16((n - 1) as nat)
    }
}

/// Reads four decimal groups with dots.
fn read_quad(s: &Vec<char>) -> (r: Option<(u8, u8, u8, u8)>)
    ensures
        r == quad(s@),
{
    let ps = split(s, '.');
    if ps.len() != 4 {
        return None;
    }
    assert(texts(ps@)[0] == ps@[0]@);
    assert(texts(ps@)[1] == ps@[1]@);
    assert(texts(ps@)[2] == ps@[2]@);
    assert(texts(ps@)[3] == ps@[3]@);
    let a = whole_octet(&ps[0]);
    let b = whole_octet(&ps[1]);
    let c = whole_octet(&ps[2]);
    let d = whole_octet(&ps[3]);
    match (a, b, c, d) {
        (Some(a), Some(b), Some(c), Some(d)) => Some((a, b, c, d)),
        _ => None,
    }
}

/// Reads a decimal group that is a text of its own.
fn whole_octet(s: &Vec<char>) -> (r: Option<u8>)
    ensures
        r == octet(s@),
{
    assert(s@.subrange(0, s@.len() as int) =~= s@);
    read_octet(s, 0, s.len())
}

/// Once no groups are written, none are written by more pieces either.
proof fn groups_stay_none(ps: Seq<Seq<char>>, dotted: bool, k: nat, n: nat)
    requires
        k <= n,
        groups_upto(ps, dotted, k) is None,
    ensures
        groups_upto(ps, dotted, n) is None,
    decreases n,
{
    if k < n {
        groups_stay_none(ps, dotted, k, (n - 1) as nat);
    }
}

/// Reads a run of groups with colons.
fn read_groups(s: &Vec<char>, dotted: bool) -> (r: Option<Vec<u16>>)
    ensures
        match r {
            Some(g) => groups(s@, dotted) == Some(g@),
            None => groups(s@, dotted) is None,
        },
{
    let mut acc: Vec<u16> = Vec::new();
    if s.len() == 0 {
        return Some(acc);
    }
    let ps = split(s, ':');
    let ghost model = texts(ps@);
    let mut k: usize = 0;
    while k < ps.len()
        invariant
            k <= ps.len(),
            s@.len() > 0,
            model == texts(ps@),
            model.len() == ps@.len(),
            model == pieces(s@, ':', s@.len()),
            groups_upto(model, dotted, k as nat) == Some(acc@),
        decreases ps.len() - k,
    {
        assert(model[k as int] == ps@[k as int]@);
        match read_group(&ps[k]) {
            Some(g) => {
                acc.push(g);
            },
            None => {
                if dotted && k + 1 == ps.len() {
                    match read_quad(&ps[k]) {
                        Some(q) => {
                            let ghost before = acc@;
                            acc.push((q.0 as u16) * 256 + (q.1 as u16));
                            acc.push((q.2 as u16) * 256 + (q.3 as u16));
                            assert(acc@ =~= before + quad_groups(q));
                        },
                        None => {
                            assert(groups_upto(model, dotted, (k + 1) as nat) is None);
                            return None;
                        },
                    }
                } else {
                    proof {
                        assert(groups_upto(model, dotted, (k + 1) as nat) is None);
                        groups_stay_none(model, dotted, (k + 1) as nat, model.len());
                    }
                    return None;
                }
            },
        }
        k += 1;
    }
    Some(acc)
}

/// Finds the first place where two colons stand side by side.
fn find_gap(v: &Vec<char>) -> (r: Option<usize>)
    ensures
        match r {
            Some(i) => first_gap(v@) == Some(i as int) && i + 2 <= v.len(),
            None => first_gap(v@) is None,
        },
{
    if v.len() < 2 {
        return None;
    }
    let mut i: usize = 0;
    while i < v.len() - 1
        invariant
            v.len() >= 2,
            i <= v.len() - 1,
            forall|j: int| 0 <= j < i ==> !#[trigger] gap_at(v@, j),
        decreases v.len() - i,
    {
        if v[i] == ':' && v[i + 1] == ':' {
            proof {
                assert(is_first_gap(v@, i as int));
                let w = choose|w: int| is_first_gap(v@, w);
                assert(w == i as int);
            }
            return Some(i);
        }
        i += 1;
    }
    None
}

/// Reads the eight groups of an address.
pub(crate) fn read_address(v: &Vec<char>) -> (r: Option<Vec<u16>>)
    ensures
        match r {
            Some(g) => address(v@) == Some(g@) && g@.len() == 8,
            None => address(v@) is None,
        },
{
    match find_gap(v) {
        None => match read_groups(v, true) {
            Some(all) => if all.len() == 8 {
                Some(all)
            } else {
                None
            },
            None => None,
        },
        Some(i) => {
            let front = slice_of(v, 0, i);
            let back = slice_of(v, i + 2, v.len());
            match (read_groups(&front, false), read_groups(&back, true)) {
                (Some(head), Some(tail)) => {
                    if head.len() > 7 || tail.len() > 7 - head.len() {
                        return None;
                    }
                    let mut all = head;
                    let fill = 8 - all.len() - tail.len();
                    let ghost h = all@;
                    let mut z: usize = 0;
                    while z < fill
                        invariant
                            z <= fill,
                            all@ == h + zeros(z as int),
                        decreases fill - z,
                    {
                        all.push(0u16);
                        assert(all@ =~= h + zeros(z as int + 1));
                        z += 1;
                    }
                    let mut t: usize = 0;
                    while t < tail.len()
                        invariant
                            t <= tail.len(),
                            all@ == h + zeros(fill as int) + tail@.take(t as int),
                        decreases tail.len() - t,
                    {
                        all.push(tail[t]);
                        assert(all@ =~= h + zeros(fill as int) + tail@.take(t as int + 1));
                        t += 1;
                    }
                    assert(tail@.take(tail@.len() as int) =~= tail@);
                    Some(all)
                },
                _ => None,
            }
        },
    }
}

} // verus!
