//! The textual forms of addresses: digits, separators, and the groups
//! between them.

use vstd::prelude::*;
use vstd::string::StrSliceExecFns;

verus! {

/// Calls `String::push`, which appends the character to the end of the
/// string.
#[verifier::external_body]
pub(crate) fn push_char(s: &mut String, c: char)
    ensures
        final(s)@ == old(s)@.push(c),
{
    s.push(c)
}

/// The value of a hexadecimal digit, of either case.
pub open spec fn spec_hex_value(c: char) -> Option<u8> {
    if c == '0' {
        Some(0u8)
    } else if c == '1' {
        Some(1u8)
    } else if c == '2' {
        Some(2u8)
    } else if c == '3' {
        Some(3u8)
    } else if c == '4' {
        Some(4u8)
    } else if c == '5' {
        Some(5u8)
    } else if c == '6' {
        Some(6u8)
    } else if c == '7' {
        Some(7u8)
    } else if c == '8' {
        Some(8u8)
    } else if c == '9' {
        Some(9u8)
    } else if c == 'a' || c == 'A' {
        Some(10u8)
    } else if c == 'b' || c == 'B' {
        Some(11u8)
    } else if c == 'c' || c == 'C' {
        Some(12u8)
    } else if c == 'd' || c == 'D' {
        Some(13u8)
    } else if c == 'e' || c == 'E' {
        Some(14u8)
    } else if c == 'f' || c == 'F' {
        Some(15u8)
    } else {
        None
    }
}

/// The value of a decimal digit.
pub open spec fn spec_decimal_value(c: char) -> Option<u8> {
    match spec_hex_value(c) {
        Some(v) => if v < 10 {
            Some(v)
        } else {
            None
        },
        None => None,
    }
}

/// The upper-case hexadecimal digit of a value below 16.
pub open spec fn spec_hex_digit(v: int) -> char {
    if v == 0 {
        '0'
    } else if v == 1 {
        '1'
    } else if v == 2 {
        '2'
    } else if v == 3 {
        '3'
    } else if v == 4 {
        '4'
    } else if v == 5 {
        '5'
    } else if v == 6 {
        '6'
    } else if v == 7 {
        '7'
    } else if v == 8 {
        '8'
    } else if v == 9 {
        '9'
    } else if v == 10 {
        'A'
    } else if v == 11 {
        'B'
    } else if v == 12 {
        'C'
    } else if v == 13 {
        'D'
    } else if v == 14 {
        'E'
    } else {
        'F'
    }
}

/// The two upper-case hexadecimal digits of an octet.
pub open spec fn spec_hex_pair(b: u8) -> Seq<char> {
    seq![spec_hex_digit(b as int / 16), spec_hex_digit(b as int % 16)]
}

/// The decimal digits of an octet, without leading zeros.
pub open spec fn spec_decimal(b: u8) -> Seq<char> {
    if b >= 100 {
        seq![
            spec_hex_digit(b as int / 100),
            spec_hex_digit((b as int / 10) % 10),
            spec_hex_digit(b as int % 10),
        ]
    } else if b >= 10 {
        seq![spec_hex_digit(b as int / 10), spec_hex_digit(b as int % 10)]
    } else {
        seq![spec_hex_digit(b as int)]
    }
}

/// The octet that a group of characters stands for: in hexadecimal exactly
/// two digits, in decimal one to three digits of a value up to 255.
pub open spec fn spec_group_value(g: Seq<char>, hex: bool) -> Option<u8> {
    if hex {
        if g.len() == 2 && spec_hex_value(g[0]) is Some && spec_hex_value(g[1]) is Some {
            Some((spec_hex_value(g[0]).unwrap() * 16 + spec_hex_value(g[1]).unwrap()) as u8)
        } else {
            None
        }
    } else {
        if 1 <= g.len() <= 3 && (forall|i: int|
            0 <= i < g.len() ==> spec_decimal_value(#[trigger] g[i]) is Some) && spec_decimal_sum(
            g,
        ) <= 255 {
            Some(spec_decimal_sum(g) as u8)
        } else {
            None
        }
    }
}

/// The number that up to three decimal digits stand for.
pub open spec fn spec_decimal_sum(g: Seq<char>) -> int {
    if g.len() == 1 {
        spec_decimal_value(g[0]).unwrap() as int
    } else if g.len() == 2 {
        spec_decimal_value(g[0]).unwrap() * 10 + spec_decimal_value(g[1]).unwrap()
    } else {
        spec_decimal_value(g[0]).unwrap() * 100 + spec_decimal_value(g[1]).unwrap() * 10
            + spec_decimal_value(g[2]).unwrap()
    }
}

/// The groups that the separator `sep` cuts `s` into. There is always one
/// group more than there are separators; a group may be empty.
pub open spec fn spec_split(s: Seq<char>, sep: char) -> Seq<Seq<char>>
    decreases s.len(),
{
    if s.len() == 0 {
        seq![Seq::<char>::empty()]
    } else {
        let before = spec_split(s.drop_last(), sep);
        if s.last() == sep {
            before.push(Seq::<char>::empty())
        } else {
            before.drop_last().push(before.last().push(s.last()))
        }
    }
}

/// The octets that the groups stand for, if each stands for one.
pub open spec fn spec_group_values(groups: Seq<Seq<char>>, hex: bool) -> Option<Seq<u8>> {
    if forall|i: int| 0 <= i < groups.len() ==> spec_group_value(#[trigger] groups[i], hex) is Some {
        Some(Seq::new(groups.len(), |i: int| spec_group_value(groups[i], hex).unwrap()))
    } else {
        None
    }
}

/// The views of the groups.
pub open spec fn group_views(groups: Seq<Vec<char>>) -> Seq<Seq<char>> {
    groups.map_values(|g: Vec<char>| g@)
}

/// The text holds no line feed, no carriage return and no escape character:
/// it is one line, and nothing in it starts a terminal's escape sequence.
pub open spec fn plain_line(s: Seq<char>) -> bool {
    forall|i: int| 0 <= i < s.len() ==> s[i] != '\n' && s[i] != '\r' && s[i] != '\u{1b}'
}

/// The decimal digits of a 16-bit number, without leading zeros.
pub open spec fn spec_decimal_u16(n: u16) -> Seq<char> {
    if n >= 10000 {
        seq![
            spec_hex_digit(n as int / 10000),
            spec_hex_digit((n as int / 1000) % 10),
            spec_hex_digit((n as int / 100) % 10),
            spec_hex_digit((n as int / 10) % 10),
            spec_hex_digit(n as int % 10),
        ]
    } else if n >= 1000 {
        seq![
            spec_hex_digit(n as int / 1000),
            spec_hex_digit((n as int / 100) % 10),
            spec_hex_digit((n as int / 10) % 10),
            spec_hex_digit(n as int % 10),
        ]
    } else if n >= 100 {
        seq![
            spec_hex_digit(n as int / 100),
            spec_hex_digit((n as int / 10) % 10),
            spec_hex_digit(n as int % 10),
        ]
    } else if n >= 10 {
        seq![spec_hex_digit(n as int / 10), spec_hex_digit(n as int % 10)]
    } else {
        seq![spec_hex_digit(n as int)]
    }
}

/// Appends the decimal digits of `n` to `out`.
pub fn push_decimal_u16(out: &mut String, n: u16)
    ensures
        final(out)@ == old(out)@ + spec_decimal_u16(n),
        plain_line(old(out)@) ==> plain_line(final(out)@),
{
    if n >= 10000 {
        push_char(out, hex_digit((n / 10000) as u8));
    }
    if n >= 1000 {
        push_char(out, hex_digit(((n / 1000) % 10) as u8));
    }
    if n >= 100 {
        push_char(out, hex_digit(((n / 100) % 10) as u8));
    }
    if n >= 10 {
        push_char(out, hex_digit(((n / 10) % 10) as u8));
    }
    push_char(out, hex_digit((n % 10) as u8));
    assert(out@ =~= old(out)@ + spec_decimal_u16(n));
}

/// The decimal digits of a number, without leading zeros.
pub open spec fn spec_number(n: nat) -> Seq<char>
    decreases n,
{
    if n < 10 {
        seq![spec_hex_digit(n as int)]
    } else {
        spec_number(n / 10).push(spec_hex_digit((n % 10) as int))
    }
}

/// Appends the decimal digits of `n` to `out`.
pub fn push_number(out: &mut String, n: u64)
    ensures
        final(out)@ == old(out)@ + spec_number(n as nat),
    decreases n,
{
    if n >= 10 {
        push_number(out, n / 10);
    }
    push_char(out, hex_digit((n % 10) as u8));
    assert(out@ =~= old(out)@ + spec_number(n as nat));
}

/// The value of a hexadecimal digit.
pub fn hex_value(c: char) -> (v: Option<u8>)
    ensures
        v == spec_hex_value(c),
        v is Some ==> v.unwrap() < 16,
{
    if c == '0' {
        Some(0)
    } else if c == '1' {
        Some(1)
    } else if c == '2' {
        Some(2)
    } else if c == '3' {
        Some(3)
    } else if c == '4' {
        Some(4)
    } else if c == '5' {
        Some(5)
    } else if c == '6' {
        Some(6)
    } else if c == '7' {
        Some(7)
    } else if c == '8' {
        Some(8)
    } else if c == '9' {
        Some(9)
    } else if c == 'a' || c == 'A' {
        Some(10)
    } else if c == 'b' || c == 'B' {
        Some(11)
    } else if c == 'c' || c == 'C' {
        Some(12)
    } else if c == 'd' || c == 'D' {
        Some(13)
    } else if c == 'e' || c == 'E' {
        Some(14)
    } else if c == 'f' || c == 'F' {
        Some(15)
    } else {
        None
    }
}

/// The value of a decimal digit.
pub fn decimal_value(c: char) -> (v: Option<u8>)
    ensures
        v == spec_decimal_value(c),
        v is Some ==> v.unwrap() < 10,
{
    match hex_value(c) {
        Some(v) => if v < 10 {
            Some(v)
        } else {
            None
        },
        None => None,
    }
}

/// The upper-case hexadecimal digit of a value below 16.
pub fn hex_digit(v: u8) -> (c: char)
    requires
        v < 16,
    ensures
        c == spec_hex_digit(v as int),
        c != '\n',
        c != '\r',
        c != '\u{1b}',
{
    if v == 0 {
        '0'
    } else if v == 1 {
        '1'
    } else if v == 2 {
        '2'
    } else if v == 3 {
        '3'
    } else if v == 4 {
        '4'
    } else if v == 5 {
        '5'
    } else if v == 6 {
        '6'
    } else if v == 7 {
        '7'
    } else if v == 8 {
        '8'
    } else if v == 9 {
        '9'
    } else if v == 10 {
        'A'
    } else if v == 11 {
        'B'
    } else if v == 12 {
        'C'
    } else if v == 13 {
        'D'
    } else if v == 14 {
        'E'
    } else {
        'F'
    }
}

/// Appends the two hexadecimal digits of `b` to `out`.
pub fn push_hex_pair(out: &mut String, b: u8)
    ensures
        final(out)@ == old(out)@ + spec_hex_pair(b),
        plain_line(old(out)@) ==> plain_line(final(out)@),
{
    push_char(out, hex_digit(b / 16));
    push_char(out, hex_digit(b % 16));
    assert(out@ =~= old(out)@ + spec_hex_pair(b));
}

/// Appends the decimal digits of `b` to `out`.
pub fn push_decimal(out: &mut String, b: u8)
    ensures
        final(out)@ == old(out)@ + spec_decimal(b),
        plain_line(old(out)@) ==> plain_line(final(out)@),
{
    if b >= 100 {
        push_char(out, hex_digit(b / 100));
    }
    if b >= 10 {
        push_char(out, hex_digit((b / 10) % 10));
    }
    push_char(out, hex_digit(b % 10));
    assert(out@ =~= old(out)@ + spec_decimal(b));
}

/// Appends the characters of `text` to `out`.
pub fn push_str(out: &mut String, text: &str)
    ensures
        final(out)@ == old(out)@ + text@,
{
    let n = text.unicode_len();
    let mut i: usize = 0;
    while i < n
        invariant
            i <= n,
            n == text@.len(),
            out@ == old(out)@ + text@.subrange(0, i as int),
        decreases n - i,
    {
        push_char(out, text.get_char(i));
        i += 1;
        assert(out@ =~= old(out)@ + text@.subrange(0, i as int));
    }
    assert(text@.subrange(0, i as int) =~= text@);
}

/// Cuts `s` into the groups between the separators `sep`.
pub fn split(s: &str, sep: char) -> (groups: Vec<Vec<char>>)
    ensures
        group_views(groups@) == spec_split(s@, sep),
{
    let n = s.unicode_len();
    let mut groups: Vec<Vec<char>> = Vec::new();
    let mut current: Vec<char> = Vec::new();
    let mut i: usize = 0;
    while i < n
        invariant
            i <= n,
            n == s@.len(),
            group_views(groups@).push(current@) == spec_split(s@.subrange(0, i as int), sep),
        decreases n - i,
    {
        let c = s.get_char(i);
        let ghost head = s@.subrange(0, i + 1);
        proof {
            assert(head.drop_last() =~= s@.subrange(0, i as int));
            assert(head.last() == c);
        }
        if c == sep {
            let ghost before = group_views(groups@);
            groups.push(current);
            current = Vec::new();
            proof {
                assert(group_views(groups@) =~= before.push(groups@.last()@));
                assert(group_views(groups@).push(current@) =~= spec_split(head, sep));
            }
        } else {
            let ghost before = current@;
            current.push(c);
            proof {
                let longer = group_views(groups@).push(before);
                assert(longer.drop_last() =~= group_views(groups@));
                assert(group_views(groups@).push(current@) =~= spec_split(head, sep));
            }
        }
        i += 1;
    }
    proof {
        assert(s@.subrange(0, i as int) =~= s@);
    }
    let ghost before = group_views(groups@);
    groups.push(current);
    assert(group_views(groups@) =~= before.push(groups@.last()@));
    groups
}

/// The octet that the group `g` stands for.
pub fn group_value(g: &Vec<char>, hex: bool) -> (v: Option<u8>)
    ensures
        v == spec_group_value(g@, hex),
{
    if hex {
        if g.len() != 2 {
            return None;
        }
        match (hex_value(g[0]), hex_value(g[1])) {
            (Some(high), Some(low)) => Some(high * 16 + low),
            _ => None,
        }
    } else {
        if g.len() < 1 || g.len() > 3 {
            return None;
        }
        let mut sum: u16 = 0;
        let mut i: usize = 0;
        while i < g.len()
            invariant
                !hex,
                i <= g@.len(),
                1 <= g@.len() <= 3,
                forall|j: int| 0 <= j < i ==> spec_decimal_value(#[trigger] g@[j]) is Some,
                sum <= 999,
                i == 0 ==> sum == 0,
                i == 1 ==> sum == spec_decimal_value(g@[0]).unwrap(),
                i == 2 ==> sum == spec_decimal_value(g@[0]).unwrap() * 10 + spec_decimal_value(
                    g@[1],
                ).unwrap(),
                i == 3 ==> sum == spec_decimal_value(g@[0]).unwrap() * 100 + spec_decimal_value(
                    g@[1],
                ).unwrap() * 10 + spec_decimal_value(g@[2]).unwrap(),
            decreases g@.len() - i,
        {
            match decimal_value(g[i]) {
                Some(d) => {
                    sum = sum * 10 + d as u16;
                },
                None => {
                    assert(spec_decimal_value(g@[i as int]) is None);
                    return None;
                },
            }
            i += 1;
        }
        if sum <= 255 {
            Some(sum as u8)
        } else {
            None
        }
    }
}

/// The octets that the groups stand for, if each stands for one.
pub fn group_values(groups: &Vec<Vec<char>>, hex: bool) -> (values: Option<Vec<u8>>)
    ensures
        match spec_group_values(group_views(groups@), hex) {
            Some(octets) => values is Some && values.unwrap()@ == octets,
            None => values is None,
        },
{
    let mut values: Vec<u8> = Vec::new();
    let mut i: usize = 0;
    let ghost views = group_views(groups@);
    while i < groups.len()
        invariant
            i <= groups@.len(),
            views == group_views(groups@),
            values@.len() == i,
            forall|j: int| 0 <= j < i ==> spec_group_value(#[trigger] views[j], hex) is Some,
            forall|j: int|
                0 <= j < i ==> values@[j] == spec_group_value(#[trigger] views[j], hex).unwrap(),
        decreases groups@.len() - i,
    {
        assert(views[i as int] == groups@[i as int]@);
        match group_value(&groups[i], hex) {
            Some(v) => {
                values.push(v);
            },
            None => {
                return None;
            },
        }
        i += 1;
    }
    assert(values@ =~= Seq::new(views.len(), |j: int| spec_group_value(views[j], hex).unwrap()));
    Some(values)
}

} // verus!
