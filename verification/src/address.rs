//! IPv4 addresses as plain values.

use crate::text::{decimal, is_digit, lemma_decimal_short, push_decimal};
use vstd::prelude::*;

verus! {

/// An IPv4 address `a.b.c.d`.
#[derive(Clone, Copy, Debug, PartialEq, Eq, Hash, Structural)]
pub struct Ipv4 {
    pub a: u8,
    pub b: u8,
    pub c: u8,
    pub d: u8,
}

/// The 32-bit value of the address `a.b.c.d`: the first octet is the most
/// significant byte.
pub open spec fn bits_of(a: int, b: int, c: int, d: int) -> int {
    a * 16777216 + b * 65536 + c * 256 + d
}

impl View for Ipv4 {
    type V = u32;

    /// An address is identified by its 32-bit value.
    open spec fn view(&self) -> u32 {
        bits_of(self.a as int, self.b as int, self.c as int, self.d as int) as u32
    }
}

proof fn lemma_split(high: int, low: int, other_high: int, other_low: int, base: int)
    requires
        0 < base,
        0 <= low < base,
        0 <= other_low < base,
        high * base + low == other_high * base + other_low,
    ensures
        high == other_high,
        low == other_low,
{
    assert((high - other_high) * base == other_low - low) by (nonlinear_arith)
        requires
            high * base + low == other_high * base + other_low,
    ;
    assert(high - other_high == 0) by (nonlinear_arith)
        requires
            (high - other_high) * base == other_low - low,
            0 < base,
            -base < other_low - low < base,
    ;
}

/// Two addresses with the same 32-bit value have the same octets.
pub proof fn lemma_bits_identify(x: Ipv4, y: Ipv4)
    ensures
        x@ == y@ <==> x == y,
        x@ == bits_of(x.a as int, x.b as int, x.c as int, x.d as int),
{
    if x@ == y@ {
        lemma_split(
            x.a as int,
            x.b * 65536 + x.c * 256 + x.d,
            y.a as int,
            y.b * 65536 + y.c * 256 + y.d,
            16777216,
        );
        lemma_split(x.b as int, x.c * 256 + x.d, y.b as int, y.c * 256 + y.d, 65536);
        lemma_split(x.c as int, x.d as int, y.c as int, y.d as int, 256);
    }
}

impl Ipv4 {
    /// The address `a.b.c.d`.
    pub fn from_octets(a: u8, b: u8, c: u8, d: u8) -> (ip: Ipv4)
        ensures
            ip == (Ipv4 { a, b, c, d }),
    {
        Ipv4 { a, b, c, d }
    }

    /// The four octets, leftmost first.
    pub fn octets(&self) -> (o: [u8; 4])
        ensures
            o[0] == self.a,
            o[1] == self.b,
            o[2] == self.c,
            o[3] == self.d,
    {
        [self.a, self.b, self.c, self.d]
    }

    /// The 32-bit value of the address.
    pub fn to_bits(&self) -> (bits: u32)
        ensures
            bits == self@,
    {
        (self.a as u32) * 16777216 + (self.b as u32) * 65536 + (self.c as u32) * 256 + (
        self.d as u32)
    }

    /// The address whose 32-bit value is `bits`.
    pub fn from_bits(bits: u32) -> (ip: Ipv4)
        ensures
            ip@ == bits,
    {
        let a: u32 = bits / 16777216;
        let rest_a: u32 = bits % 16777216;
        let b: u32 = rest_a / 65536;
        let rest_b: u32 = rest_a % 65536;
        let c: u32 = rest_b / 256;
        let d: u32 = rest_b % 256;
        Ipv4 { a: a as u8, b: b as u8, c: c as u8, d: d as u8 }
    }
}

/// The dotted-quad text of an address: its four octets in decimal, without
/// leading zeros, with a full stop between each two.
pub open spec fn dotted(ip: Ipv4) -> Seq<char> {
    decimal(ip.a as nat) + seq!['.'] + decimal(ip.b as nat) + seq!['.'] + decimal(ip.c as nat)
        + seq!['.'] + decimal(ip.d as nat)
}

/// The address that `text` is the dotted-quad text of; `None` where it is
/// that of no address.
pub open spec fn address_of(text: Seq<char>) -> Option<Ipv4> {
    if exists|ip: Ipv4| text == dotted(ip) {
        Some(choose|ip: Ipv4| text == dotted(ip))
    } else {
        None
    }
}

/// The number of digits that `text` holds from `start` on without a break,
/// counted up to four.
spec fn run_length(text: Seq<char>, start: int) -> int {
    if !(start < text.len() && is_digit(text[start])) {
        0
    } else if !(start + 1 < text.len() && is_digit(text[start + 1])) {
        1
    } else if !(start + 2 < text.len() && is_digit(text[start + 2])) {
        2
    } else if !(start + 3 < text.len() && is_digit(text[start + 3])) {
        3
    } else {
        4
    }
}

/// The number written by the `length` digits of `text` from `start` on.
spec fn run_value(text: Seq<char>, start: int, length: int) -> int {
    if length == 1 {
        text[start] as int - 48
    } else if length == 2 {
        (text[start] as int - 48) * 10 + (text[start + 1] as int - 48)
    } else {
        (text[start] as int - 48) * 100 + (text[start + 1] as int - 48) * 10 + (text[start + 2] as int
            - 48)
    }
}

/// The octet whose numeral `text` holds from `start` on, with the position
/// behind it: the digits up to the first character that is none must be one
/// to three, not begin with a zero unless they are the one digit 0, and not
/// pass 255.
#[verifier::opaque]
spec fn octet_at(text: Seq<char>, start: int) -> Option<(int, int)> {
    let length = run_length(text, start);
    if 1 <= length <= 3 && (length == 1 || text[start] != '0') && run_value(text, start, length)
        <= 255 {
        Some((run_value(text, start, length), start + length))
    } else {
        None
    }
}

/// The address that `text` is the dotted-quad text of, read from the left.
spec fn parsed(text: Seq<char>) -> Option<Ipv4> {
    match octet_at(text, 0) {
        Some((a, end_a)) => if end_a < text.len() && text[end_a] == '.' {
            match octet_at(text, end_a + 1) {
                Some((b, end_b)) => if end_b < text.len() && text[end_b] == '.' {
                    match octet_at(text, end_b + 1) {
                        Some((c, end_c)) => if end_c < text.len() && text[end_c] == '.' {
                            match octet_at(text, end_c + 1) {
                                Some((d, end_d)) => if end_d == text.len() {
                                    Some(Ipv4 { a: a as u8, b: b as u8, c: c as u8, d: d as u8 })
                                } else {
                                    None
                                },
                                None => None,
                            }
                        } else {
                            None
                        },
                        None => None,
                    }
                } else {
                    None
                },
                None => None,
            }
        } else {
            None
        },
        None => None,
    }
}

proof fn lemma_octet_read(text: Seq<char>, start: int)
    requires
        0 <= start,
        octet_at(text, start) is Some,
    ensures
        ({
            let (value, end) = octet_at(text, start)->Some_0;
            &&& 0 <= value <= 255
            &&& start < end <= text.len()
            &&& text.subrange(start, end) == decimal(value as nat)
        }),
{
    reveal(octet_at);
    let (value, end) = octet_at(text, start)->Some_0;
    lemma_decimal_short(value as nat);
    assert(text.subrange(start, end) =~= decimal(value as nat));
}

proof fn lemma_octet_found(text: Seq<char>, start: int, n: nat)
    requires
        0 <= start,
        n <= 255,
        start + decimal(n).len() <= text.len(),
        text.subrange(start, start + decimal(n).len()) == decimal(n),
        start + decimal(n).len() == text.len() || !is_digit(text[start + decimal(n).len()]),
    ensures
        octet_at(text, start) == Some((n as int, start + decimal(n).len())),
{
    reveal(octet_at);
    lemma_decimal_short(n);
    let length = decimal(n).len() as int;
    let piece = text.subrange(start, start + length);
    assert(piece[0] == text[start]);
    if length >= 2 {
        assert(piece[1] == text[start + 1]);
    }
    if length >= 3 {
        assert(piece[2] == text[start + 2]);
    }
}

/// Every address has one dotted-quad text, of seven to fifteen characters,
/// and two addresses with the same text are the same: an address is read
/// back from its text as it was.
pub proof fn lemma_dotted_identifies(x: Ipv4, y: Ipv4)
    ensures
        7 <= dotted(x).len() <= 15,
        dotted(x) == dotted(y) <==> x == y,
        address_of(dotted(x)) == Some(x),
{
    lemma_dotted_parsed(x);
    lemma_dotted_parsed(y);
    let found = choose|ip: Ipv4| dotted(x) == dotted(ip);
    lemma_dotted_parsed(found);
}

proof fn lemma_dotted_parsed(ip: Ipv4)
    ensures
        parsed(dotted(ip)) == Some(ip),
        7 <= dotted(ip).len() <= 15,
{
    let text = dotted(ip);
    lemma_decimal_short(ip.a as nat);
    lemma_decimal_short(ip.b as nat);
    lemma_decimal_short(ip.c as nat);
    lemma_decimal_short(ip.d as nat);
    let la = decimal(ip.a as nat).len() as int;
    let lb = decimal(ip.b as nat).len() as int;
    let lc = decimal(ip.c as nat).len() as int;
    let ld = decimal(ip.d as nat).len() as int;
    let sb = la + 1;
    let sc = sb + lb + 1;
    let sd = sc + lc + 1;
    assert(text.len() == sd + ld);
    assert(text.subrange(0, la) =~= decimal(ip.a as nat));
    assert(text[la] == '.');
    assert(text.subrange(sb, sb + lb) =~= decimal(ip.b as nat));
    assert(text[sb + lb] == '.');
    assert(text.subrange(sc, sc + lc) =~= decimal(ip.c as nat));
    assert(text[sc + lc] == '.');
    assert(text.subrange(sd, sd + ld) =~= decimal(ip.d as nat));
    lemma_octet_found(text, 0, ip.a as nat);
    lemma_octet_found(text, sb, ip.b as nat);
    lemma_octet_found(text, sc, ip.c as nat);
    lemma_octet_found(text, sd, ip.d as nat);
}

proof fn lemma_parsed_dotted(text: Seq<char>)
    requires
        parsed(text) is Some,
    ensures
        text == dotted(parsed(text)->Some_0),
{
    let ip = parsed(text)->Some_0;
    lemma_octet_read(text, 0);
    let (a, end_a) = octet_at(text, 0)->Some_0;
    lemma_octet_read(text, end_a + 1);
    let (b, end_b) = octet_at(text, end_a + 1)->Some_0;
    lemma_octet_read(text, end_b + 1);
    let (c, end_c) = octet_at(text, end_b + 1)->Some_0;
    lemma_octet_read(text, end_c + 1);
    let (d, end_d) = octet_at(text, end_c + 1)->Some_0;
    lemma_stops_join(text, end_a, end_b, end_c);
}

proof fn lemma_stops_join(text: Seq<char>, first: int, second: int, third: int)
    requires
        0 <= first < second < third < text.len(),
        text[first] == '.',
        text[second] == '.',
        text[third] == '.',
    ensures
        text == text.subrange(0, first) + seq!['.'] + text.subrange(first + 1, second) + seq!['.']
            + text.subrange(second + 1, third) + seq!['.'] + text.subrange(
            third + 1,
            text.len() as int,
        ),
{
    assert(text =~= text.subrange(0, first) + seq!['.'] + text.subrange(first + 1, second)
        + seq!['.'] + text.subrange(second + 1, third) + seq!['.'] + text.subrange(
        third + 1,
        text.len() as int,
    ));
}

fn push_stop(text: &mut String)
    ensures
        final(text)@ == old(text)@ + seq!['.'],
{
    proof {
        reveal_strlit(".");
    }
    text.append(".");
    assert(text@ =~= old(text)@ + seq!['.']);
}

fn read_octet(text: &Vec<char>, start: usize) -> (read: Option<(u8, usize)>)
    requires
        start <= text.len(),
    ensures
        match read {
            Some((value, end)) => octet_at(text@, start as int) == Some((value as int, end as int)),
            None => octet_at(text@, start as int) is None,
        },
{
    let mut length: usize = 0;
    let mut value: u32 = 0;
    while length < 4 && start + length < text.len() && text[start + length] >= '0' && text[start
        + length] <= '9'
        invariant
            length <= 4,
            start + length <= text.len(),
            forall|i: int| start <= i < start + length ==> is_digit(#[trigger] text@[i]),
            length == 0 ==> value == 0,
            1 <= length <= 3 ==> value == run_value(text@, start as int, length as int),
            value <= 9999,
        decreases 4 - length,
    {
        let c = text[start + length];
        if length < 3 {
            value = value * 10 + (c as u32 - 48);
        }
        length += 1;
    }
    assert(length == run_length(text@, start as int));
    proof {
        reveal(octet_at);
    }
    if length >= 1 && length <= 3 && (length == 1 || text[start] != '0') && value <= 255 {
        Some((value as u8, start + length))
    } else {
        None
    }
}

fn chars_of(text: &str) -> (chars: Vec<char>)
    ensures
        chars@ == text@,
{
    let length = text.unicode_len();
    let mut chars: Vec<char> = Vec::new();
    let mut i: usize = 0;
    while i < length
        invariant
            i <= length,
            length == text@.len(),
            chars@ == text@.take(i as int),
        decreases length - i,
    {
        chars.push(text.get_char(i));
        i += 1;
        assert(chars@ =~= text@.take(i as int));
    }
    assert(text@.take(length as int) =~= text@);
    chars
}

fn is_stop_at(text: &Vec<char>, at: usize) -> (stop: bool)
    ensures
        stop == (at < text.len() && text@[at as int] == '.'),
{
    at < text.len() && text[at] == '.'
}

impl Ipv4 {
    /// The dotted-quad text of the address, as in `192.168.0.1`.
    pub fn to_text(&self) -> (text: String)
        ensures
            text@ == dotted(*self),
    {
        let mut text = String::new();
        push_decimal(&mut text, self.a as u64);
        push_stop(&mut text);
        push_decimal(&mut text, self.b as u64);
        push_stop(&mut text);
        push_decimal(&mut text, self.c as u64);
        push_stop(&mut text);
        push_decimal(&mut text, self.d as u64);
        assert(text@ =~= dotted(*self));
        text
    }

    /// The address that `text` is the dotted-quad text of; `None` where it
    /// is that of no address.
    pub fn parse(text: &str) -> (found: Option<Ipv4>)
        ensures
            found == address_of(text@),
            match found {
                Some(ip) => text@ == dotted(ip),
                None => forall|ip: Ipv4| text@ != dotted(ip),
            },
    {
        proof {
            assert forall|ip: Ipv4| text@ == dotted(ip) implies parsed(text@) == Some(ip) by {
                lemma_dotted_parsed(ip);
            }
            if exists|ip: Ipv4| text@ == dotted(ip) {
                lemma_dotted_parsed(choose|ip: Ipv4| text@ == dotted(ip));
            }
            if parsed(text@) is Some {
                lemma_parsed_dotted(text@);
            }
        }
        if text.unicode_len() > 15 {
            proof {
                assert forall|ip: Ipv4| text@ != dotted(ip) by {
                    lemma_dotted_parsed(ip);
                }
            }
            return None;
        }
        let chars = chars_of(text);
        let (a, end_a) = match read_octet(&chars, 0) {
            Some(read) => read,
            None => { return None; },
        };
        if !is_stop_at(&chars, end_a) {
            return None;
        }
        let (b, end_b) = match read_octet(&chars, end_a + 1) {
            Some(read) => read,
            None => { return None; },
        };
        if !is_stop_at(&chars, end_b) {
            return None;
        }
        let (c, end_c) = match read_octet(&chars, end_b + 1) {
            Some(read) => read,
            None => { return None; },
        };
        if !is_stop_at(&chars, end_c) {
            return None;
        }
        let (d, end_d) = match read_octet(&chars, end_c + 1) {
            Some(read) => read,
            None => { return None; },
        };
        if end_d != chars.len() {
            return None;
        }
        Some(Ipv4 { a, b, c, d })
    }
}

/// The address lies in one of the ranges kept for private networks:
/// `10.0.0.0/8`, `172.16.0.0/12` or `192.168.0.0/16`.
pub open spec fn private_ip(ip: Ipv4) -> bool {
    ip.a == 10 || (ip.a == 172 && 16 <= ip.b <= 31) || (ip.a == 192 && ip.b == 168)
}

/// The address lies in the loopback range `127.0.0.0/8`.
pub open spec fn loopback_ip(ip: Ipv4) -> bool {
    ip.a == 127
}

/// The address is `0.0.0.0`.
pub open spec fn unspecified_ip(ip: Ipv4) -> bool {
    ip.a == 0 && ip.b == 0 && ip.c == 0 && ip.d == 0
}

impl Ipv4 {
    /// Whether the address belongs to a private network.
    pub fn is_private(&self) -> (private: bool)
        ensures
            private == private_ip(*self),
    {
        self.a == 10 || (self.a == 172 && 16 <= self.b && self.b <= 31) || (self.a == 192
            && self.b == 168)
    }

    /// Whether the address is a loopback address.
    pub fn is_loopback(&self) -> (loopback: bool)
        ensures
            loopback == loopback_ip(*self),
    {
        self.a == 127
    }

    /// Whether the address is `0.0.0.0`.
    pub fn is_unspecified(&self) -> (unspecified: bool)
        ensures
            unspecified == unspecified_ip(*self),
    {
        self.a == 0 && self.b == 0 && self.c == 0 && self.d == 0
    }
}

} // verus!
