//! Device addresses and their textual form `xx.xx.xx`.

use crate::error::Error;
use vstd::prelude::*;
use vstd::string::StringExecFns;

verus! {

/// An INSTEON device address: three bytes, commonly written as three hex
/// octets joined by `.`, as in `2b.a1.11`.
#[derive(Clone, Copy, Debug, Eq)]
pub struct Address(pub [u8; 3]);

/// The value of a hex digit of either case; `None` for any other character.
pub open spec fn hex_value(c: char) -> Option<u8> {
    if '0' <= c && c <= '9' {
        Some((c as u32 - '0' as u32) as u8)
    } else if 'a' <= c && c <= 'f' {
        Some((c as u32 - 'a' as u32 + 10) as u8)
    } else if 'A' <= c && c <= 'F' {
        Some((c as u32 - 'A' as u32 + 10) as u8)
    } else {
        None
    }
}

/// The lower-case hex digit that stands for `n`, for `n` below 16.
pub open spec fn hex_digit(n: u8) -> char {
    if n < 10 {
        ('0' as u32 + n as u32) as char
    } else {
        ('a' as u32 + (n - 10) as u32) as char
    }
}

/// The byte that two hex digits spell, where both are hex digits.
pub open spec fn octet_value(hi: char, lo: char) -> Option<u8> {
    match (hex_value(hi), hex_value(lo)) {
        (Some(h), Some(l)) => Some((h * 16 + l) as u8),
        _ => None,
    }
}

/// Whether `s` is three pairs of hex digits with a `.` between them, and
/// nothing else.
pub open spec fn is_address_text(s: Seq<char>) -> bool {
    &&& s.len() == 8
    &&& octet_value(s[0], s[1]) is Some
    &&& s[2] == '.'
    &&& octet_value(s[3], s[4]) is Some
    &&& s[5] == '.'
    &&& octet_value(s[6], s[7]) is Some
}

/// What parsing the text `s` gives.
pub open spec fn parse_address(s: Seq<char>) -> Result<Address, Error> {
    if is_address_text(s) {
        Ok(
            Address(
                [
                    octet_value(s[0], s[1])->0,
                    octet_value(s[3], s[4])->0,
                    octet_value(s[6], s[7])->0,
                ],
            ),
        )
    } else {
        Err(Error::InvalidAddress)
    }
}

/// The two lower-case hex digits of a byte.
pub open spec fn octet_text(b: u8) -> Seq<char> {
    seq![hex_digit(b / 16), hex_digit(b % 16)]
}

/// The canonical text of an address.
pub open spec fn format_address(a: Address) -> Seq<char> {
    octet_text(a.0[0]) + seq!['.'] + octet_text(a.0[1]) + seq!['.'] + octet_text(a.0[2])
}

fn hex_value_of(c: char) -> (r: Option<u8>)
    ensures
        r == hex_value(c),
{
    if '0' <= c && c <= '9' {
        Some((c as u32 - '0' as u32) as u8)
    } else if 'a' <= c && c <= 'f' {
        Some((c as u32 - 'a' as u32 + 10) as u8)
    } else if 'A' <= c && c <= 'F' {
        Some((c as u32 - 'A' as u32 + 10) as u8)
    } else {
        None
    }
}

fn octet_value_of(hi: char, lo: char) -> (r: Option<u8>)
    ensures
        r == octet_value(hi, lo),
{
    match (hex_value_of(hi), hex_value_of(lo)) {
        (Some(h), Some(l)) => Some(h * 16 + l),
        _ => None,
    }
}

/// The text of one hex digit.
pub(crate) fn hex_digit_text(n: u8) -> (r: &'static str)
    requires
        n < 16,
    ensures
        r@ == seq![hex_digit(n)],
{
    proof {
        reveal_strlit("0");
        reveal_strlit("1");
        reveal_strlit("2");
        reveal_strlit("3");
        reveal_strlit("4");
        reveal_strlit("5");
        reveal_strlit("6");
        reveal_strlit("7");
        reveal_strlit("8");
        reveal_strlit("9");
        reveal_strlit("a");
        reveal_strlit("b");
        reveal_strlit("c");
        reveal_strlit("d");
        reveal_strlit("e");
        reveal_strlit("f");
    }
    let r = match n {
        0 => "0",
        1 => "1",
        2 => "2",
        3 => "3",
        4 => "4",
        5 => "5",
        6 => "6",
        7 => "7",
        8 => "8",
        9 => "9",
        10 => "a",
        11 => "b",
        12 => "c",
        13 => "d",
        14 => "e",
        _ => "f",
    };
    assert(r@ =~= seq![hex_digit(n)]);
    r
}

fn push_octet(text: &mut String, b: u8)
    ensures
        final(text)@ == old(text)@ + octet_text(b),
{
    text.append(hex_digit_text(b / 16));
    text.append(hex_digit_text(b % 16));
    assert(text@ =~= old(text)@ + octet_text(b));
}

impl Address {
    /// The three bytes of the address.
    pub open spec fn bytes(self) -> Seq<u8> {
        self.0@
    }

    /// Parses the text `xx.xx.xx`, with hex digits of either case. Any other
    /// text is an invalid address.
    pub fn from_str(s: &str) -> (r: Result<Address, Error>)
        ensures
            r == parse_address(s@),
            r is Ok <==> is_address_text(s@),
            r is Err ==> r == Err::<Address, Error>(Error::InvalidAddress),
    {
        if s.unicode_len() != 8 {
            return Err(Error::InvalidAddress);
        }
        if s.get_char(2) != '.' || s.get_char(5) != '.' {
            return Err(Error::InvalidAddress);
        }
        let a = octet_value_of(s.get_char(0), s.get_char(1));
        let b = octet_value_of(s.get_char(3), s.get_char(4));
        let c = octet_value_of(s.get_char(6), s.get_char(7));
        match (a, b, c) {
            (Some(a), Some(b), Some(c)) => {
                let address = Address([a, b, c]);
                assert(address.0 =~= parse_address(s@)->Ok_0.0);
                Ok(address)
            },
            _ => Err(Error::InvalidAddress),
        }
    }

    /// Builds an address from a slice of exactly three bytes.
    pub fn from_slice(b: &[u8]) -> (r: Address)
        requires
            b@.len() == 3,
        ensures
            r.bytes() == b@,
    {
        let r = Address([b[0], b[1], b[2]]);
        assert(r.bytes() =~= b@);
        r
    }

    /// The canonical text of the address: lower-case hex octets joined by `.`.
    pub fn to_string(&self) -> (r: String)
        ensures
            r@ == format_address(*self),
    {
        let mut text = String::new();
        push_octet(&mut text, self.0[0]);
        text.append(".");
        push_octet(&mut text, self.0[1]);
        text.append(".");
        push_octet(&mut text, self.0[2]);
        proof {
            reveal_strlit(".");
            assert("."@ =~= seq!['.']);
            assert(text@ =~= format_address(*self));
        }
        text
    }
}

impl PartialEq for Address {
    fn eq(&self, other: &Address) -> (r: bool) {
        let r = self.0[0] == other.0[0] && self.0[1] == other.0[1] && self.0[2] == other.0[2];
        assert(r == (self.0 =~= other.0));
        r
    }
}

impl vstd::std_specs::cmp::PartialEqSpecImpl for Address {
    open spec fn obeys_eq_spec() -> bool {
        true
    }

    open spec fn eq_spec(&self, other: &Address) -> bool {
        *self == *other
    }
}

impl Default for Address {
    fn default() -> (r: Address)
        ensures
            r.bytes() == seq![0u8, 0u8, 0u8],
    {
        let r = Address([0, 0, 0]);
        assert(r.bytes() =~= seq![0u8, 0u8, 0u8]);
        r
    }
}

impl From<[u8; 3]> for Address {
    fn from(b: [u8; 3]) -> (r: Address) {
        Address(b)
    }
}

impl vstd::std_specs::convert::FromSpecImpl<[u8; 3]> for Address {
    open spec fn obeys_from_spec() -> bool {
        true
    }

    open spec fn from_spec(b: [u8; 3]) -> Address {
        Address(b)
    }
}

impl From<Address> for [u8; 3] {
    fn from(address: Address) -> (r: [u8; 3]) {
        address.0
    }
}

impl vstd::std_specs::convert::FromSpecImpl<Address> for [u8; 3] {
    open spec fn obeys_from_spec() -> bool {
        true
    }

    open spec fn from_spec(address: Address) -> [u8; 3] {
        address.0
    }
}

impl std::str::FromStr for Address {
    type Err = Error;

    /// Parses the text `xx.xx.xx`, as the method of the same name on
    /// `Address` does: `parse` on a string gives the same.
    fn from_str(s: &str) -> (r: Result<Address, Error>)
        ensures
            r == parse_address(s@),
            r is Ok <==> is_address_text(s@),
            r is Err ==> r == Err::<Address, Error>(Error::InvalidAddress),
    {
        Address::from_str(s)
    }
}

/// Formatting an address and parsing the text gives the address back.
pub proof fn lemma_format_then_parse(a: Address)
    ensures
        is_address_text(format_address(a)),
        parse_address(format_address(a)) == Ok::<Address, Error>(a),
{
    let s = format_address(a);
    lemma_octet_round_trip(a.0[0]);
    lemma_octet_round_trip(a.0[1]);
    lemma_octet_round_trip(a.0[2]);
    assert(s.len() == 8);
    assert(s[0] == octet_text(a.0[0])[0] && s[1] == octet_text(a.0[0])[1]);
    assert(s[3] == octet_text(a.0[1])[0] && s[4] == octet_text(a.0[1])[1]);
    assert(s[6] == octet_text(a.0[2])[0] && s[7] == octet_text(a.0[2])[1]);
    assert(s[2] == '.' && s[5] == '.');
    let parsed = parse_address(s)->Ok_0;
    assert(parsed.0 =~= a.0);
}

/// The two digits written for a byte spell that byte.
pub proof fn lemma_octet_round_trip(b: u8)
    ensures
        octet_value(octet_text(b)[0], octet_text(b)[1]) == Some(b),
{
    lemma_hex_digit_value((b / 16) as u8);
    lemma_hex_digit_value((b % 16) as u8);
}

/// A digit written for a value below 16 reads back as that value.
pub proof fn lemma_hex_digit_value(n: u8)
    requires
        n < 16,
    ensures
        hex_value(hex_digit(n)) == Some(n),
{
}

} // verus!
