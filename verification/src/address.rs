//! Bluetooth device addresses and their colon-hexadecimal text.
use vstd::prelude::*;
use vstd::std_specs::cmp::PartialEqSpec;

verus! {

/// The address of a Bluetooth device, most significant octet first.
#[derive(Debug, Clone, Copy, Eq)]
pub struct Address(pub [u8; 6]);

impl PartialEq for Address {
    fn eq(&self, other: &Self) -> (same: bool) {
        let same = self.0[0] == other.0[0] && self.0[1] == other.0[1] && self.0[2] == other.0[2]
            && self.0[3] == other.0[3] && self.0[4] == other.0[4] && self.0[5] == other.0[5];
        assert(same ==> self.0@ =~= other.0@);
        assert(self.0@ == other.0@ ==> self.0 =~= other.0);
        same
    }
}

impl vstd::std_specs::cmp::PartialEqSpecImpl for Address {
    open spec fn obeys_eq_spec() -> bool {
        true
    }

    open spec fn eq_spec(&self, other: &Self) -> bool {
        *self == *other
    }
}

/// The upper-case hexadecimal digit of a value below sixteen.
pub open spec fn hex_digit(value: int) -> char {
    if value < 10 {
        ('0' as int + value) as char
    } else {
        ('A' as int + value - 10) as char
    }
}

/// The two hexadecimal digits of one octet.
pub open spec fn octet_text(octet: u8) -> Seq<char> {
    seq![hex_digit(octet as int / 16), hex_digit(octet as int % 16)]
}

/// The text of an address: its six octets, in order, joined by colons.
pub open spec fn address_text(octets: Seq<u8>) -> Seq<char> {
    octet_text(octets[0]) + seq![':'] + octet_text(octets[1]) + seq![':'] + octet_text(octets[2])
        + seq![':'] + octet_text(octets[3]) + seq![':'] + octet_text(octets[4]) + seq![':']
        + octet_text(octets[5])
}

/// Calls `bluer::Address::new` and formats the result with its `Display`, which writes the
/// six octets as two upper-case hexadecimal digits each, separated by colons. The contract
/// claims exactly that text.
#[verifier::external_body]
fn display_address(octets: &[u8; 6]) -> (text: String)
    ensures
        text@ == address_text(octets@),
{
    bluer::Address::new(*octets).to_string()
}

impl Address {
    /// The text by which this address is reported, such as `0A:1B:2C:3D:4E:5F`.
    pub open spec fn text(&self) -> Seq<char> {
        address_text(self.0@)
    }

    /// Returns the text of this address.
    pub fn to_text(&self) -> (text: String)
        ensures
            text@ == self.text(),
    {
        display_address(&self.0)
    }
}

/// An address has seventeen characters, and its third one is a colon.
pub proof fn address_text_shape(address: Address)
    ensures
        address.text().len() == 17,
        address.text()[2] == ':',
{
}

/// The text gives each octet by two digits: the one of its upper and the one of its lower half,
/// decimal digits below ten and upper-case letters from ten on. A colon stands after each
/// octet but the last.
pub proof fn address_text_spells_octets(address: Address, i: int)
    requires
        0 <= i < 6,
    ensures
        ({
            let text = address.text();
            let upper = address.0@[i] as int / 16;
            let lower = address.0@[i] as int % 16;
            &&& text.len() == 17
            &&& upper < 10 ==> text[3 * i] as int == 0x30 + upper
            &&& upper >= 10 ==> text[3 * i] as int == 0x41 + upper - 10
            &&& lower < 10 ==> text[3 * i + 1] as int == 0x30 + lower
            &&& lower >= 10 ==> text[3 * i + 1] as int == 0x41 + lower - 10
            &&& i < 5 ==> text[3 * i + 2] == ':'
        }),
{
    let text = address.text();
    assert(text[3 * i] == hex_digit(address.0@[i] as int / 16));
    assert(text[3 * i + 1] == hex_digit(address.0@[i] as int % 16));
}

/// Addresses are equal exactly if all six octets are.
pub proof fn addresses_are_equal_by_octets(a: Address, b: Address)
    ensures
        a.eq_spec(&b) <==> forall|i: int| 0 <= i < 6 ==> a.0@[i] == b.0@[i],
        a == b <==> forall|i: int| 0 <= i < 6 ==> a.0@[i] == b.0@[i],
{
    if forall|i: int| 0 <= i < 6 ==> a.0@[i] == b.0@[i] {
        assert(a.0@ =~= b.0@);
        assert(a.0 =~= b.0);
    }
}

/// No two addresses share a text.
pub proof fn address_text_is_injective(a: Address, b: Address)
    requires
        a.text() == b.text(),
    ensures
        a == b,
{
    let s = a.text();
    let t = b.text();
    assert forall|i: int| 0 <= i < 6 implies a.0@[i] == b.0@[i] by {
        assert(s[3 * i] == hex_digit(a.0@[i] as int / 16));
        assert(t[3 * i] == hex_digit(b.0@[i] as int / 16));
        assert(s[3 * i + 1] == hex_digit(a.0@[i] as int % 16));
        assert(t[3 * i + 1] == hex_digit(b.0@[i] as int % 16));
    }
    assert(a.0@ =~= b.0@);
    assert(a.0 =~= b.0);
}

} // verus!
