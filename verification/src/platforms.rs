//! What identifies a device on the link: its address and its name.

use vstd::prelude::*;
use vstd::string::StringExecFns;
use crate::hex::{lower_hex_pair, push_lower_hex, push_upper_hex, upper_hex_pair};

verus! {

/// The address of a Bluetooth device, six bytes with the least significant
/// byte first.
#[derive(Clone, Copy, Debug)]
pub struct MacAddress([u8; 6]);

impl View for MacAddress {
    type V = Seq<u8>;

    closed spec fn view(&self) -> Seq<u8> {
        self.0@
    }
}

/// The address as a number: byte 0 is the least significant.
pub open spec fn address_value(bytes: Seq<u8>) -> int {
    bytes[0] as int + bytes[1] as int * 0x100 + bytes[2] as int * 0x1_0000 + bytes[3] as int
        * 0x100_0000 + bytes[4] as int * 0x1_0000_0000 + bytes[5] as int * 0x100_0000_0000
}

/// The address as it is shown: lower-case hexadecimal pairs, most
/// significant byte first, two colons between two pairs.
pub open spec fn address_display_text(bytes: Seq<u8>) -> Seq<char> {
    lower_hex_pair(bytes[5]) + seq![':', ':'] + lower_hex_pair(bytes[4]) + seq![':', ':']
        + lower_hex_pair(bytes[3]) + seq![':', ':'] + lower_hex_pair(bytes[2]) + seq![':', ':']
        + lower_hex_pair(bytes[1]) + seq![':', ':'] + lower_hex_pair(bytes[0])
}

/// The address as packets carry it: seventeen characters, upper-case
/// hexadecimal pairs, most significant byte first, one colon between two
/// pairs.
pub open spec fn address_wire_text(bytes: Seq<u8>) -> Seq<char> {
    upper_hex_pair(bytes[5]) + seq![':'] + upper_hex_pair(bytes[4]) + seq![':'] + upper_hex_pair(
        bytes[3],
    ) + seq![':'] + upper_hex_pair(bytes[2]) + seq![':'] + upper_hex_pair(bytes[1]) + seq![':']
        + upper_hex_pair(bytes[0])
}

impl MacAddress {
    /// The address with the given bytes.
    pub fn new(value: &[u8; 6]) -> (address: MacAddress)
        ensures
            address@ == value@,
    {
        MacAddress(*value)
    }

    /// Every address has six bytes.
    pub proof fn lemma_len(self)
        ensures
            self@.len() == 6,
    {
    }

    /// The bytes of the address, least significant first.
    pub fn octets(&self) -> (bytes: [u8; 6])
        ensures
            bytes@ == self@,
    {
        self.0
    }

    /// The address as a number.
    pub fn to_u64(&self) -> (value: u64)
        ensures
            value == address_value(self@),
    {
        (self.0[0] as u64) + (self.0[1] as u64) * 0x100 + (self.0[2] as u64) * 0x1_0000 + (
        self.0[3] as u64) * 0x100_0000 + (self.0[4] as u64) * 0x1_0000_0000 + (self.0[5] as u64)
            * 0x100_0000_0000
    }

    /// The address as it is shown to a user.
    pub fn to_text(&self) -> (text: String)
        ensures
            text@ == address_display_text(self@),
    {
        proof {
            reveal_strlit("::");
        }
        let mut text = String::new();
        push_lower_hex(&mut text, self.0[5]);
        text.append("::");
        push_lower_hex(&mut text, self.0[4]);
        text.append("::");
        push_lower_hex(&mut text, self.0[3]);
        text.append("::");
        push_lower_hex(&mut text, self.0[2]);
        text.append("::");
        push_lower_hex(&mut text, self.0[1]);
        text.append("::");
        push_lower_hex(&mut text, self.0[0]);
        assert("::"@ =~= seq![':', ':']);
        assert(text@ =~= address_display_text(self@));
        text
    }

    /// The address as packets carry it.
    pub fn to_wire_text(&self) -> (text: String)
        ensures
            text@ == address_wire_text(self@),
    {
        proof {
            reveal_strlit(":");
        }
        let mut text = String::new();
        push_upper_hex(&mut text, self.0[5]);
        text.append(":");
        push_upper_hex(&mut text, self.0[4]);
        text.append(":");
        push_upper_hex(&mut text, self.0[3]);
        text.append(":");
        push_upper_hex(&mut text, self.0[2]);
        text.append(":");
        push_upper_hex(&mut text, self.0[1]);
        text.append(":");
        push_upper_hex(&mut text, self.0[0]);
        assert(":"@ =~= seq![':']);
        assert(text@ =~= address_wire_text(self@));
        text
    }
}

/// A device that the adapter knows: its name and its address.
#[derive(Clone, Debug)]
pub struct BluetoothDeviceInfo {
    pub name: String,
    pub address: MacAddress,
}

impl BluetoothDeviceInfo {
    /// The device as it is shown: the name, then the address in square
    /// brackets.
    pub fn to_text(&self) -> (text: String)
        ensures
            text@ == self.name@ + seq![' ', '['] + address_display_text(self.address@) + seq![']'],
    {
        proof {
            reveal_strlit(" [");
            reveal_strlit("]");
        }
        let mut text = self.name.clone();
        text.append(" [");
        let address = self.address.to_text();
        text.append(address.as_str());
        text.append("]");
        assert(" ["@ =~= seq![' ', '[']);
        assert("]"@ =~= seq![']']);
        text
    }
}

} // verus!
