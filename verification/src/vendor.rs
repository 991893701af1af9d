//! The fixed table of hardware vendors and their address prefixes.

use vstd::prelude::*;

verus! {

/// A hardware vendor whose address prefix generated addresses may carry.
#[derive(Clone, Copy, Debug, PartialEq, Eq, Structural)]
pub enum Vendor {
    Intel,
    HewlettPackard,
    Foxconn,
    Cisco,
    Amd,
}

/// Every vendor, in the order in which the table lists them.
pub const VENDORS: [Vendor; 5] = [
    Vendor::Intel,
    Vendor::HewlettPackard,
    Vendor::Foxconn,
    Vendor::Cisco,
    Vendor::Amd,
];

/// The vendor table as a sequence.
pub open spec fn vendor_table() -> Seq<Vendor> {
    seq![Vendor::Intel, Vendor::HewlettPackard, Vendor::Foxconn, Vendor::Cisco, Vendor::Amd]
}

/// Whether `c` is a lower-case hexadecimal digit.
pub open spec fn is_hex_digit(c: char) -> bool {
    ('0' <= c && c <= '9') || ('a' <= c && c <= 'f')
}

/// Whether `text` is three two-digit hexadecimal octets separated by colons.
pub open spec fn is_octet_triple(text: Seq<char>) -> bool {
    &&& text.len() == 8
    &&& text[2] == ':'
    &&& text[5] == ':'
    &&& forall|i: int| 0 <= i < 8 && i != 2 && i != 5 ==> is_hex_digit(#[trigger] text[i])
}

impl Vendor {
    /// The three leading octets of every address of this vendor.
    pub open spec fn spec_mac_address_prefix(self) -> Seq<char> {
        match self {
            Vendor::Intel => "00:1b:77"@,
            Vendor::HewlettPackard => "00:1b:78"@,
            Vendor::Foxconn => "00:01:6c"@,
            Vendor::Cisco => "00:10:29"@,
            Vendor::Amd => "00:0c:87"@,
        }
    }

    /// The name under which the vendor is shown.
    pub open spec fn spec_display_name(self) -> Seq<char> {
        match self {
            Vendor::Intel => "Intel"@,
            Vendor::HewlettPackard => "HP"@,
            Vendor::Foxconn => "Foxconn"@,
            Vendor::Cisco => "Cisco"@,
            Vendor::Amd => "AMD"@,
        }
    }

    /// The three leading octets of every address of this vendor.
    pub fn mac_address_prefix(self) -> (prefix: &'static str)
        ensures
            prefix@ == self.spec_mac_address_prefix(),
            is_octet_triple(prefix@),
    {
        proof {
            self.lemma_prefix_is_octet_triple();
        }
        match self {
            Vendor::Intel => "00:1b:77",
            Vendor::HewlettPackard => "00:1b:78",
            Vendor::Foxconn => "00:01:6c",
            Vendor::Cisco => "00:10:29",
            Vendor::Amd => "00:0c:87",
        }
    }

    /// The name under which the vendor is shown.
    pub fn display_name(self) -> (name: &'static str)
        ensures
            name@ == self.spec_display_name(),
    {
        match self {
            Vendor::Intel => "Intel",
            Vendor::HewlettPackard => "HP",
            Vendor::Foxconn => "Foxconn",
            Vendor::Cisco => "Cisco",
            Vendor::Amd => "AMD",
        }
    }

    /// Every vendor's prefix is three hexadecimal octets separated by colons.
    pub proof fn lemma_prefix_is_octet_triple(self)
        ensures
            is_octet_triple(self.spec_mac_address_prefix()),
    {
        reveal_strlit("00:1b:77");
        reveal_strlit("00:1b:78");
        reveal_strlit("00:01:6c");
        reveal_strlit("00:10:29");
        reveal_strlit("00:0c:87");
    }
}

/// The vendor table is never empty and holds every vendor.
pub proof fn lemma_vendor_table_is_complete(vendor: Vendor)
    ensures
        vendor_table().len() == 5,
        vendor_table().contains(vendor),
{
    let table = vendor_table();
    match vendor {
        Vendor::Intel => assert(table[0] == vendor),
        Vendor::HewlettPackard => assert(table[1] == vendor),
        Vendor::Foxconn => assert(table[2] == vendor),
        Vendor::Cisco => assert(table[3] == vendor),
        Vendor::Amd => assert(table[4] == vendor),
    }
}

/// The vendor table, for code that walks or samples it.
pub fn vendors() -> (table: [Vendor; 5])
    ensures
        table@ == vendor_table(),
{
    let table = VENDORS;
    assert(table@ =~= vendor_table());
    table
}

} // verus!
