//! Random MAC addresses that carry a vendor's prefix.

use vstd::prelude::*;
use rand::rngs::ThreadRng;
use crate::random::{random_digit, VendorPicker};
use crate::text::push_char;
use crate::vendor::Vendor;

verus! {

/// Whether `c` is a decimal digit other than zero.
pub open spec fn is_nonzero_digit(c: char) -> bool {
    '1' <= c && c <= '9'
}

/// The character that writes the decimal digit `digit`.
pub open spec fn spec_digit_char(digit: u8) -> char {
    (('0' as u8) + digit) as char
}

/// The address of `vendor` whose three trailing octets are written with the
/// six `digits`, two to an octet.
pub open spec fn spec_mac_address(vendor: Vendor, digits: Seq<u8>) -> Seq<char> {
    vendor.spec_mac_address_prefix() + seq![
        ':',
        spec_digit_char(digits[0]),
        spec_digit_char(digits[1]),
        ':',
        spec_digit_char(digits[2]),
        spec_digit_char(digits[3]),
        ':',
        spec_digit_char(digits[4]),
        spec_digit_char(digits[5]),
    ]
}

/// Whether `text` is an address as this library generates them for `vendor`:
/// six colon-separated octets of two characters, of which the first three are
/// the vendor's prefix and the last three are written with digits from 1 to 9.
pub open spec fn is_generated_mac_address(vendor: Vendor, text: Seq<char>) -> bool {
    &&& text.len() == 17
    &&& text.subrange(0, 8) == vendor.spec_mac_address_prefix()
    &&& text[8] == ':'
    &&& text[11] == ':'
    &&& text[14] == ':'
    &&& is_nonzero_digit(text[9]) && is_nonzero_digit(text[10])
    &&& is_nonzero_digit(text[12]) && is_nonzero_digit(text[13])
    &&& is_nonzero_digit(text[15]) && is_nonzero_digit(text[16])
}

/// Six digits from 1 to 9.
pub open spec fn are_nonzero_digits(digits: Seq<u8>) -> bool {
    &&& digits.len() == 6
    &&& forall|i: int| 0 <= i < 6 ==> 1 <= #[trigger] digits[i] <= 9
}

/// An address written with six digits from 1 to 9 has the generated shape.
pub proof fn lemma_mac_address_is_generated(vendor: Vendor, digits: Seq<u8>)
    requires
        are_nonzero_digits(digits),
    ensures
        is_generated_mac_address(vendor, spec_mac_address(vendor, digits)),
{
    vendor.lemma_prefix_is_octet_triple();
    let text = spec_mac_address(vendor, digits);
    assert(text.subrange(0, 8) =~= vendor.spec_mac_address_prefix());
    assert(1 <= digits[0] <= 9 && 1 <= digits[1] <= 9 && 1 <= digits[2] <= 9);
    assert(1 <= digits[3] <= 9 && 1 <= digits[4] <= 9 && 1 <= digits[5] <= 9);
}

/// The character that writes `digit`.
pub fn digit_char(digit: u8) -> (c: char)
    requires
        1 <= digit <= 9,
    ensures
        c == spec_digit_char(digit),
        is_nonzero_digit(c),
{
    (('0' as u8) + digit) as char
}

/// Appends a colon and the octet written with the two digits.
fn push_octet(address: &mut String, first: u8, second: u8)
    requires
        1 <= first <= 9,
        1 <= second <= 9,
    ensures
        final(address)@ == old(address)@ + seq![
            ':',
            spec_digit_char(first),
            spec_digit_char(second),
        ],
{
    push_char(address, ':');
    push_char(address, digit_char(first));
    push_char(address, digit_char(second));
    assert(address@ =~= old(address)@ + seq![
        ':',
        spec_digit_char(first),
        spec_digit_char(second),
    ]);
}

/// The address of `vendor` whose trailing octets are written with `digits`.
pub fn mac_address_from_digits(vendor: Vendor, digits: [u8; 6]) -> (address: String)
    requires
        are_nonzero_digits(digits@),
    ensures
        address@ == spec_mac_address(vendor, digits@),
        is_generated_mac_address(vendor, address@),
{
    let mut address = vendor.mac_address_prefix().to_owned();
    push_octet(&mut address, digits[0], digits[1]);
    push_octet(&mut address, digits[2], digits[3]);
    push_octet(&mut address, digits[4], digits[5]);
    proof {
        assert(address@ =~= spec_mac_address(vendor, digits@));
        lemma_mac_address_is_generated(vendor, digits@);
    }
    address
}

/// A vendor drawn from the table and a fresh address of that vendor: its
/// prefix, then three octets of two random digits from 1 to 9 each.
pub fn new_random_mac_address<'r>(rng: &mut ThreadRng, picker: &mut VendorPicker<'r>) -> (generated:
    (Vendor, String))
    ensures
        is_generated_mac_address(generated.0, generated.1@),
        exists|digits: Seq<u8>| #[trigger]
            are_nonzero_digits(digits) && generated.1@ == spec_mac_address(generated.0, digits),
{
    let vendor = picker.pick();
    let mut digits: [u8; 6] = [1, 1, 1, 1, 1, 1];
    let mut i: usize = 0;
    while i < 6
        invariant
            i <= 6,
            forall|k: int| 0 <= k < 6 ==> 1 <= #[trigger] digits@[k] <= 9,
        decreases 6 - i,
    {
        let digit = random_digit(rng);
        digits[i] = digit;
        i += 1;
    }
    let address = mac_address_from_digits(vendor, digits);
    assert(are_nonzero_digits(digits@));
    (vendor, address)
}

} // verus!
