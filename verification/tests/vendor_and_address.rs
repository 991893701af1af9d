use rand::thread_rng;
use rotate_mac_address::address::{digit_char, mac_address_from_digits, new_random_mac_address};
use rotate_mac_address::random::{random_digit, VendorPicker};
use rotate_mac_address::vendor::{vendors, Vendor, VENDORS};

fn is_nonzero_digit(c: char) -> bool {
    ('1'..='9').contains(&c)
}

#[test]
fn prefixes_are_the_vendors_own() {
    assert_eq!(Vendor::Intel.mac_address_prefix(), "00:1b:77");
    assert_eq!(Vendor::HewlettPackard.mac_address_prefix(), "00:1b:78");
    assert_eq!(Vendor::Foxconn.mac_address_prefix(), "00:01:6c");
    assert_eq!(Vendor::Cisco.mac_address_prefix(), "00:10:29");
    assert_eq!(Vendor::Amd.mac_address_prefix(), "00:0c:87");
}

#[test]
fn display_names_are_short_names() {
    assert_eq!(Vendor::Intel.display_name(), "Intel");
    assert_eq!(Vendor::HewlettPackard.display_name(), "HP");
    assert_eq!(Vendor::Foxconn.display_name(), "Foxconn");
    assert_eq!(Vendor::Cisco.display_name(), "Cisco");
    assert_eq!(Vendor::Amd.display_name(), "AMD");
}

#[test]
fn vendor_table_lists_all_five_in_order() {
    let expected = [
        Vendor::Intel,
        Vendor::HewlettPackard,
        Vendor::Foxconn,
        Vendor::Cisco,
        Vendor::Amd,
    ];
    assert_eq!(VENDORS, expected);
    assert_eq!(vendors(), expected);
}

#[test]
fn prefixes_have_three_hexadecimal_octets() {
    for vendor in vendors() {
        let prefix: Vec<char> = vendor.mac_address_prefix().chars().collect();
        assert_eq!(prefix.len(), 8);
        for (i, c) in prefix.iter().enumerate() {
            if i == 2 || i == 5 {
                assert_eq!(*c, ':');
            } else {
                assert!(c.is_ascii_hexdigit() && !c.is_ascii_uppercase());
            }
        }
    }
}

#[test]
fn digit_chars_are_the_decimal_digits() {
    let expected = ['1', '2', '3', '4', '5', '6', '7', '8', '9'];
    for digit in 1u8..=9 {
        assert_eq!(digit_char(digit), expected[usize::from(digit) - 1]);
    }
}

#[test]
fn address_from_digits_is_prefix_then_octets() {
    assert_eq!(
        mac_address_from_digits(Vendor::Intel, [1, 2, 3, 4, 5, 6]),
        "00:1b:77:12:34:56"
    );
    assert_eq!(
        mac_address_from_digits(Vendor::Amd, [9, 9, 1, 1, 5, 7]),
        "00:0c:87:99:11:57"
    );
    assert_eq!(
        mac_address_from_digits(Vendor::Foxconn, [7, 1, 8, 2, 9, 3]),
        "00:01:6c:71:82:93"
    );
}

#[test]
fn address_has_no_trailing_colon() {
    let address = mac_address_from_digits(Vendor::Cisco, [1, 1, 1, 1, 1, 1]);
    assert_eq!(address.len(), 17);
    assert!(!address.ends_with(':'));
    assert_eq!(address.split(':').count(), 6);
}

#[test]
fn random_digits_stay_between_one_and_nine() {
    let mut rng = thread_rng();
    let mut seen = [false; 10];
    for _ in 0..2000 {
        let digit = random_digit(&mut rng);
        assert!((1..=9).contains(&digit));
        seen[usize::from(digit)] = true;
    }
    assert!(!seen[0]);
    assert!(seen.iter().filter(|s| **s).count() > 1);
}

#[test]
fn picker_draws_from_the_table() {
    let mut rng = thread_rng();
    let mut picker = VendorPicker::new(&mut rng);
    let mut seen = [false; 5];
    for _ in 0..2000 {
        let vendor = picker.pick();
        let place = VENDORS.iter().position(|v| *v == vendor);
        assert!(place.is_some());
        seen[place.unwrap()] = true;
    }
    assert!(seen.iter().filter(|s| **s).count() > 1);
}

#[test]
fn generated_addresses_carry_the_vendor_prefix() {
    let mut rng = thread_rng();
    let mut picker_rng = thread_rng();
    let mut picker = VendorPicker::new(&mut picker_rng);
    for _ in 0..500 {
        let (vendor, address) = new_random_mac_address(&mut rng, &mut picker);
        let octets: Vec<&str> = address.split(':').collect();
        assert_eq!(octets.len(), 6);
        assert_eq!(octets[..3].join(":"), vendor.mac_address_prefix());
        for octet in &octets[3..] {
            assert_eq!(octet.chars().count(), 2);
            assert!(octet.chars().all(is_nonzero_digit));
        }
    }
}

#[test]
fn generated_addresses_vary() {
    let mut rng = thread_rng();
    let mut picker_rng = thread_rng();
    let mut picker = VendorPicker::new(&mut picker_rng);
    let (_, first) = new_random_mac_address(&mut rng, &mut picker);
    let mut differs = false;
    for _ in 0..200 {
        let (_, next) = new_random_mac_address(&mut rng, &mut picker);
        differs = differs || next != first;
    }
    assert!(differs);
}
