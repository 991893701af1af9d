//! The random draws that address generation rests on.

use vstd::prelude::*;
use rand::rngs::ThreadRng;
use rand::seq::SliceRandom;
use rand::Rng;
use crate::vendor::{lemma_vendor_table_is_complete, vendor_table, vendors, Vendor};

verus! {

/// The thread-local generator of `rand`; nothing is known of what it holds.
#[verifier::external_type_specification]
#[verifier::external_body]
pub struct ExThreadRng(ThreadRng);

/// `Rng::gen_range` of `rand` on the inclusive range from `low` to `high`.
/// It panics on an empty range, which `low <= high` rules out; all that is
/// claimed of the value is that it lies in the range.
#[verifier::external_body]
pub(crate) fn gen_range_inclusive(rng: &mut ThreadRng, low: u8, high: u8) -> (value: u8)
    requires
        low <= high,
    ensures
        low <= value <= high,
{
    rng.gen_range(low..=high)
}

/// `SliceRandom::choose` of `rand` on a slice of vendors: nothing for an
/// empty slice, otherwise one of the slice's elements. Which one is not
/// claimed.
#[verifier::external_body]
pub(crate) fn choose_vendor(rng: &mut ThreadRng, candidates: &[Vendor]) -> (chosen: Option<Vendor>)
    ensures
        candidates@.len() == 0 ==> chosen is None,
        candidates@.len() > 0 ==> chosen is Some && candidates@.contains(chosen->0),
{
    candidates.choose(rng).copied()
}

/// A decimal digit other than zero.
pub fn random_digit(rng: &mut ThreadRng) -> (digit: u8)
    ensures
        1 <= digit <= 9,
{
    gen_range_inclusive(rng, 1, 9)
}

/// Draws vendors from the vendor table.
pub struct VendorPicker<'r>(&'r mut ThreadRng);

impl<'r> VendorPicker<'r> {
    /// A picker that draws from `rng`.
    pub fn new(rng: &'r mut ThreadRng) -> (picker: Self)
        ensures
            *picker.generator() == *old(rng),
            *final(picker.generator()) == *final(rng),
    {
        VendorPicker(rng)
    }

    /// One vendor of the table. The table is never empty, so there is
    /// always one to give.
    pub fn pick(&mut self) -> (vendor: Vendor)
        ensures
            vendor_table().contains(vendor),
    {
        let table = vendors();
        proof {
            lemma_vendor_table_is_complete(Vendor::Intel);
        }
        let chosen = choose_vendor(self.0, table.as_slice());
        chosen.unwrap()
    }

    /// The generator that the picker draws from.
    pub closed spec fn generator(self) -> &'r mut ThreadRng {
        self.0
    }
}

} // verus!
