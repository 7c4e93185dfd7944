//! Bus device port address decoding.
use vstd::prelude::*;

verus! {

/// A helper trait for matching I/O port addresses.
pub trait PortAddress {
    /// Relevant address bits should be set to 1.
    spec fn spec_address_mask() -> u16;
    /// Bits from this constant will be matching only if `ADDRESS_MASK` constains 1 for bits in the same positions.
    spec fn spec_address_bits() -> u16;
    /// Whether `address` is matched by this port address.
    spec fn spec_match_port(address: u16) -> bool;
    /// Relevant address bits should be set to 1.
    fn address_mask() -> (r: u16)
        ensures r == Self::spec_address_mask();
    /// Bits from this constant will be matching only if `ADDRESS_MASK` constains 1 for bits in the same positions.
    fn address_bits() -> (r: u16)
        ensures r == Self::spec_address_bits();
    /// Returns `true` if a provided `address` masked with `ADDRESS_MASK` matches `ADDRESS_BITS`.
    fn match_port(address: u16) -> (r: bool)
        ensures r == Self::spec_match_port(address);
}

/// The default port matching rule: the masked address equals the masked address bits.
pub open spec fn spec_default_match_port(address: u16, mask: u16, bits: u16) -> bool {
    address & mask == bits & mask
}

} // verus!
