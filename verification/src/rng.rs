use vstd::prelude::*;

verus! {

/// Sixteen bits from the thread-local generator of the `rand` crate, by
/// `rand::random::<u16>()`. The value is left open: any `u16` may come back,
/// and two calls need not agree.
#[verifier::external_body]
pub(crate) fn random_u16() -> (value: u16) {
    rand::random::<u16>()
}

/// Six bytes from the thread-local generator of the `rand` crate, by
/// `RngCore::fill_bytes` on `rand::thread_rng()`. The bytes are left open.
#[verifier::external_body]
pub(crate) fn random_octets() -> (octets: [u8; 6]) {
    let mut octets = [0u8; 6];
    rand::RngCore::fill_bytes(&mut rand::thread_rng(), &mut octets);
    octets
}

} // verus!
