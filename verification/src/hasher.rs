use std::hash::Hasher;
use vstd::prelude::*;

verus! {

/// Calls `Hasher::write` of the standard library: feeds `bytes` to the
/// hasher. Nothing is claimed of the hasher after the call.
#[verifier::external_body]
pub(crate) fn feed<H: Hasher>(state: &mut H, bytes: &[u8]) {
    state.write(bytes)
}

/// Calls `Hasher::finish` of the standard library: the digest of what the
/// hasher was fed. Nothing is claimed of the digest: it depends on the
/// hasher.
#[verifier::external_body]
pub(crate) fn digest_of<H: Hasher>(state: &H) -> (digest: u64) {
    state.finish()
}

} // verus!
