//! Stored values: byte strings held as `bytes::Bytes`.

use bytes::Bytes;
use vstd::prelude::*;

verus! {

/// `bytes::Bytes`: an immutable, cheaply clonable run of bytes. The verifier
/// sees nothing inside a value of it; [`contents`] names what it holds.
#[verifier::external_type_specification]
#[verifier::external_body]
pub struct ExBytes(bytes::Bytes);

/// The bytes that a `Bytes` value holds, in order.
pub uninterp spec fn contents(value: Bytes) -> Seq<u8>;

/// `Bytes::clone`. Trusted: the clone refers to the same memory range as the
/// value cloned, so it holds the same bytes.
pub assume_specification[ <Bytes as Clone>::clone ](value: &Bytes) -> (copy: Bytes)
    ensures
        contents(copy) == contents(*value),
;

} // verus!
