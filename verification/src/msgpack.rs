//! MessagePack values as bytes.
//!
//! A value of any shape is held as the bytes that are written of it.

use vstd::prelude::*;

verus! {

/// What is written of the value that `bytes` begin with; nothing where they
/// begin with none.
pub uninterp spec fn msgpack_value(bytes: Seq<u8>) -> Option<Seq<u8>>;

/// Reads a value with `rmp_serde::from_slice`, as an `rmpv::Value`, and writes it
/// with `rmpv::encode::write_value`, to memory, which cannot fail. Bytes behind
/// the value are not looked at. Which bytes hold a value, and how it is written,
/// is left to the name: whatever the form in which an integer came, for one, it
/// is written in the shortest.
#[verifier::external_body]
pub(crate) fn rewrite_value(bytes: &[u8]) -> (r: Option<Vec<u8>>)
    ensures
        match msgpack_value(bytes@) {
            Some(written) => r matches Some(v) && v@ == written,
            None => r is None,
        },
{
    let value: rmpv::Value = rmp_serde::from_slice(bytes).ok()?;
    let mut written = Vec::new();
    rmpv::encode::write_value(&mut written, &value).ok()?;
    Some(written)
}

} // verus!
