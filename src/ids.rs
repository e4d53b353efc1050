//! Fresh completion identifiers.

use vstd::prelude::*;

verus! {

/// Relies on `uuid::Uuid::new_v4` and the `Display` of `uuid::Uuid`: a random
/// version-4 UUID in its hyphenated form, 32 lower-case hex digits in groups
/// of 8-4-4-4-12, the version digit `4` opening the third group. The digits
/// are random, so nothing more is stated of them. `new_v4` panics only when
/// the operating system's random source fails.
#[verifier::external_body]
pub(crate) fn fresh_uuid() -> (r: String)
    ensures
        r@.len() == 36,
        r@[8] == '-',
        r@[13] == '-',
        r@[14] == '4',
        r@[18] == '-',
        r@[23] == '-',
{
    uuid::Uuid::new_v4().to_string()
}

} // verus!
