//! Random identifiers from the `uuid` crate.
use vstd::prelude::*;

verus! {

/// A lowercase hexadecimal digit.
pub open spec fn is_lower_hex(c: char) -> bool {
    ('0' <= c && c <= '9') || ('a' <= c && c <= 'f')
}

/// The hyphenated 8-4-4-4-12 form of a UUID, lowercase.
pub open spec fn is_hyphenated_uuid(id: Seq<char>) -> bool {
    id.len() == 36 && forall|i: int|
        0 <= i < 36 ==> if i == 8 || i == 13 || i == 18 || i == 23 {
            #[trigger] id[i] == '-'
        } else {
            is_lower_hex(id[i])
        }
}

/// The simple form of a UUID: 32 lowercase hexadecimal digits.
pub open spec fn is_simple_uuid(id: Seq<char>) -> bool {
    id.len() == 32 && forall|i: int| 0 <= i < 32 ==> is_lower_hex(#[trigger] id[i])
}

/// `Uuid::new_v4().simple().to_string()`: a fresh random UUID as 32
/// lowercase hexadecimal digits. Nothing is said of which digits come.
#[verifier::external_body]
pub(crate) fn new_uuid_simple() -> (r: String)
    ensures
        is_simple_uuid(r@),
{
    uuid::Uuid::new_v4().simple().to_string()
}

/// `Uuid::new_v4().to_string()`: a fresh random UUID in the hyphenated
/// 8-4-4-4-12 form with lowercase digits. Nothing is said of which digits
/// come.
#[verifier::external_body]
pub(crate) fn new_uuid_hyphenated() -> (r: String)
    ensures
        is_hyphenated_uuid(r@),
{
    uuid::Uuid::new_v4().to_string()
}

} // verus!
