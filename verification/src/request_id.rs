//! Correlation identifiers: fresh random tokens, rendered as text.

use vstd::prelude::*;

verus! {

/// A digit or one of the letters `a` to `f`.
pub open spec fn is_lower_hex(c: char) -> bool {
    ('0' <= c && c <= '9') || ('a' <= c && c <= 'f')
}

/// The shape of a correlation identifier: 128 bits as 32 lowercase
/// hexadecimal digits, in groups of 8, 4, 4, 4 and 12 with a hyphen between
/// them.
pub open spec fn is_request_id(id: Seq<char>) -> bool {
    &&& id.len() == 36
    &&& forall|i: int|
        0 <= i < 36 ==> if i == 8 || i == 13 || i == 18 || i == 23 {
            id[i] == '-'
        } else {
            is_lower_hex(#[trigger] id[i])
        }
}

/// Mints an identifier with `uuid::Uuid::new_v4` and renders it with the
/// `Display` of `Uuid`. The bits are random, so the contract states only the
/// shape that every such rendering has; that two identifiers differ is not
/// claimed. The call fails hard if the operating system yields no random
/// bytes.
#[verifier::external_body]
pub(crate) fn mint_request_id() -> (id: String)
    ensures
        is_request_id(id@),
{
    uuid::Uuid::new_v4().to_string()
}

} // verus!
