//! The identity of one gesture, by which the runtime tells a repeated request from
//! a new one.

use uuid::Uuid;
use vstd::prelude::*;

verus! {

/// A digit of a number to the base sixteen, in lower case.
pub open spec fn is_hex_digit(c: char) -> bool {
    '0' <= c <= '9' || 'a' <= c <= 'f'
}

/// Whether a text is a random UUID in its usual form: groups of 8, 4, 4, 4 and 12
/// hexadecimal digits with hyphens between them, with the digit of its version at
/// the head of the third group and that of its variant at the head of the fourth.
pub open spec fn is_operation_id(id: Seq<char>) -> bool {
    &&& id.len() == 36
    &&& forall|i: int|
        0 <= i < 36 ==> if i == 8 || i == 13 || i == 18 || i == 23 {
            (#[trigger] id[i]) == '-'
        } else {
            is_hex_digit(id[i])
        }
    &&& id[14] == '4'
    &&& id[19] == '8' || id[19] == '9' || id[19] == 'a' || id[19] == 'b'
}

/// Makes an identity with `Uuid::new_v4` and writes it with its `to_string`.
///
/// Believed of them: the form of the text. Which identity it is rests on the
/// machine's source of random numbers, and so does whether there is one: where
/// that source fails, `Uuid::new_v4` panics.
#[verifier::external_body]
pub(crate) fn new_operation_id() -> (id: String)
    ensures
        is_operation_id(id@),
{
    Uuid::new_v4().to_string()
}

} // verus!
