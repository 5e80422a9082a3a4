//! Where the store gets the current time and fresh record identifiers.
use vstd::prelude::*;
use vstd::string::*;
use crate::types::Timestamp;
use crate::text::{ascii_upper, is_ascii_char, uppercase, to_uppercase};

verus! {

/// Calls `chrono::Utc::now` and takes the instant apart into whole seconds
/// (`DateTime::timestamp`) and the nanoseconds past them
/// (`DateTime::timestamp_subsec_nanos`). The instant is read from the system
/// clock, so only what holds of every reading is claimed: it is not before
/// the Unix epoch (`Utc::now` panics otherwise) and, being built from a
/// `Duration`, carries fewer than a billion nanoseconds.
#[verifier::external_body]
pub(crate) fn current_time() -> (t: Timestamp)
    ensures
        t.secs >= 0,
        t.nanos < 1_000_000_000,
{
    let now = chrono::Utc::now();
    Timestamp { secs: now.timestamp(), nanos: now.timestamp_subsec_nanos() }
}

/// A lowercase hexadecimal digit.
pub open spec fn is_lower_hex_digit(c: char) -> bool {
    ('0' <= c && c <= '9') || ('a' <= c && c <= 'f')
}

/// The text of a UUID in its "simple" form: 32 lowercase hexadecimal digits.
pub open spec fn is_simple_uuid_text(s: Seq<char>) -> bool {
    &&& s.len() == 32
    &&& forall|i: int| 0 <= i < 32 ==> is_lower_hex_digit(#[trigger] s[i])
}

/// Calls `uuid::Uuid::new_v4` and formats the result with `Uuid::simple`
/// through `ToString`. The UUID is random, so only its shape is claimed:
/// the simple formatter writes 32 lowercase hexadecimal digits.
#[verifier::external_body]
pub(crate) fn random_uuid_simple() -> (s: String)
    ensures
        is_simple_uuid_text(s@),
{
    uuid::Uuid::new_v4().simple().to_string()
}

/// The short identifier made from a prefix and the text of a UUID: the
/// prefix, then the first eight characters of the UUID text in uppercase.
pub open spec fn short_id_of(prefix: Seq<char>, uuid_text: Seq<char>) -> Seq<char> {
    prefix + uppercase(uuid_text.subrange(0, 8))
}

/// `id` is a short identifier with the given prefix made from some random
/// UUID.
pub open spec fn is_generated_id(prefix: Seq<char>, id: Seq<char>) -> bool {
    exists|u: Seq<char>| is_simple_uuid_text(u) && id == #[trigger] short_id_of(prefix, u)
}

/// An uppercase hexadecimal digit.
pub open spec fn is_upper_hex_digit(c: char) -> bool {
    ('0' <= c && c <= '9') || ('A' <= c && c <= 'F')
}

/// `id` is the prefix followed by eight uppercase hexadecimal digits.
pub open spec fn has_id_shape(prefix: Seq<char>, id: Seq<char>) -> bool {
    &&& id.len() == prefix.len() + 8
    &&& id.subrange(0, prefix.len() as int) == prefix
    &&& forall|i: int| prefix.len() <= i < id.len() ==> is_upper_hex_digit(#[trigger] id[i])
}

/// Builds the short identifier of a record from a prefix such as `AR-` and the
/// simple text of a UUID.
pub fn short_id(prefix: &str, uuid_text: &str) -> (r: String)
    requires
        8 <= uuid_text@.len(),
    ensures
        r@ == short_id_of(prefix@, uuid_text@),
        (forall|i: int| 0 <= i < 8 ==> is_ascii_char(#[trigger] uuid_text@[i])) ==> r@ == prefix@
            + uuid_text@.subrange(0, 8).map_values(|c: char| ascii_upper(c)),
{
    let head = uuid_text.substring_char(0, 8);
    proof {
        assert(forall|i: int| 0 <= i < 8 ==> head@[i] == uuid_text@[i]);
    }
    let upper = to_uppercase(head);
    let mut r = String::from_str(prefix);
    r.append(upper.as_str());
    r
}

/// A fresh short identifier with the given prefix.
pub fn new_short_id(prefix: &str) -> (r: String)
    ensures
        is_generated_id(prefix@, r@),
        has_id_shape(prefix@, r@),
{
    let u = random_uuid_simple();
    proof {
        assert forall|i: int| 0 <= i < 8 implies is_ascii_char(#[trigger] u@[i]) by {
            assert(is_lower_hex_digit(u@[i]));
        }
    }
    let r = short_id(prefix, u.as_str());
    proof {
        assert(is_simple_uuid_text(u@) && r@ == short_id_of(prefix@, u@));
        let tail = u@.subrange(0, 8).map_values(|c: char| ascii_upper(c));
        assert(r@.subrange(0, prefix@.len() as int) =~= prefix@);
        assert forall|i: int| prefix@.len() <= i < r@.len() implies is_upper_hex_digit(#[trigger] r@[i]) by {
            let k = i - prefix@.len();
            assert(r@[i] == tail[k]);
            assert(is_lower_hex_digit(u@[k]));
        }
    }
    r
}

} // verus!
