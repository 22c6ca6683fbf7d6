//! The identity of this installation.
//!
//! The identity is a string that is found in three places, in this order:
//! the value held in memory, the identity document on disk, and a value made
//! on the spot from the hardware identifier or, failing that, from a random
//! number. A value made on the spot is written back as a document.

use vstd::prelude::*;
use vstd::string::StringExecFns;
use crate::account::opt_text;
use crate::json::{json_object_text, object_with_member, string_field, string_field_of};
use crate::text::{digits, join, lemma_digits_shape, u64_to_string};

verus! {

/// Name of the file that holds the identity document.
pub const DEVICE_ID_FILENAME: &'static str = "deviceId.json";

/// The name under which this device registers: its host name, or a
/// placeholder where the host name is not known.
pub fn device_name(hostname: Option<String>) -> (name: String)
    ensures
        name@ == match hostname {
            Some(known) => known@,
            None => "未知设备"@,
        },
{
    match hostname {
        Some(known) => known,
        None => String::from_str("未知设备"),
    }
}

/// The identity that an identity document holds, if the text is one.
pub open spec fn stored_device_id(text: Seq<char>) -> Option<Seq<char>> {
    string_field_of(text, "deviceId"@)
}

/// The identity document for an identity.
pub open spec fn device_id_document(device_id: Seq<char>) -> Seq<char> {
    json_object_text(seq![("deviceId"@, device_id)])
}

/// The identity made on the spot: the hardware identifier where there is
/// one, else `random-` and the random number in base ten.
pub open spec fn fresh_id(hardware: Option<Seq<char>>, random: u64) -> Seq<char> {
    match hardware {
        Some(id) => id,
        None => "random-"@ + digits(random as nat),
    }
}

/// The identity that a resolution arrives at. The value in memory wins over
/// the document, and the document over a value made on the spot.
pub open spec fn resolution(
    cached: Option<Seq<char>>,
    stored: Option<Seq<char>>,
    hardware: Option<Seq<char>>,
    random: u64,
) -> Seq<char> {
    match cached {
        Some(id) => id,
        None => match document_id(stored) {
            Some(id) => id,
            None => fresh_id(hardware, random),
        },
    }
}

/// The document to write after a resolution that arrived at `device_id`.
/// There is one only where the identity was made on the spot, that is where
/// neither the memory nor the document gave one, and only where the document
/// reads back as that identity.
pub open spec fn written_document(
    cached: Option<Seq<char>>,
    stored: Option<Seq<char>>,
    device_id: Seq<char>,
) -> Option<Seq<char>> {
    if cached.is_none() && document_id(stored).is_none() && stored_device_id(
        device_id_document(device_id),
    ) == Some(device_id) {
        Some(device_id_document(device_id))
    } else {
        None
    }
}

/// The identity found in the contents of the identity file, if the file was
/// there and holds one.
pub open spec fn document_id(stored: Option<Seq<char>>) -> Option<Seq<char>> {
    match stored {
        Some(text) => stored_device_id(text),
        None => None,
    }
}

/// `rand::rngs::OsRng` through `RngCore::try_fill_bytes`: eight bytes from
/// the operating system, read as a number, or nothing where the operating
/// system gives none. Nothing is claimed of the number.
#[verifier::external_body]
pub(crate) fn random_number() -> Option<u64> {
    let mut bytes = [0u8; 8];
    match rand::RngCore::try_fill_bytes(&mut rand::rngs::OsRng, &mut bytes) {
        Ok(()) => Some(u64::from_le_bytes(bytes)),
        Err(_) => None,
    }
}

/// Reads the identity out of an identity document.
pub fn device_id_in(text: &str) -> (found: Option<String>)
    ensures
        opt_text(found) == stored_device_id(text@),
{
    string_field(text, "deviceId")
}

/// Writes the identity document for an identity.
pub fn device_id_document_text(device_id: &str) -> (text: String)
    ensures
        text@ == device_id_document(device_id@),
{
    object_with_member("deviceId", device_id)
}

/// Makes an identity on the spot from the hardware identifier, or from the
/// given random number where there is none.
pub fn fresh_device_id(hardware: Option<String>, random: u64) -> (device_id: String)
    ensures
        device_id@ == fresh_id(opt_text(hardware), random),
{
    match hardware {
        Some(id) => id,
        None => join("random-", u64_to_string(random).as_str()),
    }
}

/// Two cold starts on the same identity document arrive at the same
/// identity, whatever the hardware reports and whatever numbers are drawn.
pub proof fn lemma_document_fixes_identity(
    text: Seq<char>,
    hardware_a: Option<Seq<char>>,
    random_a: u64,
    hardware_b: Option<Seq<char>>,
    random_b: u64,
)
    requires
        stored_device_id(text) is Some,
    ensures
        resolution(None, Some(text), hardware_a, random_a) == resolution(
            None,
            Some(text),
            hardware_b,
            random_b,
        ),
        resolution(None, Some(text), hardware_a, random_a) == stored_device_id(text)->Some_0,
{
}

/// What one resolution writes, the next one reads back: a cold start on the
/// document that a resolution wrote arrives at the identity of that
/// resolution, whatever the hardware reports and whatever number is drawn.
pub proof fn lemma_written_document_reads_back(
    cached: Option<Seq<char>>,
    stored: Option<Seq<char>>,
    device_id: Seq<char>,
    hardware: Option<Seq<char>>,
    random: u64,
)
    requires
        written_document(cached, stored, device_id).is_some(),
    ensures
        resolution(None, written_document(cached, stored, device_id), hardware, random)
            == device_id,
{
}

/// An identity is empty only where a source gave an empty one: where what
/// the memory, the document and the hardware hold is not empty, so far as
/// they hold anything, the identity resolved is not empty. One made from a
/// number never is.
pub proof fn lemma_identity_is_not_empty(
    cached: Option<Seq<char>>,
    stored: Option<Seq<char>>,
    hardware: Option<Seq<char>>,
    random: u64,
)
    requires
        cached matches Some(id) ==> id.len() > 0,
        document_id(stored) matches Some(id) ==> id.len() > 0,
        hardware matches Some(id) ==> id.len() > 0,
    ensures
        resolution(cached, stored, hardware, random).len() > 0,
        fresh_id(None, random).len() > 0,
{
    reveal_strlit("random-");
    lemma_digits_shape(random as nat);
}

/// Once an identity is held in memory, neither the document nor the
/// hardware can change what is resolved.
pub proof fn lemma_memory_fixes_identity(
    id: Seq<char>,
    stored: Option<Seq<char>>,
    hardware: Option<Seq<char>>,
    random: u64,
)
    ensures
        resolution(Some(id), stored, hardware, random) == id,
{
}

} // verus!
