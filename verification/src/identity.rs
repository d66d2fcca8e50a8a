//! The identifier under which a camera joins.

use vstd::prelude::*;
use vstd::string::StringExecFns;

verus! {

/// Characters of a UUID in its hyphenated form.
pub const UUID_TEXT_LEN: usize = 36;

/// What every camera identifier starts with.
pub open spec fn camera_prefix() -> Seq<char> {
    "camera-rust-"@
}

/// `Uuid::new_v4`, written out by `Display`: a random UUID in its
/// hyphenated form of 36 characters. Which UUID comes is left open. The call
/// fails only where the system has no source of random numbers.
#[verifier::external_body]
fn random_uuid_text() -> (unique: String)
    ensures
        unique@.len() == UUID_TEXT_LEN,
{
    uuid::Uuid::new_v4().to_string()
}

/// The camera identifier with this unique part.
pub fn camera_id_from(unique: &str) -> (id: String)
    ensures
        id@ == camera_prefix() + unique@,
{
    let mut id: String = String::from_str("camera-rust-");
    id.append(unique);
    id
}

/// Characters of the prefix.
pub const PREFIX_LEN: usize = 12;

/// The prefix has `PREFIX_LEN` characters.
pub proof fn lemma_prefix_len()
    ensures
        camera_prefix().len() == PREFIX_LEN,
{
    reveal_strlit("camera-rust-");
}

/// A fresh camera identifier: the prefix, then the 36 characters of a
/// random UUID.
pub fn generate_camera_id() -> (id: String)
    ensures
        id@.len() == PREFIX_LEN + UUID_TEXT_LEN,
        id@.subrange(0, PREFIX_LEN as int) == camera_prefix(),
{
    let unique = random_uuid_text();
    let id = camera_id_from(unique.as_str());
    proof {
        lemma_prefix_len();
    }
    assert(id@.subrange(0, PREFIX_LEN as int) =~= camera_prefix());
    id
}

} // verus!
