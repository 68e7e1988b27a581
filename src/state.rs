//! The two record kinds of the registry and the bounds on their text fields.
use vstd::prelude::*;
use vstd::utf8::encode_utf8;

verus! {

/// Bytes that `metadata_uri` and `data_uri` may hold.
pub const URI_MAX_LEN: usize = 256;

/// Bytes that `region` and `program_tag` may hold.
pub const LABEL_MAX_LEN: usize = 64;

/// The number of bytes of a string in UTF-8.
pub open spec fn byte_len(s: Seq<char>) -> nat {
    encode_utf8(s).len()
}

/// The number of bytes of `s` in UTF-8.
pub fn text_len(s: &String) -> (r: usize)
    ensures
        r == byte_len(s@),
{
    let b: &[u8] = s.as_str().as_bytes();
    b.len()
}

/// An organization: one per admin identity.
pub struct Ngo {
    pub admin: [u8; 32],
    pub metadata_uri: String,
    pub is_active: bool,
    pub bump: u8,
    pub created_at: i64,
}

/// A batch of disbursement data committed by an organization.
pub struct Batch {
    pub ngo: [u8; 32],
    pub batch_index: u64,
    pub merkle_root: [u8; 32],
    pub data_uri: String,
    pub region: String,
    pub program_tag: String,
    pub start_time: i64,
    pub end_time: i64,
    pub is_flagged: bool,
    pub bump: u8,
}

impl Ngo {
    /// Bytes allocated for an organization record: a type header, then each
    /// field at its largest.
    pub const MAX_SIZE: usize = 8 + 32 + 4 + 256 + 1 + 1 + 8;
}

impl Batch {
    /// Bytes allocated for a batch record: a type header, then each field at
    /// its largest.
    pub const MAX_SIZE: usize = 8 + 32 + 8 + 32 + 4 + 256 + 4 + 64 + 4 + 64 + 8 + 8 + 1 + 1;
}

/// Whether the text of an organization record fits its allocation.
pub open spec fn ngo_fits(metadata_uri: Seq<char>) -> bool {
    byte_len(metadata_uri) <= URI_MAX_LEN
}

/// Whether the text of a batch record fits its allocation.
pub open spec fn batch_fits(data_uri: Seq<char>, region: Seq<char>, program_tag: Seq<char>) -> bool {
    &&& byte_len(data_uri) <= URI_MAX_LEN
    &&& byte_len(region) <= LABEL_MAX_LEN
    &&& byte_len(program_tag) <= LABEL_MAX_LEN
}

} // verus!
