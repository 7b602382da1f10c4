use vstd::prelude::*;

use crate::encoding::{encode, hex_to_binary_vector};

verus! {

/// What a caller hands in to record a hash: the hash itself and where the
/// image was seen (the scope, a sub-scope and a reference inside it).
pub struct SaveHashRequest {
    pub hash: String,
    pub guild_id: i64,
    pub channel_id: i64,
    pub message_id: i64,
}

impl SaveHashRequest {
    /// The bit vector of the request's hash.
    pub fn vector(&self) -> (r: Vec<u8>)
        ensures
            r@ == encode(self.hash@),
    {
        hex_to_binary_vector(self.hash.as_str())
    }
}

} // verus!
