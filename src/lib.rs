//! Approximate duplicate detection for perceptual image hashes.
//!
//! The library turns hexadecimal hashes into bit vectors, measures how far
//! apart two vectors are, keeps the neighbours that fall under the similarity
//! threshold, and decides, step by step, what each of the three operations
//! (lookup, check-and-record, unconditional save) does with the answers of
//! the record store.
mod distance;
mod encoding;
mod matching;
mod request;
mod workflow;

pub use distance::{l1_distance, lemma_distance_symmetric, vector_distance};
pub use encoding::{encode, hex_to_binary_vector, lemma_encoding_shape, nibble_bits, nibble_of};
pub use matching::{
    is_match, is_similar, lemma_no_neighbours_no_matches, lemma_threshold_boundary, matches_of,
    matching_identities, Neighbour, SEARCH_BREADTH, SEARCH_NEIGHBOURS, SIMILARITY_THRESHOLD,
};
pub use request::SaveHashRequest;
pub use workflow::{
    after_existing, after_indexed, after_insert, find_row, identity_of, lemma_insert_only_when_unseen,
    lemma_save_idempotent, save_run, save_step, CheckAndRecord, Lookup, Outcome, SaveHash, Stage,
    Step, StoredRow,
};
