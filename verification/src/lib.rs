//! Generation of random secret keys and UUIDs, with verified encoding
//! contracts.
//!
//! The crate exposes three generators: `generate_key` fills a buffer of a
//! requested length from the operating system's entropy source, `encode_key`
//! renders a key as lowercase hexadecimal or standard Base64 text, and
//! `generate_uuid` builds a UUID of version 1, 3, 4 or 5.  The encodings are
//! specified exactly by spec functions and proved reversible; the UUID
//! contracts pin the version and variant bits of every result, and pin the
//! full value for the deterministic name-based versions.

mod codec;
mod keygen;
mod preset;
mod uuidgen;

pub use codec::{
    encode_key, lemma_base64_encode_len, lemma_base64_round_trip, lemma_hex_encode_len,
    lemma_hex_round_trip, spec_base64_decode, spec_base64_encode, spec_encoded, spec_hex_decode,
    spec_hex_encode, EncodingFormat,
};
pub use keygen::generate_key;
pub use preset::KeyPreset;
pub use uuidgen::{
    generate_uuid, lemma_distinct_version_fields, lemma_v3_deterministic, lemma_v5_deterministic,
    Uuid, UuidVersion,
};
