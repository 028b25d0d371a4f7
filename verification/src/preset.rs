//! Named presets for common key sizes.

use vstd::prelude::*;

verus! {

/// A named preset standing for a common key use, fixing the key's byte
/// length and the label shown beside the generated key.
pub enum KeyPreset {
    Aes128,
    Aes192,
    Aes256,
    HmacSha256,
    HmacSha512,
    Jwt256,
    Jwt512,
    ApiKey128,
    ApiKey256,
}

impl KeyPreset {
    /// The key length in bytes that the preset stands for.
    pub open spec fn spec_key_length(self) -> usize {
        match self {
            KeyPreset::Aes128 => 16usize,
            KeyPreset::Aes192 => 24usize,
            KeyPreset::Aes256 => 32usize,
            KeyPreset::HmacSha256 => 32usize,
            KeyPreset::HmacSha512 => 64usize,
            KeyPreset::Jwt256 => 32usize,
            KeyPreset::Jwt512 => 64usize,
            KeyPreset::ApiKey128 => 16usize,
            KeyPreset::ApiKey256 => 32usize,
        }
    }

    /// The label describing the preset in the program's output.
    pub open spec fn spec_description(self) -> Seq<char> {
        match self {
            KeyPreset::Aes128 => "AES-128"@,
            KeyPreset::Aes192 => "AES-192"@,
            KeyPreset::Aes256 => "AES-256"@,
            KeyPreset::HmacSha256 => "HMAC-SHA256"@,
            KeyPreset::HmacSha512 => "HMAC-SHA512"@,
            KeyPreset::Jwt256 => "JWT-256"@,
            KeyPreset::Jwt512 => "JWT-512"@,
            KeyPreset::ApiKey128 => "API Key 128-bit"@,
            KeyPreset::ApiKey256 => "API Key 256-bit"@,
        }
    }

    /// The key length in bytes that the preset stands for.
    pub fn key_length(&self) -> (r: usize)
        ensures
            r == self.spec_key_length(),
    {
        match self {
            KeyPreset::Aes128 => 16,
            KeyPreset::Aes192 => 24,
            KeyPreset::Aes256 => 32,
            KeyPreset::HmacSha256 => 32,
            KeyPreset::HmacSha512 => 64,
            KeyPreset::Jwt256 => 32,
            KeyPreset::Jwt512 => 64,
            KeyPreset::ApiKey128 => 16,
            KeyPreset::ApiKey256 => 32,
        }
    }

    /// The label describing the preset in the program's output.
    pub fn description(&self) -> (r: &'static str)
        ensures
            r@ == self.spec_description(),
    {
        match self {
            KeyPreset::Aes128 => "AES-128",
            KeyPreset::Aes192 => "AES-192",
            KeyPreset::Aes256 => "AES-256",
            KeyPreset::HmacSha256 => "HMAC-SHA256",
            KeyPreset::HmacSha512 => "HMAC-SHA512",
            KeyPreset::Jwt256 => "JWT-256",
            KeyPreset::Jwt512 => "JWT-512",
            KeyPreset::ApiKey128 => "API Key 128-bit",
            KeyPreset::ApiKey256 => "API Key 256-bit",
        }
    }
}

} // verus!
