//! The values that the mappers attach but that the payloads do not carry.

use vstd::prelude::*;
use vstd::string::*;

verus! {

/// Model identifiers and the max-token default that the mappers apply.
#[derive(Clone, Debug, PartialEq)]
pub struct MapperConfig {
    pub chat_model: String,
    pub embedding_model: String,
    pub default_max_tokens: u32,
}

/// The max-token limit applied when a chat request gives none.
pub const DEFAULT_MAX_TOKENS: u32 = 4096;

impl MapperConfig {
    /// The placeholder model identifiers and the system max-token default.
    pub fn bedrock_defaults() -> (r: MapperConfig)
        ensures
            r.chat_model@ == "bedrock-model"@,
            r.embedding_model@ == "bedrock-embedding-model"@,
            r.default_max_tokens == DEFAULT_MAX_TOKENS,
    {
        MapperConfig {
            chat_model: String::from_str("bedrock-model"),
            embedding_model: String::from_str("bedrock-embedding-model"),
            default_max_tokens: DEFAULT_MAX_TOKENS,
        }
    }
}

} // verus!
