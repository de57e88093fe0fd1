use vstd::prelude::*;

verus! {

/// Descriptive data of a token.
#[derive(Debug, Clone, Default, Hash, PartialEq, Eq, PartialOrd, Ord)]
pub struct TokenMetadata {
    pub token_id: Vec<u8>,
    pub token_name: Vec<u8>,
    pub decimals: u8,
}

} // verus!
