use token_mint::metadata::TokenMetadata;

#[test]
fn default_metadata_is_empty() {
    let m = TokenMetadata::default();
    assert!(m.token_id.is_empty());
    assert!(m.token_name.is_empty());
    assert_eq!(m.decimals, 0);
}
