//! Restriction evaluation: token proofs, collection proofs, and the any-of
//! compositions.

use postbox::errors::PostboxErrorCode;
use postbox::post_restrictions::AdditionalAccountIndices;
use postbox::post_restrictions::PostRestrictionRule;
use postbox::post_restrictions::QuantifiedMint;
use postbox::records::AccountRecord;
use postbox::records::CollectionRef;
use postbox::records::RecordContent;

const ACTOR: u64 = 1;
const ASSET: u64 = 50;
const COLLECTION_A: u64 = 100;
const COLLECTION_B: u64 = 101;
const TOKEN_PROGRAM: u64 = 7000;

fn token_record(owner: u64, mint: u64, amount: u64) -> AccountRecord {
    AccountRecord {
        key: 1000,
        owner_program: TOKEN_PROGRAM,
        content: RecordContent::TokenAccount { owner, mint, amount },
    }
}

/// The three records a collection proof points at: the holder's token
/// record, the registry metadata for its asset, and the collection record.
fn nft_records(holder: u64, collection: u64) -> Vec<AccountRecord> {
    let nft_mint: u64 = 555;
    vec![
        token_record(holder, nft_mint, 1),
        AccountRecord {
            key: 2000,
            owner_program: 9999,
            content: RecordContent::Metadata(postbox::records::Metadata {
                mint: nft_mint,
                collection: Some(CollectionRef { verified: true, key: collection }),
            }),
        },
        AccountRecord { key: collection, owner_program: TOKEN_PROGRAM, content: RecordContent::Raw },
    ]
}

fn nft_offsets() -> Vec<AdditionalAccountIndices> {
    vec![AdditionalAccountIndices::NftOwnership { token_idx: 0, meta_idx: 1, collection_idx: 2 }]
}

#[test]
fn null_rule_always_passes() {
    let rule = PostRestrictionRule::Null;
    let accounts: Vec<AccountRecord> = Vec::new();
    let offsets: Vec<AdditionalAccountIndices> = Vec::new();
    assert!(rule.validate_reply_allowed(ACTOR, &accounts, &offsets, TOKEN_PROGRAM).is_ok());
}

#[test]
fn token_rule_accepts_a_sufficient_balance() {
    let rule = PostRestrictionRule::TokenOwnership { mint: ASSET, amount: 5 };
    let accounts = vec![token_record(ACTOR, ASSET, 5)];
    let offsets = vec![AdditionalAccountIndices::TokenOwnership { token_idx: 0 }];
    assert!(rule.validate_reply_allowed(ACTOR, &accounts, &offsets, TOKEN_PROGRAM).is_ok());
}

#[test]
fn token_rule_rejects_a_short_balance() {
    let rule = PostRestrictionRule::TokenOwnership { mint: ASSET, amount: 5 };
    let accounts = vec![token_record(ACTOR, ASSET, 4)];
    let offsets = vec![AdditionalAccountIndices::TokenOwnership { token_idx: 0 }];
    let r = rule.validate_reply_allowed(ACTOR, &accounts, &offsets, TOKEN_PROGRAM);
    assert_eq!(r, Err(PostboxErrorCode::MissingTokenRestriction));
}

#[test]
fn token_rule_rejects_someone_elses_balance() {
    let rule = PostRestrictionRule::TokenOwnership { mint: ASSET, amount: 5 };
    let accounts = vec![token_record(ACTOR + 1, ASSET, 50)];
    let offsets = vec![AdditionalAccountIndices::TokenOwnership { token_idx: 0 }];
    let r = rule.validate_reply_allowed(ACTOR, &accounts, &offsets, TOKEN_PROGRAM);
    assert_eq!(r, Err(PostboxErrorCode::MissingTokenRestriction));
}

#[test]
fn token_rule_without_tagged_offsets_fails_closed() {
    let rule = PostRestrictionRule::TokenOwnership { mint: ASSET, amount: 5 };
    let accounts = vec![token_record(ACTOR, ASSET, 50)];
    let offsets = vec![AdditionalAccountIndices::Null];
    let r = rule.validate_reply_allowed(ACTOR, &accounts, &offsets, TOKEN_PROGRAM);
    assert_eq!(r, Err(PostboxErrorCode::MissingRequiredOffsets));
}

#[test]
fn token_rule_rejects_a_non_token_record() {
    let rule = PostRestrictionRule::TokenOwnership { mint: ASSET, amount: 5 };
    let accounts = vec![AccountRecord {
        key: 1,
        owner_program: TOKEN_PROGRAM,
        content: RecordContent::Raw,
    }];
    let offsets = vec![AdditionalAccountIndices::TokenOwnership { token_idx: 0 }];
    let r = rule.validate_reply_allowed(ACTOR, &accounts, &offsets, TOKEN_PROGRAM);
    assert_eq!(r, Err(PostboxErrorCode::InvalidRestrictionExtraAccounts));
}

#[test]
fn token_rule_rejects_an_out_of_range_offset() {
    let rule = PostRestrictionRule::TokenOwnership { mint: ASSET, amount: 5 };
    let accounts = vec![token_record(ACTOR, ASSET, 50)];
    let offsets = vec![AdditionalAccountIndices::TokenOwnership { token_idx: 9 }];
    let r = rule.validate_reply_allowed(ACTOR, &accounts, &offsets, TOKEN_PROGRAM);
    assert_eq!(r, Err(PostboxErrorCode::InvalidRestrictionExtraAccounts));
}

#[test]
fn nft_rule_accepts_a_verified_member() {
    let rule = PostRestrictionRule::NftOwnership { collection_id: COLLECTION_A };
    let accounts = nft_records(ACTOR, COLLECTION_A);
    assert!(rule.validate_reply_allowed(ACTOR, &accounts, &nft_offsets(), TOKEN_PROGRAM).is_ok());
}

#[test]
fn nft_rule_needs_a_quantity_of_exactly_one() {
    let rule = PostRestrictionRule::NftOwnership { collection_id: COLLECTION_A };
    let mut accounts = nft_records(ACTOR, COLLECTION_A);
    accounts[0] = token_record(ACTOR, 555, 2);
    let r = rule.validate_reply_allowed(ACTOR, &accounts, &nft_offsets(), TOKEN_PROGRAM);
    assert_eq!(r, Err(PostboxErrorCode::MissingCollectionNftRestriction));
}

#[test]
fn nft_rule_rejects_an_unverified_collection_link() {
    let rule = PostRestrictionRule::NftOwnership { collection_id: COLLECTION_A };
    let mut accounts = nft_records(ACTOR, COLLECTION_A);
    accounts[1] = AccountRecord {
        key: 2000,
        owner_program: 9999,
        content: RecordContent::Metadata(postbox::records::Metadata {
            mint: 555,
            collection: Some(CollectionRef { verified: false, key: COLLECTION_A }),
        }),
    };
    let r = rule.validate_reply_allowed(ACTOR, &accounts, &nft_offsets(), TOKEN_PROGRAM);
    assert_eq!(r, Err(PostboxErrorCode::MissingCollectionNftRestriction));
}

#[test]
fn nft_rule_rejects_foreign_metadata() {
    let rule = PostRestrictionRule::NftOwnership { collection_id: COLLECTION_A };
    let mut accounts = nft_records(ACTOR, COLLECTION_A);
    accounts[1] = AccountRecord {
        key: 2000,
        owner_program: 9999,
        content: RecordContent::Metadata(postbox::records::Metadata {
            mint: 556,  // metadata for a different asset than the held one
            collection: Some(CollectionRef { verified: true, key: COLLECTION_A }),
        }),
    };
    let r = rule.validate_reply_allowed(ACTOR, &accounts, &nft_offsets(), TOKEN_PROGRAM);
    assert_eq!(r, Err(PostboxErrorCode::InvalidMetadataKey));
}

#[test]
fn nft_rule_rejects_a_non_metadata_record() {
    let rule = PostRestrictionRule::NftOwnership { collection_id: COLLECTION_A };
    let mut accounts = nft_records(ACTOR, COLLECTION_A);
    accounts[1] = token_record(ACTOR, 555, 1);
    let r = rule.validate_reply_allowed(ACTOR, &accounts, &nft_offsets(), TOKEN_PROGRAM);
    assert_eq!(r, Err(PostboxErrorCode::MetadataAccountInvalid));
}

#[test]
fn nft_rule_rejects_metadata_without_a_collection() {
    let rule = PostRestrictionRule::NftOwnership { collection_id: COLLECTION_A };
    let mut accounts = nft_records(ACTOR, COLLECTION_A);
    accounts[1] = AccountRecord {
        key: 2000,
        owner_program: 9999,
        content: RecordContent::Metadata(postbox::records::Metadata { mint: 555, collection: None }),
    };
    let r = rule.validate_reply_allowed(ACTOR, &accounts, &nft_offsets(), TOKEN_PROGRAM);
    assert_eq!(r, Err(PostboxErrorCode::NoCollectionOnMetadata));
}

#[test]
fn nft_rule_rejects_a_collection_record_outside_the_registry() {
    let rule = PostRestrictionRule::NftOwnership { collection_id: COLLECTION_A };
    let mut accounts = nft_records(ACTOR, COLLECTION_A);
    accounts[2] =
        AccountRecord { key: COLLECTION_A, owner_program: 1, content: RecordContent::Raw };
    let r = rule.validate_reply_allowed(ACTOR, &accounts, &nft_offsets(), TOKEN_PROGRAM);
    assert_eq!(r, Err(PostboxErrorCode::MissingCollectionNftRestriction));
}

#[test]
fn any_of_list_accepts_a_proof_for_the_second_collection() {
    // proofs fabricated for collection B only
    let rule = PostRestrictionRule::NftListAnyOwnership {
        collection_ids: vec![COLLECTION_A, COLLECTION_B],
    };
    let accounts = nft_records(ACTOR, COLLECTION_B);
    assert!(rule.validate_reply_allowed(ACTOR, &accounts, &nft_offsets(), TOKEN_PROGRAM).is_ok());
}

#[test]
fn any_of_list_rejects_proofs_matching_neither() {
    let rule = PostRestrictionRule::NftListAnyOwnership {
        collection_ids: vec![COLLECTION_A, COLLECTION_B],
    };
    let accounts = nft_records(ACTOR, 999);
    let r = rule.validate_reply_allowed(ACTOR, &accounts, &nft_offsets(), TOKEN_PROGRAM);
    assert_eq!(r, Err(PostboxErrorCode::MissingCollectionNftRestriction));
}

#[test]
fn any_of_list_result_ignores_listing_order() {
    let forward = PostRestrictionRule::NftListAnyOwnership {
        collection_ids: vec![COLLECTION_A, COLLECTION_B],
    };
    let backward = PostRestrictionRule::NftListAnyOwnership {
        collection_ids: vec![COLLECTION_B, COLLECTION_A],
    };
    let accounts = nft_records(ACTOR, COLLECTION_B);
    let f = forward.validate_reply_allowed(ACTOR, &accounts, &nft_offsets(), TOKEN_PROGRAM);
    let b = backward.validate_reply_allowed(ACTOR, &accounts, &nft_offsets(), TOKEN_PROGRAM);
    assert_eq!(f, b);
    assert!(f.is_ok());
}

#[test]
fn any_of_list_with_no_collections_never_passes() {
    let rule = PostRestrictionRule::NftListAnyOwnership { collection_ids: Vec::new() };
    let accounts = nft_records(ACTOR, COLLECTION_A);
    let r = rule.validate_reply_allowed(ACTOR, &accounts, &nft_offsets(), TOKEN_PROGRAM);
    assert_eq!(r, Err(PostboxErrorCode::MissingCollectionNftRestriction));
}

#[test]
fn token_or_nft_accepts_either_arm() {
    let rule = PostRestrictionRule::TokenOrNftAnyOwnership {
        mints: vec![QuantifiedMint { mint: ASSET, amount: 3 }],
        collection_ids: vec![COLLECTION_A],
    };
    // token proof only
    let accounts = vec![token_record(ACTOR, ASSET, 3)];
    let offsets = vec![AdditionalAccountIndices::TokenOwnership { token_idx: 0 }];
    assert!(rule.validate_reply_allowed(ACTOR, &accounts, &offsets, TOKEN_PROGRAM).is_ok());
    // collection proof only
    let accounts = nft_records(ACTOR, COLLECTION_A);
    assert!(rule.validate_reply_allowed(ACTOR, &accounts, &nft_offsets(), TOKEN_PROGRAM).is_ok());
}

#[test]
fn token_or_nft_failing_both_arms_reports_missing_credentials() {
    let rule = PostRestrictionRule::TokenOrNftAnyOwnership {
        mints: vec![QuantifiedMint { mint: ASSET, amount: 3 }],
        collection_ids: vec![COLLECTION_A],
    };
    let accounts = vec![token_record(ACTOR, ASSET, 2)];
    let offsets = vec![AdditionalAccountIndices::TokenOwnership { token_idx: 0 }];
    let r = rule.validate_reply_allowed(ACTOR, &accounts, &offsets, TOKEN_PROGRAM);
    assert_eq!(r, Err(PostboxErrorCode::MissingCredentials));
}

#[test]
fn every_tagged_token_entry_must_pass() {
    // two tagged entries: one passing, one failing — the rule fails
    let rule = PostRestrictionRule::TokenOwnership { mint: ASSET, amount: 5 };
    let accounts = vec![token_record(ACTOR, ASSET, 50), token_record(ACTOR, ASSET, 1)];
    let offsets = vec![
        AdditionalAccountIndices::TokenOwnership { token_idx: 0 },
        AdditionalAccountIndices::TokenOwnership { token_idx: 1 },
    ];
    let r = rule.validate_reply_allowed(ACTOR, &accounts, &offsets, TOKEN_PROGRAM);
    assert_eq!(r, Err(PostboxErrorCode::MissingTokenRestriction));
}
