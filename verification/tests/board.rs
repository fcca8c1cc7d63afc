//! Board lifecycle: initialization, owner gating, configuration upserts,
//! moderator designation, and deletions.

use postbox::MAX_VOTE;
use postbox::Postbox;
use postbox::delete_own_post;
use postbox::delete_post_by_moderator;
use postbox::designate_moderator;
use postbox::initialize;
use postbox::ModeratorGrant;
use postbox::add_or_update_setting;
use postbox::errors::PostboxErrorCode;
use postbox::records::AccountRecord;
use postbox::records::RecordContent;
use postbox::settings::SettingsData;
use postbox::settings::SettingsType;
use postbox::treasury::FeeSchedule;
use postbox::treasury::RentPolicy;
use postbox::treasury::StoredRecord;

const ALICE: u64 = 11;
const BOB: u64 = 22;
const TREASURY: u64 = 900;
const MINT: u64 = 77;

fn fees() -> FeeSchedule {
    FeeSchedule::default()
}

fn new_board(owners: Vec<u64>) -> Postbox {
    let mut signer_lamports: u64 = 2_000_000_000;
    let mut treasury_lamports: u64 = 0;
    let signer = owners[0];
    initialize(
        &b"news".to_vec(),
        TREASURY,
        signer,
        &mut signer_lamports,
        &mut treasury_lamports,
        owners,
        None,
        MINT,
        &fees(),
    )
    .unwrap()
}

#[test]
fn initialize_named_board_charges_full_fee() {
    let mut signer_lamports: u64 = 2_000_000_000;
    let mut treasury_lamports: u64 = 5;
    let board = initialize(
        &b"news".to_vec(),
        TREASURY,
        ALICE,
        &mut signer_lamports,
        &mut treasury_lamports,
        vec![ALICE],
        None,
        MINT,
        &fees(),
    )
    .unwrap();
    assert_eq!(board.max_child_id, 0);
    assert_eq!(board.moderator_mint, MINT);
    assert_eq!(signer_lamports, 2_000_000_000 - 1_000_000_000);
    assert_eq!(treasury_lamports, 1_000_000_000 + 5);
    assert!(board.has_owner(&ALICE));
    assert!(!board.has_owner(&BOB));
}

#[test]
fn initialize_personal_board_needs_matching_target() {
    let mut signer_lamports: u64 = 1_000_000;
    let mut treasury_lamports: u64 = 0;
    let r = initialize(
        &Vec::new(),
        BOB,
        ALICE,
        &mut signer_lamports,
        &mut treasury_lamports,
        vec![ALICE],
        None,
        MINT,
        &fees(),
    );
    assert!(matches!(r, Err(PostboxErrorCode::NotPersonalPostbox)));
    assert_eq!(signer_lamports, 1_000_000);

    let board = initialize(
        &Vec::new(),
        ALICE,
        ALICE,
        &mut signer_lamports,
        &mut treasury_lamports,
        vec![ALICE],
        None,
        MINT,
        &fees(),
    )
    .unwrap();
    assert_eq!(board.max_child_id, 0);
    // the personal tier is the cheap one
    assert_eq!(signer_lamports, 1_000_000 - 50_000);
}

#[test]
fn initialize_rejects_signer_outside_owner_set() {
    let mut signer_lamports: u64 = 2_000_000_000;
    let mut treasury_lamports: u64 = 0;
    let r = initialize(
        &b"news".to_vec(),
        TREASURY,
        BOB,
        &mut signer_lamports,
        &mut treasury_lamports,
        vec![ALICE],
        None,
        MINT,
        &fees(),
    );
    assert!(matches!(r, Err(PostboxErrorCode::NotAnOwner)));
}

#[test]
fn initialize_rejects_empty_owner_set() {
    let mut signer_lamports: u64 = 2_000_000_000;
    let mut treasury_lamports: u64 = 0;
    let r = initialize(
        &b"news".to_vec(),
        TREASURY,
        ALICE,
        &mut signer_lamports,
        &mut treasury_lamports,
        Vec::new(),
        None,
        MINT,
        &fees(),
    );
    assert!(matches!(r, Err(PostboxErrorCode::NotAnOwner)));
}

#[test]
fn initialize_rejects_type_confused_description() {
    let mut signer_lamports: u64 = 2_000_000_000;
    let mut treasury_lamports: u64 = 0;
    let r = initialize(
        &b"news".to_vec(),
        TREASURY,
        ALICE,
        &mut signer_lamports,
        &mut treasury_lamports,
        vec![ALICE],
        Some(SettingsData::Null),
        MINT,
        &fees(),
    );
    assert!(matches!(r, Err(PostboxErrorCode::BadDescriptionSetting)));
}

#[test]
fn initialize_with_description_installs_both_entries() {
    let mut signer_lamports: u64 = 2_000_000_000;
    let mut treasury_lamports: u64 = 0;
    let board = initialize(
        &b"news".to_vec(),
        TREASURY,
        ALICE,
        &mut signer_lamports,
        &mut treasury_lamports,
        vec![ALICE],
        Some(SettingsData::Description { title: b"t".to_vec(), desc: b"d".to_vec() }),
        MINT,
        &fees(),
    )
    .unwrap();
    assert!(board.get_setting(SettingsType::OwnerInfo).is_some());
    assert!(board.get_setting(SettingsType::Description).is_some());
    assert!(board.get_setting(SettingsType::PostRestriction).is_none());
}

#[test]
fn initialize_without_funds_fails() {
    let mut signer_lamports: u64 = 10;
    let mut treasury_lamports: u64 = 0;
    let r = initialize(
        &b"news".to_vec(),
        TREASURY,
        ALICE,
        &mut signer_lamports,
        &mut treasury_lamports,
        vec![ALICE],
        None,
        MINT,
        &fees(),
    );
    assert!(matches!(r, Err(PostboxErrorCode::InsufficientFunds)));
    assert_eq!(signer_lamports, 10);
    assert_eq!(treasury_lamports, 0);
}

#[test]
fn upsert_setting_is_owner_gated() {
    let mut board = new_board(vec![ALICE]);
    let mut record = StoredRecord { lamports: 0, size: 0 };
    let mut owner_lamports: u64 = 1_000_000;
    let rent = RentPolicy { base_overhead: 128, lamports_per_byte: 10 };
    let r = add_or_update_setting(
        &mut board,
        &mut record,
        BOB,
        &mut owner_lamports,
        SettingsData::Description { title: b"t".to_vec(), desc: b"d".to_vec() },
        &rent,
    );
    assert!(matches!(r, Err(PostboxErrorCode::NotAnOwner)));
    assert!(board.get_setting(SettingsType::Description).is_none());
}

#[test]
fn upsert_setting_last_write_wins() {
    let mut board = new_board(vec![ALICE]);
    let mut record = StoredRecord { lamports: 0, size: 0 };
    let mut owner_lamports: u64 = 10_000_000;
    let rent = RentPolicy { base_overhead: 128, lamports_per_byte: 10 };
    add_or_update_setting(
        &mut board,
        &mut record,
        ALICE,
        &mut owner_lamports,
        SettingsData::Description { title: b"old".to_vec(), desc: b"old".to_vec() },
        &rent,
    )
    .unwrap();
    add_or_update_setting(
        &mut board,
        &mut record,
        ALICE,
        &mut owner_lamports,
        SettingsData::Description { title: b"new title".to_vec(), desc: b"new".to_vec() },
        &rent,
    )
    .unwrap();
    // exactly two entries remain: the owner list and the latest description
    assert_eq!(board.settings.len(), 2);
    match board.get_setting(SettingsType::Description) {
        Some(SettingsData::Description { title, desc }) => {
            assert_eq!(title, &b"new title".to_vec());
            assert_eq!(desc, &b"new".to_vec());
        },
        _ => panic!("description entry missing"),
    }
}

#[test]
fn upsert_setting_without_funds_changes_nothing() {
    let mut board = new_board(vec![ALICE]);
    let mut record = StoredRecord { lamports: 0, size: 0 };
    let mut owner_lamports: u64 = 1;
    let rent = RentPolicy { base_overhead: 128, lamports_per_byte: 10 };
    let r = add_or_update_setting(
        &mut board,
        &mut record,
        ALICE,
        &mut owner_lamports,
        SettingsData::Description { title: b"t".to_vec(), desc: b"d".to_vec() },
        &rent,
    );
    assert!(matches!(r, Err(PostboxErrorCode::InsufficientFunds)));
    assert_eq!(owner_lamports, 1);
    assert_eq!(record.lamports, 0);
    assert!(board.get_setting(SettingsType::Description).is_none());
}

#[test]
fn designate_moderator_returns_single_unit_grant() {
    let board = new_board(vec![ALICE]);
    let grant = designate_moderator(&board, ALICE, BOB).unwrap();
    assert_eq!(grant, ModeratorGrant { mint: MINT, recipient: BOB, amount: 1 });
    let refused = designate_moderator(&board, BOB, BOB);
    assert!(matches!(refused, Err(PostboxErrorCode::NotAnOwner)));
}

#[test]
fn delete_own_post_refunds_the_poster() {
    let post = postbox::Post {
        poster: ALICE,
        data: b"hi".to_vec(),
        up_votes: 0,
        down_votes: 0,
        reply_to: None,
        settings: Vec::new(),
    };
    let mut poster_lamports: u64 = 7;
    let event = delete_own_post(&post, 500, ALICE, &mut poster_lamports, 1, 2, 3).unwrap();
    assert_eq!(poster_lamports, 507);
    assert_eq!(event.deleter_pubkey, ALICE);
    assert_eq!(event.postbox_pubkey, 1);
    assert_eq!(event.post_pubkey, 2);
    assert_eq!(event.post_id, 3);

    let refused = delete_own_post(&post, 500, BOB, &mut poster_lamports, 1, 2, 3);
    assert!(matches!(refused, Err(PostboxErrorCode::NotThePoster)));
    assert_eq!(poster_lamports, 507);
}

#[test]
fn moderator_deletion_needs_the_credential() {
    let board = new_board(vec![ALICE]);
    let post = postbox::Post {
        poster: ALICE,
        data: b"hi".to_vec(),
        up_votes: 0,
        down_votes: 0,
        reply_to: None,
        settings: Vec::new(),
    };
    let mut poster_lamports: u64 = 0;
    let credential = AccountRecord {
        key: 500,
        owner_program: 600,
        content: RecordContent::TokenAccount { owner: BOB, mint: MINT, amount: 1 },
    };
    let event =
        delete_post_by_moderator(&board, &post, 123, BOB, &credential, &mut poster_lamports, 1, 2, 3)
            .unwrap();
    assert_eq!(event.deleter_pubkey, BOB);
    assert_eq!(poster_lamports, 123);

    let empty = AccountRecord {
        key: 500,
        owner_program: 600,
        content: RecordContent::TokenAccount { owner: BOB, mint: MINT, amount: 0 },
    };
    let refused =
        delete_post_by_moderator(&board, &post, 123, BOB, &empty, &mut poster_lamports, 1, 2, 3);
    assert!(matches!(refused, Err(PostboxErrorCode::MissingModeratorCredential)));

    let wrong_mint = AccountRecord {
        key: 500,
        owner_program: 600,
        content: RecordContent::TokenAccount { owner: BOB, mint: MINT + 1, amount: 1 },
    };
    let refused =
        delete_post_by_moderator(&board, &post, 123, BOB, &wrong_mint, &mut poster_lamports, 1, 2, 3);
    assert!(matches!(refused, Err(PostboxErrorCode::MissingModeratorCredential)));
}

#[test]
fn vote_counters_saturate_at_the_ceiling() {
    let board = new_board(vec![ALICE]);
    let mut post = postbox::Post {
        poster: ALICE,
        data: b"hi".to_vec(),
        up_votes: MAX_VOTE,
        down_votes: 3,
        reply_to: None,
        settings: Vec::new(),
    };
    let mut voter_lamports: u64 = 1_000_000;
    let mut treasury_lamports: u64 = 0;
    let accounts: Vec<AccountRecord> = Vec::new();
    let offsets = Vec::new();
    // voting up at the ceiling changes nothing, and never wraps to zero
    postbox::vote(
        &board,
        &mut post,
        BOB,
        &mut voter_lamports,
        &mut treasury_lamports,
        true,
        &accounts,
        &offsets,
        false,
        999,
        &fees(),
    )
    .unwrap();
    assert_eq!(post.up_votes, MAX_VOTE);
    // a second saturated vote is equally a no-op on the counter
    postbox::vote(
        &board,
        &mut post,
        BOB,
        &mut voter_lamports,
        &mut treasury_lamports,
        true,
        &accounts,
        &offsets,
        false,
        999,
        &fees(),
    )
    .unwrap();
    assert_eq!(post.up_votes, MAX_VOTE);
    // a down vote below the ceiling still increments
    postbox::vote(
        &board,
        &mut post,
        BOB,
        &mut voter_lamports,
        &mut treasury_lamports,
        false,
        &accounts,
        &offsets,
        false,
        999,
        &fees(),
    )
    .unwrap();
    assert_eq!(post.down_votes, 4);
    // three votes charged
    assert_eq!(voter_lamports, 1_000_000 - 3 * 50_000);
    assert_eq!(treasury_lamports, 3 * 50_000);
}
