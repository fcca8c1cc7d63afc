//! Byte-exact sizing: entry sizes, record sizes against the serializer,
//! projected post sizes, and funded resizing.

use postbox::Post;
use postbox::Postbox;
use postbox::codec::serialize_post;
use postbox::codec::serialize_postbox;
use postbox::codec::serialize_rule;
use postbox::codec::serialize_setting;
use postbox::errors::PostboxErrorCode;
use postbox::get_post_projected_size;
use postbox::post_restrictions::PostRestrictionRule;
use postbox::post_restrictions::QuantifiedMint;
use postbox::settings::SettingsData;
use postbox::treasury::RentPolicy;
use postbox::treasury::StoredRecord;
use postbox::treasury::resize_account;
use postbox::treasury::transfer_lamports;

#[test]
fn rule_sizes_are_exact() {
    assert_eq!(PostRestrictionRule::TokenOwnership { mint: 1, amount: 2 }.get_size(), 17);
    assert_eq!(PostRestrictionRule::NftOwnership { collection_id: 1 }.get_size(), 9);
    assert_eq!(PostRestrictionRule::Null.get_size(), 1);
    assert_eq!(
        PostRestrictionRule::NftListAnyOwnership { collection_ids: vec![1, 2] }.get_size(),
        1 + 4 + 16
    );
    assert_eq!(
        PostRestrictionRule::TokenOrNftAnyOwnership {
            mints: vec![QuantifiedMint { mint: 1, amount: 2 }],
            collection_ids: vec![3, 4],
        }
        .get_size(),
        1 + 4 + 16 + 4 + 16
    );
}

#[test]
fn setting_sizes_are_exact() {
    assert_eq!(
        SettingsData::Description { title: b"ab".to_vec(), desc: b"xyz".to_vec() }.get_size(),
        1 + 4 + 2 + 4 + 3
    );
    assert_eq!(SettingsData::OwnerInfo { owners: vec![1, 2] }.get_size(), 1 + 4 + 16);
    assert_eq!(
        SettingsData::PostRestriction { post_restriction: PostRestrictionRule::Null }.get_size(),
        2
    );
    assert_eq!(SettingsData::Null.get_size(), 1);
}

#[test]
fn sizes_equal_serialized_lengths() {
    let entry = SettingsData::Description { title: b"ab".to_vec(), desc: b"xyz".to_vec() };
    assert_eq!(serialize_setting(&entry).len(), entry.get_size());

    let rule = PostRestrictionRule::TokenOrNftAnyOwnership {
        mints: vec![QuantifiedMint { mint: 9, amount: 1 }],
        collection_ids: vec![5],
    };
    assert_eq!(serialize_rule(&rule).len(), rule.get_size());

    let board = Postbox {
        max_child_id: 3,
        moderator_mint: 77,
        settings: vec![
            SettingsData::OwnerInfo { owners: vec![11, 22] },
            SettingsData::Description { title: b"ab".to_vec(), desc: b"xyz".to_vec() },
        ],
    };
    assert_eq!(serialize_postbox(&board).len(), board.get_size());
    // record tag, counter, credential class, list prefix, then the entries
    assert_eq!(board.get_size(), 8 + 4 + 8 + 4 + 21 + 14);
}

#[test]
fn serialized_bytes_are_tag_then_payload() {
    assert_eq!(serialize_setting(&SettingsData::Null), vec![3u8]);
    assert_eq!(
        serialize_rule(&PostRestrictionRule::TokenOwnership { mint: 1, amount: 5 }),
        vec![0u8, 1, 0, 0, 0, 0, 0, 0, 0, 5, 0, 0, 0, 0, 0, 0, 0]
    );
    assert_eq!(
        serialize_setting(&SettingsData::Description {
            title: b"ab".to_vec(),
            desc: b"x".to_vec(),
        }),
        vec![0u8, 2, 0, 0, 0, b'a', b'b', 1, 0, 0, 0, b'x']
    );
}

#[test]
fn projected_size_matches_the_created_post() {
    // a fresh post with its own restriction
    let settings = vec![SettingsData::PostRestriction {
        post_restriction: PostRestrictionRule::NftOwnership { collection_id: 4 },
    }];
    let data = b"hello".to_vec();
    let projected = get_post_projected_size(&settings, None, &data);
    let post = Post {
        poster: 11,
        data: data.clone(),
        up_votes: 0,
        down_votes: 0,
        reply_to: None,
        settings,
    };
    assert_eq!(serialize_post(&post).len(), projected);
    // tag + poster + (prefix + payload) + counters + absent link + prefix + entry
    assert_eq!(projected, 8 + 8 + 4 + 5 + 2 + 2 + 1 + 4 + 10);
}

#[test]
fn projected_size_charges_an_inherited_restriction_once() {
    let parent = Post {
        poster: 11,
        data: b"hi".to_vec(),
        up_votes: 0,
        down_votes: 0,
        reply_to: None,
        settings: vec![SettingsData::PostRestriction {
            post_restriction: PostRestrictionRule::TokenOwnership { mint: 1, amount: 5 },
        }],
    };
    let data = b"re".to_vec();
    // the caller supplies a restriction, but a reply inherits instead: the
    // supplied one is not charged
    let supplied = vec![SettingsData::PostRestriction {
        post_restriction: PostRestrictionRule::Null,
    }];
    let with_supplied = get_post_projected_size(&supplied, Some(&parent), &data);
    let without = get_post_projected_size(&Vec::new(), Some(&parent), &data);
    assert_eq!(with_supplied, without);
    // base + reply link + the inherited entry (1 tag + 17 rule)
    assert_eq!(without, 8 + 8 + 4 + 2 + 2 + 2 + 1 + 8 + 4 + 18);
}

#[test]
fn transfer_moves_exactly_the_amount_or_nothing() {
    let mut from: u64 = 100;
    let mut to: u64 = 7;
    transfer_lamports(&mut from, &mut to, 40).unwrap();
    assert_eq!((from, to), (60, 47));
    let refused = transfer_lamports(&mut from, &mut to, 61);
    assert!(matches!(refused, Err(PostboxErrorCode::InsufficientFunds)));
    assert_eq!((from, to), (60, 47));
}

#[test]
fn resize_tops_up_to_the_minimum_and_grows() {
    let rent = RentPolicy { base_overhead: 100, lamports_per_byte: 2 };
    assert_eq!(rent.minimum_balance(50), (100 + 50) * 2);
    let mut record = StoredRecord { lamports: 10, size: 0 };
    let mut funder: u64 = 1_000;
    resize_account(&mut record, &mut funder, 50, &rent).unwrap();
    assert_eq!(record.size, 50);
    assert_eq!(record.lamports, 300);
    assert_eq!(funder, 1_000 - 290);
}

#[test]
fn resize_never_reclaims_funding_on_shrink() {
    let rent = RentPolicy { base_overhead: 100, lamports_per_byte: 2 };
    let mut record = StoredRecord { lamports: 300, size: 50 };
    let mut funder: u64 = 1_000;
    resize_account(&mut record, &mut funder, 10, &rent).unwrap();
    assert_eq!(record.size, 10);
    // the excess stays on the record; the known, deliberate gap
    assert_eq!(record.lamports, 300);
    assert_eq!(funder, 1_000);
}

#[test]
fn resize_without_funds_changes_nothing() {
    let rent = RentPolicy { base_overhead: 100, lamports_per_byte: 2 };
    let mut record = StoredRecord { lamports: 0, size: 5 };
    let mut funder: u64 = 10;
    let refused = resize_account(&mut record, &mut funder, 50, &rent);
    assert!(matches!(refused, Err(PostboxErrorCode::InsufficientFunds)));
    assert_eq!(record.size, 5);
    assert_eq!(record.lamports, 0);
    assert_eq!(funder, 10);
}

#[test]
fn board_record_stays_funded_after_every_upsert() {
    let mut signer_lamports: u64 = 2_000_000_000;
    let mut treasury_lamports: u64 = 0;
    let mut board = postbox::initialize(
        &b"news".to_vec(),
        900,
        11,
        &mut signer_lamports,
        &mut treasury_lamports,
        vec![11],
        None,
        77,
        &postbox::treasury::FeeSchedule::default(),
    )
    .unwrap();
    let rent = RentPolicy { base_overhead: 128, lamports_per_byte: 10 };
    let mut record = StoredRecord { lamports: 0, size: 0 };
    let mut owner_lamports: u64 = 10_000_000;
    let entries = vec![
        SettingsData::Description { title: b"a title".to_vec(), desc: b"words".to_vec() },
        SettingsData::PostRestriction {
            post_restriction: PostRestrictionRule::NftListAnyOwnership {
                collection_ids: vec![1, 2, 3],
            },
        },
        SettingsData::Description { title: b"s".to_vec(), desc: b"t".to_vec() },
    ];
    for entry in entries {
        postbox::add_or_update_setting(
            &mut board,
            &mut record,
            11,
            &mut owner_lamports,
            entry,
            &rent,
        )
        .unwrap();
        // the record is sized for exactly the serialized board, and its
        // funding covers the policy minimum for that size
        assert_eq!(record.size, serialize_postbox(&board).len());
        assert_eq!(record.size, board.get_size());
        assert!(record.lamports >= rent.minimum_balance(record.size));
    }
}
