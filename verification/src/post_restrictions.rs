//! Post-restriction rules: the policies an actor must satisfy to create a
//! post, reply, or vote.

use vstd::prelude::*;

use crate::Address;
use crate::errors::PostboxErrorCode;
use crate::records::AccountRecord;
use crate::records::RecordContent;

verus! {

/// An asset class together with the minimum balance a proof must show.
#[derive(Clone, Copy, Debug, PartialEq, Eq, Structural)]
pub struct QuantifiedMint {
    pub mint: Address,
    pub amount: u64,
}

/// The restriction attached to a board (as the default for new posts) or to
/// a post (inherited verbatim by every reply).
///
/// `Null` declares "no restriction" explicitly, as distinct from an absent
/// entry.
#[derive(Debug)]
pub enum PostRestrictionRule {
    /// Hold at least `amount` units of `mint`.
    TokenOwnership { mint: Address, amount: u64 },
    /// Hold exactly one unit of an asset verifiably in `collection_id`.
    NftOwnership { collection_id: Address },
    /// Always satisfied.
    Null,
    /// Satisfy the `NftOwnership` check for at least one listed collection.
    NftListAnyOwnership { collection_ids: Vec<Address> },
    /// Satisfy any listed token check or any listed collection check.
    TokenOrNftAnyOwnership { mints: Vec<QuantifiedMint>, collection_ids: Vec<Address> },
}

/// The mathematical value of a `PostRestrictionRule`.
#[verifier::ext_equal]
pub enum RuleView {
    TokenOwnership { mint: Address, amount: u64 },
    NftOwnership { collection_id: Address },
    Null,
    NftListAnyOwnership { collection_ids: Seq<Address> },
    TokenOrNftAnyOwnership { mints: Seq<QuantifiedMint>, collection_ids: Seq<Address> },
}

impl View for PostRestrictionRule {
    type V = RuleView;

    open spec fn view(&self) -> RuleView {
        match self {
            PostRestrictionRule::TokenOwnership { mint, amount } => {
                RuleView::TokenOwnership { mint: *mint, amount: *amount }
            },
            PostRestrictionRule::NftOwnership { collection_id } => {
                RuleView::NftOwnership { collection_id: *collection_id }
            },
            PostRestrictionRule::Null => RuleView::Null,
            PostRestrictionRule::NftListAnyOwnership { collection_ids } => {
                RuleView::NftListAnyOwnership { collection_ids: collection_ids@ }
            },
            PostRestrictionRule::TokenOrNftAnyOwnership { mints, collection_ids } => {
                RuleView::TokenOrNftAnyOwnership {
                    mints: mints@,
                    collection_ids: collection_ids@,
                }
            },
        }
    }
}

/// A caller-supplied proof pointer: indices into the auxiliary record list,
/// tagged with the shape of check they claim to satisfy.
#[derive(Clone, Copy, Debug, PartialEq, Eq, Structural)]
pub enum AdditionalAccountIndices {
    TokenOwnership { token_idx: u8 },
    NftOwnership { token_idx: u8, meta_idx: u8, collection_idx: u8 },
    Null,
}

impl PostRestrictionRule {
    /// The exact number of bytes this rule occupies in a record.
    pub fn get_size(&self) -> (n: usize)
        requires
            crate::codec::rule_size(self@) <= usize::MAX,
        ensures
            n == crate::codec::rule_size(self@),
    {
        match self {
            PostRestrictionRule::TokenOwnership { .. } => 1 + 2 * crate::codec::ADDRESS_LEN,
            PostRestrictionRule::NftOwnership { .. } => 1 + crate::codec::ADDRESS_LEN,
            PostRestrictionRule::Null => 1,
            PostRestrictionRule::NftListAnyOwnership { collection_ids } => {
                1 + crate::codec::LEN_PREFIX + crate::codec::ADDRESS_LEN * collection_ids.len()
            },
            PostRestrictionRule::TokenOrNftAnyOwnership { mints, collection_ids } => {
                1 + crate::codec::LEN_PREFIX + 2 * crate::codec::ADDRESS_LEN * mints.len()
                    + crate::codec::LEN_PREFIX + crate::codec::ADDRESS_LEN * collection_ids.len()
            },
        }
    }
}

impl Clone for PostRestrictionRule {
    /// A deep copy; inheritance relies on the copy having the same value.
    fn clone(&self) -> (r: Self)
        ensures
            r@ == self@,
    {
        match self {
            PostRestrictionRule::TokenOwnership { mint, amount } => {
                PostRestrictionRule::TokenOwnership { mint: *mint, amount: *amount }
            },
            PostRestrictionRule::NftOwnership { collection_id } => {
                PostRestrictionRule::NftOwnership { collection_id: *collection_id }
            },
            PostRestrictionRule::Null => PostRestrictionRule::Null,
            PostRestrictionRule::NftListAnyOwnership { collection_ids } => {
                let r = PostRestrictionRule::NftListAnyOwnership {
                    collection_ids: crate::copy_list(collection_ids),
                };
                proof {
                    assert(r@ =~= self@);
                }
                r
            },
            PostRestrictionRule::TokenOrNftAnyOwnership { mints, collection_ids } => {
                let r = PostRestrictionRule::TokenOrNftAnyOwnership {
                    mints: crate::copy_list(mints),
                    collection_ids: crate::copy_list(collection_ids),
                };
                proof {
                    assert(r@ =~= self@);
                }
                r
            },
        }
    }
}

/// The outcome of one token-tagged proof entry: the record at `token_idx`
/// must be a token balance record showing that `actor` holds at least
/// `min_amount` units of `mint`.
pub open spec fn token_entry_result(
    accounts: Seq<AccountRecord>,
    actor: Address,
    mint: Address,
    min_amount: u64,
    token_idx: u8,
) -> Result<(), PostboxErrorCode> {
    if accounts.len() <= token_idx {
        Err(PostboxErrorCode::InvalidRestrictionExtraAccounts)
    } else {
        match accounts[token_idx as int].content {
            RecordContent::TokenAccount { owner, mint: held_mint, amount } => {
                if owner == actor && held_mint == mint && amount >= min_amount {
                    Ok(())
                } else {
                    Err(PostboxErrorCode::MissingTokenRestriction)
                }
            },
            _ => Err(PostboxErrorCode::InvalidRestrictionExtraAccounts),
        }
    }
}

/// The outcome of one collection-tagged proof entry: a token record showing
/// that `actor` holds exactly one unit of some asset, the registry's
/// metadata record for that asset declaring verified membership in
/// `collection_id`, and the collection record itself, owned by
/// `token_program`.
pub open spec fn nft_entry_result(
    accounts: Seq<AccountRecord>,
    actor: Address,
    collection_id: Address,
    token_program: Address,
    token_idx: u8,
    meta_idx: u8,
    collection_idx: u8,
) -> Result<(), PostboxErrorCode> {
    if accounts.len() <= token_idx || accounts.len() <= meta_idx || accounts.len()
        <= collection_idx {
        Err(PostboxErrorCode::InvalidRestrictionExtraAccounts)
    } else {
        match accounts[token_idx as int].content {
            RecordContent::TokenAccount { owner, mint, amount } => {
                match accounts[meta_idx as int].content {
                    RecordContent::Metadata(meta) => {
                        if meta.mint != mint {
                            Err(PostboxErrorCode::InvalidMetadataKey)
                        } else {
                            match meta.collection {
                                None => Err(PostboxErrorCode::NoCollectionOnMetadata),
                                Some(col) => {
                                    if owner == actor && amount == 1 && col.verified && col.key
                                        == collection_id && col.key == accounts[
                                        collection_idx as int
                                    ].key && accounts[collection_idx as int].owner_program
                                        == token_program {
                                        Ok(())
                                    } else {
                                        Err(PostboxErrorCode::MissingCollectionNftRestriction)
                                    }
                                },
                            }
                        }
                    },
                    _ => Err(PostboxErrorCode::MetadataAccountInvalid),
                }
            },
            _ => Err(PostboxErrorCode::InvalidRestrictionExtraAccounts),
        }
    }
}

/// Walks the proof offsets from position `i`: every token-tagged entry must
/// pass, and at least one must exist (`checked` records whether one was seen
/// so far).  The first failing entry decides the error.
pub open spec fn token_proofs_from(
    accounts: Seq<AccountRecord>,
    offsets: Seq<AdditionalAccountIndices>,
    actor: Address,
    mint: Address,
    min_amount: u64,
    checked: bool,
    i: nat,
) -> Result<(), PostboxErrorCode>
    decreases offsets.len() - i,
{
    if i >= offsets.len() {
        if checked {
            Ok(())
        } else {
            Err(PostboxErrorCode::MissingRequiredOffsets)
        }
    } else {
        match offsets[i as int] {
            AdditionalAccountIndices::TokenOwnership { token_idx } => {
                match token_entry_result(accounts, actor, mint, min_amount, token_idx) {
                    Ok(_) => token_proofs_from(
                        accounts,
                        offsets,
                        actor,
                        mint,
                        min_amount,
                        true,
                        i + 1,
                    ),
                    Err(e) => Err(e),
                }
            },
            _ => token_proofs_from(accounts, offsets, actor, mint, min_amount, checked, i + 1),
        }
    }
}

/// The token-ownership check over a whole proof list.
pub open spec fn spec_validate_token(
    accounts: Seq<AccountRecord>,
    offsets: Seq<AdditionalAccountIndices>,
    actor: Address,
    mint: Address,
    min_amount: u64,
) -> Result<(), PostboxErrorCode> {
    token_proofs_from(accounts, offsets, actor, mint, min_amount, false, 0)
}

/// Walks the proof offsets from position `i`: every collection-tagged entry
/// must pass for `collection_id`, and at least one must exist.
pub open spec fn nft_proofs_from(
    accounts: Seq<AccountRecord>,
    offsets: Seq<AdditionalAccountIndices>,
    actor: Address,
    collection_id: Address,
    token_program: Address,
    checked: bool,
    i: nat,
) -> Result<(), PostboxErrorCode>
    decreases offsets.len() - i,
{
    if i >= offsets.len() {
        if checked {
            Ok(())
        } else {
            Err(PostboxErrorCode::MissingRequiredOffsets)
        }
    } else {
        match offsets[i as int] {
            AdditionalAccountIndices::NftOwnership { token_idx, meta_idx, collection_idx } => {
                match nft_entry_result(
                    accounts,
                    actor,
                    collection_id,
                    token_program,
                    token_idx,
                    meta_idx,
                    collection_idx,
                ) {
                    Ok(_) => nft_proofs_from(
                        accounts,
                        offsets,
                        actor,
                        collection_id,
                        token_program,
                        true,
                        i + 1,
                    ),
                    Err(e) => Err(e),
                }
            },
            _ => nft_proofs_from(
                accounts,
                offsets,
                actor,
                collection_id,
                token_program,
                checked,
                i + 1,
            ),
        }
    }
}

/// The collection-membership check over a whole proof list.
pub open spec fn spec_validate_nft(
    accounts: Seq<AccountRecord>,
    offsets: Seq<AdditionalAccountIndices>,
    actor: Address,
    collection_id: Address,
    token_program: Address,
) -> Result<(), PostboxErrorCode> {
    nft_proofs_from(accounts, offsets, actor, collection_id, token_program, false, 0)
}

/// Whether some listed token check succeeds.
pub open spec fn any_token_ok(
    mints: Seq<QuantifiedMint>,
    accounts: Seq<AccountRecord>,
    offsets: Seq<AdditionalAccountIndices>,
    actor: Address,
) -> bool {
    exists|i: int|
        0 <= i < mints.len() && spec_validate_token(
            accounts,
            offsets,
            actor,
            mints[i].mint,
            mints[i].amount,
        ) is Ok
}

/// Whether some listed collection check succeeds.
pub open spec fn any_collection_ok(
    collection_ids: Seq<Address>,
    accounts: Seq<AccountRecord>,
    offsets: Seq<AdditionalAccountIndices>,
    actor: Address,
    token_program: Address,
) -> bool {
    exists|i: int|
        0 <= i < collection_ids.len() && spec_validate_nft(
            accounts,
            offsets,
            actor,
            collection_ids[i],
            token_program,
        ) is Ok
}

/// The outcome of evaluating a whole rule against an actor and a proof
/// list.  The any-of compositions succeed exactly when some single check
/// succeeds; their result does not depend on list order.
pub open spec fn spec_validate_rule(
    rule: RuleView,
    actor: Address,
    accounts: Seq<AccountRecord>,
    offsets: Seq<AdditionalAccountIndices>,
    token_program: Address,
) -> Result<(), PostboxErrorCode> {
    match rule {
        RuleView::TokenOwnership { mint, amount } => spec_validate_token(
            accounts,
            offsets,
            actor,
            mint,
            amount,
        ),
        RuleView::NftOwnership { collection_id } => spec_validate_nft(
            accounts,
            offsets,
            actor,
            collection_id,
            token_program,
        ),
        RuleView::Null => Ok(()),
        RuleView::NftListAnyOwnership { collection_ids } => {
            if any_collection_ok(collection_ids, accounts, offsets, actor, token_program) {
                Ok(())
            } else {
                Err(PostboxErrorCode::MissingCollectionNftRestriction)
            }
        },
        RuleView::TokenOrNftAnyOwnership { mints, collection_ids } => {
            if any_token_ok(mints, accounts, offsets, actor) || any_collection_ok(
                collection_ids,
                accounts,
                offsets,
                actor,
                token_program,
            ) {
                Ok(())
            } else {
                Err(PostboxErrorCode::MissingCredentials)
            }
        },
    }
}

impl PostRestrictionRule {
    /// Checks that `poster` holds at least `amount` units of `mint`,
    /// through the token-tagged entries of the supplied proof offsets.
    fn validate_token_ownership(
        &self,
        poster: Address,
        extra_accounts: &Vec<AccountRecord>,
        account_indices_vec: &Vec<AdditionalAccountIndices>,
        mint: Address,
        amount: u64,
    ) -> (r: Result<(), PostboxErrorCode>)
        ensures
            r == spec_validate_token(extra_accounts@, account_indices_vec@, poster, mint, amount),
    {
        let mut checked = false;
        let mut i: usize = 0;
        while i < account_indices_vec.len()
            invariant
                i <= account_indices_vec.len(),
                spec_validate_token(extra_accounts@, account_indices_vec@, poster, mint, amount)
                    == token_proofs_from(
                    extra_accounts@,
                    account_indices_vec@,
                    poster,
                    mint,
                    amount,
                    checked,
                    i as nat,
                ),
            decreases account_indices_vec.len() - i,
        {
            match account_indices_vec[i] {
                AdditionalAccountIndices::TokenOwnership { token_idx } => {
                    let idx = token_idx as usize;
                    if idx >= extra_accounts.len() {
                        return Err(PostboxErrorCode::InvalidRestrictionExtraAccounts);
                    }
                    match extra_accounts[idx].content {
                        RecordContent::TokenAccount {
                            owner,
                            mint: held_mint,
                            amount: held_amount,
                        } => {
                            if !(owner == poster && held_mint == mint && held_amount >= amount) {
                                return Err(PostboxErrorCode::MissingTokenRestriction);
                            }
                            checked = true;
                        },
                        _ => {
                            return Err(PostboxErrorCode::InvalidRestrictionExtraAccounts);
                        },
                    }
                },
                _ => {},
            }
            i = i + 1;
        }
        if checked {
            Ok(())
        } else {
            Err(PostboxErrorCode::MissingRequiredOffsets)
        }
    }

    /// Checks that `poster` holds one unit of an asset verifiably in
    /// `collection_id`, through the collection-tagged entries of the
    /// supplied proof offsets.
    fn validate_nft_ownership(
        &self,
        poster: Address,
        extra_accounts: &Vec<AccountRecord>,
        account_indices_vec: &Vec<AdditionalAccountIndices>,
        collection_id: Address,
        token_program: Address,
    ) -> (r: Result<(), PostboxErrorCode>)
        ensures
            r == spec_validate_nft(
                extra_accounts@,
                account_indices_vec@,
                poster,
                collection_id,
                token_program,
            ),
    {
        let mut checked = false;
        let mut i: usize = 0;
        while i < account_indices_vec.len()
            invariant
                i <= account_indices_vec.len(),
                spec_validate_nft(
                    extra_accounts@,
                    account_indices_vec@,
                    poster,
                    collection_id,
                    token_program,
                ) == nft_proofs_from(
                    extra_accounts@,
                    account_indices_vec@,
                    poster,
                    collection_id,
                    token_program,
                    checked,
                    i as nat,
                ),
            decreases account_indices_vec.len() - i,
        {
            match account_indices_vec[i] {
                AdditionalAccountIndices::NftOwnership { token_idx, meta_idx, collection_idx } => {
                    let t_idx = token_idx as usize;
                    let m_idx = meta_idx as usize;
                    let c_idx = collection_idx as usize;
                    if t_idx >= extra_accounts.len() || m_idx >= extra_accounts.len() || c_idx
                        >= extra_accounts.len() {
                        return Err(PostboxErrorCode::InvalidRestrictionExtraAccounts);
                    }
                    match extra_accounts[t_idx].content {
                        RecordContent::TokenAccount { owner, mint, amount } => {
                            match extra_accounts[m_idx].content {
                                RecordContent::Metadata(meta) => {
                                    if meta.mint != mint {
                                        return Err(PostboxErrorCode::InvalidMetadataKey);
                                    }
                                    match meta.collection {
                                        None => {
                                            return Err(PostboxErrorCode::NoCollectionOnMetadata);
                                        },
                                        Some(col) => {
                                            let has_collection_nft = owner == poster && amount == 1
                                                && col.verified && col.key == collection_id
                                                && col.key == extra_accounts[c_idx].key
                                                && extra_accounts[c_idx].owner_program
                                                == token_program;
                                            if !has_collection_nft {
                                                return Err(
                                                    PostboxErrorCode::MissingCollectionNftRestriction,
                                                );
                                            }
                                            checked = true;
                                        },
                                    }
                                },
                                _ => {
                                    return Err(PostboxErrorCode::MetadataAccountInvalid);
                                },
                            }
                        },
                        _ => {
                            return Err(PostboxErrorCode::InvalidRestrictionExtraAccounts);
                        },
                    }
                },
                _ => {},
            }
            i = i + 1;
        }
        if checked {
            Ok(())
        } else {
            Err(PostboxErrorCode::MissingRequiredOffsets)
        }
    }

    /// Evaluates this rule against `poster` and the supplied proofs.
    ///
    /// The result equals `spec_validate_rule` on the rule's value: `Null`
    /// always succeeds, the single checks demand a passing proof entry, and
    /// the any-of compositions succeed exactly when one of their single
    /// checks would.
    pub fn validate_reply_allowed(
        &self,
        poster: Address,
        extra_accounts: &Vec<AccountRecord>,
        account_indices_vec: &Vec<AdditionalAccountIndices>,
        token_program: Address,
    ) -> (r: Result<(), PostboxErrorCode>)
        ensures
            r == spec_validate_rule(
                self@,
                poster,
                extra_accounts@,
                account_indices_vec@,
                token_program,
            ),
    {
        match self {
            PostRestrictionRule::TokenOwnership { mint, amount } => {
                self.validate_token_ownership(
                    poster,
                    extra_accounts,
                    account_indices_vec,
                    *mint,
                    *amount,
                )
            },
            PostRestrictionRule::NftOwnership { collection_id } => {
                self.validate_nft_ownership(
                    poster,
                    extra_accounts,
                    account_indices_vec,
                    *collection_id,
                    token_program,
                )
            },
            PostRestrictionRule::Null => Ok(()),
            PostRestrictionRule::NftListAnyOwnership { collection_ids } => {
                let mut i: usize = 0;
                while i < collection_ids.len()
                    invariant
                        i <= collection_ids.len(),
                        forall|j: int|
                            0 <= j < i ==> !(spec_validate_nft(
                                extra_accounts@,
                                account_indices_vec@,
                                poster,
                                collection_ids@[j],
                                token_program,
                            ) is Ok),
                    decreases collection_ids.len() - i,
                {
                    if self.validate_nft_ownership(
                        poster,
                        extra_accounts,
                        account_indices_vec,
                        collection_ids[i],
                        token_program,
                    ).is_ok() {
                        proof {
                            assert(any_collection_ok(
                                collection_ids@,
                                extra_accounts@,
                                account_indices_vec@,
                                poster,
                                token_program,
                            ));
                        }
                        return Ok(());
                    }
                    i = i + 1;
                }
                Err(PostboxErrorCode::MissingCollectionNftRestriction)
            },
            PostRestrictionRule::TokenOrNftAnyOwnership { mints, collection_ids } => {
                let mut token_valid = false;
                let mut i: usize = 0;
                while i < mints.len()
                    invariant
                        i <= mints.len(),
                        token_valid <==> exists|j: int|
                            0 <= j < i && spec_validate_token(
                                extra_accounts@,
                                account_indices_vec@,
                                poster,
                                mints@[j].mint,
                                mints@[j].amount,
                            ) is Ok,
                    decreases mints.len() - i,
                {
                    if self.validate_token_ownership(
                        poster,
                        extra_accounts,
                        account_indices_vec,
                        mints[i].mint,
                        mints[i].amount,
                    ).is_ok() {
                        token_valid = true;
                    }
                    i = i + 1;
                }
                let mut nft_valid = false;
                let mut k: usize = 0;
                while k < collection_ids.len()
                    invariant
                        k <= collection_ids.len(),
                        nft_valid <==> exists|j: int|
                            0 <= j < k && spec_validate_nft(
                                extra_accounts@,
                                account_indices_vec@,
                                poster,
                                collection_ids@[j],
                                token_program,
                            ) is Ok,
                    decreases collection_ids.len() - k,
                {
                    if self.validate_nft_ownership(
                        poster,
                        extra_accounts,
                        account_indices_vec,
                        collection_ids[k],
                        token_program,
                    ).is_ok() {
                        nft_valid = true;
                    }
                    k = k + 1;
                }
                proof {
                    assert(token_valid == any_token_ok(
                        mints@,
                        extra_accounts@,
                        account_indices_vec@,
                        poster,
                    ));
                    assert(nft_valid == any_collection_ok(
                        collection_ids@,
                        extra_accounts@,
                        account_indices_vec@,
                        poster,
                        token_program,
                    ));
                }
                if token_valid || nft_valid {
                    Ok(())
                } else {
                    Err(PostboxErrorCode::MissingCredentials)
                }
            },
        }
    }
}

/// OR-composition: the any-of-list collection rule succeeds exactly when
/// the single-collection rule succeeds for at least one listed collection,
/// and fails with `MissingCollectionNftRestriction` otherwise.
pub proof fn lemma_nft_list_any_or(
    collection_ids: Seq<Address>,
    actor: Address,
    accounts: Seq<AccountRecord>,
    offsets: Seq<AdditionalAccountIndices>,
    token_program: Address,
)
    ensures
        (spec_validate_rule(
            RuleView::NftListAnyOwnership { collection_ids },
            actor,
            accounts,
            offsets,
            token_program,
        ) is Ok) <==> (exists|i: int|
            0 <= i < collection_ids.len() && spec_validate_rule(
                RuleView::NftOwnership { collection_id: collection_ids[i] },
                actor,
                accounts,
                offsets,
                token_program,
            ) is Ok),
        !(exists|i: int|
            0 <= i < collection_ids.len() && spec_validate_rule(
                RuleView::NftOwnership { collection_id: collection_ids[i] },
                actor,
                accounts,
                offsets,
                token_program,
            ) is Ok) ==> spec_validate_rule(
            RuleView::NftListAnyOwnership { collection_ids },
            actor,
            accounts,
            offsets,
            token_program,
        ) == Err::<(), PostboxErrorCode>(PostboxErrorCode::MissingCollectionNftRestriction),
{
    assert forall|i: int| 0 <= i < collection_ids.len() implies spec_validate_rule(
        RuleView::NftOwnership { collection_id: collection_ids[i] },
        actor,
        accounts,
        offsets,
        token_program,
    ) == spec_validate_nft(accounts, offsets, actor, collection_ids[i], token_program) by {}
}

/// The any-of-list collection rule is order-independent: two lists naming
/// the same collections — in any order, with any repetition — accept and
/// reject the same actors.
pub proof fn lemma_nft_list_order_independent(
    ids1: Seq<Address>,
    ids2: Seq<Address>,
    actor: Address,
    accounts: Seq<AccountRecord>,
    offsets: Seq<AdditionalAccountIndices>,
    token_program: Address,
)
    requires
        forall|c: Address| ids1.contains(c) <==> ids2.contains(c),
    ensures
        spec_validate_rule(
            RuleView::NftListAnyOwnership { collection_ids: ids1 },
            actor,
            accounts,
            offsets,
            token_program,
        ) == spec_validate_rule(
            RuleView::NftListAnyOwnership { collection_ids: ids2 },
            actor,
            accounts,
            offsets,
            token_program,
        ),
{
    if any_collection_ok(ids1, accounts, offsets, actor, token_program) {
        let i = choose|i: int|
            0 <= i < ids1.len() && spec_validate_nft(
                accounts,
                offsets,
                actor,
                ids1[i],
                token_program,
            ) is Ok;
        assert(ids1.contains(ids1[i]));
        let j = choose|j: int| 0 <= j < ids2.len() && ids2[j] == ids1[i];
        assert(spec_validate_nft(accounts, offsets, actor, ids2[j], token_program) is Ok);
    }
    if any_collection_ok(ids2, accounts, offsets, actor, token_program) {
        let i = choose|i: int|
            0 <= i < ids2.len() && spec_validate_nft(
                accounts,
                offsets,
                actor,
                ids2[i],
                token_program,
            ) is Ok;
        assert(ids2.contains(ids2[i]));
        let j = choose|j: int| 0 <= j < ids1.len() && ids1[j] == ids2[i];
        assert(spec_validate_nft(accounts, offsets, actor, ids1[j], token_program) is Ok);
    }
}

} // verus!
