//! Verified core of a decentralized message-board program.
//!
//! A board (`Postbox`) owns a list of tagged configuration entries and an
//! auto-incrementing child-post counter.  Posts are gated by pluggable
//! ownership restrictions that are evaluated against caller-supplied,
//! pre-resolved proof records.  Storage for every mutable record is accounted
//! byte-exactly against the record encoding defined in `codec`, and records
//! grow in place with funding topped up from the caller.
//!
//! The surrounding runtime (account binding, signature checks, address
//! derivation, the actual lamport transfers and credential mints) is a
//! collaborator: the functions here receive its data as plain values and
//! return the actions it must perform.

#![verifier::loop_isolation(false)]

use vstd::prelude::*;

pub mod codec;
pub mod errors;
pub mod post_restrictions;
pub mod records;
pub mod settings;
pub mod treasury;
pub mod vote_entry;

use crate::errors::PostboxErrorCode;
use crate::post_restrictions::AdditionalAccountIndices;
use crate::post_restrictions::spec_validate_rule;
use crate::records::AccountRecord;
use crate::settings::SettingView;
use crate::settings::SettingsData;
use crate::settings::SettingsType;
use crate::settings::find_entry;
use crate::settings::find_setting;
use crate::settings::settings_seq_view;
use crate::settings::spec_upsert;
use crate::settings::wf_settings;
use crate::treasury::FeeSchedule;
use crate::treasury::RentPolicy;
use crate::treasury::StoredRecord;
use crate::treasury::resize_account;
use crate::treasury::transfer_lamports;

verus! {

/// A ledger address (actors, asset classes, records, programs).
pub type Address = u64;

/// A vote counter saturates at this ceiling instead of wrapping.
pub const MAX_VOTE: u16 = 60_000;

/// Each `create_post` may advance the child counter by this much.
pub const POSTBOX_GROW_CHILDREN_BY: u32 = 1;

/// A board: the root record owning configuration and child posts.
#[derive(Debug)]
pub struct Postbox {
    /// One past the highest post id handed out so far.
    pub max_child_id: u32,
    /// The asset class whose holders are this board's moderators.
    pub moderator_mint: Address,
    /// The board's configuration entries, at most one per kind.
    pub settings: Vec<SettingsData>,
}

/// The mathematical value of a `Postbox`.
#[verifier::ext_equal]
pub struct PostboxView {
    pub max_child_id: u32,
    pub moderator_mint: Address,
    pub settings: Seq<SettingView>,
}

impl View for Postbox {
    type V = PostboxView;

    open spec fn view(&self) -> PostboxView {
        PostboxView {
            max_child_id: self.max_child_id,
            moderator_mint: self.moderator_mint,
            settings: settings_seq_view(self.settings@),
        }
    }
}

/// A board is well formed when its settings list holds at most one entry
/// per kind.
pub open spec fn wf_postbox(b: PostboxView) -> bool {
    wf_settings(b.settings)
}

/// A post: one message, optionally a reply, optionally carrying or
/// inheriting a restriction.
#[derive(Debug)]
pub struct Post {
    /// The actor who created the post.
    pub poster: Address,
    /// The message payload.
    pub data: Vec<u8>,
    /// Saturating up-vote counter.
    pub up_votes: u16,
    /// Saturating down-vote counter.
    pub down_votes: u16,
    /// The post this one replies to, if any.
    pub reply_to: Option<Address>,
    /// The post's configuration entries; only a restriction may be set.
    pub settings: Vec<SettingsData>,
}

/// The mathematical value of a `Post`.
#[verifier::ext_equal]
pub struct PostView {
    pub poster: Address,
    pub data: Seq<u8>,
    pub up_votes: u16,
    pub down_votes: u16,
    pub reply_to: Option<Address>,
    pub settings: Seq<SettingView>,
}

impl View for Post {
    type V = PostView;

    open spec fn view(&self) -> PostView {
        PostView {
            poster: self.poster,
            data: self.data@,
            up_votes: self.up_votes,
            down_votes: self.down_votes,
            reply_to: self.reply_to,
            settings: settings_seq_view(self.settings@),
        }
    }
}

/// A post is well formed when its settings are unique per kind and its
/// vote counters sit at or below the ceiling.
pub open spec fn wf_post(p: PostView) -> bool {
    wf_settings(p.settings) && p.up_votes <= MAX_VOTE && p.down_votes <= MAX_VOTE
}

/// Emitted when a post is created, for external indexers.
#[derive(Debug)]
pub struct PostEvent {
    pub poster_pubkey: Address,
    pub postbox_pubkey: Address,
    pub post_pubkey: Address,
    pub post_id: u32,
    pub data: Vec<u8>,
    pub reply_to: Option<Address>,
}

/// Emitted when a post is deleted, for external indexers.
#[derive(Clone, Copy, Debug, PartialEq, Eq, Structural)]
pub struct DeleteEvent {
    pub deleter_pubkey: Address,
    pub postbox_pubkey: Address,
    pub post_pubkey: Address,
    pub post_id: u32,
}

/// The credential issuance `designate_moderator` asks the asset-issuance
/// collaborator to perform.
#[derive(Clone, Copy, Debug, PartialEq, Eq, Structural)]
pub struct ModeratorGrant {
    /// The board's moderation-credential class.
    pub mint: Address,
    /// The new moderator.
    pub recipient: Address,
    /// How many units to issue.
    pub amount: u64,
}

/// The view of an optional borrowed post.
pub open spec fn post_view_opt(p: Option<&Post>) -> Option<PostView> {
    match p {
        Some(post) => Some(post@),
        None => None,
    }
}

/// The view of an optional configuration entry.
pub open spec fn opt_entry_view(o: Option<SettingsData>) -> Option<SettingView> {
    match o {
        Some(entry) => Some(entry@),
        None => None,
    }
}

/// What `validate_post_interaction_is_allowed` decides, over values.
///
/// The applicable restriction is the post's own entry, else the board's
/// default.  Replying while declaring a restriction is rejected outright.
/// Owners skip the rule evaluation when the bypass applies.  When the
/// restriction is the post's own, it is returned for the new record to
/// inherit.
pub open spec fn spec_validate_interaction(
    board: PostboxView,
    post: Option<PostView>,
    interactor: Address,
    accounts: Seq<AccountRecord>,
    offsets: Seq<AdditionalAccountIndices>,
    trying_to_override: bool,
    apply_owner_bypass: bool,
    token_program: Address,
) -> Result<Option<SettingView>, PostboxErrorCode> {
    let from_post = match post {
        Some(p) => find_setting(p.settings, SettingsType::PostRestriction),
        None => None,
    };
    let post_specific = from_post is Some;
    let restriction = if post_specific {
        from_post
    } else {
        find_setting(board.settings, SettingsType::PostRestriction)
    };
    if post is Some && trying_to_override {
        Err(PostboxErrorCode::ReplyCannotRestrictReplies)
    } else {
        match restriction {
            None => Ok(None),
            Some(entry) => match entry {
                SettingView::PostRestriction { post_restriction } => {
                    let allowed = if apply_owner_bypass && spec_has_owner(board, interactor) {
                        Ok(())
                    } else {
                        spec_validate_rule(
                            post_restriction,
                            interactor,
                            accounts,
                            offsets,
                            token_program,
                        )
                    };
                    match allowed {
                        Ok(_) => if post_specific {
                            Ok(Some(entry))
                        } else {
                            Ok(None)
                        },
                        Err(e) => Err(e),
                    }
                },
                _ => Err(PostboxErrorCode::MalformedSetting),
            },
        }
    }
}

/// Whether `actor` is in the board's owner set.
pub open spec fn spec_has_owner(b: PostboxView, actor: Address) -> bool {
    match find_setting(b.settings, SettingsType::OwnerInfo) {
        Some(SettingView::OwnerInfo { owners }) => owners.contains(actor),
        _ => false,
    }
}

/// Copies a list of plain values element by element.
pub fn copy_list<T: Copy>(v: &Vec<T>) -> (r: Vec<T>)
    ensures
        r@ == v@,
{
    let mut r: Vec<T> = Vec::new();
    let mut i: usize = 0;
    while i < v.len()
        invariant
            i <= v.len(),
            r@ =~= v@.take(i as int),
        decreases v.len() - i,
    {
        r.push(v[i]);
        i = i + 1;
    }
    proof {
        assert(r@ =~= v@);
    }
    r
}

/// Whether `x` occurs in `v`.
fn contains_address(v: &Vec<Address>, x: Address) -> (b: bool)
    ensures
        b == v@.contains(x),
{
    let mut i: usize = 0;
    while i < v.len()
        invariant
            i <= v.len(),
            forall|j: int| 0 <= j < i ==> v@[j] != x,
        decreases v.len() - i,
    {
        if v[i] == x {
            return true;
        }
        i = i + 1;
    }
    false
}

impl Postbox {
    /// Whether `potential_owner` may mutate this board's configuration.
    pub fn has_owner(&self, potential_owner: &Address) -> (b: bool)
        ensures
            b == spec_has_owner(self@, *potential_owner),
    {
        match self.get_setting(SettingsType::OwnerInfo) {
            Some(entry) => match entry {
                SettingsData::OwnerInfo { owners } => contains_address(owners, *potential_owner),
                _ => false,
            },
            None => false,
        }
    }

    /// The board's first configuration entry of the given kind, if any.
    pub fn get_setting(&self, settings_type: SettingsType) -> (r: Option<&SettingsData>)
        ensures
            match r {
                Some(entry) => find_setting(self@.settings, settings_type) == Some(entry@),
                None => find_setting(self@.settings, settings_type) is None,
            },
    {
        find_entry(&self.settings, settings_type)
    }

    /// Decides whether `interactor_key` may create a post or reply here,
    /// and which restriction the new record must inherit.
    ///
    /// The restriction that applies is the interacted-with post's own one,
    /// or the board's default when the post has none (or when there is no
    /// post).  A reply may never declare its own restriction.  When the
    /// applicable restriction came from the post, it is returned so the new
    /// record inherits it verbatim.  `apply_owner_bypass` lets board owners
    /// skip the rule evaluation (never the structural checks).
    pub fn validate_post_interaction_is_allowed(
        &self,
        post_for_interaction: Option<&Post>,
        interactor_key: &Address,
        remaining_accounts: &Vec<AccountRecord>,
        additional_account_offsets: &Vec<AdditionalAccountIndices>,
        trying_to_override: bool,
        apply_owner_bypass: bool,
        token_program: Address,
    ) -> (r: Result<Option<SettingsData>, PostboxErrorCode>)
        ensures
            match spec_validate_interaction(
                self@,
                post_view_opt(post_for_interaction),
                *interactor_key,
                remaining_accounts@,
                additional_account_offsets@,
                trying_to_override,
                apply_owner_bypass,
                token_program,
            ) {
                Ok(inherit) => r matches Ok(entry) && opt_entry_view(entry) == inherit,
                Err(e) => r == Err::<Option<SettingsData>, PostboxErrorCode>(e),
            },
    {
        let mut post_specific = false;
        let from_post: Option<&SettingsData> = match post_for_interaction {
            Some(p) => p.get_setting(SettingsType::PostRestriction),
            None => None,
        };
        let restriction: Option<&SettingsData> = if from_post.is_some() {
            post_specific = true;
            from_post
        } else {
            self.get_setting(SettingsType::PostRestriction)
        };
        if post_for_interaction.is_some() && trying_to_override {
            return Err(PostboxErrorCode::ReplyCannotRestrictReplies);
        }
        match restriction {
            None => Ok(None),
            Some(entry) => {
                match entry {
                    SettingsData::PostRestriction { post_restriction } => {
                        let bypass = apply_owner_bypass && self.has_owner(interactor_key);
                        if !bypass {
                            let check = post_restriction.validate_reply_allowed(
                                *interactor_key,
                                remaining_accounts,
                                additional_account_offsets,
                                token_program,
                            );
                            match check {
                                Ok(_) => {},
                                Err(e) => {
                                    return Err(e);
                                },
                            }
                        }
                        if post_specific {
                            Ok(Some(entry.clone()))
                        } else {
                            Ok(None)
                        }
                    },
                    _ => Err(PostboxErrorCode::MalformedSetting),
                }
            },
        }
    }

    /// The exact number of bytes this board's record occupies.
    pub fn get_size(&self) -> (n: usize)
        requires
            codec::postbox_size(self@) <= usize::MAX,
        ensures
            n == codec::postbox_size(self@),
    {
        let fixed: usize = codec::RECORD_TAG_LEN + 4 + codec::ADDRESS_LEN + codec::LEN_PREFIX;
        fixed + settings_total_size(&self.settings)
    }
}

/// The summed exact sizes of a settings list's entries.
fn settings_total_size(settings: &Vec<SettingsData>) -> (n: usize)
    requires
        codec::setting_elems_size(settings_seq_view(settings@)) <= usize::MAX,
    ensures
        n == codec::setting_elems_size(settings_seq_view(settings@)),
{
    let mut size: usize = 0;
    let ghost views = settings_seq_view(settings@);
    let mut i: usize = 0;
    while i < settings.len()
        invariant
            i <= settings.len(),
            size == codec::setting_elems_size(views.take(i as int)),
        decreases settings.len() - i,
    {
        proof {
            assert(views.take(i + 1 as int) =~= views.take(i as int).push(views[i as int]));
            codec::lemma_setting_elems_size_push(views.take(i as int), views[i as int]);
            codec::lemma_setting_elems_size_prefix(views, i + 1 as int);
        }
        size = size + settings[i].get_size();
        i = i + 1;
    }
    proof {
        assert(views.take(views.len() as int) =~= views);
    }
    size
}

/// The view of an optional reply target (its address and its record).
pub open spec fn reply_view(r: Option<(Address, &Post)>) -> Option<(Address, PostView)> {
    match r {
        Some((key, post)) => Some((key, post@)),
        None => None,
    }
}

/// Folds caller-supplied entries into a fresh post's settings list; every
/// entry must be a restriction, later entries of a kind replacing earlier
/// ones.
pub open spec fn build_settings_from(
    passed: Seq<SettingView>,
    i: nat,
    acc: Seq<SettingView>,
) -> Result<Seq<SettingView>, PostboxErrorCode>
    decreases passed.len() - i,
{
    if i >= passed.len() {
        Ok(acc)
    } else if passed[i as int].kind() != SettingsType::PostRestriction {
        Err(PostboxErrorCode::PostInvalidSettingsType)
    } else {
        build_settings_from(passed, i + 1, spec_upsert(acc, passed[i as int]))
    }
}

/// What `create_post` does, over values: check the id against the counter,
/// fold the caller's settings, gate on the applicable restriction (with
/// owner bypass), inherit a replying post's restriction, and advance the
/// counter by one when the id reaches it.
pub open spec fn spec_create_post(
    board: PostboxView,
    poster: Address,
    data: Seq<u8>,
    post_id: u32,
    passed: Seq<SettingView>,
    reply_to: Option<(Address, PostView)>,
    accounts: Seq<AccountRecord>,
    offsets: Seq<AdditionalAccountIndices>,
    token_program: Address,
) -> Result<(PostboxView, PostView), PostboxErrorCode> {
    if post_id > board.max_child_id + POSTBOX_GROW_CHILDREN_BY {
        Err(PostboxErrorCode::PostIdTooLarge)
    } else {
        match build_settings_from(passed, 0, Seq::empty()) {
            Err(e) => Err(e),
            Ok(initial_settings) => {
                let trying = find_setting(initial_settings, SettingsType::PostRestriction) is Some;
                let reply_post = match reply_to {
                    Some((key, post)) => Some(post),
                    None => None,
                };
                match spec_validate_interaction(
                    board,
                    reply_post,
                    poster,
                    accounts,
                    offsets,
                    trying,
                    true,
                    token_program,
                ) {
                    Err(e) => Err(e),
                    Ok(inherit) => {
                        let final_settings = match inherit {
                            Some(entry) => spec_upsert(initial_settings, entry),
                            None => initial_settings,
                        };
                        let new_max = if post_id >= board.max_child_id {
                            (board.max_child_id + POSTBOX_GROW_CHILDREN_BY) as u32
                        } else {
                            board.max_child_id
                        };
                        Ok(
                            (
                                PostboxView { max_child_id: new_max, ..board },
                                PostView {
                                    poster,
                                    data,
                                    up_votes: 0,
                                    down_votes: 0,
                                    reply_to: match reply_to {
                                        Some((key, post)) => Some(key),
                                        None => None,
                                    },
                                    settings: final_settings,
                                },
                            ),
                        )
                    },
                }
            },
        }
    }
}

/// One successful `create_post`, as a relation between the board value
/// before and after: some request takes the first board to the second.
pub open spec fn create_step(b1: PostboxView, b2: PostboxView) -> bool {
    exists|
        poster: Address,
        data: Seq<u8>,
        post_id: u32,
        passed: Seq<SettingView>,
        reply_to: Option<(Address, PostView)>,
        accounts: Seq<AccountRecord>,
        offsets: Seq<AdditionalAccountIndices>,
        token_program: Address,
    |
        {
            let outcome = #[trigger] spec_create_post(
                b1,
                poster,
                data,
                post_id,
                passed,
                reply_to,
                accounts,
                offsets,
                token_program,
            );
            outcome matches Ok((next, post)) && next == b2
        }
}

/// Counter monotonicity, one step: a successful creation never decreases
/// the child counter and advances it by at most one.
pub proof fn lemma_counter_step(b1: PostboxView, b2: PostboxView)
    requires
        create_step(b1, b2),
        b1.max_child_id < u32::MAX,
    ensures
        b1.max_child_id <= b2.max_child_id <= b1.max_child_id + POSTBOX_GROW_CHILDREN_BY,
{
    let (poster, data, post_id, passed, reply_to, accounts, offsets, token_program) = choose|
        poster: Address,
        data: Seq<u8>,
        post_id: u32,
        passed: Seq<SettingView>,
        reply_to: Option<(Address, PostView)>,
        accounts: Seq<AccountRecord>,
        offsets: Seq<AdditionalAccountIndices>,
        token_program: Address,
    |
        {
            let outcome = #[trigger] spec_create_post(
                b1,
                poster,
                data,
                post_id,
                passed,
                reply_to,
                accounts,
                offsets,
                token_program,
            );
            outcome matches Ok((next, post)) && next == b2
        };
    assert(spec_create_post(
        b1,
        poster,
        data,
        post_id,
        passed,
        reply_to,
        accounts,
        offsets,
        token_program,
    ) matches Ok((next, post)) && next == b2);
}

/// Counter monotonicity over any run of successful creations: along a
/// chain of boards where each arises from the previous by `create_post`,
/// the child counter never decreases.
pub proof fn lemma_counter_monotone(chain: Seq<PostboxView>)
    requires
        forall|i: int| #![trigger chain[i]] 0 <= i < chain.len() - 1 ==> create_step(
            chain[i],
            chain[i + 1],
        ),
        forall|i: int| 0 <= i < chain.len() ==> (#[trigger] chain[i].max_child_id) < u32::MAX,
    ensures
        forall|i: int, j: int|
            0 <= i <= j < chain.len() ==> chain[i].max_child_id <= chain[j].max_child_id,
{
    assert forall|i: int, j: int|
        0 <= i <= j < chain.len() implies chain[i].max_child_id <= chain[j].max_child_id by {
        lemma_counter_monotone_upto(chain, i, j);
    }
}

/// The counter does not decrease between two positions of a creation
/// chain.
proof fn lemma_counter_monotone_upto(chain: Seq<PostboxView>, i: int, j: int)
    requires
        forall|k: int| #![trigger chain[k]] 0 <= k < chain.len() - 1 ==> create_step(
            chain[k],
            chain[k + 1],
        ),
        forall|k: int| 0 <= k < chain.len() ==> (#[trigger] chain[k].max_child_id) < u32::MAX,
        0 <= i <= j < chain.len(),
    ensures
        chain[i].max_child_id <= chain[j].max_child_id,
    decreases j - i,
{
    if i < j {
        lemma_counter_monotone_upto(chain, i, j - 1);
        lemma_counter_step(chain[j - 1], chain[j]);
    }
}

/// An inherited entry handed back by the interaction check is always a
/// restriction.
pub proof fn lemma_inherit_is_restriction(
    board: PostboxView,
    post: Option<PostView>,
    interactor: Address,
    accounts: Seq<AccountRecord>,
    offsets: Seq<AdditionalAccountIndices>,
    trying_to_override: bool,
    apply_owner_bypass: bool,
    token_program: Address,
)
    ensures
        spec_validate_interaction(
            board,
            post,
            interactor,
            accounts,
            offsets,
            trying_to_override,
            apply_owner_bypass,
            token_program,
        ) matches Ok(Some(entry)) ==> entry.kind() == SettingsType::PostRestriction,
{
}

/// Creates a post on the board.
///
/// On success the returned post carries the poster, the payload, zeroed
/// vote counters, the reply link, and — for a reply — the parent's
/// restriction verbatim; the board's child counter advances by exactly one
/// when `post_id` reaches it and is untouched otherwise, and the flat post
/// fee moves from the poster to the fee sink.  On any error nothing is
/// mutated.  An id more than one ahead of the counter is always rejected.
pub fn create_post(
    postbox: &mut Postbox,
    poster: Address,
    poster_lamports: &mut u64,
    treasury_lamports: &mut u64,
    data: Vec<u8>,
    post_id: u32,
    settings: Vec<SettingsData>,
    reply_to: Option<(Address, &Post)>,
    remaining_accounts: &Vec<AccountRecord>,
    additional_account_offsets: &Vec<AdditionalAccountIndices>,
    token_program: Address,
    postbox_key: Address,
    post_key: Address,
    fees: &FeeSchedule,
) -> (r: Result<(Post, PostEvent), PostboxErrorCode>)
    requires
        old(postbox).max_child_id < u32::MAX,
        *old(treasury_lamports) + fees.fee_post <= u64::MAX,
    ensures
        match spec_create_post(
            old(postbox)@,
            poster,
            data@,
            post_id,
            settings_seq_view(settings@),
            reply_view(reply_to),
            remaining_accounts@,
            additional_account_offsets@,
            token_program,
        ) {
            Ok((new_board, new_post)) => {
                if *old(poster_lamports) >= fees.fee_post {
                    &&& r matches Ok((post, event))
                    &&& post@ == new_post
                    &&& final(postbox)@ == new_board
                    &&& *final(poster_lamports) == *old(poster_lamports) - fees.fee_post
                    &&& *final(treasury_lamports) == *old(treasury_lamports) + fees.fee_post
                    &&& event.poster_pubkey == poster
                    &&& event.postbox_pubkey == postbox_key
                    &&& event.post_pubkey == post_key
                    &&& event.post_id == post_id
                    &&& event.data@ == new_post.data
                    &&& event.reply_to == new_post.reply_to
                } else {
                    &&& r == Err::<(Post, PostEvent), PostboxErrorCode>(
                        PostboxErrorCode::InsufficientFunds,
                    )
                    &&& *final(postbox) == *old(postbox)
                    &&& *final(poster_lamports) == *old(poster_lamports)
                    &&& *final(treasury_lamports) == *old(treasury_lamports)
                }
            },
            Err(e) => {
                &&& r == Err::<(Post, PostEvent), PostboxErrorCode>(e)
                &&& *final(postbox) == *old(postbox)
                &&& *final(poster_lamports) == *old(poster_lamports)
                &&& *final(treasury_lamports) == *old(treasury_lamports)
            },
        },
        r matches Ok((post, event)) ==> wf_post(post@),
        old(postbox).max_child_id <= final(postbox).max_child_id <= old(
            postbox,
        ).max_child_id + POSTBOX_GROW_CHILDREN_BY,
        r is Err ==> *final(postbox) == *old(postbox),
        post_id > old(postbox).max_child_id + POSTBOX_GROW_CHILDREN_BY ==> r == Err::<
            (Post, PostEvent),
            PostboxErrorCode,
        >(PostboxErrorCode::PostIdTooLarge),
{
    let ghost data0 = data@;
    let ghost passed = settings_seq_view(settings@);
    if post_id > postbox.max_child_id + POSTBOX_GROW_CHILDREN_BY {
        return Err(PostboxErrorCode::PostIdTooLarge);
    }
    let reply_key: Option<Address> = match reply_to {
        Some((key, _)) => Some(key),
        None => None,
    };
    let mut post_account = Post {
        poster,
        data,
        up_votes: 0,
        down_votes: 0,
        reply_to: reply_key,
        settings: Vec::new(),
    };
    proof {
        assert(post_account@.settings =~= Seq::<SettingView>::empty());
    }
    let mut i: usize = 0;
    while i < settings.len()
        invariant
            i <= settings.len(),
            build_settings_from(passed, 0, Seq::empty()) == build_settings_from(
                passed,
                i as nat,
                post_account@.settings,
            ),
            post_account.poster == poster,
            post_account@.data == data0,
            post_account.up_votes == 0,
            post_account.down_votes == 0,
            post_account.reply_to == reply_key,
        decreases settings.len() - i,
    {
        let set_result = post_account.set_setting(&settings[i]);
        match set_result {
            Ok(_) => {},
            Err(e) => {
                return Err(e);
            },
        }
        i = i + 1;
    }
    let trying_to_override = post_account.get_setting(SettingsType::PostRestriction).is_some();
    let reply_post: Option<&Post> = match reply_to {
        Some((_, post)) => Some(post),
        None => None,
    };
    let interaction = postbox.validate_post_interaction_is_allowed(
        reply_post,
        &poster,
        remaining_accounts,
        additional_account_offsets,
        trying_to_override,
        true,
        token_program,
    );
    let optional_override = match interaction {
        Ok(inherit) => inherit,
        Err(e) => {
            return Err(e);
        },
    };
    proof {
        lemma_build_settings_wf(passed, 0, Seq::empty());
    }
    match optional_override {
        Some(restriction) => {
            proof {
                lemma_inherit_is_restriction(
                    postbox@,
                    post_view_opt(reply_post),
                    poster,
                    remaining_accounts@,
                    additional_account_offsets@,
                    trying_to_override,
                    true,
                    token_program,
                );
                crate::settings::lemma_upsert_preserves_wf(post_account@.settings, restriction@);
            }
            let set_result = post_account.set_setting(&restriction);
            match set_result {
                Ok(_) => {},
                Err(e) => {
                    return Err(e);
                },
            }
        },
        None => {},
    }
    match transfer_lamports(poster_lamports, treasury_lamports, fees.fee_post) {
        Ok(_) => {},
        Err(e) => {
            return Err(e);
        },
    }
    if post_id >= postbox.max_child_id {
        postbox.max_child_id = postbox.max_child_id + POSTBOX_GROW_CHILDREN_BY;
    }
    let event = PostEvent {
        poster_pubkey: poster,
        postbox_pubkey: postbox_key,
        post_pubkey: post_key,
        post_id,
        data: copy_list(&post_account.data),
        reply_to: post_account.reply_to,
    };
    Ok((post_account, event))
}

/// Owner bypass: an actor in the board's owner set can always create a
/// top-level post without supplying any proofs, whatever default
/// restriction the board declares.
pub proof fn lemma_owner_bypass(
    board: PostboxView,
    poster: Address,
    data: Seq<u8>,
    post_id: u32,
    accounts: Seq<AccountRecord>,
    offsets: Seq<AdditionalAccountIndices>,
    token_program: Address,
)
    requires
        spec_has_owner(board, poster),
        post_id <= board.max_child_id + POSTBOX_GROW_CHILDREN_BY,
    ensures
        spec_create_post(
            board,
            poster,
            data,
            post_id,
            Seq::empty(),
            None,
            accounts,
            offsets,
            token_program,
        ) is Ok,
{
    crate::settings::lemma_find_from_characterization(
        board.settings,
        SettingsType::PostRestriction,
        0,
    );
    match find_setting(board.settings, SettingsType::PostRestriction) {
        None => {},
        Some(entry) => {
            let k = choose|k: int|
                0 <= k < board.settings.len() && board.settings[k] == entry
                    && #[trigger] board.settings[k].kind() == SettingsType::PostRestriction;
            assert(entry.kind() == SettingsType::PostRestriction);
        },
    }
}

/// Folding well-formed entries keeps the accumulator well formed.
pub proof fn lemma_build_settings_wf(passed: Seq<SettingView>, i: nat, acc: Seq<SettingView>)
    requires
        crate::settings::wf_settings(acc),
    ensures
        build_settings_from(passed, i, acc) matches Ok(s) ==> crate::settings::wf_settings(s),
    decreases passed.len() - i,
{
    if i < passed.len() && passed[i as int].kind() == SettingsType::PostRestriction {
        crate::settings::lemma_upsert_preserves_wf(acc, passed[i as int]);
        lemma_build_settings_wf(passed, i + 1, spec_upsert(acc, passed[i as int]));
    }
}

/// Restriction inheritance: a reply that is created successfully carries
/// exactly its parent's restriction entry — present or absent — and a
/// reply whose caller supplies a restriction of its own is always
/// rejected.
pub proof fn lemma_reply_inheritance(
    board: PostboxView,
    poster: Address,
    data: Seq<u8>,
    post_id: u32,
    passed: Seq<SettingView>,
    reply_key: Address,
    parent: PostView,
    accounts: Seq<AccountRecord>,
    offsets: Seq<AdditionalAccountIndices>,
    token_program: Address,
)
    ensures
        spec_create_post(
            board,
            poster,
            data,
            post_id,
            passed,
            Some((reply_key, parent)),
            accounts,
            offsets,
            token_program,
        ) matches Ok((new_board, new_post)) ==> find_setting(
            new_post.settings,
            SettingsType::PostRestriction,
        ) == find_setting(parent.settings, SettingsType::PostRestriction),
        (build_settings_from(passed, 0, Seq::empty()) matches Ok(own) && find_setting(
            own,
            SettingsType::PostRestriction,
        ) is Some && post_id <= board.max_child_id + POSTBOX_GROW_CHILDREN_BY) ==> spec_create_post(
            board,
            poster,
            data,
            post_id,
            passed,
            Some((reply_key, parent)),
            accounts,
            offsets,
            token_program,
        ) == Err::<(PostboxView, PostView), PostboxErrorCode>(
            PostboxErrorCode::ReplyCannotRestrictReplies,
        ),
{
    let outcome = spec_create_post(
        board,
        poster,
        data,
        post_id,
        passed,
        Some((reply_key, parent)),
        accounts,
        offsets,
        token_program,
    );
    if outcome is Ok {
        let own = build_settings_from(passed, 0, Seq::empty())->Ok_0;
        lemma_build_settings_wf(passed, 0, Seq::empty());
        crate::settings::lemma_find_from_characterization(
            parent.settings,
            SettingsType::PostRestriction,
            0,
        );
        match find_setting(parent.settings, SettingsType::PostRestriction) {
            None => {},
            Some(entry) => {
                let k = choose|k: int|
                    0 <= k < parent.settings.len() && parent.settings[k] == entry
                        && #[trigger] parent.settings[k].kind() == SettingsType::PostRestriction;
                assert(entry.kind() == SettingsType::PostRestriction);
                crate::settings::lemma_find_after_upsert(
                    own,
                    entry,
                    SettingsType::PostRestriction,
                );
            },
        }
    }
}

/// A vote counter after one more vote: one higher, except at the ceiling,
/// where it stays put.
pub open spec fn saturating_bump(count: u16) -> u16 {
    if count == MAX_VOTE {
        count
    } else {
        (count + 1) as u16
    }
}

/// Whether a voter may vote on this post: the post's own restriction is
/// evaluated (never the board default); owners skip it only when the
/// deployment enables the vote-time bypass.
pub open spec fn spec_vote_allowed(
    board: PostboxView,
    post: PostView,
    voter: Address,
    accounts: Seq<AccountRecord>,
    offsets: Seq<AdditionalAccountIndices>,
    bypass_on_vote: bool,
    token_program: Address,
) -> Result<(), PostboxErrorCode> {
    match find_setting(post.settings, SettingsType::PostRestriction) {
        None => Ok(()),
        Some(entry) => match entry {
            SettingView::PostRestriction { post_restriction } => {
                if bypass_on_vote && spec_has_owner(board, voter) {
                    Ok(())
                } else {
                    spec_validate_rule(post_restriction, voter, accounts, offsets, token_program)
                }
            },
            _ => Err(PostboxErrorCode::MalformedSetting),
        },
    }
}

/// Votes on a post: evaluates the post's own restriction against the
/// voter, bumps the chosen counter (saturating at the ceiling, never
/// wrapping), and charges the flat vote fee.  On any error nothing is
/// mutated.
pub fn vote(
    postbox: &Postbox,
    post: &mut Post,
    voter: Address,
    voter_lamports: &mut u64,
    treasury_lamports: &mut u64,
    up_vote: bool,
    remaining_accounts: &Vec<AccountRecord>,
    additional_account_offsets: &Vec<AdditionalAccountIndices>,
    bypass_on_vote: bool,
    token_program: Address,
    fees: &FeeSchedule,
) -> (r: Result<(), PostboxErrorCode>)
    requires
        wf_post(old(post)@),
        *old(treasury_lamports) + fees.fee_vote <= u64::MAX,
    ensures
        match spec_vote_allowed(
            postbox@,
            old(post)@,
            voter,
            remaining_accounts@,
            additional_account_offsets@,
            bypass_on_vote,
            token_program,
        ) {
            Ok(_) => {
                if *old(voter_lamports) >= fees.fee_vote {
                    &&& r is Ok
                    &&& up_vote ==> final(post)@ == (PostView {
                        up_votes: saturating_bump(old(post).up_votes),
                        ..old(post)@
                    })
                    &&& !up_vote ==> final(post)@ == (PostView {
                        down_votes: saturating_bump(old(post).down_votes),
                        ..old(post)@
                    })
                    &&& *final(voter_lamports) == *old(voter_lamports) - fees.fee_vote
                    &&& *final(treasury_lamports) == *old(treasury_lamports) + fees.fee_vote
                } else {
                    &&& r == Err::<(), PostboxErrorCode>(PostboxErrorCode::InsufficientFunds)
                    &&& *final(post) == *old(post)
                    &&& *final(voter_lamports) == *old(voter_lamports)
                    &&& *final(treasury_lamports) == *old(treasury_lamports)
                }
            },
            Err(e) => {
                &&& r == Err::<(), PostboxErrorCode>(e)
                &&& *final(post) == *old(post)
                &&& *final(voter_lamports) == *old(voter_lamports)
                &&& *final(treasury_lamports) == *old(treasury_lamports)
            },
        },
        wf_post(final(post)@),
{
    let allowed: Result<(), PostboxErrorCode> = match post.get_setting(
        SettingsType::PostRestriction,
    ) {
        None => Ok(()),
        Some(entry) => match entry {
            SettingsData::PostRestriction { post_restriction } => {
                if bypass_on_vote && postbox.has_owner(&voter) {
                    Ok(())
                } else {
                    post_restriction.validate_reply_allowed(
                        voter,
                        remaining_accounts,
                        additional_account_offsets,
                        token_program,
                    )
                }
            },
            _ => Err(PostboxErrorCode::MalformedSetting),
        },
    };
    match allowed {
        Ok(_) => {},
        Err(e) => {
            return Err(e);
        },
    }
    match transfer_lamports(voter_lamports, treasury_lamports, fees.fee_vote) {
        Ok(_) => {},
        Err(e) => {
            return Err(e);
        },
    }
    if up_vote {
        if post.up_votes != MAX_VOTE {
            post.up_votes = post.up_votes + 1;
        }
    } else {
        if post.down_votes != MAX_VOTE {
            post.down_votes = post.down_votes + 1;
        }
    }
    Ok(())
}

/// Deletes a post at its poster's request: the caller must be the stored
/// poster, and the record's storage funding flows back to them.  The
/// caller destroys the record on success.
pub fn delete_own_post(
    post: &Post,
    post_lamports: u64,
    poster: Address,
    poster_lamports: &mut u64,
    postbox_key: Address,
    post_key: Address,
    post_id: u32,
) -> (r: Result<DeleteEvent, PostboxErrorCode>)
    requires
        *old(poster_lamports) + post_lamports <= u64::MAX,
    ensures
        poster == post.poster ==> r == Ok::<DeleteEvent, PostboxErrorCode>(
            DeleteEvent {
                deleter_pubkey: poster,
                postbox_pubkey: postbox_key,
                post_pubkey: post_key,
                post_id,
            },
        ) && *final(poster_lamports) == *old(poster_lamports) + post_lamports,
        poster != post.poster ==> r == Err::<DeleteEvent, PostboxErrorCode>(
            PostboxErrorCode::NotThePoster,
        ) && *final(poster_lamports) == *old(poster_lamports),
{
    if poster != post.poster {
        return Err(PostboxErrorCode::NotThePoster);
    }
    *poster_lamports = *poster_lamports + post_lamports;
    Ok(DeleteEvent { deleter_pubkey: poster, postbox_pubkey: postbox_key, post_pubkey: post_key, post_id })
}

/// Whether a record proves that `moderator` holds at least one unit of the
/// board's moderation credential.
pub open spec fn spec_moderator_credential(
    board: PostboxView,
    moderator: Address,
    credential: AccountRecord,
) -> bool {
    match credential.content {
        crate::records::RecordContent::TokenAccount { owner, mint, amount } => {
            owner == moderator && mint == board.moderator_mint && amount > 0
        },
        _ => false,
    }
}

/// Deletes a post at a moderator's request: the caller must show a balance
/// of the board's moderation credential, and the record's storage funding
/// flows back to the stored poster.  The caller destroys the record on
/// success.
pub fn delete_post_by_moderator(
    postbox: &Postbox,
    post: &Post,
    post_lamports: u64,
    moderator: Address,
    credential: &AccountRecord,
    poster_lamports: &mut u64,
    postbox_key: Address,
    post_key: Address,
    post_id: u32,
) -> (r: Result<DeleteEvent, PostboxErrorCode>)
    requires
        *old(poster_lamports) + post_lamports <= u64::MAX,
    ensures
        spec_moderator_credential(postbox@, moderator, *credential) ==> r == Ok::<
            DeleteEvent,
            PostboxErrorCode,
        >(
            DeleteEvent {
                deleter_pubkey: moderator,
                postbox_pubkey: postbox_key,
                post_pubkey: post_key,
                post_id,
            },
        ) && *final(poster_lamports) == *old(poster_lamports) + post_lamports,
        !spec_moderator_credential(postbox@, moderator, *credential) ==> r == Err::<
            DeleteEvent,
            PostboxErrorCode,
        >(PostboxErrorCode::MissingModeratorCredential) && *final(poster_lamports) == *old(
            poster_lamports,
        ),
{
    let holds_credential = match credential.content {
        crate::records::RecordContent::TokenAccount { owner, mint, amount } => {
            owner == moderator && mint == postbox.moderator_mint && amount > 0
        },
        _ => false,
    };
    if !holds_credential {
        return Err(PostboxErrorCode::MissingModeratorCredential);
    }
    *poster_lamports = *poster_lamports + post_lamports;
    Ok(
        DeleteEvent {
            deleter_pubkey: moderator,
            postbox_pubkey: postbox_key,
            post_pubkey: post_key,
            post_id,
        },
    )
}

/// Asks for one unit of the board's moderation credential to be issued to
/// `new_moderator`; gated on the caller being a board owner.  The returned
/// grant is what the asset-issuance collaborator must perform, signed on
/// the board's behalf; no board state changes.
pub fn designate_moderator(postbox: &Postbox, owner: Address, new_moderator: Address) -> (r: Result<
    ModeratorGrant,
    PostboxErrorCode,
>)
    ensures
        spec_has_owner(postbox@, owner) ==> r == Ok::<ModeratorGrant, PostboxErrorCode>(
            ModeratorGrant { mint: postbox.moderator_mint, recipient: new_moderator, amount: 1 },
        ),
        !spec_has_owner(postbox@, owner) ==> r == Err::<ModeratorGrant, PostboxErrorCode>(
            PostboxErrorCode::NotAnOwner,
        ),
{
    if !postbox.has_owner(&owner) {
        return Err(PostboxErrorCode::NotAnOwner);
    }
    Ok(ModeratorGrant { mint: postbox.moderator_mint, recipient: new_moderator, amount: 1 })
}

impl Post {
    /// The post's first configuration entry of the given kind, if any.
    pub fn get_setting(&self, settings_type: SettingsType) -> (r: Option<&SettingsData>)
        ensures
            match r {
                Some(entry) => find_setting(self@.settings, settings_type) == Some(entry@),
                None => find_setting(self@.settings, settings_type) is None,
            },
    {
        find_entry(&self.settings, settings_type)
    }

    /// Attaches a configuration entry to the post; only restrictions make
    /// sense here, anything else is rejected.  Replaces any entry of the
    /// same kind.
    pub fn set_setting(&mut self, new_setting: &SettingsData) -> (r: Result<(), PostboxErrorCode>)
        ensures
            new_setting@.kind() != SettingsType::PostRestriction ==> r == Err::<
                (),
                PostboxErrorCode,
            >(PostboxErrorCode::PostInvalidSettingsType) && *final(self) == *old(self),
            new_setting@.kind() == SettingsType::PostRestriction ==> r is Ok && final(self)@ == (
            PostView {
                settings: crate::settings::spec_upsert(old(self)@.settings, new_setting@),
                ..old(self)@
            }),
    {
        let entry_type = new_setting.get_type();
        if !(entry_type == SettingsType::PostRestriction) {
            return Err(PostboxErrorCode::PostInvalidSettingsType);
        }
        crate::settings::upsert_entry(&mut self.settings, new_setting.clone());
        Ok(())
    }
}

/// What `initialize` builds, over values: the signer must be among the
/// offered owners; an empty subject makes a personal board whose target
/// must be the signer; the optional description must really be one.
pub open spec fn spec_initialize(
    target: Seq<u8>,
    target_key: Address,
    signer: Address,
    owners: Seq<Address>,
    desc: Option<SettingView>,
    moderator_mint: Address,
) -> Result<PostboxView, PostboxErrorCode> {
    if !owners.contains(signer) {
        Err(PostboxErrorCode::NotAnOwner)
    } else if target.len() == 0 && target_key != signer {
        Err(PostboxErrorCode::NotPersonalPostbox)
    } else {
        let base = seq![SettingView::OwnerInfo { owners }];
        match desc {
            None => Ok(PostboxView { max_child_id: 0, moderator_mint, settings: base }),
            Some(entry) => match entry {
                SettingView::Description { .. } => Ok(
                    PostboxView { max_child_id: 0, moderator_mint, settings: base.push(entry) },
                ),
                _ => Err(PostboxErrorCode::BadDescriptionSetting),
            },
        }
    }
}

/// The creation fee: personal boards (empty subject) get the cheaper tier.
pub open spec fn spec_initialize_fee(target: Seq<u8>, fees: FeeSchedule) -> u64 {
    if target.len() == 0 {
        fees.fee_new_personal_box
    } else {
        fees.fee_new_postbox
    }
}

/// The view of an optional owned configuration entry.
pub open spec fn opt_owned_entry_view(o: &Option<SettingsData>) -> Option<SettingView> {
    match o {
        Some(entry) => Some(entry@),
        None => None,
    }
}

/// Creates a board for the given subject: installs the owner set and the
/// optional description, zeroes the child counter, binds the board to its
/// moderation-credential class, and charges the tiered creation fee.  On
/// any error no board exists and nothing is charged.
pub fn initialize(
    target: &Vec<u8>,
    target_key: Address,
    signer: Address,
    signer_lamports: &mut u64,
    treasury_lamports: &mut u64,
    owners: Vec<Address>,
    desc: Option<SettingsData>,
    moderator_mint: Address,
    fees: &FeeSchedule,
) -> (r: Result<Postbox, PostboxErrorCode>)
    requires
        *old(treasury_lamports) + spec_initialize_fee(target@, *fees) <= u64::MAX,
    ensures
        match spec_initialize(
            target@,
            target_key,
            signer,
            owners@,
            opt_owned_entry_view(&desc),
            moderator_mint,
        ) {
            Ok(board_view) => {
                if *old(signer_lamports) >= spec_initialize_fee(target@, *fees) {
                    &&& r matches Ok(board)
                    &&& board@ == board_view
                    &&& wf_postbox(board@)
                    &&& *final(signer_lamports) == *old(signer_lamports) - spec_initialize_fee(
                        target@,
                        *fees,
                    )
                    &&& *final(treasury_lamports) == *old(treasury_lamports) + spec_initialize_fee(
                        target@,
                        *fees,
                    )
                } else {
                    &&& r == Err::<Postbox, PostboxErrorCode>(PostboxErrorCode::InsufficientFunds)
                    &&& *final(signer_lamports) == *old(signer_lamports)
                    &&& *final(treasury_lamports) == *old(treasury_lamports)
                }
            },
            Err(e) => {
                &&& r == Err::<Postbox, PostboxErrorCode>(e)
                &&& *final(signer_lamports) == *old(signer_lamports)
                &&& *final(treasury_lamports) == *old(treasury_lamports)
            },
        },
{
    if !contains_address(&owners, signer) {
        return Err(PostboxErrorCode::NotAnOwner);
    }
    let mut fee = fees.fee_new_postbox;
    if target.len() == 0 {
        if target_key != signer {
            return Err(PostboxErrorCode::NotPersonalPostbox);
        }
        fee = fees.fee_new_personal_box;
    }
    let ghost owners0 = owners@;
    let mut board_settings: Vec<SettingsData> = Vec::new();
    board_settings.push(SettingsData::OwnerInfo { owners });
    match desc {
        None => {},
        Some(entry) => match entry {
            SettingsData::Description { title, desc: description } => {
                board_settings.push(SettingsData::Description { title, desc: description });
            },
            _ => {
                return Err(PostboxErrorCode::BadDescriptionSetting);
            },
        },
    }
    match transfer_lamports(signer_lamports, treasury_lamports, fee) {
        Ok(_) => {},
        Err(e) => {
            return Err(e);
        },
    }
    let board = Postbox { max_child_id: 0, moderator_mint, settings: board_settings };
    proof {
        assert(board@.settings =~= spec_initialize(
            target@,
            target_key,
            signer,
            owners0,
            opt_owned_entry_view(&desc),
            moderator_mint,
        )->Ok_0.settings);
    }
    Ok(board)
}

/// The summed sizes of the caller-supplied entries, skipping restrictions
/// when the new post inherits one instead of carrying its own.
pub open spec fn passed_settings_size(
    passed: Seq<SettingView>,
    skip_restrictions: bool,
    i: nat,
) -> nat
    decreases passed.len() - i,
{
    if i >= passed.len() {
        0
    } else {
        let rest = passed_settings_size(passed, skip_restrictions, i + 1);
        if skip_restrictions && passed[i as int].kind() == SettingsType::PostRestriction {
            rest
        } else {
            rest + codec::setting_size(passed[i as int])
        }
    }
}

/// The exact storage a new post needs, computable before it is written.
///
/// The restriction is charged once: a reply to a restricted post is sized
/// for the inherited restriction (and any restriction the caller supplied
/// is not charged); a fresh post is sized for the caller's own entries.
pub open spec fn spec_projected_size(
    passed: Seq<SettingView>,
    reply: Option<PostView>,
    data: Seq<u8>,
) -> nat {
    let inherited = match reply {
        Some(parent) => match find_setting(parent.settings, SettingsType::PostRestriction) {
            Some(entry) => codec::setting_size(entry) as int,
            None => 0,
        },
        None => 0,
    };
    let has_inherited = match reply {
        Some(parent) => find_setting(parent.settings, SettingsType::PostRestriction) is Some,
        None => false,
    };
    (codec::RECORD_TAG_LEN + codec::ADDRESS_LEN + codec::LEN_PREFIX + data.len() + 2 + 2 + 1 + (
    if reply is Some {
        codec::ADDRESS_LEN as int
    } else {
        0
    }) + codec::LEN_PREFIX + inherited + passed_settings_size(passed, has_inherited, 0)) as nat
}

/// Computes the exact storage a new post needs.
pub fn get_post_projected_size(
    passed_settings: &Vec<SettingsData>,
    reply_to: Option<&Post>,
    data: &Vec<u8>,
) -> (n: usize)
    requires
        spec_projected_size(
            settings_seq_view(passed_settings@),
            post_view_opt(reply_to),
            data@,
        ) <= usize::MAX,
    ensures
        n == spec_projected_size(settings_seq_view(passed_settings@), post_view_opt(reply_to), data@),
{
    let ghost passed = settings_seq_view(passed_settings@);
    let ghost total = spec_projected_size(passed, post_view_opt(reply_to), data@);
    let mut size: usize = codec::RECORD_TAG_LEN + codec::ADDRESS_LEN + codec::LEN_PREFIX + 2 + 2
        + 1 + codec::LEN_PREFIX;
    size = size + data.len();
    let mut allow_restriction = true;
    match reply_to {
        Some(parent) => {
            size = size + codec::ADDRESS_LEN;
            match parent.get_setting(SettingsType::PostRestriction) {
                Some(restriction) => {
                    size = size + restriction.get_size();
                    allow_restriction = false;
                },
                None => {},
            }
        },
        None => {},
    }
    let skip = !allow_restriction;
    let mut i: usize = 0;
    while i < passed_settings.len()
        invariant
            i <= passed_settings.len(),
            total == size + passed_settings_size(passed, skip, i as nat),
        decreases passed_settings.len() - i,
    {
        let entry_type = passed_settings[i].get_type();
        if !(skip && entry_type == SettingsType::PostRestriction) {
            size = size + passed_settings[i].get_size();
        }
        i = i + 1;
    }
    size
}

/// The sizer and the creator agree: a post that `create_post` accepts
/// occupies exactly the storage `get_post_projected_size` quoted for its
/// arguments, the inherited or supplied restriction charged once.  (With
/// several supplied entries of one kind the quote counts them all while
/// the store keeps the last, so the quote is stated for at most one.)
pub proof fn lemma_projected_size_exact(
    board: PostboxView,
    poster: Address,
    data: Seq<u8>,
    post_id: u32,
    passed: Seq<SettingView>,
    reply_to: Option<(Address, PostView)>,
    accounts: Seq<AccountRecord>,
    offsets: Seq<AdditionalAccountIndices>,
    token_program: Address,
)
    requires
        passed.len() <= 1,
        spec_create_post(
            board,
            poster,
            data,
            post_id,
            passed,
            reply_to,
            accounts,
            offsets,
            token_program,
        ) is Ok,
    ensures
        codec::post_size(
            spec_create_post(
                board,
                poster,
                data,
                post_id,
                passed,
                reply_to,
                accounts,
                offsets,
                token_program,
            )->Ok_0.1,
        ) == spec_projected_size(
            passed,
            match reply_to {
                Some((key, parent)) => Some(parent),
                None => None,
            },
            data,
        ),
{
    let own = build_settings_from(passed, 0, Seq::empty())->Ok_0;
    let empty = Seq::<SettingView>::empty();
    if passed.len() == 1 {
        assert(passed[0].kind() == SettingsType::PostRestriction) by {
            if passed[0].kind() != SettingsType::PostRestriction {
                assert(build_settings_from(passed, 0, empty) is Err);
            }
        }
        assert(build_settings_from(passed, 0, empty) == build_settings_from(
            passed,
            1,
            spec_upsert(empty, passed[0]),
        ));
        assert(build_settings_from(passed, 1, spec_upsert(empty, passed[0])) == Ok::<
            Seq<SettingView>,
            PostboxErrorCode,
        >(spec_upsert(empty, passed[0])));
        assert(crate::settings::remove_kind(empty, passed[0].kind()) =~= empty);
        assert(own =~= seq![passed[0]]);
    } else {
        assert(own =~= empty);
    }
    assert(codec::setting_elems_size(empty) == 0);
    if passed.len() == 1 {
        assert(seq![passed[0]].drop_last() =~= empty);
        assert(codec::setting_elems_size(seq![passed[0]]) == codec::setting_size(passed[0]));
        assert(find_setting(seq![passed[0]], SettingsType::PostRestriction) == Some(passed[0]));
        assert(passed_settings_size(passed, false, 1) == 0);
        assert(passed_settings_size(passed, false, 0) == codec::setting_size(passed[0]));
    } else {
        assert(passed_settings_size(passed, false, 0) == 0);
        assert(passed_settings_size(passed, true, 0) == 0);
    }
    assert(find_setting(empty, SettingsType::PostRestriction) is None);
    match reply_to {
        None => {},
        Some((key, parent)) => {
            match find_setting(parent.settings, SettingsType::PostRestriction) {
                None => {},
                Some(entry) => {
                    crate::settings::lemma_find_from_characterization(
                        parent.settings,
                        SettingsType::PostRestriction,
                        0,
                    );
                    let k = choose|k: int|
                        0 <= k < parent.settings.len() && parent.settings[k] == entry
                            && #[trigger] parent.settings[k].kind()
                            == SettingsType::PostRestriction;
                    assert(entry.kind() == SettingsType::PostRestriction);
                    assert(passed.len() == 0) by {
                        if passed.len() == 1 {
                            assert(find_setting(own, SettingsType::PostRestriction) is Some);
                        }
                    }
                    assert(spec_upsert(own, entry) =~= seq![entry]);
                    assert(seq![entry].drop_last() =~= empty);
                    assert(codec::setting_elems_size(seq![entry]) == codec::setting_size(entry));
                },
            }
        },
    }
}

/// The board after a configuration upsert.
pub open spec fn upserted_board(b: PostboxView, entry: SettingView) -> PostboxView {
    PostboxView { settings: spec_upsert(b.settings, entry), ..b }
}

/// Replaces or adds one configuration entry on the board, then resizes the
/// board's record for its new exact size, topping up its funding from the
/// owner.  Gated on the caller being a board owner; on any error nothing
/// is mutated.
pub fn add_or_update_setting(
    postbox: &mut Postbox,
    postbox_record: &mut StoredRecord,
    owner: Address,
    owner_lamports: &mut u64,
    settings_data: SettingsData,
    rent: &RentPolicy,
) -> (r: Result<(), PostboxErrorCode>)
    requires
        wf_postbox(old(postbox)@),
        codec::postbox_size(upserted_board(old(postbox)@, settings_data@)) <= usize::MAX,
        rent.spec_minimum_balance(
            codec::postbox_size(upserted_board(old(postbox)@, settings_data@)),
        ) <= u64::MAX,
        old(postbox_record).lamports + *old(owner_lamports) <= u64::MAX,
    ensures
        !spec_has_owner(old(postbox)@, owner) ==> r == Err::<(), PostboxErrorCode>(
            PostboxErrorCode::NotAnOwner,
        ) && *final(postbox) == *old(postbox) && *final(postbox_record) == *old(postbox_record)
            && *final(owner_lamports) == *old(owner_lamports),
        spec_has_owner(old(postbox)@, owner) ==> ({
            let new_board = upserted_board(old(postbox)@, settings_data@);
            let new_size = codec::postbox_size(new_board);
            let needed = rent.spec_minimum_balance(new_size);
            if old(postbox_record).lamports >= needed {
                &&& r is Ok
                &&& final(postbox)@ == new_board
                &&& final(postbox_record).size == new_size
                &&& final(postbox_record).lamports == old(postbox_record).lamports
                &&& *final(owner_lamports) == *old(owner_lamports)
            } else if *old(owner_lamports) >= needed - old(postbox_record).lamports {
                &&& r is Ok
                &&& final(postbox)@ == new_board
                &&& final(postbox_record).size == new_size
                &&& final(postbox_record).lamports == needed
                &&& *final(owner_lamports) == *old(owner_lamports) - (needed - old(
                    postbox_record,
                ).lamports)
            } else {
                &&& r == Err::<(), PostboxErrorCode>(PostboxErrorCode::InsufficientFunds)
                &&& *final(postbox) == *old(postbox)
                &&& *final(postbox_record) == *old(postbox_record)
                &&& *final(owner_lamports) == *old(owner_lamports)
            }
        }),
        r is Ok ==> wf_postbox(final(postbox)@) && final(postbox_record).size
            == codec::postbox_size(final(postbox)@) && final(postbox_record).lamports
            >= rent.spec_minimum_balance(codec::postbox_size(final(postbox)@)),
{
    if !postbox.has_owner(&owner) {
        return Err(PostboxErrorCode::NotAnOwner);
    }
    proof {
        crate::settings::lemma_upsert_preserves_wf(postbox@.settings, settings_data@);
    }
    let mut new_settings = crate::settings::clone_settings(&postbox.settings);
    crate::settings::upsert_entry(&mut new_settings, settings_data);
    let fixed: usize = codec::RECORD_TAG_LEN + 4 + codec::ADDRESS_LEN + codec::LEN_PREFIX;
    let new_size = fixed + settings_total_size(&new_settings);
    match resize_account(postbox_record, owner_lamports, new_size, rent) {
        Ok(_) => {},
        Err(e) => {
            return Err(e);
        },
    }
    postbox.settings = new_settings;
    Ok(())
}

} // verus!
