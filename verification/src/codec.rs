//! The record encoding: discriminant-then-payload, little-endian integers,
//! 32-bit length prefixes.
//!
//! Storage for boards and posts is allocated byte-exactly, so every entry's
//! size must be computable before it is written.  The `*_size` functions give
//! those sizes as closed formulas; the `lemma_*_size` proofs show that each
//! formula equals the length of the actual encoding.

use vstd::prelude::*;

use crate::Address;
use crate::post_restrictions::PostRestrictionRule;
use crate::post_restrictions::QuantifiedMint;
use crate::post_restrictions::RuleView;
use crate::settings::SettingView;
use crate::settings::SettingsData;

verus! {

/// Width of a record tag (the leading discriminator of a whole record).
pub const RECORD_TAG_LEN: usize = 8;

/// Width of an encoded address.
pub const ADDRESS_LEN: usize = 8;

/// Width of a list or byte-string length prefix.
pub const LEN_PREFIX: usize = 4;

/// A `u16` as two little-endian bytes.
pub open spec fn enc_u16(x: u16) -> Seq<u8> {
    seq![(x & 0xff) as u8, ((x >> 8) & 0xff) as u8]
}

/// A `u32` as four little-endian bytes.
pub open spec fn enc_u32(x: u32) -> Seq<u8> {
    seq![
        (x & 0xff) as u8,
        ((x >> 8) & 0xff) as u8,
        ((x >> 16) & 0xff) as u8,
        ((x >> 24) & 0xff) as u8,
    ]
}

/// A `u64` as eight little-endian bytes.
pub open spec fn enc_u64(x: u64) -> Seq<u8> {
    seq![
        (x & 0xff) as u8,
        ((x >> 8) & 0xff) as u8,
        ((x >> 16) & 0xff) as u8,
        ((x >> 24) & 0xff) as u8,
        ((x >> 32) & 0xff) as u8,
        ((x >> 40) & 0xff) as u8,
        ((x >> 48) & 0xff) as u8,
        ((x >> 56) & 0xff) as u8,
    ]
}

/// A length prefix: the count as a `u32`.
pub open spec fn enc_len(n: nat) -> Seq<u8> {
    enc_u32(n as u32)
}

/// A byte string: length prefix, then the bytes.
pub open spec fn enc_bytes(s: Seq<u8>) -> Seq<u8> {
    enc_len(s.len()) + s
}

/// The concatenated encodings of a list of addresses (without a prefix).
pub open spec fn enc_address_elems(s: Seq<Address>) -> Seq<u8>
    decreases s.len(),
{
    if s.len() == 0 {
        Seq::empty()
    } else {
        enc_address_elems(s.drop_last()) + enc_u64(s.last())
    }
}

/// An address list: length prefix, then the addresses.
pub open spec fn enc_addresses(s: Seq<Address>) -> Seq<u8> {
    enc_len(s.len()) + enc_address_elems(s)
}

/// A quantified mint: asset address, then minimum amount.
pub open spec fn enc_mint(m: QuantifiedMint) -> Seq<u8> {
    enc_u64(m.mint) + enc_u64(m.amount)
}

/// The concatenated encodings of a list of quantified mints.
pub open spec fn enc_mint_elems(s: Seq<QuantifiedMint>) -> Seq<u8>
    decreases s.len(),
{
    if s.len() == 0 {
        Seq::empty()
    } else {
        enc_mint_elems(s.drop_last()) + enc_mint(s.last())
    }
}

/// A quantified-mint list: length prefix, then the mints.
pub open spec fn enc_mints(s: Seq<QuantifiedMint>) -> Seq<u8> {
    enc_len(s.len()) + enc_mint_elems(s)
}

/// A restriction rule: variant tag, then the variant's payload.
pub open spec fn enc_rule(r: RuleView) -> Seq<u8> {
    match r {
        RuleView::TokenOwnership { mint, amount } => seq![0u8] + enc_u64(mint) + enc_u64(amount),
        RuleView::NftOwnership { collection_id } => seq![1u8] + enc_u64(collection_id),
        RuleView::Null => seq![2u8],
        RuleView::NftListAnyOwnership { collection_ids } => seq![3u8] + enc_addresses(
            collection_ids,
        ),
        RuleView::TokenOrNftAnyOwnership { mints, collection_ids } => seq![4u8] + enc_mints(mints)
            + enc_addresses(collection_ids),
    }
}

/// The exact encoded size of a restriction rule.
pub open spec fn rule_size(r: RuleView) -> nat {
    match r {
        RuleView::TokenOwnership { .. } => (1 + 2 * ADDRESS_LEN) as nat,
        RuleView::NftOwnership { .. } => (1 + ADDRESS_LEN) as nat,
        RuleView::Null => 1,
        RuleView::NftListAnyOwnership { collection_ids } => (1 + LEN_PREFIX + ADDRESS_LEN
            * collection_ids.len()) as nat,
        RuleView::TokenOrNftAnyOwnership { mints, collection_ids } => (1 + LEN_PREFIX + 2
            * ADDRESS_LEN * mints.len() + LEN_PREFIX + ADDRESS_LEN * collection_ids.len()) as nat,
    }
}

/// A configuration entry: variant tag, then the variant's payload.
pub open spec fn enc_setting(s: SettingView) -> Seq<u8> {
    match s {
        SettingView::Description { title, desc } => seq![0u8] + enc_bytes(title) + enc_bytes(desc),
        SettingView::OwnerInfo { owners } => seq![1u8] + enc_addresses(owners),
        SettingView::PostRestriction { post_restriction } => seq![2u8] + enc_rule(post_restriction),
        SettingView::Null => seq![3u8],
    }
}

/// The exact encoded size of a configuration entry.
pub open spec fn setting_size(s: SettingView) -> nat {
    match s {
        SettingView::Description { title, desc } => (1 + LEN_PREFIX + title.len() + LEN_PREFIX
            + desc.len()) as nat,
        SettingView::OwnerInfo { owners } => (1 + LEN_PREFIX + ADDRESS_LEN * owners.len()) as nat,
        SettingView::PostRestriction { post_restriction } => 1 + rule_size(post_restriction),
        SettingView::Null => 1,
    }
}

/// The concatenated encodings of a settings list (without a prefix).
pub open spec fn enc_setting_elems(s: Seq<SettingView>) -> Seq<u8>
    decreases s.len(),
{
    if s.len() == 0 {
        Seq::empty()
    } else {
        enc_setting_elems(s.drop_last()) + enc_setting(s.last())
    }
}

/// The summed encoded sizes of a settings list (without a prefix).
pub open spec fn setting_elems_size(s: Seq<SettingView>) -> nat
    decreases s.len(),
{
    if s.len() == 0 {
        0
    } else {
        setting_elems_size(s.drop_last()) + setting_size(s.last())
    }
}

/// The record tag of a board record.
pub const POSTBOX_RECORD_TAG: u64 = 1;

/// The record tag of a post record.
pub const POST_RECORD_TAG: u64 = 2;

/// An optional address: presence byte, then the address if present.
pub open spec fn enc_opt_address(a: Option<Address>) -> Seq<u8> {
    match a {
        None => seq![0u8],
        Some(addr) => seq![1u8] + enc_u64(addr),
    }
}

/// A whole board record: tag, child counter, moderation-credential class,
/// then the settings list.
pub open spec fn enc_postbox(b: crate::PostboxView) -> Seq<u8> {
    enc_u64(POSTBOX_RECORD_TAG) + enc_u32(b.max_child_id) + enc_u64(b.moderator_mint) + enc_len(
        b.settings.len(),
    ) + enc_setting_elems(b.settings)
}

/// The exact encoded size of a board record.
pub open spec fn postbox_size(b: crate::PostboxView) -> nat {
    (RECORD_TAG_LEN + 4 + ADDRESS_LEN + LEN_PREFIX + setting_elems_size(b.settings)) as nat
}

/// A whole post record: tag, poster, payload, vote counters, optional
/// reply link, then the settings list.
pub open spec fn enc_post(p: crate::PostView) -> Seq<u8> {
    enc_u64(POST_RECORD_TAG) + enc_u64(p.poster) + enc_bytes(p.data) + enc_u16(p.up_votes)
        + enc_u16(p.down_votes) + enc_opt_address(p.reply_to) + enc_len(p.settings.len())
        + enc_setting_elems(p.settings)
}

/// The exact encoded size of a post record.
pub open spec fn post_size(p: crate::PostView) -> nat {
    (RECORD_TAG_LEN + ADDRESS_LEN + LEN_PREFIX + p.data.len() + 2 + 2 + 1 + (
    if p.reply_to is Some {
        ADDRESS_LEN as int
    } else {
        0
    }) + LEN_PREFIX + setting_elems_size(p.settings)) as nat
}

/// The address-list elements encode to eight bytes each.
pub proof fn lemma_address_elems_len(s: Seq<Address>)
    ensures
        enc_address_elems(s).len() == ADDRESS_LEN * s.len(),
    decreases s.len(),
{
    if s.len() > 0 {
        lemma_address_elems_len(s.drop_last());
    }
}

/// The mint-list elements encode to sixteen bytes each.
pub proof fn lemma_mint_elems_len(s: Seq<QuantifiedMint>)
    ensures
        enc_mint_elems(s).len() == 2 * ADDRESS_LEN * s.len(),
    decreases s.len(),
{
    if s.len() > 0 {
        lemma_mint_elems_len(s.drop_last());
        assert(2 * ADDRESS_LEN * s.len() == 2 * ADDRESS_LEN * s.drop_last().len() + 2
            * ADDRESS_LEN);
    }
}

/// The size formula for a rule equals the length of its encoding.
pub proof fn lemma_rule_size(r: RuleView)
    ensures
        rule_size(r) == enc_rule(r).len(),
{
    match r {
        RuleView::NftListAnyOwnership { collection_ids } => {
            lemma_address_elems_len(collection_ids);
        },
        RuleView::TokenOrNftAnyOwnership { mints, collection_ids } => {
            lemma_mint_elems_len(mints);
            lemma_address_elems_len(collection_ids);
        },
        _ => {},
    }
}

/// The size formula for a configuration entry equals the length of its
/// encoding.
pub proof fn lemma_setting_size(s: SettingView)
    ensures
        setting_size(s) == enc_setting(s).len(),
{
    match s {
        SettingView::OwnerInfo { owners } => {
            lemma_address_elems_len(owners);
        },
        SettingView::PostRestriction { post_restriction } => {
            lemma_rule_size(post_restriction);
        },
        _ => {},
    }
}

/// The size formula for a settings list equals the length of its encoding.
pub proof fn lemma_setting_elems_size(s: Seq<SettingView>)
    ensures
        setting_elems_size(s) == enc_setting_elems(s).len(),
    decreases s.len(),
{
    if s.len() > 0 {
        lemma_setting_elems_size(s.drop_last());
        lemma_setting_size(s.last());
    }
}

/// The size formula for a board record equals the length of its encoding:
/// the sizer accounts for exactly the bytes the record serializes to.
pub proof fn lemma_postbox_size(b: crate::PostboxView)
    ensures
        postbox_size(b) == enc_postbox(b).len(),
{
    lemma_setting_elems_size(b.settings);
}

/// The size formula for a post record equals the length of its encoding.
pub proof fn lemma_post_size(p: crate::PostView)
    ensures
        post_size(p) == enc_post(p).len(),
{
    lemma_setting_elems_size(p.settings);
}

/// How the settings-list sum acts on an appended entry.
pub proof fn lemma_setting_elems_size_push(s: Seq<SettingView>, x: SettingView)
    ensures
        setting_elems_size(s.push(x)) == setting_elems_size(s) + setting_size(x),
{
    assert(s.push(x).drop_last() =~= s);
    assert(s.push(x).last() == x);
}

/// A prefix of a settings list never sums to more than the whole list.
pub proof fn lemma_setting_elems_size_prefix(s: Seq<SettingView>, i: int)
    requires
        0 <= i <= s.len(),
    ensures
        setting_elems_size(s.take(i)) <= setting_elems_size(s),
    decreases s.len() - i,
{
    if i == s.len() {
        assert(s.take(i) =~= s);
    } else {
        lemma_setting_elems_size_prefix(s, i + 1);
        assert(s.take(i + 1) =~= s.take(i).push(s[i]));
        lemma_setting_elems_size_push(s.take(i), s[i]);
    }
}

/// How the address-list encoding acts on an appended element.
pub proof fn lemma_enc_address_elems_push(s: Seq<Address>, x: Address)
    ensures
        enc_address_elems(s.push(x)) == enc_address_elems(s) + enc_u64(x),
{
    assert(s.push(x).drop_last() =~= s);
    assert(s.push(x).last() == x);
}

/// How the mint-list encoding acts on an appended element.
pub proof fn lemma_enc_mint_elems_push(s: Seq<QuantifiedMint>, x: QuantifiedMint)
    ensures
        enc_mint_elems(s.push(x)) == enc_mint_elems(s) + enc_mint(x),
{
    assert(s.push(x).drop_last() =~= s);
    assert(s.push(x).last() == x);
}

/// How the settings-list encoding acts on an appended entry.
pub proof fn lemma_enc_setting_elems_push(s: Seq<SettingView>, x: SettingView)
    ensures
        enc_setting_elems(s.push(x)) == enc_setting_elems(s) + enc_setting(x),
{
    assert(s.push(x).drop_last() =~= s);
    assert(s.push(x).last() == x);
}

/// Appends a `u16` in little-endian order.
fn write_u16(out: &mut Vec<u8>, x: u16)
    ensures
        final(out)@ == old(out)@ + enc_u16(x),
{
    out.push((x & 0xff) as u8);
    out.push(((x >> 8) & 0xff) as u8);
    proof {
        assert(out@ =~= old(out)@ + enc_u16(x));
    }
}

/// Appends a `u32` in little-endian order.
fn write_u32(out: &mut Vec<u8>, x: u32)
    ensures
        final(out)@ == old(out)@ + enc_u32(x),
{
    out.push((x & 0xff) as u8);
    out.push(((x >> 8) & 0xff) as u8);
    out.push(((x >> 16) & 0xff) as u8);
    out.push(((x >> 24) & 0xff) as u8);
    proof {
        assert(out@ =~= old(out)@ + enc_u32(x));
    }
}

/// Appends a `u64` in little-endian order.
fn write_u64(out: &mut Vec<u8>, x: u64)
    ensures
        final(out)@ == old(out)@ + enc_u64(x),
{
    out.push((x & 0xff) as u8);
    out.push(((x >> 8) & 0xff) as u8);
    out.push(((x >> 16) & 0xff) as u8);
    out.push(((x >> 24) & 0xff) as u8);
    out.push(((x >> 32) & 0xff) as u8);
    out.push(((x >> 40) & 0xff) as u8);
    out.push(((x >> 48) & 0xff) as u8);
    out.push(((x >> 56) & 0xff) as u8);
    proof {
        assert(out@ =~= old(out)@ + enc_u64(x));
    }
}

/// Appends a length-prefixed byte string.
fn write_bytes(out: &mut Vec<u8>, s: &Vec<u8>)
    ensures
        final(out)@ == old(out)@ + enc_bytes(s@),
{
    write_u32(out, s.len() as u32);
    let ghost mid = out@;
    let mut i: usize = 0;
    while i < s.len()
        invariant
            i <= s.len(),
            out@ == mid + s@.take(i as int),
        decreases s.len() - i,
    {
        out.push(s[i]);
        proof {
            assert(out@ =~= mid + s@.take(i + 1 as int));
        }
        i = i + 1;
    }
    proof {
        assert(s@.take(s@.len() as int) =~= s@);
        assert(out@ =~= old(out)@ + enc_bytes(s@));
    }
}

/// Appends a length-prefixed address list.
fn write_addresses(out: &mut Vec<u8>, v: &Vec<Address>)
    ensures
        final(out)@ == old(out)@ + enc_addresses(v@),
{
    write_u32(out, v.len() as u32);
    let ghost mid = out@;
    let mut i: usize = 0;
    while i < v.len()
        invariant
            i <= v.len(),
            out@ == mid + enc_address_elems(v@.take(i as int)),
        decreases v.len() - i,
    {
        proof {
            assert(v@.take(i + 1 as int) =~= v@.take(i as int).push(v@[i as int]));
            lemma_enc_address_elems_push(v@.take(i as int), v@[i as int]);
        }
        write_u64(out, v[i]);
        i = i + 1;
    }
    proof {
        assert(v@.take(v@.len() as int) =~= v@);
        assert(out@ =~= old(out)@ + enc_addresses(v@));
    }
}

/// Appends a length-prefixed quantified-mint list.
fn write_mints(out: &mut Vec<u8>, v: &Vec<QuantifiedMint>)
    ensures
        final(out)@ == old(out)@ + enc_mints(v@),
{
    write_u32(out, v.len() as u32);
    let ghost mid = out@;
    let mut i: usize = 0;
    while i < v.len()
        invariant
            i <= v.len(),
            out@ == mid + enc_mint_elems(v@.take(i as int)),
        decreases v.len() - i,
    {
        proof {
            assert(v@.take(i + 1 as int) =~= v@.take(i as int).push(v@[i as int]));
            lemma_enc_mint_elems_push(v@.take(i as int), v@[i as int]);
        }
        write_u64(out, v[i].mint);
        write_u64(out, v[i].amount);
        proof {
            assert(out@ =~= mid + enc_mint_elems(v@.take(i + 1 as int)));
        }
        i = i + 1;
    }
    proof {
        assert(v@.take(v@.len() as int) =~= v@);
        assert(out@ =~= old(out)@ + enc_mints(v@));
    }
}

/// Appends an encoded restriction rule.
fn write_rule(out: &mut Vec<u8>, rule: &PostRestrictionRule)
    ensures
        final(out)@ == old(out)@ + enc_rule(rule@),
{
    match rule {
        PostRestrictionRule::TokenOwnership { mint, amount } => {
            out.push(0u8);
            write_u64(out, *mint);
            write_u64(out, *amount);
        },
        PostRestrictionRule::NftOwnership { collection_id } => {
            out.push(1u8);
            write_u64(out, *collection_id);
        },
        PostRestrictionRule::Null => {
            out.push(2u8);
        },
        PostRestrictionRule::NftListAnyOwnership { collection_ids } => {
            out.push(3u8);
            write_addresses(out, collection_ids);
        },
        PostRestrictionRule::TokenOrNftAnyOwnership { mints, collection_ids } => {
            out.push(4u8);
            write_mints(out, mints);
            write_addresses(out, collection_ids);
        },
    }
    proof {
        assert(out@ =~= old(out)@ + enc_rule(rule@));
    }
}

/// Appends an encoded configuration entry.
fn write_setting(out: &mut Vec<u8>, entry: &SettingsData)
    ensures
        final(out)@ == old(out)@ + enc_setting(entry@),
{
    match entry {
        SettingsData::Description { title, desc } => {
            out.push(0u8);
            write_bytes(out, title);
            write_bytes(out, desc);
        },
        SettingsData::OwnerInfo { owners } => {
            out.push(1u8);
            write_addresses(out, owners);
        },
        SettingsData::PostRestriction { post_restriction } => {
            out.push(2u8);
            write_rule(out, post_restriction);
        },
        SettingsData::Null => {
            out.push(3u8);
        },
    }
    proof {
        assert(out@ =~= old(out)@ + enc_setting(entry@));
    }
}

/// Appends an encoded settings list (length prefix, then the entries).
fn write_settings(out: &mut Vec<u8>, settings: &Vec<SettingsData>)
    ensures
        final(out)@ == old(out)@ + enc_len(crate::settings::settings_seq_view(settings@).len())
            + enc_setting_elems(crate::settings::settings_seq_view(settings@)),
{
    let ghost views = crate::settings::settings_seq_view(settings@);
    write_u32(out, settings.len() as u32);
    let ghost mid = out@;
    let mut i: usize = 0;
    while i < settings.len()
        invariant
            i <= settings.len(),
            out@ == mid + enc_setting_elems(views.take(i as int)),
        decreases settings.len() - i,
    {
        proof {
            assert(views.take(i + 1 as int) =~= views.take(i as int).push(views[i as int]));
            lemma_enc_setting_elems_push(views.take(i as int), views[i as int]);
        }
        write_setting(out, &settings[i]);
        i = i + 1;
    }
    proof {
        assert(views.take(views.len() as int) =~= views);
        assert(out@ =~= old(out)@ + enc_len(views.len()) + enc_setting_elems(views));
    }
}

/// Serializes one configuration entry.
pub fn serialize_setting(entry: &SettingsData) -> (r: Vec<u8>)
    ensures
        r@ == enc_setting(entry@),
{
    let mut out: Vec<u8> = Vec::new();
    write_setting(&mut out, entry);
    proof {
        assert(out@ =~= enc_setting(entry@));
    }
    out
}

/// Serializes one restriction rule.
pub fn serialize_rule(rule: &PostRestrictionRule) -> (r: Vec<u8>)
    ensures
        r@ == enc_rule(rule@),
{
    let mut out: Vec<u8> = Vec::new();
    write_rule(&mut out, rule);
    proof {
        assert(out@ =~= enc_rule(rule@));
    }
    out
}

/// Serializes a whole board record.
pub fn serialize_postbox(board: &crate::Postbox) -> (r: Vec<u8>)
    ensures
        r@ == enc_postbox(board@),
{
    let mut out: Vec<u8> = Vec::new();
    write_u64(&mut out, POSTBOX_RECORD_TAG);
    write_u32(&mut out, board.max_child_id);
    write_u64(&mut out, board.moderator_mint);
    write_settings(&mut out, &board.settings);
    proof {
        assert(out@ =~= enc_postbox(board@));
    }
    out
}

/// Serializes a whole post record.
pub fn serialize_post(post: &crate::Post) -> (r: Vec<u8>)
    ensures
        r@ == enc_post(post@),
{
    let mut out: Vec<u8> = Vec::new();
    write_u64(&mut out, POST_RECORD_TAG);
    write_u64(&mut out, post.poster);
    write_bytes(&mut out, &post.data);
    write_u16(&mut out, post.up_votes);
    write_u16(&mut out, post.down_votes);
    match post.reply_to {
        None => {
            out.push(0u8);
        },
        Some(addr) => {
            out.push(1u8);
            write_u64(&mut out, addr);
        },
    }
    write_settings(&mut out, &post.settings);
    proof {
        assert(out@ =~= enc_post(post@));
    }
    out
}

} // verus!
