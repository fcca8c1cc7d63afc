//! Stable error codes for every way an instruction can fail.
//!
//! Each failure surfaces as one specific code so that off-chain clients can
//! branch on the cause; none of these is a generic fallback.

use vstd::prelude::*;

verus! {

#[derive(Clone, Copy, Debug, PartialEq, Eq, Structural)]
pub enum PostboxErrorCode {
    /// `initialize` with an empty subject targets a personal board, so the
    /// target account must be the signer.
    NotPersonalPostbox,
    /// The optional description handed to `initialize` is not a
    /// `Description` entry (configuration-kind confusion).
    BadDescriptionSetting,
    /// The requested post id is more than one ahead of the board's counter.
    PostIdTooLarge,
    /// The reply-to record does not hold a post.
    ReplyToNotPost,
    /// A reply tried to declare its own restriction instead of inheriting.
    ReplyCannotRestrictReplies,
    /// A setting of this kind cannot be attached to a post.
    PostInvalidSettingsType,
    /// The record supplied for a token proof is not a token balance record.
    NotTokenAccount,
    /// A token proof was supplied but fails the balance check.
    MissingTokenRestriction,
    /// The metadata record supplied is not the one for the token's asset.
    InvalidMetadataKey,
    /// The record supplied as metadata is not a metadata record.
    MetadataAccountInvalid,
    /// The metadata record declares no collection.
    NoCollectionOnMetadata,
    /// No supplied proof establishes membership in the required collection.
    MissingCollectionNftRestriction,
    /// A stored configuration entry cannot be read as a restriction.
    MalformedSetting,
    /// The proof offsets supplied do not fit this restriction's shape.
    InvalidRestrictionExtraAccounts,
    /// A restriction applies but no correctly tagged proof offset was given.
    MissingRequiredOffsets,
    /// None of the listed token or collection proofs succeeded.
    MissingCredentials,
    /// Reserved code used by integration exercises.
    TestError,
    /// The voter already voted on this post.
    AlreadyVoted,
    /// The acting signer is not in the board's owner set.
    NotAnOwner,
    /// The acting signer is not the stored poster of this post.
    NotThePoster,
    /// The acting signer holds no unit of the board's moderation credential.
    MissingModeratorCredential,
    /// The funding actor cannot cover the required lamports.
    InsufficientFunds,
}

} // verus!
