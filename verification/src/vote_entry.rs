//! A recorded vote, as clients submit it.

use vstd::prelude::*;

verus! {

/// One vote on a post: which post, and in which direction.
#[derive(Clone, Copy, Debug, PartialEq, Eq, Structural)]
pub struct VoteEntry {
    /// The post voted on.
    pub post_id: u32,
    /// `true` for an up-vote, `false` for a down-vote.
    pub up_vote: bool,
}

} // verus!
