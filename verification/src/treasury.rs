//! Lamport accounting: fee transfers, the minimum-funding policy, and safe
//! in-place record growth.
//!
//! The ledger's actual value-transfer primitive is a collaborator; here a
//! balance is a plain `u64` and a transfer moves value between two balances,
//! failing (with nothing moved) when the source cannot cover it.

use vstd::prelude::*;

use crate::errors::PostboxErrorCode;

verus! {

/// Flat fees charged by the instruction handlers, injected per deployment.
#[derive(Clone, Copy, Debug)]
pub struct FeeSchedule {
    /// Creating a named board.
    pub fee_new_postbox: u64,
    /// Creating a personal (self-subject) board.
    pub fee_new_personal_box: u64,
    /// Creating a post.
    pub fee_post: u64,
    /// Voting on a post.
    pub fee_vote: u64,
}

impl Default for FeeSchedule {
    /// The fees this program ships with.
    fn default() -> (r: Self)
        ensures
            r.fee_new_postbox == 1_000_000_000,
            r.fee_new_personal_box == 50_000,
            r.fee_post == 50_000,
            r.fee_vote == 50_000,
    {
        FeeSchedule {
            fee_new_postbox: 1_000_000_000,
            fee_new_personal_box: 50_000,
            fee_post: 50_000,
            fee_vote: 50_000,
        }
    }
}

/// The "minimum funding for N bytes" policy, injected per deployment:
/// a record of `size` bytes must keep at least
/// `(base_overhead + size) * lamports_per_byte` lamports.
#[derive(Clone, Copy, Debug)]
pub struct RentPolicy {
    /// Bytes of bookkeeping charged on top of the record's own size.
    pub base_overhead: u64,
    /// Lamports required per charged byte.
    pub lamports_per_byte: u64,
}

impl RentPolicy {
    /// The minimum balance required for a record of `size` bytes.
    pub open spec fn spec_minimum_balance(&self, size: nat) -> int {
        (self.base_overhead + size) * self.lamports_per_byte
    }

    /// Computes the minimum balance for `size` bytes.
    pub fn minimum_balance(&self, size: usize) -> (m: u64)
        requires
            self.spec_minimum_balance(size as nat) <= u64::MAX,
        ensures
            m == self.spec_minimum_balance(size as nat),
    {
        let charged: u128 = self.base_overhead as u128 + size as u128;
        let needed: u128 = charged * self.lamports_per_byte as u128;
        needed as u64
    }
}

/// A ledger-resident record's storage, as the resizer sees it: its funding
/// and its allocated length.
#[derive(Clone, Copy, Debug)]
pub struct StoredRecord {
    /// The lamports currently funding the record.
    pub lamports: u64,
    /// The record's allocated length in bytes.
    pub size: usize,
}

/// Moves `lamports` from one balance to another.  Nothing moves when the
/// source cannot cover the amount; the sum of the two balances is always
/// preserved.
pub fn transfer_lamports(from: &mut u64, to: &mut u64, lamports: u64) -> (r: Result<
    (),
    PostboxErrorCode,
>)
    requires
        *old(to) + lamports <= u64::MAX,
    ensures
        *old(from) >= lamports ==> r is Ok && *final(from) == *old(from) - lamports && *final(to)
            == *old(to) + lamports,
        *old(from) < lamports ==> r == Err::<(), PostboxErrorCode>(
            PostboxErrorCode::InsufficientFunds,
        ) && *final(from) == *old(from) && *final(to) == *old(to),
        *final(from) + *final(to) == *old(from) + *old(to),
{
    if *from < lamports {
        return Err(PostboxErrorCode::InsufficientFunds);
    }
    *from = *from - lamports;
    *to = *to + lamports;
    Ok(())
}

/// Grows (or shrinks) a record in place, first topping its funding up to the
/// policy's minimum for the new length, paid by `funding_account`.
///
/// Shrinking never returns excess funding to the payer; that is a known,
/// deliberately preserved gap of this program, stated here by the
/// guarantee that the record's lamports never decrease.
pub fn resize_account(
    data_account: &mut StoredRecord,
    funding_account: &mut u64,
    new_size: usize,
    rent: &RentPolicy,
) -> (r: Result<(), PostboxErrorCode>)
    requires
        rent.spec_minimum_balance(new_size as nat) <= u64::MAX,
        old(data_account).lamports + *old(funding_account) <= u64::MAX,
    ensures
        final(data_account).lamports >= old(data_account).lamports,
        ({
            let needed = rent.spec_minimum_balance(new_size as nat);
            if old(data_account).lamports >= needed {
                &&& r is Ok
                &&& final(data_account).size == new_size
                &&& final(data_account).lamports == old(data_account).lamports
                &&& *final(funding_account) == *old(funding_account)
            } else if *old(funding_account) >= needed - old(data_account).lamports {
                &&& r is Ok
                &&& final(data_account).size == new_size
                &&& final(data_account).lamports == needed
                &&& *final(funding_account) == *old(funding_account) - (needed - old(
                    data_account,
                ).lamports)
            } else {
                &&& r == Err::<(), PostboxErrorCode>(PostboxErrorCode::InsufficientFunds)
                &&& *final(data_account) == *old(data_account)
                &&& *final(funding_account) == *old(funding_account)
            }
        }),
        r is Ok ==> final(data_account).lamports >= rent.spec_minimum_balance(new_size as nat),
{
    let new_minimum_balance = rent.minimum_balance(new_size);
    if new_minimum_balance > data_account.lamports {
        let lamports_diff = new_minimum_balance - data_account.lamports;
        let transfer = transfer_lamports(funding_account, &mut data_account.lamports, lamports_diff);
        match transfer {
            Ok(_) => {},
            Err(e) => {
                return Err(e);
            },
        }
    }
    data_account.size = new_size;
    Ok(())
}

} // verus!
