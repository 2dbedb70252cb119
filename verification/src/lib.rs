//! Verified core of the NiffyInsure insurance contract: premium pricing,
//! policy and claim validation, claim voting, treasury payout and admin
//! rotation, written over plain values so that every rule is proved.

pub mod address;
pub mod admin;
pub mod claim;
pub mod keyed;
pub mod ledger;
pub mod oracle;
pub mod policy;
pub mod premium;
pub mod storage;
pub mod types;
pub mod validate;

use vstd::prelude::*;

use crate::address::Address;
use crate::admin::{configured, AdminError};
use crate::claim::{claims_consistent, filed, finalized, voted, ContractError};
use crate::storage::{policy_key, without, Storage};
use crate::types::{ClaimStatus, Policy, PolicyType, RegionTier, VoteOption};

verus! {

/// The insurance contract: its stored state and its entry points.  Each
/// entry point takes the ledger sequence it runs at where the rules need it.
#[derive(Clone, Debug)]
pub struct NiffyInsure {
    pub storage: Storage,
}

impl NiffyInsure {
    /// The stored records are consistent (see `configured` and
    /// `claims_consistent`).
    pub open spec fn wf(&self) -> bool {
        configured(&self.storage) && claims_consistent(&self.storage)
    }

    /// A freshly deployed contract with nothing stored.
    pub fn new() -> (c: NiffyInsure)
        ensures
            c.storage.is_empty(),
            c.wf(),
    {
        NiffyInsure { storage: Storage::new() }
    }

    /// One-time initialisation: stores the admin and the treasury token.
    pub fn initialize(&mut self, admin: Address, token: Address) -> (r: Result<(), AdminError>)
        requires
            old(self).wf(),
        ensures
            old(self).storage.admin is Some ==> r == Err::<(), AdminError>(AdminError::AlreadyInitialized)
                && *final(self) == *old(self),
            old(self).storage.admin is None ==> r is Ok && final(self).storage == (Storage {
                admin: Some(admin),
                token: Some(token),
                ..old(self).storage
            }),
            final(self).wf(),
    {
        crate::admin::initialize(&mut self.storage, admin, token)
    }

    /// Files a new claim against the claimant's active policy at ledger
    /// `current_ledger` and returns its id.
    pub fn file_claim(
        &mut self,
        claimant: &Address,
        policy_id: u32,
        amount: i128,
        details: Vec<u8>,
        image_urls: Vec<Vec<u8>>,
        current_ledger: u32,
    ) -> (r: Result<u64, ContractError>)
        requires
            old(self).wf(),
            old(self).storage.token is Some,
            old(self).storage.claim_counter < u64::MAX,
            old(self).storage.voters@.len() <= u32::MAX,
        ensures
            filed(&old(self).storage, &final(self).storage, r, claimant@, policy_id, amount, details, image_urls, current_ledger),
            final(self).wf(),
    {
        crate::claim::file_claim(&mut self.storage, claimant, policy_id, amount, details, image_urls, current_ledger)
    }

    /// Casts an immutable ballot on an open claim at ledger `current_ledger`;
    /// returns the claim's new status.
    pub fn vote_on_claim(&mut self, voter: &Address, claim_id: u64, vote: VoteOption, current_ledger: u32) -> (r: Result<
        ClaimStatus,
        ContractError,
    >)
        requires
            old(self).wf(),
        ensures
            voted(&old(self).storage, &final(self).storage, r, voter@, claim_id, vote, current_ledger),
            final(self).wf(),
    {
        crate::claim::vote_on_claim(&mut self.storage, voter, claim_id, vote, current_ledger)
    }

    /// Settles a claim whose voting window closed before `current_ledger`;
    /// anyone may call.  Returns the claim's final status.
    pub fn finalize_claim(&mut self, claim_id: u64, current_ledger: u32) -> (r: Result<ClaimStatus, ContractError>)
        requires
            old(self).wf(),
        ensures
            finalized(&old(self).storage, &final(self).storage, r, claim_id, current_ledger),
            final(self).wf(),
    {
        crate::claim::finalize_claim(&mut self.storage, claim_id, current_ledger)
    }

    /// Seeds an active auto policy of `holder` (premium 10_000_000, ledgers
    /// 1 to `end_ledger`) and registers the holder as a voter.
    pub fn test_seed_policy(&mut self, holder: &Address, policy_id: u32, coverage: i128, end_ledger: u32)
        requires
            old(self).wf(),
        ensures
            final(self).storage.policy_map().dom().contains((holder@, policy_id)),
            ({
                let p = final(self).storage.policy_map()[(holder@, policy_id)];
                &&& p.policy_id == policy_id
                &&& p.policy_type == PolicyType::Auto
                &&& p.region == RegionTier::Medium
                &&& p.premium == 10_000_000
                &&& p.coverage == coverage
                &&& p.is_active
                &&& p.start_ledger == 1
                &&& p.end_ledger == end_ledger
            }),
            forall|k: (Seq<char>, u32)|
                k != (holder@, policy_id) && old(self).storage.policy_map().dom().contains(k)
                    ==> final(self).storage.policy_map().dom().contains(k)
                    && final(self).storage.policy_map()[k] == old(self).storage.policy_map()[k],
            final(self).storage.voter_set() == (if old(self).storage.voter_set().contains(holder@) {
                old(self).storage.voter_set()
            } else {
                old(self).storage.voter_set().push(holder@)
            }),
            final(self).storage == (Storage {
                policies: final(self).storage.policies,
                voters: final(self).storage.voters,
                ..old(self).storage
            }),
            final(self).wf(),
    {
        let policy = Policy {
            holder: holder.copied(),
            policy_id,
            policy_type: PolicyType::Auto,
            region: RegionTier::Medium,
            premium: 10_000_000,
            coverage,
            is_active: true,
            start_ledger: 1,
            end_ledger,
        };
        assert((policy_key())(policy) == (holder@, policy_id));
        crate::storage::set_policy(&mut self.storage, policy);
        crate::storage::add_voter(&mut self.storage, holder);
    }

    /// Removes `holder` from the live voter set (as when its policy ends);
    /// electorates already captured keep it.
    pub fn test_remove_voter(&mut self, holder: &Address)
        requires
            old(self).wf(),
        ensures
            final(self).storage.voter_set() == without(old(self).storage.voter_set(), holder@),
            final(self).storage == (Storage { voters: final(self).storage.voters, ..old(self).storage }),
            final(self).wf(),
    {
        crate::storage::remove_voter(&mut self.storage, holder);
    }
}

/// The claim invariant does not depend on the admin records: a change of
/// admin, proposal, token or pause flag that leaves them configured keeps
/// the contract well formed.
pub proof fn law_admin_changes_keep_wf(c0: NiffyInsure, c1: NiffyInsure)
    requires
        c0.wf(),
        configured(&c1.storage),
        c1.storage == (Storage {
            admin: c1.storage.admin,
            pending_admin: c1.storage.pending_admin,
            token: c1.storage.token,
            paused: c1.storage.paused,
            ..c0.storage
        }),
    ensures
        c1.wf(),
{
    assert(c1.storage.claim_map() == c0.storage.claim_map());
    assert forall|c: u64| #[trigger] c1.storage.electorate(c) == c0.storage.electorate(c) by {}
}

} // verus!
