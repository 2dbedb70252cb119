//! Claims: filing against an active policy, snapshot voting with majority
//! auto-finalization, settlement after the deadline, and treasury payout of
//! approved claims.
use vstd::prelude::*;

use crate::address::Address;
use crate::storage::{
    add_vote, ballot_key, Ballot, asset_allowed, get_claim as stored_claim, get_policy, get_token, is_allowed_asset as asset_is_allowed,
    is_eligible_voter, next_claim_id, set_allowed_asset as store_allowed_asset, set_claim, snapshot_voters_for_claim,
    update_claim_state, Storage,
};
use crate::types::{Claim, ClaimProcessed, ClaimStatus, VoteOption, VOTE_WINDOW_LEDGERS};
use crate::validate::{
    check_claim_fields, check_claim_open, check_policy_active, claim_fields_check, policy_active_check, Error,
};

verus! {

/// Why a claim entry point refused a call.
#[derive(Clone, Copy, PartialEq, Eq, Structural, Debug)]
pub enum ContractError {
    /// The contract is paused: claims cannot be filed nor votes cast.
    Paused,
    /// The voter is not in the claim's electorate snapshot.
    NotEligibleVoter,
    /// The claim's voting window has closed.
    VotingClosed,
    /// The claim's voting window is still open.
    VotingStillOpen,
    /// A validation rule failed.
    Invalid(Error),
}

// ── Integrity of the claim records ─────────────────────────────────────────

/// The number of recorded ballots `vote` on claim `claim_id`.
pub open spec fn count_votes(votes: Seq<Ballot>, claim_id: u64, vote: VoteOption) -> nat
    decreases votes.len(),
{
    if votes.len() == 0 {
        0
    } else {
        count_votes(votes.drop_last(), claim_id, vote) + if votes.last().claim_id == claim_id && votes.last().vote
            == vote {
            1nat
        } else {
            0nat
        }
    }
}

/// Every claim's tallies equal the ballots recorded for it.
pub open spec fn tallies_reconciled(st: &Storage) -> bool {
    forall|id: u64| #[trigger]
        st.claim_map().dom().contains(id) ==> st.claim_map()[id].approve_votes == count_votes(
            st.votes@,
            id,
            VoteOption::Approve,
        ) && st.claim_map()[id].reject_votes == count_votes(st.votes@, id, VoteOption::Reject)
}

/// The claim records hang together: ballots and claims only name issued
/// claim ids, every claim's tallies equal its recorded ballots, every ballot
/// was cast by a member of the claim's electorate, and no voter has two
/// ballots on one claim.
pub open spec fn claims_consistent(st: &Storage) -> bool {
    &&& forall|i: int| 0 <= i < st.votes@.len() ==> (#[trigger] st.votes@[i]).claim_id <= st.claim_counter
    &&& forall|id: u64| #[trigger] st.claim_map().dom().contains(id) ==> id <= st.claim_counter
    &&& tallies_reconciled(st)
    &&& forall|i: int|
        0 <= i < st.votes@.len() ==> st.electorate((#[trigger] st.votes@[i]).claim_id).contains(st.votes@[i].voter@)
    &&& forall|i: int, j: int|
        0 <= i < j < st.votes@.len() ==> (ballot_key())(#[trigger] st.votes@[i]) != (ballot_key())(
            #[trigger] st.votes@[j],
        )
}

/// A claim status may stay, leave `Processing`, or go from `Approved` to
/// `Paid`; nothing else.
pub open spec fn status_step(from: ClaimStatus, to: ClaimStatus) -> bool {
    from == to || from == ClaimStatus::Processing || (from == ClaimStatus::Approved && to == ClaimStatus::Paid)
}

/// Every claim of `a` is still in `b`, and its status moved by `status_step`.
pub open spec fn statuses_advance(a: &Storage, b: &Storage) -> bool {
    forall|id: u64| #[trigger]
        a.claim_map().dom().contains(id) ==> b.claim_map().dom().contains(id) && status_step(
            a.claim_map()[id].status,
            b.claim_map()[id].status,
        )
}

/// When no ballot names `claim_id`, none is counted for it.
proof fn lemma_count_zero(votes: Seq<Ballot>, claim_id: u64, vote: VoteOption)
    requires
        forall|i: int| 0 <= i < votes.len() ==> (#[trigger] votes[i]).claim_id != claim_id,
    ensures
        count_votes(votes, claim_id, vote) == 0,
    decreases votes.len(),
{
    if votes.len() > 0 {
        assert forall|i: int| 0 <= i < votes.drop_last().len() implies (#[trigger] votes.drop_last()[i]).claim_id
            != claim_id by {
            assert(votes.drop_last()[i] == votes[i]);
        }
        lemma_count_zero(votes.drop_last(), claim_id, vote);
        assert(votes.last() == votes[votes.len() - 1]);
    }
}

/// Recording a ballot keeps the claim records consistent.
proof fn lemma_vote_keeps_consistency(s0: Storage, s1: Storage, claim_id: u64, voter: Seq<char>, vote: VoteOption)
    requires
        claims_consistent(&s0),
        s0.claim_map().dom().contains(claim_id),
        s0.electorate(claim_id).contains(voter),
        !s0.ballot_map().dom().contains((claim_id, voter)),
        vote == VoteOption::Approve ==> s0.claim_map()[claim_id].approve_votes < u32::MAX,
        vote == VoteOption::Reject ==> s0.claim_map()[claim_id].reject_votes < u32::MAX,
        s1.votes@.drop_last() == s0.votes@,
        s1.votes@.len() == s0.votes@.len() + 1,
        s1.votes@.last().claim_id == claim_id,
        s1.votes@.last().voter@ == voter,
        s1.votes@.last().vote == vote,
        s1.claim_map() == s0.claim_map().insert(claim_id, tallied(s0.claim_map()[claim_id], vote)),
        s1.claim_counter == s0.claim_counter,
        s1.claim_voters == s0.claim_voters,
    ensures
        claims_consistent(&s1),
{
    let v0 = s0.votes@;
    let v1 = s1.votes@;
    assert forall|i: int| 0 <= i < v1.len() implies (#[trigger] v1[i]).claim_id <= s1.claim_counter by {
        if i < v0.len() {
            assert(v1[i] == v0[i]);
        }
    }
    assert forall|id: u64| #[trigger] s1.claim_map().dom().contains(id) implies s1.claim_map()[id].approve_votes
        == count_votes(v1, id, VoteOption::Approve) && s1.claim_map()[id].reject_votes == count_votes(
        v1,
        id,
        VoteOption::Reject,
    ) by {
        assert(v1.drop_last() == v0);
        assert(s0.claim_map().dom().contains(id));
        assert(count_votes(v1, id, VoteOption::Approve) == count_votes(v0, id, VoteOption::Approve) + if v1.last().claim_id == id && v1.last().vote == VoteOption::Approve { 1nat } else { 0nat });
        assert(count_votes(v1, id, VoteOption::Reject) == count_votes(v0, id, VoteOption::Reject) + if v1.last().claim_id == id && v1.last().vote == VoteOption::Reject { 1nat } else { 0nat });
    }
    assert forall|i: int| 0 <= i < v1.len() implies s1.electorate((#[trigger] v1[i]).claim_id).contains(v1[i].voter@) by {
        if i < v0.len() {
            assert(v1[i] == v0[i]);
        }
    }
    assert forall|i: int, j: int| 0 <= i < j < v1.len() implies (ballot_key())(#[trigger] v1[i]) != (ballot_key())(
        #[trigger] v1[j],
    ) by {
        assert(v1[i] == v0[i]);
        if j < v0.len() {
            assert(v1[j] == v0[j]);
        } else {
            if (ballot_key())(v0[i]) == (claim_id, voter) {
                assert(crate::keyed::has_key(v0, ballot_key(), (claim_id, voter)));
                crate::keyed::lemma_first_exists(v0, ballot_key(), (claim_id, voter));
            }
        }
    }
}

/// Filing a claim under a fresh id keeps the claim records consistent.
proof fn lemma_file_keeps_consistency(s0: Storage, s1: Storage, id: u64)
    requires
        claims_consistent(&s0),
        id == s0.claim_counter + 1,
        s1.claim_counter == id,
        s1.votes == s0.votes,
        s1.claim_map().dom() == s0.claim_map().dom().insert(id),
        forall|c: u64| c != id && s0.claim_map().dom().contains(c) ==> s1.claim_map()[c] == s0.claim_map()[c],
        s1.claim_map()[id].approve_votes == 0,
        s1.claim_map()[id].reject_votes == 0,
        forall|c: u64| c != id ==> s1.electorate(c) == s0.electorate(c),
    ensures
        claims_consistent(&s1),
        statuses_advance(&s0, &s1),
{
    assert forall|c: u64| #[trigger] s0.claim_map().dom().contains(c) implies s1.claim_map().dom().contains(c)
        && status_step(s0.claim_map()[c].status, s1.claim_map()[c].status) by {
        assert(c <= s0.claim_counter);
    }
    let v = s0.votes@;
    assert forall|i: int| 0 <= i < v.len() implies (#[trigger] v[i]).claim_id != id by {}
    lemma_count_zero(v, id, VoteOption::Approve);
    lemma_count_zero(v, id, VoteOption::Reject);
    assert forall|c: u64| #[trigger] s1.claim_map().dom().contains(c) implies s1.claim_map()[c].approve_votes
        == count_votes(s1.votes@, c, VoteOption::Approve) && s1.claim_map()[c].reject_votes == count_votes(
        s1.votes@,
        c,
        VoteOption::Reject,
    ) by {
        if c != id {
            assert(s0.claim_map().dom().contains(c));
        }
    }
    assert forall|i: int| 0 <= i < v.len() implies s1.electorate((#[trigger] s1.votes@[i]).claim_id).contains(
        s1.votes@[i].voter@,
    ) by {
        assert(s1.votes@[i] == v[i]);
    }
}

/// Changing only a claim's status and payout time keeps the claim records
/// consistent.
proof fn lemma_status_keeps_consistency(s0: Storage, s1: Storage, id: u64, c: Claim)
    requires
        claims_consistent(&s0),
        s0.claim_map().dom().contains(id),
        c.approve_votes == s0.claim_map()[id].approve_votes,
        c.reject_votes == s0.claim_map()[id].reject_votes,
        s1.claim_map() == s0.claim_map().insert(id, c),
        s1.votes == s0.votes,
        s1.claim_counter == s0.claim_counter,
        s1.claim_voters == s0.claim_voters,
    ensures
        claims_consistent(&s1),
{
    assert forall|k: u64| #[trigger] s1.claim_map().dom().contains(k) implies k <= s1.claim_counter by {
        assert(s0.claim_map().dom().contains(k));
    }
    assert forall|k: u64| #[trigger] s1.claim_map().dom().contains(k) implies s1.claim_map()[k].approve_votes
        == count_votes(s1.votes@, k, VoteOption::Approve) && s1.claim_map()[k].reject_votes == count_votes(
        s1.votes@,
        k,
        VoteOption::Reject,
    ) by {
        assert(s0.claim_map().dom().contains(k));
    }
}

// ── Filing ───────────────────────────────────────────────────────────────────

/// Which error, if any, refuses a claim filing at ledger `current_ledger`.
pub open spec fn file_claim_error(
    st: &Storage,
    claimant: Seq<char>,
    policy_id: u32,
    amount: i128,
    details: Seq<u8>,
    image_urls: Seq<Vec<u8>>,
    current_ledger: u32,
) -> Option<ContractError> {
    if st.paused {
        Some(ContractError::Paused)
    } else if !st.policy_map().dom().contains((claimant, policy_id)) {
        Some(ContractError::Invalid(Error::PolicyNotFound))
    } else {
        let policy = st.policy_map()[(claimant, policy_id)];
        match policy_active_check(policy, current_ledger) {
            Err(e) => Some(ContractError::Invalid(e)),
            Ok(_) => match claim_fields_check(amount, policy.coverage, details, image_urls) {
                Err(e) => Some(ContractError::Invalid(e)),
                Ok(_) => if current_ledger + VOTE_WINDOW_LEDGERS > u32::MAX {
                    Some(ContractError::Invalid(Error::Overflow))
                } else {
                    None
                },
            },
        }
    }
}

/// `c` is the claim recorded by a successful filing.
pub open spec fn is_filed_claim(
    c: Claim,
    st: &Storage,
    claim_id: u64,
    claimant: Seq<char>,
    policy_id: u32,
    amount: i128,
    details: Vec<u8>,
    image_urls: Vec<Vec<u8>>,
    current_ledger: u32,
) -> bool {
    &&& c.claim_id == claim_id
    &&& c.policy_id == policy_id
    &&& c.claimant@ == claimant
    &&& c.amount == amount
    &&& c.asset@ == st.token->0@
    &&& c.details == details
    &&& c.image_urls == image_urls
    &&& c.status == ClaimStatus::Processing
    &&& c.approve_votes == 0
    &&& c.reject_votes == 0
    &&& c.vote_deadline == current_ledger + VOTE_WINDOW_LEDGERS
    &&& c.snapshot_size == st.voters@.len()
    &&& c.paid_at is None
}

/// `s1` and `r` are what filing a claim does to `s0`: refused with the error
/// `file_claim_error` names, or the new claim recorded under the next id with
/// the live voter set as its electorate.
pub open spec fn filed(
    s0: &Storage,
    s1: &Storage,
    r: Result<u64, ContractError>,
    claimant: Seq<char>,
    policy_id: u32,
    amount: i128,
    details: Vec<u8>,
    image_urls: Vec<Vec<u8>>,
    current_ledger: u32,
) -> bool {
    match file_claim_error(s0, claimant, policy_id, amount, details@, image_urls@, current_ledger) {
        Some(e) => r == Err::<u64, ContractError>(e) && *s1 == *s0,
        None => {
            let id = (s0.claim_counter + 1) as u64;
            &&& r == Ok::<u64, ContractError>(id)
            &&& s1.claim_counter == id
            &&& s1.claim_map().dom() == s0.claim_map().dom().insert(id)
            &&& is_filed_claim(
                s1.claim_map()[id],
                s0,
                id,
                claimant,
                policy_id,
                amount,
                details,
                image_urls,
                current_ledger,
            )
            &&& forall|c: u64| c != id && s0.claim_map().dom().contains(c) ==> s1.claim_map()[c]
                == s0.claim_map()[c]
            &&& s1.electorate(id) == s0.voter_set()
            &&& forall|c: u64| c != id ==> s1.electorate(c) == s0.electorate(c)
            &&& forall|c: u64| c != id && s0.snapshot_map().dom().contains(c) ==> s1.snapshot_map()[c]
                == s0.snapshot_map()[c]
            &&& s1.snapshot_map().dom() == s0.snapshot_map().dom().insert(id)
            &&& *s1 == (Storage {
                claims: s1.claims,
                claim_counter: id,
                claim_voters: s1.claim_voters,
                ..*s0
            })
        },
    }
}

/// Files a claim of `amount` against the claimant's policy `policy_id`.  The
/// contract must not be paused, the policy must be in force and the claim
/// fields valid.  The claim gets the next claim id, the treasury token as
/// its asset, a voting window of `VOTE_WINDOW_LEDGERS` ledgers, and the
/// current live voter set as its electorate.
pub fn file_claim(
    st: &mut Storage,
    claimant: &Address,
    policy_id: u32,
    amount: i128,
    details: Vec<u8>,
    image_urls: Vec<Vec<u8>>,
    current_ledger: u32,
) -> (r: Result<u64, ContractError>)
    requires
        old(st).token is Some,
        old(st).claim_counter < u64::MAX,
        old(st).voters@.len() <= u32::MAX,
    ensures
        filed(old(st), final(st), r, claimant@, policy_id, amount, details, image_urls, current_ledger),
        claims_consistent(old(st)) ==> claims_consistent(final(st)) && statuses_advance(old(st), final(st)),
{
    if st.paused {
        return Err(ContractError::Paused);
    }
    let coverage = match get_policy(st, claimant, policy_id) {
        Some(policy) => {
            match check_policy_active(policy, current_ledger) {
                Ok(()) => {},
                Err(e) => return Err(ContractError::Invalid(e)),
            }
            policy.coverage
        },
        None => return Err(ContractError::Invalid(Error::PolicyNotFound)),
    };
    match check_claim_fields(amount, coverage, &details, &image_urls) {
        Ok(()) => {},
        Err(e) => return Err(ContractError::Invalid(e)),
    }
    let vote_deadline = match current_ledger.checked_add(VOTE_WINDOW_LEDGERS) {
        Some(d) => d,
        None => return Err(ContractError::Invalid(Error::Overflow)),
    };
    let asset = get_token(st).copied();
    let snapshot_size = st.voters.len() as u32;
    let claim_id = next_claim_id(st);
    snapshot_voters_for_claim(st, claim_id);
    let claim = Claim {
        claim_id,
        policy_id,
        claimant: claimant.copied(),
        amount,
        asset,
        details,
        image_urls,
        status: ClaimStatus::Processing,
        approve_votes: 0,
        reject_votes: 0,
        vote_deadline,
        snapshot_size,
        paid_at: None,
    };
    set_claim(st, claim);
    proof {
        if claims_consistent(old(st)) {
            lemma_file_keeps_consistency(*old(st), *st, claim_id);
        }
    }
    Ok(claim_id)
}

// ── Voting ───────────────────────────────────────────────────────────────────

/// The status a claim takes after a ballot: approved once approvals are a
/// strict majority of the electorate, rejected once rejections are, and
/// still open otherwise.
pub open spec fn tally_status(approve_votes: u32, reject_votes: u32, electorate_size: u32) -> ClaimStatus {
    if 2 * approve_votes > electorate_size {
        ClaimStatus::Approved
    } else if 2 * reject_votes > electorate_size {
        ClaimStatus::Rejected
    } else {
        ClaimStatus::Processing
    }
}

/// The claim after one more ballot `vote`.
pub open spec fn tallied(c: Claim, vote: VoteOption) -> Claim {
    let approve = if vote == VoteOption::Approve { (c.approve_votes + 1) as u32 } else { c.approve_votes };
    let reject = if vote == VoteOption::Reject { (c.reject_votes + 1) as u32 } else { c.reject_votes };
    Claim {
        approve_votes: approve,
        reject_votes: reject,
        status: tally_status(approve, reject, c.snapshot_size),
        ..c
    }
}

/// Which error, if any, refuses a ballot at ledger `current_ledger`.
pub open spec fn vote_error(
    st: &Storage,
    voter: Seq<char>,
    claim_id: u64,
    vote: VoteOption,
    current_ledger: u32,
) -> Option<ContractError> {
    if st.paused {
        Some(ContractError::Paused)
    } else if !st.claim_map().dom().contains(claim_id) {
        Some(ContractError::Invalid(Error::ClaimNotFound))
    } else {
        let c = st.claim_map()[claim_id];
        if c.status != ClaimStatus::Processing {
            Some(ContractError::Invalid(Error::ClaimAlreadyTerminal))
        } else if current_ledger > c.vote_deadline {
            Some(ContractError::VotingClosed)
        } else if !st.electorate(claim_id).contains(voter) {
            Some(ContractError::NotEligibleVoter)
        } else if st.ballot_map().dom().contains((claim_id, voter)) {
            Some(ContractError::Invalid(Error::DuplicateVote))
        } else if (vote == VoteOption::Approve && c.approve_votes == u32::MAX) || (vote == VoteOption::Reject
            && c.reject_votes == u32::MAX) {
            Some(ContractError::Invalid(Error::Overflow))
        } else {
            None
        }
    }
}

/// `s1` and `r` are what a ballot does to `s0`: refused with the error
/// `vote_error` names, or the ballot appended and the claim's tally and
/// status updated.
pub open spec fn voted(
    s0: &Storage,
    s1: &Storage,
    r: Result<ClaimStatus, ContractError>,
    voter: Seq<char>,
    claim_id: u64,
    vote: VoteOption,
    current_ledger: u32,
) -> bool {
    match vote_error(s0, voter, claim_id, vote, current_ledger) {
        Some(e) => r == Err::<ClaimStatus, ContractError>(e) && *s1 == *s0,
        None => {
            let c = tallied(s0.claim_map()[claim_id], vote);
            &&& r == Ok::<ClaimStatus, ContractError>(c.status)
            &&& s1.claim_map() == s0.claim_map().insert(claim_id, c)
            &&& s1.votes@.drop_last() == s0.votes@
            &&& s1.votes@.last().claim_id == claim_id
            &&& s1.votes@.last().voter@ == voter
            &&& s1.votes@.last().vote == vote
            &&& s1.ballot_map() == s0.ballot_map().insert(
                (claim_id, voter),
                s1.votes@.last(),
            )
            &&& *s1 == (Storage { claims: s1.claims, votes: s1.votes, ..*s0 })
        },
    }
}

/// Casts an immutable ballot on an open claim.  The contract must not be
/// paused, the claim must be open and within its voting window, the voter
/// must be in the claim's electorate and must not have voted on it before.
/// The ballot is recorded before anything else is written, the tally grows
/// by one, and a strict majority of the electorate settles the claim at
/// once.  Returns the claim's new status.
pub fn vote_on_claim(
    st: &mut Storage,
    voter: &Address,
    claim_id: u64,
    vote: VoteOption,
    current_ledger: u32,
) -> (r: Result<ClaimStatus, ContractError>)
    ensures
        voted(old(st), final(st), r, voter@, claim_id, vote, current_ledger),
        claims_consistent(old(st)) ==> claims_consistent(final(st)),
        statuses_advance(old(st), final(st)),
{
    if st.paused {
        return Err(ContractError::Paused);
    }
    let (approve, reject, electorate_size, paid_at) = match stored_claim(st, claim_id) {
        Some(c) => {
            match check_claim_open(c) {
                Ok(()) => {},
                Err(e) => return Err(ContractError::Invalid(e)),
            }
            if current_ledger > c.vote_deadline {
                return Err(ContractError::VotingClosed);
            }
            (c.approve_votes, c.reject_votes, c.snapshot_size, c.paid_at)
        },
        None => return Err(ContractError::Invalid(Error::ClaimNotFound)),
    };
    if !is_eligible_voter(st, claim_id, voter) {
        return Err(ContractError::NotEligibleVoter);
    }
    if crate::storage::get_vote(st, claim_id, voter).is_some() {
        return Err(ContractError::Invalid(Error::DuplicateVote));
    }
    let (approve, reject) = match vote {
        VoteOption::Approve => {
            if approve == u32::MAX {
                return Err(ContractError::Invalid(Error::Overflow));
            }
            (approve + 1, reject)
        },
        VoteOption::Reject => {
            if reject == u32::MAX {
                return Err(ContractError::Invalid(Error::Overflow));
            }
            (approve, reject + 1)
        },
    };
    let status = if 2 * (approve as u64) > electorate_size as u64 {
        ClaimStatus::Approved
    } else if 2 * (reject as u64) > electorate_size as u64 {
        ClaimStatus::Rejected
    } else {
        ClaimStatus::Processing
    };
    add_vote(st, claim_id, voter, vote);
    let ghost c0 = old(st).claim_map()[claim_id];
    update_claim_state(st, claim_id, status, approve, reject, paid_at);
    assert(tallied(c0, vote) == (Claim { status, approve_votes: approve, reject_votes: reject, paid_at, ..c0 }));
    proof {
        if claims_consistent(old(st)) {
            lemma_vote_keeps_consistency(*old(st), *st, claim_id, voter@, vote);
        }
    }
    Ok(status)
}

// ── Settlement after the deadline ───────────────────────────────────────────

/// The outcome of a claim settled after its deadline: approved when it has
/// more approvals than rejections, rejected otherwise (a tie rejects).
pub open spec fn settled_status(approve_votes: u32, reject_votes: u32) -> ClaimStatus {
    if approve_votes > reject_votes {
        ClaimStatus::Approved
    } else {
        ClaimStatus::Rejected
    }
}

/// Which error, if any, refuses settling a claim at ledger `current_ledger`.
pub open spec fn finalize_error(st: &Storage, claim_id: u64, current_ledger: u32) -> Option<ContractError> {
    if !st.claim_map().dom().contains(claim_id) {
        Some(ContractError::Invalid(Error::ClaimNotFound))
    } else {
        let c = st.claim_map()[claim_id];
        if c.status != ClaimStatus::Processing {
            Some(ContractError::Invalid(Error::ClaimAlreadyTerminal))
        } else if current_ledger <= c.vote_deadline {
            Some(ContractError::VotingStillOpen)
        } else {
            None
        }
    }
}

/// `s1` and `r` are what settling a claim does to `s0`: refused with the
/// error `finalize_error` names, or the claim closed as `settled_status`.
pub open spec fn finalized(
    s0: &Storage,
    s1: &Storage,
    r: Result<ClaimStatus, ContractError>,
    claim_id: u64,
    current_ledger: u32,
) -> bool {
    match finalize_error(s0, claim_id, current_ledger) {
        Some(e) => r == Err::<ClaimStatus, ContractError>(e) && *s1 == *s0,
        None => {
            let c = s0.claim_map()[claim_id];
            let s = settled_status(c.approve_votes, c.reject_votes);
            &&& r == Ok::<ClaimStatus, ContractError>(s)
            &&& s1.claim_map() == s0.claim_map().insert(claim_id, Claim { status: s, ..c })
            &&& *s1 == (Storage { claims: s1.claims, ..*s0 })
        },
    }
}

/// Settles an open claim whose voting window has closed without a majority.
/// Anyone may call.  Returns the claim's final status.
pub fn finalize_claim(st: &mut Storage, claim_id: u64, current_ledger: u32) -> (r: Result<ClaimStatus, ContractError>)
    ensures
        finalized(old(st), final(st), r, claim_id, current_ledger),
        claims_consistent(old(st)) ==> claims_consistent(final(st)),
        statuses_advance(old(st), final(st)),
{
    let (approve, reject, paid_at) = match stored_claim(st, claim_id) {
        Some(c) => {
            match check_claim_open(c) {
                Ok(()) => {},
                Err(e) => return Err(ContractError::Invalid(e)),
            }
            if current_ledger <= c.vote_deadline {
                return Err(ContractError::VotingStillOpen);
            }
            (c.approve_votes, c.reject_votes, c.paid_at)
        },
        None => return Err(ContractError::Invalid(Error::ClaimNotFound)),
    };
    let status = if approve > reject {
        ClaimStatus::Approved
    } else {
        ClaimStatus::Rejected
    };
    update_claim_state(st, claim_id, status, approve, reject, paid_at);
    let ghost c0 = old(st).claim_map()[claim_id];
    assert((Claim { status, approve_votes: approve, reject_votes: reject, paid_at, ..c0 }) == (Claim { status, ..c0 }));
    proof {
        if claims_consistent(old(st)) {
            lemma_status_keeps_consistency(*old(st), *st, claim_id, Claim { status, ..c0 });
        }
    }
    Ok(status)
}

// ── Payout ───────────────────────────────────────────────────────────────────

/// Which error, if any, refuses paying out claim `claim_id`, leaving the
/// treasury balance aside.
pub open spec fn payout_error(st: &Storage, claim_id: u64) -> Option<Error> {
    if !st.claim_map().dom().contains(claim_id) {
        Some(Error::ClaimNotFound)
    } else {
        let c = st.claim_map()[claim_id];
        if c.status == ClaimStatus::Paid {
            Some(Error::AlreadyPaid)
        } else if c.status != ClaimStatus::Approved {
            Some(Error::ClaimNotApproved)
        } else if c.amount <= 0 {
            Some(Error::ClaimAmountZero)
        } else if !asset_allowed(st, c.asset@) {
            Some(Error::InvalidAsset)
        } else {
            None
        }
    }
}

/// `ev` announces the payout of claim `c`.
pub open spec fn is_payout_of(ev: ClaimProcessed, c: Claim) -> bool {
    &&& ev.claim_id == c.claim_id
    &&& ev.recipient@ == c.claimant@
    &&& ev.amount == c.amount
    &&& ev.asset@ == c.asset@
}

/// The payout a claim is owed, checked against everything but the treasury
/// balance: the claim must exist, be approved and unpaid, ask for a positive
/// amount and be in an allowed asset.  Nothing is written.
pub fn payout_request(st: &Storage, claim_id: u64) -> (r: Result<ClaimProcessed, Error>)
    ensures
        match payout_error(st, claim_id) {
            Some(e) => r == Err::<ClaimProcessed, Error>(e),
            None => r matches Ok(ev) && is_payout_of(ev, st.claim_map()[claim_id]),
        },
{
    match stored_claim(st, claim_id) {
        Some(c) => {
            if c.status == ClaimStatus::Paid {
                return Err(Error::AlreadyPaid);
            }
            if c.status != ClaimStatus::Approved {
                return Err(Error::ClaimNotApproved);
            }
            if c.amount <= 0 {
                return Err(Error::ClaimAmountZero);
            }
            if !asset_is_allowed(st, &c.asset) {
                return Err(Error::InvalidAsset);
            }
            Ok(ClaimProcessed {
                claim_id: c.claim_id,
                recipient: c.claimant.copied(),
                amount: c.amount,
                asset: c.asset.copied(),
            })
        },
        None => Err(Error::ClaimNotFound),
    }
}

/// The treasury must hold at least the claimed amount.
pub fn check_treasury_balance(treasury_balance: i128, amount: i128) -> (r: Result<(), Error>)
    ensures
        r == (if treasury_balance < amount {
            Err(Error::InsufficientTreasury)
        } else {
            Ok(())
        }),
{
    if treasury_balance < amount {
        return Err(Error::InsufficientTreasury);
    }
    Ok(())
}

/// `s1` and `r` are what paying out a claim does to `s0`: refused with the
/// error `payout_error` names or for want of treasury funds, or the claim
/// marked paid at `now` and its payout returned.
pub open spec fn processed(
    s0: &Storage,
    s1: &Storage,
    r: Result<ClaimProcessed, Error>,
    claim_id: u64,
    treasury_balance: i128,
    now: u64,
) -> bool {
    match payout_error(s0, claim_id) {
        Some(e) => r == Err::<ClaimProcessed, Error>(e) && *s1 == *s0,
        None => {
            let c = s0.claim_map()[claim_id];
            if treasury_balance < c.amount {
                r == Err::<ClaimProcessed, Error>(Error::InsufficientTreasury) && *s1 == *s0
            } else {
                &&& r matches Ok(ev) && is_payout_of(ev, c)
                &&& s1.claim_map() == s0.claim_map().insert(
                    claim_id,
                    Claim { status: ClaimStatus::Paid, paid_at: Some(now), ..c },
                )
                &&& *s1 == (Storage { claims: s1.claims, ..*s0 })
            }
        },
    }
}

/// Pays out an approved claim: given the treasury's balance of the claim's
/// asset and the ledger timestamp `now`, checks the claim as
/// `payout_request` does and the balance against the amount, then marks the
/// claim paid at `now`.  The returned event names the transfer to make from
/// the treasury to the claimant.
pub fn process_claim(st: &mut Storage, claim_id: u64, treasury_balance: i128, now: u64) -> (r: Result<ClaimProcessed, Error>)
    ensures
        processed(old(st), final(st), r, claim_id, treasury_balance, now),
        claims_consistent(old(st)) ==> claims_consistent(final(st)),
        statuses_advance(old(st), final(st)),
{
    let ev = match payout_request(st, claim_id) {
        Ok(ev) => ev,
        Err(e) => return Err(e),
    };
    match check_treasury_balance(treasury_balance, ev.amount) {
        Ok(()) => {},
        Err(e) => return Err(e),
    }
    let ghost c0 = old(st).claim_map()[claim_id];
    let (approve, reject) = match stored_claim(st, claim_id) {
        Some(c) => (c.approve_votes, c.reject_votes),
        None => (0, 0),
    };
    update_claim_state(st, claim_id, ClaimStatus::Paid, approve, reject, Some(now));
    assert((Claim { status: ClaimStatus::Paid, approve_votes: c0.approve_votes, reject_votes: c0.reject_votes, paid_at: Some(now), ..c0 }) == (Claim { status: ClaimStatus::Paid, paid_at: Some(now), ..c0 }));
    proof {
        if claims_consistent(old(st)) {
            lemma_status_keeps_consistency(*old(st), *st, claim_id, Claim { status: ClaimStatus::Paid, paid_at: Some(now), ..c0 });
        }
    }
    Ok(ev)
}

/// The claim stored under `claim_id`.
pub fn get_claim(st: &Storage, claim_id: u64) -> (r: Result<&Claim, Error>)
    ensures
        st.claim_map().dom().contains(claim_id) ==> r == Ok::<&Claim, Error>(&st.claim_map()[claim_id]),
        !st.claim_map().dom().contains(claim_id) ==> r == Err::<&Claim, Error>(Error::ClaimNotFound),
{
    match stored_claim(st, claim_id) {
        Some(c) => Ok(c),
        None => Err(Error::ClaimNotFound),
    }
}

/// Returns true if `asset` may pay out claims: it is the treasury token or
/// has been allowlisted.
pub fn is_allowed_asset(st: &Storage, asset: &Address) -> (r: bool)
    ensures
        r == asset_allowed(st, asset@),
{
    asset_is_allowed(st, asset)
}

/// Adds `asset` to, or removes it from, the payout allowlist.
pub fn set_allowed_asset(st: &mut Storage, asset: &Address, allowed: bool)
    ensures
        forall|a: Seq<char>| a != asset@ ==> (asset_allowed(final(st), a) == asset_allowed(old(st), a)),
        allowed ==> asset_allowed(final(st), asset@),
        !allowed ==> (asset_allowed(final(st), asset@) <==> crate::storage::opt_addr(old(st).token) == Some(asset@)),
        *final(st) == (Storage { allowed_assets: final(st).allowed_assets, ..*old(st) }),
{
    store_allowed_asset(st, asset, allowed);
    proof {
        let s0 = crate::storage::addrs(old(st).allowed_assets@);
        crate::storage::lemma_without(s0, asset@);
        assert forall|a: Seq<char>| a != asset@ implies (asset_allowed(final(st), a) == asset_allowed(old(st), a)) by {
            crate::storage::lemma_push_contains(s0, asset@, a);
        }
        crate::storage::lemma_push_contains(s0, asset@, asset@);
    }
}

// ── Laws ─────────────────────────────────────────────────────────────────────

/// Ballots are immutable: a vote call never changes or removes a recorded
/// ballot; at most it adds the caller's first ballot on the claim.
pub proof fn law_ballots_immutable(
    s0: Storage,
    s1: Storage,
    r: Result<ClaimStatus, ContractError>,
    voter: Seq<char>,
    claim_id: u64,
    vote: VoteOption,
    current_ledger: u32,
)
    requires
        voted(&s0, &s1, r, voter, claim_id, vote, current_ledger),
    ensures
        forall|k: (u64, Seq<char>)| #[trigger]
            s0.ballot_map().dom().contains(k) ==> s1.ballot_map().dom().contains(k) && s1.ballot_map()[k]
                == s0.ballot_map()[k],
        r is Ok ==> !s0.ballot_map().dom().contains((claim_id, voter)),
{
}

/// One ballot per voter and claim: once a voter's ballot on a claim is in,
/// any further ballot of that voter on that claim is refused and changes
/// nothing, whatever option it carries.
pub proof fn law_second_ballot_refused(
    s0: Storage,
    s1: Storage,
    s2: Storage,
    r1: Result<ClaimStatus, ContractError>,
    r2: Result<ClaimStatus, ContractError>,
    voter: Seq<char>,
    claim_id: u64,
    vote1: VoteOption,
    vote2: VoteOption,
    ledger1: u32,
    ledger2: u32,
)
    requires
        voted(&s0, &s1, r1, voter, claim_id, vote1, ledger1),
        r1 is Ok,
        voted(&s1, &s2, r2, voter, claim_id, vote2, ledger2),
    ensures
        r2 is Err,
        s2 == s1,
{
    assert(s1.ballot_map().dom().contains((claim_id, voter)));
    assert(s1.claim_map().dom().contains(claim_id));
    assert(s1.claim_voters == s0.claim_voters);
}

/// The electorate is fixed at filing: a voter outside the live voter set
/// when a claim is filed cannot vote on it later, while the claim's
/// electorate is untouched, even after joining the live voter set.
pub proof fn law_late_joiner_rejected(
    s0: Storage,
    s1: Storage,
    s2: Storage,
    r: Result<u64, ContractError>,
    claimant: Seq<char>,
    policy_id: u32,
    amount: i128,
    details: Vec<u8>,
    image_urls: Vec<Vec<u8>>,
    filed_at: u32,
    voter: Seq<char>,
    vote: VoteOption,
    current_ledger: u32,
)
    requires
        filed(&s0, &s1, r, claimant, policy_id, amount, details, image_urls, filed_at),
        r is Ok,
        !s0.voter_set().contains(voter),
        s2.claim_voters == s1.claim_voters,
        s2.claim_map() == s1.claim_map(),
        !s2.paused,
        current_ledger <= filed_at + VOTE_WINDOW_LEDGERS,
    ensures
        vote_error(&s2, voter, r->Ok_0, vote, current_ledger) == Some(ContractError::NotEligibleVoter),
{
    let id = r->Ok_0;
    assert(s2.electorate(id) == s1.electorate(id));
}

/// A tie after the deadline rejects the claim: the insurer wins ties.
pub proof fn law_tie_rejects(votes: u32)
    ensures
        settled_status(votes, votes) == ClaimStatus::Rejected,
{
}

/// A strict majority of the electorate settles a claim at once: the ballot
/// that gives approvals (or rejections) more than half the electorate
/// closes the claim as approved (or rejected).
pub proof fn law_majority_settles(approve_votes: u32, reject_votes: u32, electorate_size: u32)
    requires
        approve_votes + reject_votes <= electorate_size,
    ensures
        2 * approve_votes > electorate_size ==> tally_status(approve_votes, reject_votes, electorate_size)
            == ClaimStatus::Approved,
        2 * reject_votes > electorate_size ==> tally_status(approve_votes, reject_votes, electorate_size)
            == ClaimStatus::Rejected,
        2 * approve_votes <= electorate_size && 2 * reject_votes <= electorate_size ==> tally_status(
            approve_votes,
            reject_votes,
            electorate_size,
        ) == ClaimStatus::Processing,
{
}

/// While paused, no claim can be filed and no ballot cast.
pub proof fn law_pause_blocks_claims(
    st: Storage,
    who: Seq<char>,
    policy_id: u32,
    amount: i128,
    details: Seq<u8>,
    image_urls: Seq<Vec<u8>>,
    claim_id: u64,
    vote: VoteOption,
    current_ledger: u32,
)
    requires
        st.paused,
    ensures
        file_claim_error(&st, who, policy_id, amount, details, image_urls, current_ledger) == Some(
            ContractError::Paused,
        ),
        vote_error(&st, who, claim_id, vote, current_ledger) == Some(ContractError::Paused),
{
}

/// A claim is paid at most once: after a successful payout, paying the same
/// claim again is refused as already paid and changes nothing.
pub proof fn law_payout_once(
    s0: Storage,
    s1: Storage,
    s2: Storage,
    r1: Result<ClaimProcessed, Error>,
    r2: Result<ClaimProcessed, Error>,
    claim_id: u64,
    balance1: i128,
    balance2: i128,
    now1: u64,
    now2: u64,
)
    requires
        processed(&s0, &s1, r1, claim_id, balance1, now1),
        r1 is Ok,
        processed(&s1, &s2, r2, claim_id, balance2, now2),
    ensures
        r2 == Err::<ClaimProcessed, Error>(Error::AlreadyPaid),
        s2 == s1,
{
    assert(s1.claim_map().dom().contains(claim_id));
}

/// The number of recorded ballots, of either option, on claim `claim_id`.
pub open spec fn count_ballots(votes: Seq<Ballot>, claim_id: u64) -> nat
    decreases votes.len(),
{
    if votes.len() == 0 {
        0
    } else {
        count_ballots(votes.drop_last(), claim_id) + if votes.last().claim_id == claim_id {
            1nat
        } else {
            0nat
        }
    }
}

/// Every ballot on a claim is an approval or a rejection.
proof fn lemma_ballots_split(votes: Seq<Ballot>, claim_id: u64)
    ensures
        count_votes(votes, claim_id, VoteOption::Approve) + count_votes(votes, claim_id, VoteOption::Reject)
            == count_ballots(votes, claim_id),
    decreases votes.len(),
{
    if votes.len() > 0 {
        lemma_ballots_split(votes.drop_last(), claim_id);
    }
}

/// Tally reconciliation: in consistent records, a claim's approvals plus
/// rejections equal the number of ballots recorded on it.
pub proof fn law_tallies_match_ballots(st: Storage, claim_id: u64)
    requires
        claims_consistent(&st),
        st.claim_map().dom().contains(claim_id),
    ensures
        st.claim_map()[claim_id].approve_votes + st.claim_map()[claim_id].reject_votes == count_ballots(
            st.votes@,
            claim_id,
        ),
{
    lemma_ballots_split(st.votes@, claim_id);
}

/// A ballot from outside the claim's electorate is refused before anything
/// is written: the store is unchanged.
pub proof fn law_ineligible_ballot_writes_nothing(
    s0: Storage,
    s1: Storage,
    r: Result<ClaimStatus, ContractError>,
    voter: Seq<char>,
    claim_id: u64,
    vote: VoteOption,
    current_ledger: u32,
)
    requires
        voted(&s0, &s1, r, voter, claim_id, vote, current_ledger),
        !s0.electorate(claim_id).contains(voter),
    ensures
        r is Err,
        s1 == s0,
{
}

/// Leaving the live voter set (as when a policy ends) changes no claim and
/// no electorate already captured: ballots the holder may still cast on
/// claims filed before are judged as before.
pub proof fn law_removal_keeps_electorates(s0: Storage, s1: Storage, holder: Seq<char>)
    requires
        s1.voter_set() == crate::storage::without(s0.voter_set(), holder),
        s1 == (Storage { voters: s1.voters, ..s0 }),
    ensures
        forall|c: u64| #[trigger] s1.electorate(c) == s0.electorate(c),
        s1.claim_map() == s0.claim_map(),
        s1.ballot_map() == s0.ballot_map(),
        forall|v: Seq<char>, c: u64, o: VoteOption, l: u32| #[trigger] vote_error(&s1, v, c, o, l) == vote_error(
            &s0,
            v,
            c,
            o,
            l,
        ),
{
}

/// A settled claim never reopens: across any step that advances statuses
/// (filing, voting, settling, paying), a claim that is approved, rejected
/// or paid stays so; only an approved claim may become paid.
pub proof fn law_settled_claims_stay_settled(s0: Storage, s1: Storage, claim_id: u64)
    requires
        statuses_advance(&s0, &s1),
        s0.claim_map().dom().contains(claim_id),
        s0.claim_map()[claim_id].status != ClaimStatus::Processing,
    ensures
        s1.claim_map().dom().contains(claim_id),
        s1.claim_map()[claim_id].status != ClaimStatus::Processing,
        s0.claim_map()[claim_id].status != ClaimStatus::Approved ==> s1.claim_map()[claim_id].status
            == s0.claim_map()[claim_id].status,
{
}

/// Settlement after the deadline goes by plurality: an open claim whose
/// window has closed is approved when it has more approvals than
/// rejections and rejected otherwise (a tie rejects); its tallies stay and
/// only its status changes.  Before the deadline, or once settled, the call
/// is refused and nothing changes.
pub proof fn law_finalize_by_plurality(
    s0: Storage,
    s1: Storage,
    r: Result<ClaimStatus, ContractError>,
    claim_id: u64,
    current_ledger: u32,
)
    requires
        finalized(&s0, &s1, r, claim_id, current_ledger),
        s0.claim_map().dom().contains(claim_id),
    ensures
        ({
            let c = s0.claim_map()[claim_id];
            &&& c.status == ClaimStatus::Processing && current_ledger > c.vote_deadline && c.approve_votes
                > c.reject_votes ==> r == Ok::<ClaimStatus, ContractError>(ClaimStatus::Approved)
            &&& c.status == ClaimStatus::Processing && current_ledger > c.vote_deadline && c.approve_votes
                <= c.reject_votes ==> r == Ok::<ClaimStatus, ContractError>(ClaimStatus::Rejected)
            &&& c.status == ClaimStatus::Processing && current_ledger <= c.vote_deadline ==> r == Err::<
                ClaimStatus,
                ContractError,
            >(ContractError::VotingStillOpen) && s1 == s0
            &&& c.status != ClaimStatus::Processing ==> r == Err::<ClaimStatus, ContractError>(
                ContractError::Invalid(Error::ClaimAlreadyTerminal),
            ) && s1 == s0
            &&& r is Ok ==> {
                &&& s1.claim_map().dom().contains(claim_id)
                &&& s1.claim_map()[claim_id].status == r->Ok_0
                &&& s1.claim_map()[claim_id].approve_votes == c.approve_votes
                &&& s1.claim_map()[claim_id].reject_votes == c.reject_votes
                &&& s1.claim_map()[claim_id].amount == c.amount
                &&& s1.claim_map()[claim_id].claimant == c.claimant
            }
        }),
{
}

/// Only approved claims are paid: a payout succeeds only for a stored
/// claim that is `Approved`, asks for a positive amount no larger than the
/// treasury balance and is in an allowed asset; it pays exactly the claimed
/// amount to the claimant and leaves the claim `Paid` at `now`.  A claim in
/// any other status is refused, and every refusal leaves the store as it
/// was.
pub proof fn law_payout_only_approved(
    s0: Storage,
    s1: Storage,
    r: Result<ClaimProcessed, Error>,
    claim_id: u64,
    treasury_balance: i128,
    now: u64,
)
    requires
        processed(&s0, &s1, r, claim_id, treasury_balance, now),
    ensures
        r is Err ==> s1 == s0,
        !s0.claim_map().dom().contains(claim_id) ==> r == Err::<ClaimProcessed, Error>(Error::ClaimNotFound),
        s0.claim_map().dom().contains(claim_id) && s0.claim_map()[claim_id].status != ClaimStatus::Approved ==> r is Err,
        s0.claim_map().dom().contains(claim_id) && (s0.claim_map()[claim_id].status == ClaimStatus::Processing
            || s0.claim_map()[claim_id].status == ClaimStatus::Rejected) ==> r == Err::<ClaimProcessed, Error>(
            Error::ClaimNotApproved,
        ),
        r is Ok ==> {
            let c = s0.claim_map()[claim_id];
            &&& s0.claim_map().dom().contains(claim_id)
            &&& c.status == ClaimStatus::Approved
            &&& 0 < c.amount <= treasury_balance
            &&& asset_allowed(&s0, c.asset@)
            &&& r->Ok_0.claim_id == claim_id
            &&& r->Ok_0.amount == c.amount
            &&& r->Ok_0.recipient@ == c.claimant@
            &&& r->Ok_0.asset@ == c.asset@
            &&& s1.claim_map().dom().contains(claim_id)
            &&& s1.claim_map()[claim_id].status == ClaimStatus::Paid
            &&& s1.claim_map()[claim_id].paid_at == Some(now)
            &&& s1.claim_map()[claim_id].amount == c.amount
        },
{
    if s0.claim_map().dom().contains(claim_id) {
        crate::keyed::lemma_first_exists(s0.claims@, crate::storage::claim_key(), claim_id);
    }
}

/// A claim carrying an over-long image URL, at any position, is refused
/// with `ImageUrlTooLong` once the policy is in force and the other fields
/// pass, and nothing is written.
pub proof fn law_long_image_url_refuses_filing(
    s0: Storage,
    s1: Storage,
    r: Result<u64, ContractError>,
    claimant: Seq<char>,
    policy_id: u32,
    amount: i128,
    details: Vec<u8>,
    image_urls: Vec<Vec<u8>>,
    current_ledger: u32,
    i: int,
)
    requires
        filed(&s0, &s1, r, claimant, policy_id, amount, details, image_urls, current_ledger),
        !s0.paused,
        s0.policy_map().dom().contains((claimant, policy_id)),
        s0.policy_map()[(claimant, policy_id)].is_active,
        current_ledger < s0.policy_map()[(claimant, policy_id)].end_ledger,
        0 < amount <= s0.policy_map()[(claimant, policy_id)].coverage,
        details@.len() <= crate::types::DETAILS_MAX_LEN,
        image_urls@.len() <= crate::types::IMAGE_URLS_MAX,
        0 <= i < image_urls@.len(),
        image_urls@[i]@.len() > crate::types::IMAGE_URL_MAX_LEN,
    ensures
        r == Err::<u64, ContractError>(ContractError::Invalid(Error::ImageUrlTooLong)),
        s1 == s0,
{
    crate::validate::law_long_image_url_refused(
        amount,
        s0.policy_map()[(claimant, policy_id)].coverage,
        details@,
        image_urls@,
        i,
    );
}

} // verus!
