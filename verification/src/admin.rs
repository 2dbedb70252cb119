//! Privileged administration: two-step admin rotation, token update, pause
//! toggle and treasury drain.  Every privileged call names the address that
//! authorized it (`caller`); only the stored admin (or, for `accept_admin`,
//! the pending admin) is let through.  Each successful call returns the
//! audit event to publish.
use vstd::prelude::*;

use crate::address::Address;
use crate::storage::{
    clear_pending_admin, get_admin, get_token, set_admin, set_paused, set_pending_admin, set_token as store_token,
    Storage,
};

verus! {

/// Why an admin call was refused.
#[derive(Clone, Copy, PartialEq, Eq, Structural, Debug)]
pub enum AdminError {
    /// The caller is not the current admin (or no admin is set).
    Unauthorized,
    /// `initialize` has already been called.
    AlreadyInitialized,
    /// No pending admin proposal exists.
    NoPendingAdmin,
    /// The caller is not the pending admin.
    NotPendingAdmin,
    /// The supplied address is not acceptable.
    InvalidAddress,
    /// A drain amount must be positive.
    InvalidDrainAmount,
}

impl AdminError {
    /// The numeric error code: 100 to 105 in declaration order.
    pub open spec fn spec_code(&self) -> u32 {
        match *self {
            AdminError::Unauthorized => 100,
            AdminError::AlreadyInitialized => 101,
            AdminError::NoPendingAdmin => 102,
            AdminError::NotPendingAdmin => 103,
            AdminError::InvalidAddress => 104,
            AdminError::InvalidDrainAmount => 105,
        }
    }

    /// The numeric error code.
    #[verifier::when_used_as_spec(spec_code)]
    pub fn code(&self) -> (c: u32)
        ensures
            c == self.spec_code(),
    {
        match self {
            AdminError::Unauthorized => 100,
            AdminError::AlreadyInitialized => 101,
            AdminError::NoPendingAdmin => 102,
            AdminError::NotPendingAdmin => 103,
            AdminError::InvalidAddress => 104,
            AdminError::InvalidDrainAmount => 105,
        }
    }
}

/// The audit event of a successful admin call, published under the topic
/// `("admin", <action>)`.
#[derive(Clone, Debug)]
pub enum AdminEvent {
    /// `("admin", "proposed")`: the current admin proposed a successor.
    Proposed { old_admin: Address, new_admin: Address },
    /// `("admin", "accepted")`: the pending admin took over.
    Accepted { old_admin: Address, new_admin: Address },
    /// `("admin", "cancelled")`: the admin withdrew a proposal.
    Cancelled { admin: Address, pending: Address },
    /// `("admin", "token")`: the treasury token changed.
    TokenSet { old_token: Address, new_token: Address },
    /// `("admin", "paused")`.
    Paused { admin: Address },
    /// `("admin", "unpaused")`.
    Unpaused { admin: Address },
    /// `("admin", "drained")`: `amount` of `token` leaves the treasury for
    /// `recipient`.
    Drained { admin: Address, token: Address, recipient: Address, amount: i128 },
}

/// `caller` is the stored admin.
pub open spec fn is_admin(st: &Storage, caller: Seq<char>) -> bool {
    st.admin matches Some(a) && a@ == caller
}

/// The stored records are consistent: a token is set whenever an admin is,
/// and an admin whenever a successor is pending.
pub open spec fn configured(st: &Storage) -> bool {
    &&& st.admin is Some ==> st.token is Some
    &&& st.pending_admin is Some ==> st.admin is Some
}

/// Returns true if the stored records are consistent in the sense of
/// `configured`.
pub fn is_configured(st: &Storage) -> (r: bool)
    ensures
        r == configured(st),
{
    (st.admin.is_none() || st.token.is_some()) && (st.pending_admin.is_none() || st.admin.is_some())
}

/// `s1` and `r` are what `propose_admin` by `caller` does to `s0`: refused
/// unless `caller` is the admin, else `new_admin` becomes pending.
pub open spec fn proposed(s0: &Storage, s1: &Storage, r: Result<AdminEvent, AdminError>, caller: Seq<char>, new_admin: Address) -> bool {
    &&& !is_admin(s0, caller) ==> r == Err::<AdminEvent, AdminError>(AdminError::Unauthorized) && *s1 == *s0
    &&& is_admin(s0, caller) ==> {
        &&& *s1 == (Storage { pending_admin: Some(new_admin), ..*s0 })
        &&& r matches Ok(AdminEvent::Proposed { old_admin, new_admin: proposed }) && old_admin@ == caller
            && proposed@ == new_admin@
    }
}

/// `s1` and `r` are what `accept_admin` by `caller` does to `s0`: refused
/// without a proposal or unless `caller` is the pending admin, else the
/// pending admin becomes the admin and the proposal is cleared.
pub open spec fn accepted(s0: &Storage, s1: &Storage, r: Result<AdminEvent, AdminError>, caller: Seq<char>) -> bool {
    match s0.pending_admin {
        None => r == Err::<AdminEvent, AdminError>(AdminError::NoPendingAdmin) && *s1 == *s0,
        Some(p) => if p@ != caller {
            r == Err::<AdminEvent, AdminError>(AdminError::NotPendingAdmin) && *s1 == *s0
        } else {
            &&& *s1 == (Storage { admin: s0.pending_admin, pending_admin: None, ..*s0 })
            &&& r matches Ok(AdminEvent::Accepted { old_admin, new_admin }) && old_admin@ == s0.admin->0@
                && new_admin@ == caller
        },
    }
}

/// `s1` and `r` are what `cancel_admin` by `caller` does to `s0`: refused
/// unless `caller` is the admin and a proposal exists, else the proposal is
/// cleared.
pub open spec fn cancelled(s0: &Storage, s1: &Storage, r: Result<AdminEvent, AdminError>, caller: Seq<char>) -> bool {
    &&& !is_admin(s0, caller) ==> r == Err::<AdminEvent, AdminError>(AdminError::Unauthorized) && *s1 == *s0
    &&& is_admin(s0, caller) && s0.pending_admin is None ==> r == Err::<AdminEvent, AdminError>(
        AdminError::NoPendingAdmin,
    ) && *s1 == *s0
    &&& is_admin(s0, caller) && s0.pending_admin is Some ==> {
        &&& *s1 == (Storage { pending_admin: None, ..*s0 })
        &&& r matches Ok(AdminEvent::Cancelled { admin, pending }) && admin@ == caller && pending@
            == s0.pending_admin->0@
    }
}

/// Loads the admin and checks that it is the caller; returns the admin.
pub fn require_admin(st: &Storage, caller: &Address) -> (r: Result<Address, AdminError>)
    ensures
        is_admin(st, caller@) ==> (r matches Ok(a) && a@ == caller@),
        !is_admin(st, caller@) ==> r == Err::<Address, AdminError>(AdminError::Unauthorized),
{
    match &st.admin {
        Some(a) => {
            if a.same(caller) {
                Ok(a.copied())
            } else {
                Err(AdminError::Unauthorized)
            }
        },
        None => Err(AdminError::Unauthorized),
    }
}

/// Stores the first admin and token; refused once an admin is set.
pub fn initialize(st: &mut Storage, admin: Address, token: Address) -> (r: Result<(), AdminError>)
    ensures
        old(st).admin is Some ==> r == Err::<(), AdminError>(AdminError::AlreadyInitialized) && *final(st) == *old(st),
        old(st).admin is None ==> r is Ok && *final(st) == (Storage {
            admin: Some(admin),
            token: Some(token),
            ..*old(st)
        }),
{
    if st.admin.is_some() {
        return Err(AdminError::AlreadyInitialized);
    }
    set_admin(st, admin);
    store_token(st, token);
    Ok(())
}

/// Proposes `new_admin` as the next admin.  The current admin must call.
pub fn propose_admin(st: &mut Storage, caller: &Address, new_admin: Address) -> (r: Result<AdminEvent, AdminError>)
    ensures
        proposed(old(st), final(st), r, caller@, new_admin),
{
    let current = match require_admin(st, caller) {
        Ok(a) => a,
        Err(e) => return Err(e),
    };
    let proposed = new_admin.copied();
    set_pending_admin(st, new_admin);
    Ok(AdminEvent::Proposed { old_admin: current, new_admin: proposed })
}

/// Accepts a pending proposal.  The pending admin must call; it becomes the
/// admin and the proposal is cleared.
pub fn accept_admin(st: &mut Storage, caller: &Address) -> (r: Result<AdminEvent, AdminError>)
    requires
        configured(old(st)),
    ensures
        accepted(old(st), final(st), r, caller@),
        configured(final(st)),
{
    let pending = match get_pending_admin_copy(st) {
        Some(p) => p,
        None => return Err(AdminError::NoPendingAdmin),
    };
    if !pending.same(caller) {
        return Err(AdminError::NotPendingAdmin);
    }
    let old_admin = get_admin(st).copied();
    let new_admin = pending.copied();
    let taken = st.pending_admin.take();
    match taken {
        Some(p) => set_admin(st, p),
        None => {},
    }
    Ok(AdminEvent::Accepted { old_admin, new_admin })
}

/// A copy of the pending admin, if any.
fn get_pending_admin_copy(st: &Storage) -> (r: Option<Address>)
    ensures
        match st.pending_admin {
            Some(p) => r matches Some(q) && q@ == p@,
            None => r is None,
        },
{
    match &st.pending_admin {
        Some(p) => Some(p.copied()),
        None => None,
    }
}

/// Withdraws a pending proposal.  The current admin must call.
pub fn cancel_admin(st: &mut Storage, caller: &Address) -> (r: Result<AdminEvent, AdminError>)
    ensures
        cancelled(old(st), final(st), r, caller@),
{
    let current = match require_admin(st, caller) {
        Ok(a) => a,
        Err(e) => return Err(e),
    };
    let pending = match get_pending_admin_copy(st) {
        Some(p) => p,
        None => return Err(AdminError::NoPendingAdmin),
    };
    clear_pending_admin(st);
    Ok(AdminEvent::Cancelled { admin: current, pending })
}

/// Replaces the treasury token.  The current admin must call.
pub fn set_token(st: &mut Storage, caller: &Address, new_token: Address) -> (r: Result<AdminEvent, AdminError>)
    requires
        configured(old(st)),
    ensures
        !is_admin(old(st), caller@) ==> r == Err::<AdminEvent, AdminError>(AdminError::Unauthorized) && *final(st) == *old(st),
        is_admin(old(st), caller@) ==> {
            &&& *final(st) == (Storage { token: Some(new_token), ..*old(st) })
            &&& r matches Ok(AdminEvent::TokenSet { old_token, new_token: stored }) && old_token@ == old(st).token->0@
                && stored@ == new_token@
        },
{
    match require_admin(st, caller) {
        Ok(_) => {},
        Err(e) => return Err(e),
    };
    let old_token = get_token(st).copied();
    let stored = new_token.copied();
    store_token(st, new_token);
    Ok(AdminEvent::TokenSet { old_token, new_token: stored })
}

/// Pauses claim filing and voting.  The current admin must call.
pub fn pause(st: &mut Storage, caller: &Address) -> (r: Result<AdminEvent, AdminError>)
    ensures
        !is_admin(old(st), caller@) ==> r == Err::<AdminEvent, AdminError>(AdminError::Unauthorized) && *final(st) == *old(st),
        is_admin(old(st), caller@) ==> *final(st) == (Storage { paused: true, ..*old(st) })
            && (r matches Ok(AdminEvent::Paused { admin }) && admin@ == caller@),
{
    let admin = match require_admin(st, caller) {
        Ok(a) => a,
        Err(e) => return Err(e),
    };
    set_paused(st, true);
    Ok(AdminEvent::Paused { admin })
}

/// Lifts the pause.  The current admin must call.
pub fn unpause(st: &mut Storage, caller: &Address) -> (r: Result<AdminEvent, AdminError>)
    ensures
        !is_admin(old(st), caller@) ==> r == Err::<AdminEvent, AdminError>(AdminError::Unauthorized) && *final(st) == *old(st),
        is_admin(old(st), caller@) ==> *final(st) == (Storage { paused: false, ..*old(st) })
            && (r matches Ok(AdminEvent::Unpaused { admin }) && admin@ == caller@),
{
    let admin = match require_admin(st, caller) {
        Ok(a) => a,
        Err(e) => return Err(e),
    };
    set_paused(st, false);
    Ok(AdminEvent::Unpaused { admin })
}

/// Authorizes moving `amount` of the treasury token to `recipient`.  The
/// current admin must call and the amount must be positive; the returned
/// event names the transfer to make.  Storage is unchanged.
pub fn drain(st: &Storage, caller: &Address, recipient: Address, amount: i128) -> (r: Result<AdminEvent, AdminError>)
    requires
        configured(st),
    ensures
        !is_admin(st, caller@) ==> r == Err::<AdminEvent, AdminError>(AdminError::Unauthorized),
        is_admin(st, caller@) && amount <= 0 ==> r == Err::<AdminEvent, AdminError>(AdminError::InvalidDrainAmount),
        is_admin(st, caller@) && amount > 0 ==> (r matches Ok(
            AdminEvent::Drained { admin, token, recipient: to, amount: drained },
        ) && admin@ == caller@ && token@ == st.token->0@ && to@ == recipient@ && drained == amount),
{
    let admin = match require_admin(st, caller) {
        Ok(a) => a,
        Err(e) => return Err(e),
    };
    if amount <= 0 {
        return Err(AdminError::InvalidDrainAmount);
    }
    let token = get_token(st).copied();
    Ok(AdminEvent::Drained { admin, token, recipient, amount })
}

/// Two-step rotation: once the admin proposes `new_admin` and `new_admin`
/// accepts, `new_admin` is the admin and no proposal is left.
pub proof fn law_two_step_rotation(
    s0: Storage,
    s1: Storage,
    s2: Storage,
    r1: Result<AdminEvent, AdminError>,
    r2: Result<AdminEvent, AdminError>,
    admin: Seq<char>,
    new_admin: Address,
)
    requires
        configured(&s0),
        is_admin(&s0, admin),
        proposed(&s0, &s1, r1, admin, new_admin),
        accepted(&s1, &s2, r2, new_admin@),
    ensures
        r1 is Ok,
        r2 is Ok,
        is_admin(&s2, new_admin@),
        s2.pending_admin is None,
        configured(&s2),
{
}

/// Only the pending admin can take over: anyone else's `accept_admin` is
/// refused and changes nothing, whoever proposed.
pub proof fn law_only_pending_admin_accepts(
    s0: Storage,
    s1: Storage,
    s2: Storage,
    r1: Result<AdminEvent, AdminError>,
    r2: Result<AdminEvent, AdminError>,
    admin: Seq<char>,
    new_admin: Address,
    other: Seq<char>,
)
    requires
        is_admin(&s0, admin),
        proposed(&s0, &s1, r1, admin, new_admin),
        other != new_admin@,
        accepted(&s1, &s2, r2, other),
    ensures
        r2 == Err::<AdminEvent, AdminError>(AdminError::NotPendingAdmin),
        s2 == s1,
        is_admin(&s2, admin),
{
}

/// A cancelled proposal cannot be accepted.
pub proof fn law_cancel_withdraws_proposal(
    s0: Storage,
    s1: Storage,
    s2: Storage,
    r1: Result<AdminEvent, AdminError>,
    r2: Result<AdminEvent, AdminError>,
    admin: Seq<char>,
    anyone: Seq<char>,
)
    requires
        is_admin(&s0, admin),
        cancelled(&s0, &s1, r1, admin),
        accepted(&s1, &s2, r2, anyone),
    ensures
        r2 == Err::<AdminEvent, AdminError>(AdminError::NoPendingAdmin),
        s2 == s1,
{
}

} // verus!
