//! Oracle triggers for parametric claims.  Processing is off until an admin
//! turns it on, signatures are not verified (a trigger carrying one is
//! refused), and no oracle source is approved yet, so no trigger can pass
//! validation.  The lifecycle checks are in place for when sources exist.
use vstd::prelude::*;

use crate::address::Address;
use crate::storage::{
    next_trigger_id, set_oracle_trigger, set_trigger_status, trigger_status_of, StoredTrigger, Storage,
};
use crate::types::{OracleSource, OracleTrigger, TriggerEventType, TriggerStatus};
use crate::validate::{check_oracle_trigger, check_trigger_status_transition, oracle_trigger_check, transition_allowed, OracleError};

verus! {

/// The statuses of `s1` are those of `s0` with `status` recorded for
/// trigger `trigger_id`.
pub open spec fn statuses_updated(s0: &Storage, s1: &Storage, trigger_id: u64, status: TriggerStatus) -> bool {
    &&& trigger_status_of(s1, trigger_id) == Some(status)
    &&& forall|t: u64| t != trigger_id ==> trigger_status_of(s1, t) == trigger_status_of(s0, t)
}

/// `s1` is `s0` with `status` recorded for trigger `trigger_id` and nothing
/// else changed.
pub open spec fn status_recorded(s0: &Storage, s1: &Storage, trigger_id: u64, status: TriggerStatus) -> bool {
    &&& statuses_updated(s0, s1, trigger_id, status)
    &&& *s1 == (Storage { trigger_statuses: s1.trigger_statuses, ..*s0 })
}

/// Maximum trigger payload size in bytes.
pub const MAX_TRIGGER_PAYLOAD_SIZE: u32 = 1024;

/// Maximum trigger age in ledgers (about 24 hours at 5 s per ledger).
pub const DEFAULT_TRIGGER_MAX_LEDGER_AGE: u32 = 17280;

/// Records a new oracle trigger observed at ledger `current_ledger`.  The
/// payload must fit the size limit and the trigger must pass
/// `check_oracle_trigger`; it is then stored as `Pending` under the next
/// trigger id, which is returned.
pub fn submit_trigger(
    st: &mut Storage,
    policy_id: u32,
    event_type: TriggerEventType,
    source: OracleSource,
    payload: Vec<u8>,
    timestamp: u64,
    signature: Vec<u8>,
    current_ledger: u32,
) -> (r: Result<u64, OracleError>)
    requires
        old(st).trigger_counter < u64::MAX,
    ensures
        payload@.len() > MAX_TRIGGER_PAYLOAD_SIZE ==> r == Err::<u64, OracleError>(OracleError::PayloadTooLarge)
            && *final(st) == *old(st),
        payload@.len() <= MAX_TRIGGER_PAYLOAD_SIZE ==> {
            let trigger = OracleTrigger {
                policy_id,
                event_type,
                source,
                payload,
                timestamp,
                trigger_ledger: current_ledger,
                signature,
            };
            match oracle_trigger_check(old(st).oracle_enabled, trigger, current_ledger, DEFAULT_TRIGGER_MAX_LEDGER_AGE) {
                Err(e) => r == Err::<u64, OracleError>(e) && *final(st) == *old(st),
                Ok(_) => {
                    let id = (old(st).trigger_counter + 1) as u64;
                    &&& r == Ok::<u64, OracleError>(id)
                    &&& final(st).trigger_map() == old(st).trigger_map().insert(
                        id,
                        StoredTrigger { trigger_id: id, trigger },
                    )
                    &&& statuses_updated(old(st), final(st), id, TriggerStatus::Pending)
                    &&& *final(st) == (Storage {
                        trigger_counter: id,
                        oracle_triggers: final(st).oracle_triggers,
                        trigger_statuses: final(st).trigger_statuses,
                        ..*old(st)
                    })
                },
            }
        },
{
    if payload.len() > MAX_TRIGGER_PAYLOAD_SIZE as usize {
        return Err(OracleError::PayloadTooLarge);
    }
    let trigger = OracleTrigger {
        policy_id,
        event_type,
        source,
        payload,
        timestamp,
        trigger_ledger: current_ledger,
        signature,
    };
    match check_oracle_trigger(st, &trigger, current_ledger, DEFAULT_TRIGGER_MAX_LEDGER_AGE) {
        Ok(()) => {},
        Err(e) => return Err(e),
    }
    let trigger_id = next_trigger_id(st);
    set_oracle_trigger(st, trigger_id, trigger);
    set_trigger_status(st, trigger_id, TriggerStatus::Pending);
    Ok(trigger_id)
}

/// Validates a stored trigger at ledger `current_ledger`: the trigger must
/// exist, pass `check_oracle_trigger` again, and its status (`Pending` when
/// none is recorded) must be allowed to become `Validated`.
pub fn validate_trigger(st: &mut Storage, trigger_id: u64, validator: &Address, current_ledger: u32) -> (r: Result<(), OracleError>)
    ensures
        !old(st).trigger_map().dom().contains(trigger_id) ==> r == Err::<(), OracleError>(OracleError::PolicyNotFound)
            && *final(st) == *old(st),
        old(st).trigger_map().dom().contains(trigger_id) ==> {
            let trigger = old(st).trigger_map()[trigger_id].trigger;
            let current = match trigger_status_of(old(st), trigger_id) {
                Some(s) => s,
                None => TriggerStatus::Pending,
            };
            match oracle_trigger_check(old(st).oracle_enabled, trigger, current_ledger, DEFAULT_TRIGGER_MAX_LEDGER_AGE) {
                Err(e) => r == Err::<(), OracleError>(e) && *final(st) == *old(st),
                Ok(_) => if !transition_allowed(current, TriggerStatus::Validated) {
                    r == Err::<(), OracleError>(OracleError::TriggerAlreadyProcessed) && *final(st) == *old(st)
                } else {
                    r is Ok && status_recorded(old(st), final(st), trigger_id, TriggerStatus::Validated)
                },
            }
        },
{
    let current_status = match crate::storage::get_trigger_status(st, trigger_id) {
        Some(s) => s,
        None => TriggerStatus::Pending,
    };
    match crate::storage::get_oracle_trigger(st, trigger_id) {
        Some(trigger) => {
            match check_oracle_trigger(st, trigger, current_ledger, DEFAULT_TRIGGER_MAX_LEDGER_AGE) {
                Ok(()) => {},
                Err(e) => return Err(e),
            }
        },
        None => return Err(OracleError::PolicyNotFound),
    }
    match check_trigger_status_transition(current_status, TriggerStatus::Validated) {
        Ok(()) => {},
        Err(e) => return Err(e),
    }
    set_trigger_status(st, trigger_id, TriggerStatus::Validated);
    Ok(())
}

/// Executes a validated trigger: it must exist and have status `Validated`;
/// it then becomes `Executed`, which is returned.
pub fn execute_trigger(st: &mut Storage, trigger_id: u64, executor: &Address) -> (r: Result<TriggerStatus, OracleError>)
    ensures
        !old(st).trigger_map().dom().contains(trigger_id) ==> r == Err::<TriggerStatus, OracleError>(
            OracleError::PolicyNotFound,
        ) && *final(st) == *old(st),
        old(st).trigger_map().dom().contains(trigger_id) && trigger_status_of(old(st), trigger_id) != Some(
            TriggerStatus::Validated,
        ) ==> r == Err::<TriggerStatus, OracleError>(OracleError::TriggerAlreadyProcessed) && *final(st) == *old(st),
        old(st).trigger_map().dom().contains(trigger_id) && trigger_status_of(old(st), trigger_id) == Some(
            TriggerStatus::Validated,
        ) ==> r == Ok::<TriggerStatus, OracleError>(TriggerStatus::Executed) && status_recorded(
            old(st),
            final(st),
            trigger_id,
            TriggerStatus::Executed,
        ),
{
    if crate::storage::get_oracle_trigger(st, trigger_id).is_none() {
        return Err(OracleError::PolicyNotFound);
    }
    let current_status = match crate::storage::get_trigger_status(st, trigger_id) {
        Some(s) => s,
        None => return Err(OracleError::TriggerAlreadyProcessed),
    };
    if !matches!(current_status, TriggerStatus::Validated) {
        return Err(OracleError::TriggerAlreadyProcessed);
    }
    match check_trigger_status_transition(current_status, TriggerStatus::Executed) {
        Ok(()) => {},
        Err(e) => return Err(e),
    }
    set_trigger_status(st, trigger_id, TriggerStatus::Executed);
    Ok(TriggerStatus::Executed)
}

/// The current status of a trigger.
pub fn get_trigger_status(st: &Storage, trigger_id: u64) -> (r: Option<TriggerStatus>)
    ensures
        r == trigger_status_of(st, trigger_id),
{
    crate::storage::get_trigger_status(st, trigger_id)
}

/// The stored trigger record.
pub fn get_trigger(st: &Storage, trigger_id: u64) -> (r: Option<&OracleTrigger>)
    ensures
        r == (if st.trigger_map().dom().contains(trigger_id) {
            Some(&st.trigger_map()[trigger_id].trigger)
        } else {
            None
        }),
{
    crate::storage::get_oracle_trigger(st, trigger_id)
}

/// Turns oracle trigger processing on or off.
pub fn set_oracle_enabled(st: &mut Storage, enabled: bool)
    ensures
        *final(st) == (Storage { oracle_enabled: enabled, ..*old(st) }),
{
    crate::storage::set_oracle_enabled(st, enabled)
}

/// Whether oracle trigger processing is on.
pub fn is_oracle_enabled(st: &Storage) -> (r: bool)
    ensures
        r == st.oracle_enabled,
{
    crate::storage::is_oracle_enabled(st)
}

} // verus!
