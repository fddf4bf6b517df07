use vstd::prelude::*;

use crate::errors::CoreError;
use crate::identity::{identity_eq, Identity};

verus! {

/// Where a record stands in the two-tier lifecycle.
#[derive(Clone, Copy, Debug, PartialEq, Eq, Structural)]
pub enum LifecycleState {
    /// Storage exists but the record was never initialized.
    Uninitialized,
    /// The record lives on the durable ledger and may be delegated.
    BaseResident,
    /// Write authority is held by the fast execution context; only the
    /// fast-context mutation path may accept writes.
    Delegated,
    /// Committed back to the durable ledger and closed for this epoch.
    Finalized,
}

/// A delegatable entity record, generic over the kind-specific payload.
///
/// The record's storage address is a pure function of the kind (the payload
/// type), `epoch_key` and `secondary_key`; whoever re-derives the same tuple
/// reaches the same record, so records are handed in by the surrounding
/// ledger runtime and identified by nothing else.
#[derive(Clone, Copy, Debug, PartialEq, Eq)]
pub struct Record<F> {
    /// Identity permitted to request lifecycle transitions (creator/payer).
    pub owner_key: Identity,
    /// Identity permitted to apply in-place mutations; immutable after
    /// creation.
    pub authority_key: Identity,
    /// Logical period identifier, part of the address derivation.
    pub epoch_key: i64,
    /// Optional second derivation input (e.g. a player identity).
    pub secondary_key: Option<Identity>,
    /// When the record was first initialized.
    pub created_at: i64,
    /// When a mutation last went through.
    pub last_update_at: i64,
    pub lifecycle_state: LifecycleState,
    /// Kind-specific mutable payload.
    pub fields: F,
}

/// The record produced by a first-time create: kind-specific defaults,
/// resident on the durable ledger.
pub open spec fn fresh_record<F>(
    owner: Identity,
    authority: Identity,
    epoch_key: i64,
    secondary_key: Option<Identity>,
    init_fields: F,
    now: i64,
) -> Record<F> {
    Record {
        owner_key: owner,
        authority_key: authority,
        epoch_key,
        secondary_key,
        created_at: now,
        last_update_at: now,
        lifecycle_state: LifecycleState::BaseResident,
        fields: init_fields,
    }
}

/// What `create_or_fetch` returns: the existing record untouched, or a fresh
/// one where the derived address held nothing.
pub open spec fn create_or_fetch_spec<F>(
    existing: Option<Record<F>>,
    owner: Identity,
    authority: Identity,
    epoch_key: i64,
    secondary_key: Option<Identity>,
    init_fields: F,
    now: i64,
) -> Record<F> {
    match existing {
        Some(record) => record,
        None => fresh_record(owner, authority, epoch_key, secondary_key, init_fields, now),
    }
}

/// Idempotent create: `existing` is whatever the ledger found at the address
/// derived from `(kind, epoch_key, secondary_key)`. A second call with the
/// same derivation inputs therefore gets the first call's record back
/// unchanged — duplicate creation is deliberately not an error, so client
/// retries are safe.
pub fn create_or_fetch<F>(
    existing: Option<Record<F>>,
    owner: Identity,
    authority: Identity,
    epoch_key: i64,
    secondary_key: Option<Identity>,
    init_fields: F,
    now: i64,
) -> (r: Record<F>)
    ensures
        r == create_or_fetch_spec(existing, owner, authority, epoch_key, secondary_key, init_fields, now),
{
    match existing {
        Some(record) => record,
        None => Record {
            owner_key: owner,
            authority_key: authority,
            epoch_key,
            secondary_key,
            created_at: now,
            last_update_at: now,
            lifecycle_state: LifecycleState::BaseResident,
            fields: init_fields,
        },
    }
}

/// Law: create-or-fetch is idempotent. Re-running it over the record the
/// first call produced hands that record back unchanged, whatever parameters
/// the second call carries.
pub proof fn lemma_create_or_fetch_idempotent<F>(
    owner: Identity,
    authority: Identity,
    epoch_key: i64,
    secondary_key: Option<Identity>,
    init_fields: F,
    now: i64,
    owner2: Identity,
    authority2: Identity,
    init_fields2: F,
    now2: i64,
)
    ensures
        ({
            let first = create_or_fetch_spec(
                None::<Record<F>>, owner, authority, epoch_key, secondary_key, init_fields, now,
            );
            let second = create_or_fetch_spec(
                Some(first), owner2, authority2, epoch_key, secondary_key, init_fields2, now2,
            );
            second == first
        }),
{
}

/// Law: create-or-fetch never resets an existing record — a record already
/// delegated or already mutated keeps every field.
pub proof fn lemma_create_or_fetch_preserves_existing<F>(
    existing: Record<F>,
    owner: Identity,
    authority: Identity,
    epoch_key: i64,
    secondary_key: Option<Identity>,
    init_fields: F,
    now: i64,
)
    ensures
        create_or_fetch_spec(Some(existing), owner, authority, epoch_key, secondary_key, init_fields, now)
            == existing,
{
}

/// Strategy that picks the fast execution context when the caller names
/// none. Injected so deployments and tests can substitute their own choice.
pub trait ContextSelector {
    /// The context this strategy would pick.
    spec fn chosen(&self) -> Identity;

    /// Pick a context; the choice is exactly `chosen()`.
    fn select_context(&self) -> (r: Identity)
        ensures
            r == self.chosen(),
    ;
}

/// Selection strategy that always picks one fixed context.
#[derive(Clone, Copy, Debug, PartialEq, Eq)]
pub struct FixedContextSelector {
    pub context: Identity,
}

impl ContextSelector for FixedContextSelector {
    open spec fn chosen(&self) -> Identity {
        self.context
    }

    fn select_context(&self) -> (r: Identity) {
        self.context
    }
}

/// The context a delegation goes to: the explicit target when one is given,
/// otherwise the injected strategy's choice.
pub open spec fn delegation_target<S: ContextSelector>(
    explicit_target: Option<Identity>,
    selector: S,
) -> Identity {
    match explicit_target {
        Some(target) => target,
        None => selector.chosen(),
    }
}

impl<F> Record<F> {
    /// Hand write authority over to a fast execution context.
    ///
    /// Only the owner may delegate, and only a base-resident record:
    /// a record already delegated, finalized or never initialized is
    /// rejected with `InvalidState`. On success the record is `Delegated`
    /// and the chosen context is returned so the surrounding runtime can
    /// perform the transfer; every stored field but the lifecycle state is
    /// kept.
    pub fn delegate<S: ContextSelector>(
        &mut self,
        requester: &Identity,
        explicit_target: Option<Identity>,
        selector: &S,
    ) -> (r: Result<Identity, CoreError>)
        ensures
            *requester != old(self).owner_key ==> {
                &&& r == Err::<Identity, CoreError>(CoreError::Unauthorized)
                &&& *final(self) == *old(self)
            },
            *requester == old(self).owner_key
                && old(self).lifecycle_state != LifecycleState::BaseResident ==> {
                &&& r == Err::<Identity, CoreError>(CoreError::InvalidState)
                &&& *final(self) == *old(self)
            },
            *requester == old(self).owner_key
                && old(self).lifecycle_state == LifecycleState::BaseResident ==> {
                &&& r == Ok::<Identity, CoreError>(delegation_target(explicit_target, *selector))
                &&& *final(self) == (Record { lifecycle_state: LifecycleState::Delegated, ..*old(self) })
            },
    {
        if !identity_eq(requester, &self.owner_key) {
            return Err(CoreError::Unauthorized);
        }
        if self.lifecycle_state != LifecycleState::BaseResident {
            return Err(CoreError::InvalidState);
        }
        self.lifecycle_state = LifecycleState::Delegated;
        let target = match explicit_target {
            Some(target) => target,
            None => selector.select_context(),
        };
        Ok(target)
    }

    /// Write the fast-context state back to the durable ledger and release
    /// exclusive control.
    ///
    /// Only a delegated record can be committed; the caller that loses a
    /// commit race sees `InvalidState` on the no-longer-delegated record.
    /// On success the record is `Finalized` — base-resident again and closed
    /// for this epoch — with every stored field but the lifecycle state
    /// kept. On failure the record is unchanged: no partial commit is
    /// observable. The record itself carries the authoritative field values,
    /// so nothing else moves; `requester` is the fee payer and is not
    /// gated, as any party may pay to finish a delegation.
    pub fn commit_and_release(&mut self, requester: &Identity) -> (r: Result<(), CoreError>)
        ensures
            old(self).lifecycle_state != LifecycleState::Delegated ==> {
                &&& r == Err::<(), CoreError>(CoreError::InvalidState)
                &&& *final(self) == *old(self)
            },
            old(self).lifecycle_state == LifecycleState::Delegated ==> {
                &&& r == Ok::<(), CoreError>(())
                &&& *final(self) == (Record { lifecycle_state: LifecycleState::Finalized, ..*old(self) })
            },
    {
        let _ = requester;
        if self.lifecycle_state != LifecycleState::Delegated {
            return Err(CoreError::InvalidState);
        }
        self.lifecycle_state = LifecycleState::Finalized;
        Ok(())
    }
}

/// A record handed in by the ledger where the operation requires one to
/// exist already.
pub fn require_existing<T>(existing: Option<T>) -> (r: Result<T, CoreError>)
    ensures
        (match existing {
            Some(record) => r == Ok::<T, CoreError>(record),
            None => r == Err::<T, CoreError>(CoreError::NotFound),
        }),
{
    match existing {
        Some(record) => Ok(record),
        None => Err(CoreError::NotFound),
    }
}

} // verus!
