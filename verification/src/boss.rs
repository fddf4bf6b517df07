use vstd::prelude::*;

use crate::errors::CoreError;
use crate::identity::{identity_eq, Identity};
use crate::lifecycle::{create_or_fetch, create_or_fetch_spec, LifecycleState, Record};

verus! {

/// Kind-specific payload of a weekly boss-fight record.
#[derive(Clone, Copy, Debug, PartialEq, Eq)]
pub struct BossFields {
    /// Hit points at spawn; never changes afterwards.
    pub max_hp: u64,
    /// Remaining hit points; decreases saturating at zero.
    pub current_hp: u64,
    /// Cumulative damage dealt; increases saturating at the counter's
    /// maximum.
    pub total_damage: u64,
    /// Participants in the fight; last write wins.
    pub participant_count: u32,
    /// One-way flag, set when the hit points reach zero.
    pub killed: bool,
}

/// A boss record: a delegatable record carrying `BossFields`.
pub type BossState = Record<BossFields>;

/// Payload well-formedness: hit points never exceed the spawn value, and a
/// killed boss is exactly one whose hit points already reached zero.
pub open spec fn boss_wf(fields: BossFields) -> bool {
    &&& fields.current_hp <= fields.max_hp
    &&& (fields.killed ==> fields.current_hp == 0)
}

/// The payload a boss spawns with: full hit points, nothing dealt yet.
pub open spec fn fresh_boss_fields(max_hp: u64) -> BossFields {
    BossFields {
        max_hp,
        current_hp: max_hp,
        total_damage: 0,
        participant_count: 0,
        killed: false,
    }
}

/// One damage application on the payload alone: hit points drop saturating
/// at zero, the damage counter grows saturating at its maximum, the
/// participant count is replaced, and the killed flag latches once the hit
/// points are gone.
pub open spec fn boss_after_damage(
    fields: BossFields,
    damage_delta: u64,
    new_participant_count: u32,
) -> BossFields {
    let hp = if fields.current_hp >= damage_delta {
        (fields.current_hp - damage_delta) as u64
    } else {
        0u64
    };
    BossFields {
        max_hp: fields.max_hp,
        current_hp: hp,
        total_damage: if fields.total_damage + damage_delta <= u64::MAX {
            (fields.total_damage + damage_delta) as u64
        } else {
            u64::MAX
        },
        participant_count: new_participant_count,
        killed: fields.killed || hp == 0,
    }
}

/// Create a boss record for the epoch, or fetch the one already at the
/// derived address unchanged. The creating payer holds both the owner and
/// the mutation authority.
pub fn initialize_boss(
    existing: Option<BossState>,
    payer: Identity,
    week_start: i64,
    max_hp: u64,
    now: i64,
) -> (r: BossState)
    ensures
        r == create_or_fetch_spec(
            existing, payer, payer, week_start, None::<Identity>, fresh_boss_fields(max_hp), now,
        ),
        boss_wf(r.fields) || (existing matches Some(e) && r == e),
{
    let init_fields = BossFields {
        max_hp,
        current_hp: max_hp,
        total_damage: 0,
        participant_count: 0,
        killed: false,
    };
    create_or_fetch(existing, payer, payer, week_start, None, init_fields, now)
}

/// Apply one authority-gated damage update on the fast execution context.
///
/// Only the record's mutation authority is admitted, and only while the
/// record is delegated; a rejected call leaves the record untouched.
/// Overkill damage is absorbed by the saturating arithmetic and is never a
/// fault. A killed boss deliberately still accepts damage: the counters
/// keep recording overkill, and the flag simply stays latched.
pub fn apply_damage(
    boss: &mut BossState,
    claimed_authority: &Identity,
    damage_delta: u64,
    new_participant_count: u32,
    now: i64,
) -> (r: Result<(), CoreError>)
    ensures
        *claimed_authority != old(boss).authority_key ==> {
            &&& r == Err::<(), CoreError>(CoreError::Unauthorized)
            &&& *final(boss) == *old(boss)
        },
        *claimed_authority == old(boss).authority_key
            && old(boss).lifecycle_state != LifecycleState::Delegated ==> {
            &&& r == Err::<(), CoreError>(CoreError::InvalidState)
            &&& *final(boss) == *old(boss)
        },
        *claimed_authority == old(boss).authority_key
            && old(boss).lifecycle_state == LifecycleState::Delegated ==> {
            &&& r == Ok::<(), CoreError>(())
            &&& *final(boss) == (Record {
                fields: boss_after_damage(old(boss).fields, damage_delta, new_participant_count),
                last_update_at: now,
                ..*old(boss)
            })
        },
        boss_wf(old(boss).fields) ==> boss_wf(final(boss).fields),
{
    if !identity_eq(claimed_authority, &boss.authority_key) {
        return Err(CoreError::Unauthorized);
    }
    if boss.lifecycle_state != LifecycleState::Delegated {
        return Err(CoreError::InvalidState);
    }
    boss.fields.current_hp = boss.fields.current_hp.saturating_sub(damage_delta);
    boss.fields.total_damage = boss.fields.total_damage.saturating_add(damage_delta);
    boss.fields.participant_count = new_participant_count;
    if boss.fields.current_hp == 0 {
        boss.fields.killed = true;
    }
    boss.last_update_at = now;
    Ok(())
}

/// Law: two damage applications in sequence on a fresh boss leave exactly
/// `max(0, max_hp - delta1 - delta2)` hit points, and a damage total of
/// `delta1 + delta2` unless that sum overflows the counter, which then
/// saturates at its maximum.
pub proof fn lemma_fresh_damage_sequence(
    max_hp: u64,
    delta1: u64,
    delta2: u64,
    participants1: u32,
    participants2: u32,
)
    ensures
        ({
            let after = boss_after_damage(
                boss_after_damage(fresh_boss_fields(max_hp), delta1, participants1),
                delta2,
                participants2,
            );
            &&& after.current_hp == if max_hp >= delta1 + delta2 {
                max_hp - delta1 - delta2
            } else {
                0
            }
            &&& after.total_damage == if delta1 + delta2 <= u64::MAX {
                delta1 + delta2
            } else {
                u64::MAX as int
            }
        }),
{
}

/// Law: the killed flag is one-way. It is set the moment a damage
/// application leaves zero hit points, and no later damage application
/// clears it again.
pub proof fn lemma_killed_monotone(fields: BossFields, damage_delta: u64, new_participant_count: u32)
    ensures
        ({
            let after = boss_after_damage(fields, damage_delta, new_participant_count);
            &&& after.current_hp == 0 ==> after.killed
            &&& fields.killed ==> after.killed
        }),
{
}

/// Law: the damage counters move one way only — hit points never grow and
/// the damage total never shrinks, however large the delta.
pub proof fn lemma_damage_counters_monotone(
    fields: BossFields,
    damage_delta: u64,
    new_participant_count: u32,
)
    ensures
        ({
            let after = boss_after_damage(fields, damage_delta, new_participant_count);
            &&& after.current_hp <= fields.current_hp
            &&& after.total_damage >= fields.total_damage
        }),
{
}

/// Law: damage keeps the payload well-formed — hit points stay within the
/// spawn value and the killed flag keeps matching exhausted hit points.
pub proof fn lemma_damage_preserves_wf(
    fields: BossFields,
    damage_delta: u64,
    new_participant_count: u32,
)
    requires
        boss_wf(fields),
    ensures
        boss_wf(boss_after_damage(fields, damage_delta, new_participant_count)),
{
}

} // verus!
