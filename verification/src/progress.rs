use vstd::prelude::*;

use crate::errors::CoreError;
use crate::identity::{identity_eq, Identity};
use crate::lifecycle::{create_or_fetch, create_or_fetch_spec, LifecycleState, Record};

verus! {

/// Kind-specific payload of a weekly player-progress record.
#[derive(Clone, Copy, Debug, PartialEq, Eq)]
pub struct ProgressFields {
    /// Character class chosen at creation.
    pub class_id: u8,
    /// Cumulative score this epoch.
    pub score: u64,
    /// Missions completed this epoch.
    pub missions_completed: u32,
    /// Deaths this epoch.
    pub deaths: u32,
    /// Whether the player defeated the boss this epoch.
    pub boss_defeated: bool,
}

/// A player-progress record: a delegatable record carrying
/// `ProgressFields`, keyed additionally by the player identity.
pub type PlayerProgress = Record<ProgressFields>;

/// The payload a progress record starts with: the chosen class and nothing
/// achieved yet.
pub open spec fn fresh_progress_fields(class_id: u8) -> ProgressFields {
    ProgressFields {
        class_id,
        score: 0,
        missions_completed: 0,
        deaths: 0,
        boss_defeated: false,
    }
}

/// The payload after one wholesale update: every counter is replaced by the
/// absolute value the authority supplied; only the class is kept.
pub open spec fn progress_after_update(
    fields: ProgressFields,
    score: u64,
    missions_completed: u32,
    deaths: u32,
    boss_defeated: bool,
) -> ProgressFields {
    ProgressFields {
        class_id: fields.class_id,
        score,
        missions_completed,
        deaths,
        boss_defeated,
    }
}

/// Create a progress record for the player and epoch, or fetch the one
/// already at the derived address unchanged. The player identity is the
/// secondary derivation key; the creating payer holds both the owner and
/// the mutation authority.
pub fn initialize_progress(
    existing: Option<PlayerProgress>,
    payer: Identity,
    player: Identity,
    week_start: i64,
    class_id: u8,
    now: i64,
) -> (r: PlayerProgress)
    ensures
        r == create_or_fetch_spec(
            existing,
            payer,
            payer,
            week_start,
            Some(player),
            fresh_progress_fields(class_id),
            now,
        ),
{
    let init_fields = ProgressFields {
        class_id,
        score: 0,
        missions_completed: 0,
        deaths: 0,
        boss_defeated: false,
    };
    create_or_fetch(existing, payer, payer, week_start, Some(player), init_fields, now)
}

/// Apply one authority-gated wholesale update on the fast execution
/// context.
///
/// Only the record's mutation authority is admitted, and only while the
/// record is delegated; a rejected call leaves the record untouched. The
/// supplied values are absolute, not deltas, and are trusted as they stand:
/// the engine deliberately performs no cross-field validation — holding the
/// authority honest is the surrounding system's business, not this
/// engine's.
pub fn update_progress(
    progress: &mut PlayerProgress,
    claimed_authority: &Identity,
    score: u64,
    missions_completed: u32,
    deaths: u32,
    boss_defeated: bool,
    now: i64,
) -> (r: Result<(), CoreError>)
    ensures
        *claimed_authority != old(progress).authority_key ==> {
            &&& r == Err::<(), CoreError>(CoreError::Unauthorized)
            &&& *final(progress) == *old(progress)
        },
        *claimed_authority == old(progress).authority_key
            && old(progress).lifecycle_state != LifecycleState::Delegated ==> {
            &&& r == Err::<(), CoreError>(CoreError::InvalidState)
            &&& *final(progress) == *old(progress)
        },
        *claimed_authority == old(progress).authority_key
            && old(progress).lifecycle_state == LifecycleState::Delegated ==> {
            &&& r == Ok::<(), CoreError>(())
            &&& *final(progress) == (Record {
                fields: progress_after_update(
                    old(progress).fields, score, missions_completed, deaths, boss_defeated,
                ),
                last_update_at: now,
                ..*old(progress)
            })
        },
{
    if !identity_eq(claimed_authority, &progress.authority_key) {
        return Err(CoreError::Unauthorized);
    }
    if progress.lifecycle_state != LifecycleState::Delegated {
        return Err(CoreError::InvalidState);
    }
    progress.fields.score = score;
    progress.fields.missions_completed = missions_completed;
    progress.fields.deaths = deaths;
    progress.fields.boss_defeated = boss_defeated;
    progress.last_update_at = now;
    Ok(())
}

} // verus!
