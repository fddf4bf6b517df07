use solanaidle::errors::CoreError;
use solanaidle::identity::Identity;
use solanaidle::lifecycle::{require_existing, FixedContextSelector, LifecycleState};
use solanaidle::progress::{initialize_progress, update_progress, PlayerProgress};

fn ident(tag: u8) -> Identity {
    Identity { bytes: [tag; 32] }
}

fn delegated_progress(server: Identity, player: Identity) -> PlayerProgress {
    let mut progress = initialize_progress(None, server, player, 1_000_000, 2, 50);
    let selector = FixedContextSelector { context: ident(200) };
    progress.delegate(&server, None, &selector).unwrap();
    progress
}

#[test]
fn fresh_progress_has_class_and_zeroed_counters() {
    let server = ident(1);
    let player = ident(9);
    let progress = initialize_progress(None, server, player, 1_000_000, 2, 50);
    assert_eq!(progress.fields.class_id, 2);
    assert_eq!(progress.fields.score, 0);
    assert_eq!(progress.fields.missions_completed, 0);
    assert_eq!(progress.fields.deaths, 0);
    assert!(!progress.fields.boss_defeated);
    assert_eq!(progress.secondary_key, Some(player));
    assert_eq!(progress.lifecycle_state, LifecycleState::BaseResident);
}

#[test]
fn update_replaces_counters_wholesale() {
    let server = ident(1);
    let player = ident(9);
    let mut progress = delegated_progress(server, player);
    assert_eq!(
        update_progress(&mut progress, &server, 5000, 12, 3, false, 60),
        Ok(())
    );
    assert_eq!(progress.fields.score, 5000);
    assert_eq!(progress.fields.missions_completed, 12);
    assert_eq!(progress.fields.deaths, 3);
    assert!(!progress.fields.boss_defeated);
    assert_eq!(progress.last_update_at, 60);

    // Absolute values, not deltas: lower values simply replace higher ones.
    assert_eq!(
        update_progress(&mut progress, &server, 100, 2, 1, true, 61),
        Ok(())
    );
    assert_eq!(progress.fields.score, 100);
    assert_eq!(progress.fields.missions_completed, 2);
    assert_eq!(progress.fields.deaths, 1);
    assert!(progress.fields.boss_defeated);
    assert_eq!(progress.fields.class_id, 2);
}

#[test]
fn update_with_wrong_authority_is_unauthorized_and_unchanged() {
    let server = ident(1);
    let intruder = ident(2);
    let player = ident(9);
    let mut progress = delegated_progress(server, player);
    update_progress(&mut progress, &server, 5000, 12, 3, true, 60).unwrap();
    let before = progress;
    assert_eq!(
        update_progress(&mut progress, &intruder, 1, 1, 1, false, 61),
        Err(CoreError::Unauthorized)
    );
    assert_eq!(progress, before);
}

#[test]
fn update_outside_delegation_is_invalid_state() {
    let server = ident(1);
    let player = ident(9);
    let mut progress = initialize_progress(None, server, player, 1_000_000, 2, 50);
    let before = progress;
    assert_eq!(
        update_progress(&mut progress, &server, 5000, 12, 3, true, 60),
        Err(CoreError::InvalidState)
    );
    assert_eq!(progress, before);
}

#[test]
fn progress_commit_keeps_final_counters() {
    let server = ident(1);
    let player = ident(9);
    let mut progress = delegated_progress(server, player);
    update_progress(&mut progress, &server, 7777, 21, 4, true, 60).unwrap();
    assert_eq!(progress.commit_and_release(&server), Ok(()));
    assert_eq!(progress.lifecycle_state, LifecycleState::Finalized);
    assert_eq!(progress.fields.score, 7777);
    assert!(progress.fields.boss_defeated);
}

#[test]
fn initialize_progress_twice_is_idempotent() {
    let server = ident(1);
    let player = ident(9);
    let first = initialize_progress(None, server, player, 1_000_000, 2, 50);
    let second = initialize_progress(Some(first), server, player, 1_000_000, 0, 99);
    assert_eq!(second, first);
    assert_eq!(second.fields.class_id, 2);
}

#[test]
fn missing_record_is_not_found() {
    let progress = initialize_progress(None, ident(1), ident(9), 1_000_000, 2, 50);
    assert_eq!(require_existing(Some(progress)), Ok(progress));
    assert_eq!(
        require_existing::<PlayerProgress>(None),
        Err(CoreError::NotFound)
    );
}
