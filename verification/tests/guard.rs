use mortem::protocol::Action;
use mortem::protocol::Event;
use mortem::protocol::Outcome;
use mortem::Guard;

#[test]
fn soft_guard_deletes_on_success() {
    let g = mortem::soft();
    assert_eq!(g.drop_step(Event::Removed), Action::Finish(Outcome::Deleted));
}

#[test]
fn soft_guard_tolerates_removal_failure() {
    let g = mortem::soft();
    assert_eq!(
        g.drop_step(Event::RemoveFailed),
        Action::Finish(Outcome::AbandonedSilently)
    );
}

#[test]
fn soft_guard_fatal_on_resolution_failure() {
    let g = mortem::soft();
    assert_eq!(
        g.drop_step(Event::ResolveFailed),
        Action::Finish(Outcome::AbandonedFatally)
    );
}

#[test]
fn soft_guard_never_retries() {
    let events = [Event::ResolveFailed, Event::RemoveFailed, Event::Removed];
    for event in events {
        let g = mortem::soft();
        assert!(matches!(g.drop_step(event), Action::Finish(_)));
    }
}

#[test]
fn hard_guard_converges_once_obstruction_clears() {
    let g = mortem::hard();
    assert_eq!(g.drop_step(Event::RemoveFailed), Action::Retry);
    assert_eq!(g.drop_step(Event::RemoveFailed), Action::Retry);
    assert_eq!(g.drop_step(Event::Removed), Action::Finish(Outcome::Deleted));
}

#[test]
fn hard_guard_retries_on_resolution_failure() {
    let g = mortem::hard();
    assert_eq!(g.drop_step(Event::ResolveFailed), Action::Retry);
    assert_eq!(g.drop_step(Event::ResolveFailed), Action::Retry);
}

#[test]
fn second_guard_after_deletion_is_tolerated() {
    let first = mortem::soft();
    assert_eq!(
        first.drop_step(Event::Removed),
        Action::Finish(Outcome::Deleted)
    );
    let second = mortem::soft();
    assert_eq!(
        second.drop_step(Event::RemoveFailed),
        Action::Finish(Outcome::AbandonedSilently)
    );
}

#[test]
fn second_hard_guard_spins_on_missing_file() {
    let second = mortem::hard();
    for _ in 0..16 {
        assert_eq!(second.drop_step(Event::RemoveFailed), Action::Retry);
    }
}

#[test]
fn free_constructors_match_guard_methods() {
    let events = [Event::ResolveFailed, Event::RemoveFailed, Event::Removed];
    for event in events {
        assert_eq!(
            mortem::soft().drop_step(event),
            Guard::soft().drop_step(event)
        );
        assert_eq!(
            mortem::hard().drop_step(event),
            Guard::hard().drop_step(event)
        );
    }
}
