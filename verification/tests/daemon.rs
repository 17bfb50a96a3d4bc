use mullvad_watch::probe::{classify, parse_exit_flag, ProbeError, ProbeOutcome};
use mullvad_watch::reconcile::{
    commit_step, prime, reconcile_commit, CycleAction, CycleEvent, Phase, Reconciler,
    SETTLE_DELAY_MS,
};
use mullvad_watch::retry::{RetryAction, RetrySession, INITIAL_DELAY_MS, MAX_ATTEMPTS};
use mullvad_watch::state::{ConnectionState, MullvadState};
use mullvad_watch::watch::{MergeState, SourceItem, SourceKind, WatchStep};

#[test]
fn classification_mapping_is_deterministic() {
    assert_eq!(
        classify(&ProbeOutcome::Success(true)),
        ConnectionState::Connected
    );
    assert_eq!(
        classify(&ProbeOutcome::Success(false)),
        ConnectionState::Disconnected
    );
    assert_eq!(classify(&ProbeOutcome::Exhausted), ConnectionState::Unknown);
}

#[test]
fn classification_names() {
    assert_eq!(ConnectionState::Uninitialized.name(), "Uninitialized");
    assert_eq!(ConnectionState::Connected.name(), "Connected");
    assert_eq!(ConnectionState::Disconnected.name(), "Disconnected");
    assert_eq!(ConnectionState::Unknown.name(), "Unknown");
}

#[test]
fn store_starts_uninitialized() {
    let store = MullvadState::new();
    assert_eq!(store.vpn_connected(), ConnectionState::Uninitialized);
    assert_eq!(store.state_name(), "Uninitialized");
}

#[test]
fn store_replaces_value_atomically() {
    let store = MullvadState::new();
    store.store(ConnectionState::Connected);
    assert_eq!(store.vpn_connected(), ConnectionState::Connected);
    store.store(ConnectionState::Disconnected);
    assert_eq!(store.vpn_connected(), ConnectionState::Disconnected);
}

#[test]
fn parse_reads_true() {
    let body = br#"{"ip":"10.0.0.1","country":"Sweden","mullvad_exit_ip":true}"#;
    assert_eq!(parse_exit_flag(body), Ok(true));
}

#[test]
fn parse_reads_false() {
    let body = br#"{"mullvad_exit_ip":false,"ip":"10.0.0.1"}"#;
    assert_eq!(parse_exit_flag(body), Ok(false));
}

#[test]
fn parse_allows_whitespace_around_colon() {
    let body = b"{\"mullvad_exit_ip\" : \ntrue}";
    assert_eq!(parse_exit_flag(body), Ok(true));
}

#[test]
fn parse_rejects_missing_field() {
    let body = br#"{"ip":"10.0.0.1","country":"Sweden"}"#;
    assert_eq!(parse_exit_flag(body), Err(ProbeError::Malformed));
}

#[test]
fn parse_rejects_non_boolean_value() {
    let body = br#"{"mullvad_exit_ip":null}"#;
    assert_eq!(parse_exit_flag(body), Err(ProbeError::Malformed));
}

#[test]
fn parse_rejects_short_or_empty_body() {
    assert_eq!(parse_exit_flag(b""), Err(ProbeError::Malformed));
    assert_eq!(parse_exit_flag(b"{}"), Err(ProbeError::Malformed));
}

#[test]
fn retry_exhausts_after_five_attempts() {
    let mut session = RetrySession::new();
    let mut delays: Vec<u64> = Vec::new();
    let mut finished = None;
    while finished.is_none() {
        match session.on_attempt(Err(ProbeError::Transport)) {
            RetryAction::RetryAfter(d) => delays.push(d),
            RetryAction::Done(outcome) => finished = Some(outcome),
        }
    }
    assert_eq!(finished, Some(ProbeOutcome::Exhausted));
    assert_eq!(session.attempts_made, MAX_ATTEMPTS);
    assert_eq!(delays.len() as u64, MAX_ATTEMPTS - 1);
    assert_eq!(delays[0], INITIAL_DELAY_MS);
    for pair in delays.windows(2) {
        assert!(pair[0] <= pair[1]);
    }
}

#[test]
fn retry_stops_on_first_success() {
    let mut session = RetrySession::new();
    assert_eq!(
        session.on_attempt(Err(ProbeError::Transport)),
        RetryAction::RetryAfter(INITIAL_DELAY_MS)
    );
    assert_eq!(
        session.on_attempt(Ok(true)),
        RetryAction::Done(ProbeOutcome::Success(true))
    );
    assert_eq!(session.attempts_made, 2);
}

#[test]
fn commit_emits_on_change_only() {
    let (next, note) = commit_step(ConnectionState::Connected, &ProbeOutcome::Success(false));
    assert_eq!(next, ConnectionState::Disconnected);
    assert_eq!(note, Some("Disconnected".to_owned()));

    let (next, note) = commit_step(ConnectionState::Connected, &ProbeOutcome::Success(true));
    assert_eq!(next, ConnectionState::Connected);
    assert_eq!(note, None);
}

#[test]
fn reconciler_walks_one_full_cycle() {
    let mut rec = Reconciler::new();
    assert_eq!(rec.phase, Phase::Idle);
    assert_eq!(
        rec.on_event(CycleEvent::OccurrenceArrived),
        CycleAction::StartSettle(SETTLE_DELAY_MS)
    );
    assert_eq!(rec.phase, Phase::Settling);
    assert_eq!(rec.on_event(CycleEvent::SettleElapsed), CycleAction::StartProbe);
    assert_eq!(rec.phase, Phase::Probing);
    assert_eq!(
        rec.on_event(CycleEvent::ProbeFinished(ProbeOutcome::Success(false))),
        CycleAction::CommitOutcome(ProbeOutcome::Success(false))
    );
    assert_eq!(rec.phase, Phase::Committing);
    assert_eq!(rec.on_event(CycleEvent::CommitDone), CycleAction::AwaitOccurrence);
    assert_eq!(rec.phase, Phase::Idle);
}

#[test]
fn merge_signal_yields_one_occurrence() {
    let mut merge = MergeState::new();
    assert_eq!(
        merge.on_item(SourceKind::Added, SourceItem::Signal),
        Ok(WatchStep::Occurrence)
    );
    assert_eq!(
        merge.on_item(SourceKind::Removed, SourceItem::Signal),
        Ok(WatchStep::Occurrence)
    );
}

#[test]
fn merge_single_ended_source_waits() {
    let mut merge = MergeState::new();
    assert_eq!(
        merge.on_item(SourceKind::Added, SourceItem::Ended),
        Ok(WatchStep::Waiting)
    );
    assert_eq!(
        merge.on_item(SourceKind::Removed, SourceItem::Signal),
        Ok(WatchStep::Occurrence)
    );
}

#[test]
fn merge_both_ended_is_fatal() {
    let mut merge = MergeState::new();
    assert_eq!(
        merge.on_item(SourceKind::Removed, SourceItem::Ended),
        Ok(WatchStep::Waiting)
    );
    assert!(merge.on_item(SourceKind::Added, SourceItem::Ended).is_err());
}

fn run_cycle(store: &MullvadState, outcome: ProbeOutcome) -> Option<String> {
    let mut rec = Reconciler::new();
    let mut note = None;
    let mut ev = CycleEvent::OccurrenceArrived;
    loop {
        match rec.on_event(ev) {
            CycleAction::StartSettle(_) => ev = CycleEvent::SettleElapsed,
            CycleAction::StartProbe => ev = CycleEvent::ProbeFinished(outcome),
            CycleAction::CommitOutcome(o) => {
                note = reconcile_commit(store, &o);
                ev = CycleEvent::CommitDone;
            }
            CycleAction::AwaitOccurrence => return note,
        }
    }
}

#[test]
fn startup_probe_true_reports_connected() {
    let store = MullvadState::new();
    prime(&store, &ProbeOutcome::Success(true));
    assert_eq!(store.state_name(), "Connected");
}

#[test]
fn change_to_disconnected_notifies_once() {
    let store = MullvadState::new();
    prime(&store, &ProbeOutcome::Success(true));
    let note = run_cycle(&store, ProbeOutcome::Success(false));
    assert_eq!(note, Some("Disconnected".to_owned()));
    assert_eq!(store.state_name(), "Disconnected");
}

#[test]
fn exhausted_probe_reports_unknown() {
    let store = MullvadState::new();
    prime(&store, &ProbeOutcome::Success(true));
    let mut session = RetrySession::new();
    let mut outcome = None;
    while outcome.is_none() {
        if let RetryAction::Done(o) = session.on_attempt(Err(ProbeError::Transport)) {
            outcome = Some(o);
        }
    }
    let note = run_cycle(&store, outcome.unwrap());
    assert_eq!(note, Some("Unknown".to_owned()));
    assert_eq!(store.state_name(), "Unknown");
}

#[test]
fn repeated_classification_emits_nothing() {
    let store = MullvadState::new();
    prime(&store, &ProbeOutcome::Success(true));
    let first = run_cycle(&store, ProbeOutcome::Success(true));
    let second = run_cycle(&store, ProbeOutcome::Success(true));
    assert_eq!(first, None);
    assert_eq!(second, None);
    assert_eq!(store.state_name(), "Connected");
}
