use file_request::{Coordinator, DialogConfig, DialogOutcome, Phase, PickRequest, Worker};

fn selected(name: &str) -> DialogOutcome {
    DialogOutcome::Selected { name: name.to_string() }
}

fn assert_text_files(config: &DialogConfig) {
    assert_eq!(config.filter_name, "text");
    assert_eq!(config.extensions, vec!["txt".to_string()]);
    assert_eq!(config.directory, ".");
}

#[test]
fn fresh_coordinator_reports_nothing() {
    let mut c = Coordinator::new();
    for _ in 0..10 {
        assert_eq!(c.poll_selection(), None);
    }
    assert_eq!(c.phase(), Phase::Idle);
    assert_eq!(c.pending_requests(), 0);
    assert_eq!(c.ready_selections(), 0);
}

#[test]
fn fresh_coordinator_opens_no_dialog() {
    let mut c = Coordinator::new();
    assert!(c.begin_dialog().is_none());
    assert_eq!(c.phase(), Phase::Idle);
}

#[test]
fn scripted_outcomes_yield_chosen_names_in_order() {
    let mut c = Coordinator::new();
    c.request_pick();
    c.request_pick();
    c.request_pick();
    let outcomes = vec![selected("a.txt"), DialogOutcome::Canceled, selected("b.txt")];
    for outcome in outcomes {
        assert!(c.begin_dialog().is_some());
        c.end_dialog(outcome);
    }
    let mut got = Vec::new();
    for _ in 0..6 {
        if let Some(name) = c.poll_selection() {
            got.push(name);
        }
    }
    assert_eq!(got, vec!["a.txt".to_string(), "b.txt".to_string()]);
}

#[test]
fn n_requests_open_n_dialogs() {
    let mut c = Coordinator::new();
    let n = 5;
    for _ in 0..n {
        c.request_pick();
    }
    assert_eq!(c.pending_requests(), n);
    let mut opened = 0;
    while let Some(config) = c.begin_dialog() {
        assert_text_files(&config);
        opened += 1;
        assert_eq!(c.pending_requests(), n - opened);
        c.end_dialog(DialogOutcome::Canceled);
    }
    assert_eq!(opened, n);
    assert_eq!(c.phase(), Phase::Idle);
}

#[test]
fn cancel_reports_nothing_and_worker_moves_on() {
    let mut c = Coordinator::new();
    c.request_pick();
    c.request_pick();
    assert!(c.begin_dialog().is_some());
    c.end_dialog(DialogOutcome::Canceled);
    assert_eq!(c.phase(), Phase::Idle);
    assert_eq!(c.poll_selection(), None);
    assert_eq!(c.pending_requests(), 1);
    assert!(c.begin_dialog().is_some());
    assert_eq!(c.phase(), Phase::AwaitingUser);
}

#[test]
fn second_request_while_dialog_open_is_queued() {
    let mut c = Coordinator::new();
    c.request_pick();
    assert!(c.begin_dialog().is_some());
    c.request_pick();
    assert_eq!(c.pending_requests(), 1);
    assert!(c.begin_dialog().is_none());
    assert_eq!(c.pending_requests(), 1);
    c.end_dialog(selected("first.txt"));
    assert!(c.begin_dialog().is_some());
    assert_eq!(c.pending_requests(), 0);
    c.end_dialog(selected("second.txt"));
    assert_eq!(c.poll_selection(), Some("first.txt".to_string()));
    assert_eq!(c.poll_selection(), Some("second.txt".to_string()));
    assert_eq!(c.poll_selection(), None);
}

#[test]
fn interface_calls_do_not_wait_on_open_dialog() {
    let mut c = Coordinator::new();
    c.request_pick();
    assert!(c.begin_dialog().is_some());
    for _ in 0..100 {
        c.request_pick();
        assert_eq!(c.poll_selection(), None);
        assert_eq!(c.phase(), Phase::AwaitingUser);
    }
    assert_eq!(c.pending_requests(), 100);
}

#[test]
fn poll_takes_one_name_at_a_time() {
    let mut c = Coordinator::new();
    c.request_pick();
    c.begin_dialog();
    c.end_dialog(selected("notes.txt"));
    assert_eq!(c.ready_selections(), 1);
    assert_eq!(c.poll_selection(), Some("notes.txt".to_string()));
    assert_eq!(c.ready_selections(), 0);
    assert_eq!(c.poll_selection(), None);
}

#[test]
fn worker_steps_through_one_dialog() {
    let mut w = Worker::new();
    assert_eq!(w.phase(), Phase::Idle);
    let config = w.accept_request(PickRequest::Open);
    assert_text_files(&config);
    assert_eq!(w.phase(), Phase::AwaitingUser);
    assert_eq!(w.finish_dialog(selected("a.txt")), Some("a.txt".to_string()));
    assert_eq!(w.phase(), Phase::Idle);
}

#[test]
fn worker_hands_back_nothing_on_cancel() {
    let mut w = Worker::new();
    w.accept_request(PickRequest::Open);
    assert_eq!(w.finish_dialog(DialogOutcome::Canceled), None);
    assert_eq!(w.phase(), Phase::Idle);
}

#[test]
fn text_files_config() {
    assert_text_files(&DialogConfig::text_files());
}
