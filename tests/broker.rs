use printeasy::registry::shop_queue;
use printeasy::session::{step, PeerMessage, SessionEvent, SessionState};
use printeasy::{AppState, BrokerError, CreateShopArgs, NewPrintArgs, PageType, PrintResponse, PrintType};
use std::collections::HashSet;
use tokio::sync::mpsc::error::TryRecvError;
use tokio::sync::mpsc::{Receiver, Sender};

fn caps(pages: &[PageType], prints: &[PrintType]) -> CreateShopArgs {
    CreateShopArgs {
        page_capabilities: pages.iter().copied().collect(),
        print_capabilities: prints.iter().copied().collect(),
    }
}

fn job(name: &str) -> NewPrintArgs {
    NewPrintArgs {
        name: name.to_string(),
        system_id: "sys".to_string(),
        phone_number: "555-0100".to_string(),
        email_id: "someone@example.com".to_string(),
        file: vec![9, 8, 7],
        page_type: PageType::A4,
        print_type: PrintType::BlackAndWhite,
    }
}

/// Plays a terminal's side of one job on the session state machine, passing
/// each result on to the job's result sender, and returns the job.
fn negotiate(
    rx: &mut Receiver<(NewPrintArgs, Sender<PrintResponse>)>,
    replies: &[PeerMessage],
) -> NewPrintArgs {
    let (args, resp_tx) = rx.try_recv().expect("a job is queued");
    let mut state = step(SessionState::AwaitJob, &SessionEvent::JobArrived).state;
    state = step(state, &SessionEvent::JobDelivered).state;
    for reply in replies {
        let s = step(state, &SessionEvent::Reply(reply.clone()));
        if let Some(r) = s.forward {
            resp_tx.try_send(r).unwrap();
        }
        state = s.state;
    }
    assert_eq!(state, SessionState::AwaitJob);
    args
}

fn connect(
    state: &mut AppState,
    id: u128,
) -> Result<Receiver<(NewPrintArgs, Sender<PrintResponse>)>, BrokerError> {
    let (tx, rx) = shop_queue();
    state.connect_shop(id, tx).map(|_| rx)
}

fn drain(rx: &mut Receiver<PrintResponse>) -> (Vec<PrintResponse>, bool) {
    let mut out = Vec::new();
    loop {
        match rx.try_recv() {
            Ok(r) => out.push(r),
            Err(TryRecvError::Empty) => return (out, false),
            Err(TryRecvError::Disconnected) => return (out, true),
        }
    }
}

#[test]
fn created_shop_keeps_its_capabilities() {
    let mut state = AppState::new();
    let id = state.create_shop(caps(&[PageType::A4], &[PrintType::BlackAndWhite])).unwrap();
    let c = state.capabilities(id).unwrap();
    assert_eq!(c.page_capabilities, HashSet::from([PageType::A4]));
    assert_eq!(c.print_capabilities, HashSet::from([PrintType::BlackAndWhite]));

    let all = caps(&[PageType::A3, PageType::A4, PageType::A5], &[PrintType::Colored, PrintType::BlackAndWhite]);
    let id2 = state.create_shop(all).unwrap();
    assert_ne!(id, id2);
    let c = state.capabilities(id2).unwrap();
    assert_eq!(c.page_capabilities.len(), 3);
    assert_eq!(c.print_capabilities.len(), 2);

    let empty = state.create_shop(caps(&[], &[])).unwrap();
    let c = state.capabilities(empty).unwrap();
    assert!(c.page_capabilities.is_empty() && c.print_capabilities.is_empty());
}

#[test]
fn capabilities_of_unknown_shop() {
    let state = AppState::new();
    assert!(matches!(state.capabilities(42), Err(BrokerError::ShopNotFound)));
}

#[test]
fn shop_ids_are_not_reused() {
    let mut state = AppState::new();
    assert!(state.insert_shop(6, caps(&[PageType::A3], &[])));
    assert!(!state.insert_shop(6, caps(&[PageType::A5], &[])));
    assert!(!state.insert_shop(7, caps(&[PageType::A5], &[])));
    let c = state.capabilities(6).unwrap();
    assert_eq!(c.page_capabilities, HashSet::from([PageType::A3]));
}

#[test]
fn submit_to_unknown_shop_fails() {
    let mut state = AppState::new();
    assert!(matches!(state.submit(7, job("Ana")), Err(BrokerError::ShopNotFound)));
}

#[test]
fn submit_to_unconnected_shop_fails() {
    let mut state = AppState::new();
    let id = state.create_shop(caps(&[PageType::A4], &[])).unwrap();
    assert!(matches!(state.submit(id, job("Ana")), Err(BrokerError::ShopNotConnected)));
}

#[test]
fn connect_to_unknown_shop_fails() {
    let mut state = AppState::new();
    assert!(matches!(connect(&mut state, 1), Err(BrokerError::ShopNotFound)));
}

#[test]
fn reconnect_supersedes_earlier_terminal() {
    let mut state = AppState::new();
    let id = state.create_shop(caps(&[], &[])).unwrap();
    let mut first = connect(&mut state, id).unwrap();
    let mut second = connect(&mut state, id).unwrap();
    assert!(matches!(first.try_recv(), Err(TryRecvError::Disconnected)));
    let s = state.submit(id, job("Ana")).unwrap();
    s.outbound.try_send(s.job).unwrap();
    assert_eq!(second.try_recv().unwrap().0.name, "Ana");
}

#[test]
fn jobs_reach_the_terminal_in_submission_order() {
    let mut state = AppState::new();
    let id = state.create_shop(caps(&[PageType::A4], &[PrintType::BlackAndWhite])).unwrap();
    let mut rx = connect(&mut state, id).unwrap();
    let mut ids = Vec::new();
    for name in ["first", "second", "third"] {
        let s = state.submit(id, job(name)).unwrap();
        ids.push(s.job_id);
        s.outbound.try_send(s.job).unwrap();
    }
    assert_ne!(ids[0], ids[1]);
    assert_eq!(rx.try_recv().unwrap().0.name, "first");
    assert_eq!(rx.try_recv().unwrap().0.name, "second");
    assert_eq!(rx.try_recv().unwrap().0.name, "third");
    assert!(matches!(rx.try_recv(), Err(TryRecvError::Empty)));
}

#[test]
fn job_id_collision_is_refused() {
    let mut state = AppState::new();
    let id = state.create_shop(caps(&[], &[])).unwrap();
    let _rx = connect(&mut state, id).unwrap();
    assert!(state.submit_with_id(id, 11, job("a")).is_ok());
    assert!(matches!(state.submit_with_id(id, 11, job("b")), Err(BrokerError::IdCollision)));
    assert!(matches!(state.submit_with_id(id, 12, job("d")), Err(BrokerError::IdCollision)));
    let s = state.submit_with_id(id, 13, job("c")).unwrap();
    assert_eq!(s.job_id, 13);
    assert_eq!(s.job.0.name, "c");
}

#[test]
fn cost_then_printed_reaches_the_sender() {
    let mut state = AppState::new();
    let id = state.create_shop(caps(&[PageType::A4], &[PrintType::BlackAndWhite])).unwrap();
    let mut rx = connect(&mut state, id).unwrap();
    let s = state.submit(id, job("Ana")).unwrap();
    let job_id = s.job_id;
    s.outbound.try_send(s.job).unwrap();
    negotiate(
        &mut rx,
        &[PeerMessage::Text("{\"cost\": 150}".to_string()), PeerMessage::Text("Printed".to_string())],
    );
    let mut results = state.claim_job(job_id).unwrap();
    let (got, closed) = drain(&mut results);
    assert_eq!(got, vec![PrintResponse::Cost(150), PrintResponse::Printed]);
    assert!(closed);
}

#[test]
fn cost_without_confirmation_reaches_the_sender() {
    let mut state = AppState::new();
    let id = state.create_shop(caps(&[PageType::A3], &[PrintType::Colored])).unwrap();
    let mut rx = connect(&mut state, id).unwrap();
    let s = state.submit(id, job("Bo")).unwrap();
    let job_id = s.job_id;
    s.outbound.try_send(s.job).unwrap();
    negotiate(&mut rx, &[PeerMessage::Text("{\"cost\": 80}".to_string()), PeerMessage::Absent]);
    let mut results = state.claim_job(job_id).unwrap();
    let (got, closed) = drain(&mut results);
    assert_eq!(got, vec![PrintResponse::Cost(80)]);
    assert!(closed);
}

#[test]
fn a_claimed_job_cannot_be_claimed_again() {
    let mut state = AppState::new();
    let id = state.create_shop(caps(&[], &[])).unwrap();
    let _rx = connect(&mut state, id).unwrap();
    let s = state.submit(id, job("Ana")).unwrap();
    let first = state.claim_job(s.job_id);
    assert!(first.is_ok());
    assert!(matches!(state.claim_job(s.job_id), Err(BrokerError::JobNotFound)));
    assert!(matches!(state.claim_job(s.job_id.wrapping_add(1)), Err(BrokerError::JobNotFound)));
}

#[test]
fn a_restored_job_resumes_its_results() {
    let mut state = AppState::new();
    let id = state.create_shop(caps(&[], &[])).unwrap();
    let _rx = connect(&mut state, id).unwrap();
    let s = state.submit(id, job("Ana")).unwrap();
    let job_id = s.job_id;
    let resp_tx = s.job.1;
    resp_tx.try_send(PrintResponse::Cost(5)).unwrap();
    let mut results = state.claim_job(job_id).unwrap();
    assert_eq!(results.try_recv().unwrap(), PrintResponse::Cost(5));
    // the sender went away before the job was over
    assert!(state.restore_job(job_id, results));
    resp_tx.try_send(PrintResponse::Printed).unwrap();
    drop(resp_tx);
    let mut resumed = state.claim_job(job_id).unwrap();
    let (got, closed) = drain(&mut resumed);
    assert_eq!(got, vec![PrintResponse::Printed]);
    assert!(closed);
}

#[test]
fn ana_job_scenario() {
    let mut state = AppState::new();
    let s1 = state.create_shop(caps(&[PageType::A4], &[PrintType::BlackAndWhite])).unwrap();
    let mut terminal = connect(&mut state, s1).unwrap();
    let form = NewPrintArgs::from_fields(
        Some("Ana".to_string()),
        Some("sys-1".to_string()),
        Some("555-0100".to_string()),
        Some("ana@example.com".to_string()),
        Some(b"%PDF".to_vec()),
        Some("A4".to_string()),
        Some("Black and White Print".to_string()),
    )
    .unwrap();
    let s = state.submit(s1, form).unwrap();
    let j1 = s.job_id;
    s.outbound.try_send(s.job).unwrap();
    let received = negotiate(
        &mut terminal,
        &[PeerMessage::Text("{\"cost\":200}".to_string()), PeerMessage::Text("Printed".to_string())],
    );
    assert_eq!(received.name, "Ana");
    assert_eq!(received.page_type, PageType::A4);
    assert_eq!(received.print_type, PrintType::BlackAndWhite);
    let mut relay = state.claim_job(j1).unwrap();
    let (got, closed) = drain(&mut relay);
    assert_eq!(got, vec![PrintResponse::Cost(200), PrintResponse::Printed]);
    assert!(closed);
}

#[test]
fn claimed_job_id_is_not_handed_out_again() {
    let mut state = AppState::new();
    let id = state.create_shop(caps(&[], &[])).unwrap();
    let _rx = connect(&mut state, id).unwrap();
    let s = state.submit_with_id(id, 21, job("a")).unwrap();
    drop(s);
    assert!(state.claim_job(21).is_ok());
    assert!(matches!(state.submit_with_id(id, 21, job("b")), Err(BrokerError::IdCollision)));
}

#[test]
fn first_shop_and_first_job_always_get_ids() {
    let mut state = AppState::new();
    let id = state.create_shop(caps(&[PageType::A5], &[PrintType::Colored]));
    assert!(id.is_some());
    let id = id.unwrap();
    assert!(connect(&mut state, id).is_ok());
    assert!(state.submit(id, job("first")).is_ok());
}

#[test]
fn shop_and_job_ids_are_of_different_kinds() {
    let mut state = AppState::new();
    let id = state.create_shop(caps(&[], &[])).unwrap();
    assert_eq!(id % 2, 0);
    let _rx = connect(&mut state, id).unwrap();
    let s = state.submit(id, job("a")).unwrap();
    assert_eq!(s.job_id % 2, 1);
}

#[test]
fn restoring_an_unknown_job_id_is_refused() {
    let mut state = AppState::new();
    let (_tx, rx) = tokio::sync::mpsc::channel::<PrintResponse>(1);
    assert!(!state.restore_job(31, rx));
    assert!(matches!(state.claim_job(31), Err(BrokerError::JobNotFound)));
}
