use nvim_ec::broadcast::{Action, Broadcast, Event, Failure, Phase};
use nvim_ec::discovery::match_prefix;
use nvim_ec::wire::request;

/// What a simulated endpoint does when it is connected to.
#[derive(Clone, Copy, PartialEq)]
enum Endpoint {
    Listens,
    Refuses,
    Breaks,
}

/// Runs the fan-out over a listing, as a caller with real sockets would, and
/// returns what was written where, the paths that were opened, and the outcome.
fn run(
    listing: &[(Option<&str>, Endpoint)],
    prefix: String,
    message: &[u8],
) -> (Vec<(String, Vec<u8>)>, Vec<String>, Result<(), Failure>) {
    let mut broadcast = Broadcast::new(prefix);
    let mut written = Vec::new();
    let mut opened = Vec::new();
    let mut next = 0;
    let mut current = Endpoint::Listens;
    loop {
        assert_eq!(broadcast.phase(), Phase::Running);
        assert_eq!(broadcast.outcome(), None);
        let event = if next < listing.len() {
            current = listing[next].1;
            next += 1;
            Event::Entry(listing[next - 1].0.map(String::from))
        } else {
            Event::End
        };
        let mut action = broadcast.step(event);
        if let Action::Deliver(path) = action {
            opened.push(path.clone());
            let event = match current {
                Endpoint::Listens => {
                    written.push((path, message.to_vec()));
                    Event::Delivered
                }
                Endpoint::Refuses => Event::ConnectFailed,
                Endpoint::Breaks => Event::WriteFailed,
            };
            action = broadcast.step(event);
        }
        match action {
            Action::Next => {}
            Action::Deliver(path) => panic!("{path} handed out in answer to a delivery"),
            Action::Finish(outcome) => {
                assert_eq!(broadcast.outcome(), Some(outcome));
                return (written, opened, outcome);
            }
        }
    }
}

#[test]
fn exec_reaches_the_matching_endpoint_only() {
    let listing = [
        (Some("/tmp/nvim-ec.1"), Endpoint::Listens),
        (Some("/tmp/unrelated.file"), Endpoint::Listens),
    ];
    let message = request("echo hi");
    let (written, opened, outcome) = run(&listing, match_prefix("/tmp", "nvim-ec."), &message);
    assert_eq!(outcome, Ok(()));
    assert_eq!(opened, vec!["/tmp/nvim-ec.1"]);
    assert_eq!(written.len(), 1);
    assert_eq!(written[0].0, "/tmp/nvim-ec.1");
    let mut expected = vec![0x94, 0x00, 0x01, 0xac];
    expected.extend_from_slice(b"nvim_command");
    expected.extend_from_slice(&[0x91, 0xa7]);
    expected.extend_from_slice(b"echo hi");
    assert_eq!(written[0].1, expected);
}

#[test]
fn no_matching_entry_means_no_connection_and_success() {
    let listing = [
        (Some("/tmp/unrelated.file"), Endpoint::Refuses),
        (None, Endpoint::Refuses),
        (Some("/tmp/nvim-ec"), Endpoint::Refuses),
    ];
    let (written, opened, outcome) = run(&listing, match_prefix("/tmp", "nvim-ec."), &[1]);
    assert_eq!(outcome, Ok(()));
    assert!(opened.is_empty());
    assert!(written.is_empty());
}

#[test]
fn empty_directory_succeeds() {
    let (written, opened, outcome) = run(&[], match_prefix("/tmp", "nvim-ec."), &[1]);
    assert_eq!(outcome, Ok(()));
    assert!(opened.is_empty());
    assert!(written.is_empty());
}

#[test]
fn refused_connection_fails_the_run_and_spares_the_rest() {
    let listing = [
        (Some("/tmp/nvim-ec.1"), Endpoint::Refuses),
        (Some("/tmp/nvim-ec.2"), Endpoint::Listens),
    ];
    let (written, opened, outcome) = run(&listing, match_prefix("/tmp", "nvim-ec."), &[1]);
    assert_eq!(outcome, Err(Failure::Connect));
    assert_eq!(opened, vec!["/tmp/nvim-ec.1"]);
    assert!(written.is_empty());
}

#[test]
fn failed_write_fails_the_run_after_earlier_deliveries() {
    let listing = [
        (Some("/tmp/nvim-ec.1"), Endpoint::Listens),
        (Some("/tmp/nvim-ec.2"), Endpoint::Breaks),
        (Some("/tmp/nvim-ec.3"), Endpoint::Listens),
    ];
    let (written, opened, outcome) = run(&listing, match_prefix("/tmp", "nvim-ec."), &[7, 8]);
    assert_eq!(outcome, Err(Failure::Write));
    assert_eq!(opened, vec!["/tmp/nvim-ec.1", "/tmp/nvim-ec.2"]);
    assert_eq!(written, vec![(String::from("/tmp/nvim-ec.1"), vec![7, 8])]);
}

#[test]
fn every_endpoint_is_reached_when_all_listen() {
    let listing = [
        (Some("/tmp/nvim-ec.b"), Endpoint::Listens),
        (Some("/tmp/zzz"), Endpoint::Listens),
        (Some("/tmp/nvim-ec.a"), Endpoint::Listens),
    ];
    let (written, opened, outcome) = run(&listing, match_prefix("/tmp", "nvim-ec."), &[9]);
    assert_eq!(outcome, Ok(()));
    assert_eq!(opened, vec!["/tmp/nvim-ec.b", "/tmp/nvim-ec.a"]);
    assert_eq!(written.len(), 2);
}

#[test]
fn new_run_is_running() {
    let run = Broadcast::new(String::from("/tmp/nvim-ec."));
    assert_eq!(run.phase(), Phase::Running);
    assert_eq!(run.outcome(), None);
}

#[test]
fn step_hands_out_a_matching_entry() {
    let mut run = Broadcast::new(String::from("/tmp/nvim-ec."));
    let action = run.step(Event::Entry(Some(String::from("/tmp/nvim-ec.42"))));
    assert_eq!(action, Action::Deliver(String::from("/tmp/nvim-ec.42")));
    assert_eq!(run.phase(), Phase::Running);
    assert_eq!(run.step(Event::Delivered), Action::Next);
    assert_eq!(run.phase(), Phase::Running);
}

#[test]
fn step_passes_over_other_entries() {
    let mut run = Broadcast::new(String::from("/tmp/nvim-ec."));
    assert_eq!(run.step(Event::Entry(Some(String::from("/tmp/other.42")))), Action::Next);
    assert_eq!(run.step(Event::Entry(None)), Action::Next);
    assert_eq!(run.phase(), Phase::Running);
}

#[test]
fn end_of_listing_ends_the_run_well() {
    let mut run = Broadcast::new(String::from("/tmp/nvim-ec."));
    assert_eq!(run.step(Event::End), Action::Finish(Ok(())));
    assert_eq!(run.phase(), Phase::Done);
    assert_eq!(run.outcome(), Some(Ok(())));
    let entry = Event::Entry(Some(String::from("/tmp/nvim-ec.1")));
    assert_eq!(run.step(entry), Action::Finish(Ok(())));
    assert_eq!(run.step(Event::ConnectFailed), Action::Finish(Ok(())));
    assert_eq!(run.phase(), Phase::Done);
}

#[test]
fn unreadable_directory_fails_the_run() {
    let mut run = Broadcast::new(String::from("/tmp/nvim-ec."));
    assert_eq!(run.step(Event::ListingFailed), Action::Finish(Err(Failure::Discovery)));
    assert_eq!(run.phase(), Phase::Failed(Failure::Discovery));
    assert_eq!(run.outcome(), Some(Err(Failure::Discovery)));
}

#[test]
fn each_failure_has_its_event() {
    let mut run = Broadcast::new(String::new());
    assert_eq!(run.step(Event::ConnectFailed), Action::Finish(Err(Failure::Connect)));
    let mut run = Broadcast::new(String::new());
    assert_eq!(run.step(Event::WriteFailed), Action::Finish(Err(Failure::Write)));
    assert_eq!(run.outcome(), Some(Err(Failure::Write)));
}

#[test]
fn failed_run_attempts_nothing_more() {
    let mut run = Broadcast::new(String::from("/tmp/nvim-ec."));
    assert_eq!(run.step(Event::ConnectFailed), Action::Finish(Err(Failure::Connect)));
    let events = [
        Event::Entry(Some(String::from("/tmp/nvim-ec.2"))),
        Event::Entry(None),
        Event::Delivered,
        Event::End,
        Event::ListingFailed,
        Event::WriteFailed,
        Event::ConnectFailed,
    ];
    for event in events {
        assert_eq!(run.step(event), Action::Finish(Err(Failure::Connect)));
        assert_eq!(run.phase(), Phase::Failed(Failure::Connect));
    }
}
