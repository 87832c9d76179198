use sigma_dock::config::Config;
use sigma_dock::engine::{
    AbortReason, Action, Command, Engine, ErrorKind, Event, Pending, Phase, Reaction, RunOutcome,
    Stage, READ_TIMEOUT_MS, REPLY_CAPACITY, SHORT_TIMEOUT_MS, WRITE_TIMEOUT_MS,
};
use sigma_dock::notice::{Notice, Operation, Packet};

const POLL: Action = Action::Write { command: Command::Poll, timeout_ms: 1000 };
const READ_POLL: Action = Action::Read { capacity: 32, timeout_ms: 1000 };
const READ_LONG: Action = Action::Read { capacity: 32, timeout_ms: 12000 };
const PAUSE: Action = Action::Sleep { ms: 1000 };
const COMPLETED: Action = Action::Finish { outcome: RunOutcome::Completed };

fn aborted(reason: AbortReason) -> Action {
    Action::Finish { outcome: RunOutcome::Aborted { reason } }
}

fn received(bytes: &[u8]) -> Event {
    Event::Received { bytes: bytes.to_vec() }
}

fn timeout() -> Event {
    Event::Failed { kind: ErrorKind::Timeout, description: String::from("Operation timed out") }
}

fn broken() -> Event {
    Event::Failed { kind: ErrorKind::Other, description: String::from("Pipe error") }
}

fn identification() -> Vec<u8> {
    vec![0x15, 0x15, b'1', b'2', b'3', b'4', 0x03, 0, 0, 0, 0]
}

fn ten_kilometres() -> Vec<u8> {
    let mut b = vec![0u8; 27];
    b[2] = 0x27;
    b[3] = 0x10;
    b
}

fn at(config: Config, stage: Stage, pending: Pending) -> Engine {
    Engine { config, phase: Phase::Running { stage, pending }, announced: false }
}

fn quiet(reaction: &Reaction) -> bool {
    reaction.notices.is_empty() && reaction.output.is_empty()
}

/// Takes a run from its beginning to the point where the data command has
/// been sent and its reply is awaited.
fn until_fetch(config: Config) -> Engine {
    let (mut engine, first) = Engine::start(config);
    assert_eq!(first, POLL);
    assert_eq!(engine.step(Event::Written).action, READ_POLL);
    assert_eq!(engine.step(received(&[1])).action, POLL);
    assert_eq!(engine.step(Event::Written).action, READ_POLL);
    let identify = Action::Write { command: Command::Identify, timeout_ms: 6000 };
    assert_eq!(engine.step(received(&[1])).action, identify);
    assert_eq!(engine.step(Event::Written).action, READ_LONG);
    let fetch = Action::Write { command: Command::Fetch, timeout_ms: 6000 };
    assert_eq!(engine.step(received(&identification())).action, fetch);
    assert_eq!(engine.step(Event::Written).action, READ_LONG);
    engine
}

#[test]
fn timeouts_and_capacity() {
    assert_eq!(SHORT_TIMEOUT_MS, 1000);
    assert_eq!(WRITE_TIMEOUT_MS, 6000);
    assert_eq!(READ_TIMEOUT_MS, 12000);
    assert_eq!(READ_TIMEOUT_MS, 2 * WRITE_TIMEOUT_MS);
    assert_eq!(REPLY_CAPACITY, 32);
}

#[test]
fn commands_on_the_wire() {
    assert_eq!(Command::Poll.bytes(), vec![0xf4]);
    assert_eq!(Command::Identify.bytes(), vec![0xfe]);
    assert_eq!(Command::Fetch.bytes(), vec![0xfb]);
    assert_eq!(Command::ClearCounters.bytes(), vec![0xf0, 0x02]);
    assert_eq!(Command::Poll.expected_reply(), 1);
    assert_eq!(Command::Identify.expected_reply(), 11);
    assert_eq!(Command::Fetch.expected_reply(), 27);
    assert_eq!(Command::ClearCounters.expected_reply(), 1);
}

#[test]
fn each_stage_has_its_command_and_its_timeouts() {
    for stage in [Stage::Probe, Stage::WaitForUnit, Stage::Removal] {
        assert_eq!(stage.stage_command(), Command::Poll);
        assert_eq!(stage.send(), POLL);
        assert_eq!(stage.receive(), READ_POLL);
    }
    assert_eq!(
        Stage::Identify.send(),
        Action::Write { command: Command::Identify, timeout_ms: 6000 }
    );
    assert_eq!(Stage::Fetch.send(), Action::Write { command: Command::Fetch, timeout_ms: 6000 });
    assert_eq!(
        Stage::ClearCounters.send(),
        Action::Write { command: Command::ClearCounters, timeout_ms: 6000 }
    );
    for stage in [Stage::Identify, Stage::Fetch, Stage::ClearCounters] {
        assert_eq!(stage.receive(), READ_LONG);
    }
}

#[test]
fn a_run_begins_with_the_channel_probe() {
    let (engine, first) = Engine::start(Config::default());
    assert_eq!(first, POLL);
    assert_eq!(engine.phase, Phase::Running { stage: Stage::Probe, pending: Pending::Write });
    assert!(!engine.announced);
    assert_eq!(engine.config, Config::default());
    assert_eq!(engine.outcome(), None);
}

#[test]
fn a_plain_run_completes() {
    let mut engine = until_fetch(Config::default());
    let reaction = engine.step(received(&ten_kilometres()));
    assert_eq!(reaction.action, POLL);
    assert!(reaction.notices.is_empty());
    assert!(reaction.output.starts_with("distance: 10.00 km\n"));
    assert_eq!(reaction.output.lines().count(), 7);
    assert_eq!(engine.step(Event::Written).action, READ_POLL);
    let last = engine.step(received(&[1]));
    assert_eq!(last.action, COMPLETED);
    assert!(quiet(&last));
    assert_eq!(engine.outcome(), Some(RunOutcome::Completed));
}

#[test]
fn the_notices_of_a_plain_run() {
    let (mut engine, _) = Engine::start(Config::default());
    assert!(quiet(&engine.step(Event::Written)));
    assert!(quiet(&engine.step(received(&[1]))));
    assert!(quiet(&engine.step(Event::Written)));
    assert_eq!(engine.step(received(&[1])).notices, vec![Notice::UnitFound]);
    assert!(quiet(&engine.step(Event::Written)));
    assert_eq!(
        engine.step(received(&identification())).notices,
        vec![
            Notice::UnitIdentified { unit_type: 0x15, version: 3 },
            Notice::SerialNumber { digits: [b'1', b'2', b'3', b'4'] },
        ]
    );
}

#[test]
fn a_probe_timeout_on_the_reply_resets_the_channel_once() {
    let (mut engine, _) = Engine::start(Config::default());
    assert_eq!(engine.step(Event::Written).action, READ_POLL);
    let reaction = engine.step(timeout());
    assert_eq!(reaction.action, Action::Reset);
    assert_eq!(reaction.notices, vec![Notice::ResettingChannel]);
    let reaction = engine.step(Event::ResetDone);
    assert_eq!(reaction.action, POLL);
    assert!(quiet(&reaction));
    assert_eq!(engine.phase, Phase::Running { stage: Stage::WaitForUnit, pending: Pending::Write });
}

#[test]
fn a_probe_timeout_on_the_command_resets_the_channel_once() {
    let (mut engine, _) = Engine::start(Config::default());
    let reaction = engine.step(timeout());
    assert_eq!(reaction.action, Action::Reset);
    assert_eq!(reaction.notices, vec![Notice::ResettingChannel]);
    assert_eq!(engine.step(Event::ResetDone).action, POLL);
    assert_eq!(engine.phase, Phase::Running { stage: Stage::WaitForUnit, pending: Pending::Write });
}

#[test]
fn a_second_timeout_aborts_without_another_reset() {
    let (mut engine, _) = Engine::start(Config::default());
    assert_eq!(engine.step(timeout()).action, Action::Reset);
    assert_eq!(engine.step(Event::ResetDone).action, POLL);
    let reaction = engine.step(timeout());
    assert_eq!(reaction.action, aborted(AbortReason::TransportTimeout));
    assert_eq!(
        reaction.notices,
        vec![Notice::Failure {
            operation: Operation::Usb,
            description: String::from("Operation timed out"),
        }]
    );
    assert_eq!(
        engine.outcome(),
        Some(RunOutcome::Aborted { reason: AbortReason::TransportTimeout })
    );
}

#[test]
fn a_timeout_after_the_probe_aborts_at_every_stage() {
    let stages = [
        Stage::WaitForUnit,
        Stage::Identify,
        Stage::Fetch,
        Stage::ClearCounters,
        Stage::Removal,
    ];
    for stage in stages {
        for pending in [Pending::Write, Pending::Read] {
            let mut engine = at(Config::default(), stage, pending);
            let reaction = engine.step(timeout());
            assert_eq!(reaction.action, aborted(AbortReason::TransportTimeout));
            let operation = match pending {
                Pending::Read => Operation::BulkTransfer,
                _ => Operation::Usb,
            };
            assert_eq!(
                reaction.notices,
                vec![Notice::Failure {
                    operation,
                    description: String::from("Operation timed out"),
                }]
            );
        }
    }
}

#[test]
fn a_failed_reset_aborts() {
    for event in [timeout(), broken()] {
        let (mut engine, _) = Engine::start(Config::default());
        assert_eq!(engine.step(timeout()).action, Action::Reset);
        let reaction = engine.step(event);
        assert!(matches!(
            reaction.action,
            Action::Finish { outcome: RunOutcome::Aborted { .. } }
        ));
        assert!(matches!(
            &reaction.notices[..],
            [Notice::Failure { operation: Operation::Usb, .. }]
        ));
    }
}

#[test]
fn another_error_in_the_probe_aborts() {
    let (mut engine, _) = Engine::start(Config::default());
    let reaction = engine.step(broken());
    assert_eq!(reaction.action, aborted(AbortReason::TransportError));
    assert_eq!(
        reaction.notices,
        vec![Notice::Failure {
            operation: Operation::ProbeWrite,
            description: String::from("Pipe error"),
        }]
    );
    let (mut engine, _) = Engine::start(Config::default());
    engine.step(Event::Written);
    let reaction = engine.step(broken());
    assert_eq!(reaction.action, aborted(AbortReason::TransportError));
    assert_eq!(
        reaction.notices,
        vec![Notice::Failure {
            operation: Operation::ProbeRead,
            description: String::from("Pipe error"),
        }]
    );
}

#[test]
fn a_probe_reply_of_another_length_aborts() {
    for reply in [vec![], vec![1, 1]] {
        let (mut engine, _) = Engine::start(Config::default());
        engine.step(Event::Written);
        let got = reply.len();
        let reaction = engine.step(received(&reply));
        assert_eq!(reaction.action, aborted(AbortReason::LengthMismatch));
        assert_eq!(reaction.notices, vec![Notice::ProbeLength { got }]);
    }
}

#[test]
fn the_probe_reply_is_not_looked_at() {
    for byte in [0u8, 1, 7, 255] {
        let (mut engine, _) = Engine::start(Config::default());
        engine.step(Event::Written);
        let reaction = engine.step(received(&[byte]));
        assert_eq!(reaction.action, POLL);
        assert!(quiet(&reaction));
    }
}

#[test]
fn an_empty_cradle_is_announced_once() {
    let mut engine = at(Config::default(), Stage::WaitForUnit, Pending::Read);
    let reaction = engine.step(received(&[0]));
    assert_eq!(reaction.action, PAUSE);
    assert_eq!(reaction.notices, vec![Notice::CradleEmpty]);
    assert!(engine.announced);
    for _ in 0..3 {
        assert_eq!(engine.step(Event::Slept).action, POLL);
        assert_eq!(engine.step(Event::Written).action, READ_POLL);
        let reaction = engine.step(received(&[0]));
        assert_eq!(reaction.action, PAUSE);
        assert!(quiet(&reaction));
    }
    assert_eq!(engine.step(Event::Slept).action, POLL);
    assert_eq!(engine.step(Event::Written).action, READ_POLL);
    let reaction = engine.step(received(&[1]));
    assert_eq!(reaction.notices, vec![Notice::UnitFound]);
    assert_eq!(reaction.action, Action::Write { command: Command::Identify, timeout_ms: 6000 });
}

#[test]
fn any_poll_reply_but_one_means_no_unit_yet() {
    for byte in [0u8, 2, 255] {
        let mut engine = at(Config::default(), Stage::WaitForUnit, Pending::Read);
        assert_eq!(engine.step(received(&[byte])).action, PAUSE);
    }
}

#[test]
fn a_reply_of_another_length_aborts_at_every_stage() {
    let cases = [
        (Stage::WaitForUnit, 1usize),
        (Stage::Identify, 11),
        (Stage::Fetch, 27),
        (Stage::ClearCounters, 1),
        (Stage::Removal, 1),
    ];
    for (stage, expected) in cases {
        for got in [expected - 1, expected + 1, 32] {
            let mut engine = at(Config::default(), stage, Pending::Read);
            let reaction = engine.step(received(&vec![0u8; got]));
            assert_eq!(reaction.action, aborted(AbortReason::LengthMismatch));
            assert_eq!(reaction.notices, vec![Notice::LengthMismatch { expected, got }]);
            assert!(reaction.output.is_empty());
        }
    }
}

#[test]
fn type_zero_aborts_the_run() {
    let mut engine = at(Config::default(), Stage::Identify, Pending::Read);
    let mut reply = identification();
    reply[0] = 0;
    let reaction = engine.step(received(&reply));
    assert_eq!(reaction.action, aborted(AbortReason::UnknownUnit));
    assert_eq!(reaction.notices, vec![Notice::UnknownUnit]);
}

#[test]
fn another_type_is_warned_of_and_the_run_goes_on() {
    let mut engine = at(Config::default(), Stage::Identify, Pending::Read);
    let mut reply = identification();
    reply[0] = 0x42;
    let reaction = engine.step(received(&reply));
    assert_eq!(reaction.action, Action::Write { command: Command::Fetch, timeout_ms: 6000 });
    assert_eq!(
        reaction.notices,
        vec![
            Notice::UnsupportedUnit { code: 0x42 },
            Notice::SerialNumber { digits: [b'1', b'2', b'3', b'4'] },
        ]
    );
}

#[test]
fn reserved_identification_bytes_do_not_stop_the_run() {
    let mut engine = at(Config::default(), Stage::Identify, Pending::Read);
    let mut reply = identification();
    reply[10] = 1;
    let reaction = engine.step(received(&reply));
    assert_eq!(reaction.action, Action::Write { command: Command::Fetch, timeout_ms: 6000 });
    assert_eq!(reaction.notices[0], Notice::IdentifyReserved);
    assert_eq!(reaction.notices.len(), 3);
}

#[test]
fn replies_are_traced_where_asked_for() {
    let config = Config { dump: true, ..Config::default() };
    let mut engine = at(config, Stage::Identify, Pending::Read);
    let reaction = engine.step(received(&identification()));
    assert_eq!(
        reaction.notices[0],
        Notice::Dump { packet: Packet::Identification, bytes: identification() }
    );
    assert_eq!(reaction.notices.len(), 3);
    engine.step(Event::Written);
    let mut data = ten_kilometres();
    data[0] = 1;
    let reaction = engine.step(received(&data));
    assert_eq!(
        reaction.notices,
        vec![
            Notice::Dump { packet: Packet::Data, bytes: data.clone() },
            Notice::PendingRecords { count: 2 },
        ]
    );
}

#[test]
fn the_output_follows_the_options() {
    let config = Config { miles: true, zeros: false, ..Config::default() };
    let mut engine = until_fetch(config);
    assert_eq!(engine.step(received(&ten_kilometres())).output, "distance: 6.21 mi\n");
    let config = Config { raw: true, ts: false, ..Config::default() };
    let mut engine = until_fetch(config);
    assert_eq!(engine.step(received(&ten_kilometres())).output, "10000,0,0.00,0.00,0\n");
    let config = Config { miles: true, ..Config::default() };
    let mut engine = until_fetch(config);
    let mut data = ten_kilometres();
    data[7] = 0x09;
    data[8] = 0xef;
    let output = engine.step(received(&data)).output;
    assert!(output.contains("meanspeed: 15.80 mph\n"));
}

#[test]
fn counters_are_cleared_where_asked_for() {
    let config = Config { clear: true, ..Config::default() };
    let mut engine = until_fetch(config);
    let reaction = engine.step(received(&ten_kilometres()));
    assert_eq!(
        reaction.action,
        Action::Write { command: Command::ClearCounters, timeout_ms: 6000 }
    );
    assert!(!reaction.output.is_empty());
    assert_eq!(engine.step(Event::Written).action, READ_LONG);
    let reaction = engine.step(received(&[0]));
    assert_eq!(reaction.action, POLL);
    assert_eq!(reaction.notices, vec![Notice::CountersCleared]);
    assert_eq!(engine.step(Event::Written).action, READ_POLL);
    assert_eq!(engine.step(received(&[1])).action, COMPLETED);
}

#[test]
fn a_refused_clear_aborts_the_run() {
    let config = Config { clear: true, ..Config::default() };
    let mut engine = until_fetch(config);
    engine.step(received(&ten_kilometres()));
    engine.step(Event::Written);
    let reaction = engine.step(received(&[0x01]));
    assert_eq!(reaction.action, aborted(AbortReason::CounterClearFailure));
    assert_eq!(reaction.notices, vec![Notice::ClearFailed { code: 1 }]);
    assert!(!reaction.notices.contains(&Notice::CountersCleared));
    assert_eq!(
        engine.outcome(),
        Some(RunOutcome::Aborted { reason: AbortReason::CounterClearFailure })
    );
}

#[test]
fn a_transport_error_while_clearing_is_no_clear_failure() {
    let config = Config { clear: true, ..Config::default() };
    let mut engine = at(config, Stage::ClearCounters, Pending::Read);
    assert_eq!(engine.step(broken()).action, aborted(AbortReason::TransportError));
}

#[test]
fn the_run_stays_until_the_unit_is_taken_out() {
    let config = Config { wait_remove: true, ..Config::default() };
    let mut engine = until_fetch(config);
    let reaction = engine.step(received(&ten_kilometres()));
    assert_eq!(reaction.action, POLL);
    assert_eq!(reaction.notices, vec![Notice::WaitingForRemoval]);
    let mut pauses = 0;
    for reply in [1u8, 1, 0] {
        assert_eq!(engine.step(Event::Written).action, READ_POLL);
        let reaction = engine.step(received(&[reply]));
        if reply == 0 {
            assert_eq!(reaction.action, COMPLETED);
            assert_eq!(reaction.notices, vec![Notice::UnitRemoved]);
        } else {
            assert_eq!(reaction.action, PAUSE);
            assert!(quiet(&reaction));
            pauses += 1;
            assert_eq!(engine.step(Event::Slept).action, POLL);
        }
    }
    assert_eq!(pauses, 2);
    assert_eq!(engine.outcome(), Some(RunOutcome::Completed));
}

#[test]
fn waiting_for_removal_follows_the_clearing() {
    let config = Config { clear: true, wait_remove: true, ..Config::default() };
    let mut engine = at(config, Stage::ClearCounters, Pending::Read);
    let reaction = engine.step(received(&[0]));
    assert_eq!(reaction.notices, vec![Notice::CountersCleared, Notice::WaitingForRemoval]);
    assert_eq!(reaction.action, POLL);
}

#[test]
fn without_waiting_the_last_poll_ends_the_run_whatever_it_says() {
    for byte in [0u8, 1, 9] {
        let mut engine = at(Config::default(), Stage::Removal, Pending::Read);
        let reaction = engine.step(received(&[byte]));
        assert_eq!(reaction.action, COMPLETED);
        assert!(quiet(&reaction));
    }
}

#[test]
fn an_error_in_the_last_poll_aborts() {
    let mut engine = at(Config::default(), Stage::Removal, Pending::Write);
    assert_eq!(engine.step(broken()).action, aborted(AbortReason::TransportError));
    let mut engine = at(Config::default(), Stage::Removal, Pending::Read);
    assert_eq!(engine.step(timeout()).action, aborted(AbortReason::TransportTimeout));
}

#[test]
fn an_event_out_of_sequence_aborts() {
    let cases = [
        (Stage::Probe, Pending::Write, received(&[1])),
        (Stage::Probe, Pending::Read, Event::Written),
        (Stage::Probe, Pending::Write, Event::ResetDone),
        (Stage::WaitForUnit, Pending::Write, Event::Slept),
        (Stage::Identify, Pending::Reset, Event::ResetDone),
        (Stage::Fetch, Pending::Sleep, Event::Slept),
        (Stage::WaitForUnit, Pending::Sleep, timeout()),
    ];
    for (stage, pending, event) in cases {
        let mut engine = at(Config::default(), stage, pending);
        let reaction = engine.step(event);
        assert_eq!(reaction.action, aborted(AbortReason::OutOfSequence));
        assert_eq!(reaction.notices, vec![Notice::OutOfSequence]);
    }
}

#[test]
fn a_run_that_has_ended_stays_ended() {
    let mut engine = at(Config::default(), Stage::Removal, Pending::Read);
    assert_eq!(engine.step(received(&[0])).action, COMPLETED);
    let ended = engine;
    for event in [Event::Written, received(&[1]), Event::ResetDone, Event::Slept, timeout()] {
        let reaction = engine.step(event);
        assert_eq!(reaction.action, COMPLETED);
        assert!(quiet(&reaction));
        assert_eq!(engine, ended);
    }
}

#[test]
fn the_channel_is_reset_at_most_once_whatever_happens() {
    let events = || {
        vec![
            timeout(),
            Event::ResetDone,
            timeout(),
            Event::ResetDone,
            Event::Written,
            timeout(),
            received(&[1]),
            broken(),
        ]
    };
    for skip in 0..4 {
        let (mut engine, _) = Engine::start(Config::default());
        let mut resets = 0;
        for event in events().into_iter().skip(skip) {
            if engine.step(event).action == Action::Reset {
                resets += 1;
            }
        }
        assert!(resets <= 1);
    }
}
