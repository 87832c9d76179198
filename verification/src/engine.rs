//! The exchange with the cradle, as a state machine: it is told what the
//! transport did and says what the transport is to do next.

use vstd::prelude::*;
use crate::config::Config;
use crate::identify::{IdentifyReply, UnitKind};
use crate::notice::{notice_views, Notice, NoticeView, Operation, Packet};
use crate::telemetry::{decode_reply, TelemetryReply};
use crate::units::{
    conversion,
    distance_unit,
    distance_unit_text,
    speed_unit,
    speed_unit_text,
    Conversion,
};

verus! {

/// The time given to a poll, in milliseconds, and the pause between polls.
pub const SHORT_TIMEOUT_MS: u64 = 1000;

/// The time given to the sending of any other command, in milliseconds.
pub const WRITE_TIMEOUT_MS: u64 = 6000;

/// The time given to the reply to any other command, in milliseconds.
pub const READ_TIMEOUT_MS: u64 = 12000;

/// The room offered to every reply, in bytes.
pub const REPLY_CAPACITY: usize = 32;

/// A command to the cradle.
#[derive(Clone, Copy, Debug, PartialEq, Eq, Structural)]
pub enum Command {
    /// Asks whether a unit stands in the cradle.
    Poll,
    /// Asks what unit it is.
    Identify,
    /// Asks for the unit's data.
    Fetch,
    /// Resets the unit's counters.
    ClearCounters,
}

impl Command {
    /// The bytes that are sent.
    pub open spec fn wire(self) -> Seq<u8> {
        match self {
            Command::Poll => seq![0xf4u8],
            Command::Identify => seq![0xfeu8],
            Command::Fetch => seq![0xfbu8],
            Command::ClearCounters => seq![0xf0u8, 0x02u8],
        }
    }

    /// The length of the reply.
    pub open spec fn reply_len(self) -> nat {
        match self {
            Command::Poll => 1,
            Command::Identify => 11,
            Command::Fetch => 27,
            Command::ClearCounters => 1,
        }
    }

    /// The bytes that are sent.
    pub fn bytes(&self) -> (bytes: Vec<u8>)
        ensures
            bytes@ == self.wire(),
    {
        let mut bytes: Vec<u8> = Vec::new();
        match self {
            Command::Poll => bytes.push(0xf4),
            Command::Identify => bytes.push(0xfe),
            Command::Fetch => bytes.push(0xfb),
            Command::ClearCounters => {
                bytes.push(0xf0);
                bytes.push(0x02);
            },
        }
        assert(bytes@ =~= self.wire());
        bytes
    }

    /// The length of the reply.
    pub fn expected_reply(&self) -> (len: usize)
        ensures
            len == self.reply_len(),
    {
        match self {
            Command::Poll => 1,
            Command::Identify => 11,
            Command::Fetch => 27,
            Command::ClearCounters => 1,
        }
    }
}

/// The stages of a run, in their order.
#[derive(Clone, Copy, Debug, PartialEq, Eq, Structural)]
pub enum Stage {
    /// One poll that shows whether the channel answers.
    Probe,
    /// Polling until a unit stands in the cradle.
    WaitForUnit,
    /// Asking what unit it is.
    Identify,
    /// Asking for the unit's data.
    Fetch,
    /// Resetting the unit's counters.
    ClearCounters,
    /// One last poll, or polling until the unit is taken out.
    Removal,
}

impl Stage {
    /// The command of the stage.
    pub open spec fn command(self) -> Command {
        match self {
            Stage::Probe | Stage::WaitForUnit | Stage::Removal => Command::Poll,
            Stage::Identify => Command::Identify,
            Stage::Fetch => Command::Fetch,
            Stage::ClearCounters => Command::ClearCounters,
        }
    }

    /// Whether the stage polls.
    pub open spec fn polls(self) -> bool {
        self.command() is Poll
    }

    /// The time given to the sending of the stage's command.
    pub open spec fn write_timeout(self) -> u64 {
        if self.polls() {
            SHORT_TIMEOUT_MS
        } else {
            WRITE_TIMEOUT_MS
        }
    }

    /// The time given to the reply to the stage's command.
    pub open spec fn read_timeout(self) -> u64 {
        if self.polls() {
            SHORT_TIMEOUT_MS
        } else {
            READ_TIMEOUT_MS
        }
    }

    /// The stage's place in the order of a run.
    pub open spec fn rank(self) -> nat {
        match self {
            Stage::Probe => 0,
            Stage::WaitForUnit => 1,
            Stage::Identify => 2,
            Stage::Fetch => 3,
            Stage::ClearCounters => 4,
            Stage::Removal => 5,
        }
    }

    /// The command of the stage.
    pub fn stage_command(&self) -> (command: Command)
        ensures
            command == self.command(),
    {
        match self {
            Stage::Probe | Stage::WaitForUnit | Stage::Removal => Command::Poll,
            Stage::Identify => Command::Identify,
            Stage::Fetch => Command::Fetch,
            Stage::ClearCounters => Command::ClearCounters,
        }
    }

    /// The action that sends the stage's command.
    pub fn send(&self) -> (action: Action)
        ensures
            action == (Action::Write {
                command: self.command(),
                timeout_ms: self.write_timeout(),
            }),
    {
        let command = self.stage_command();
        let timeout_ms: u64 = match command {
            Command::Poll => SHORT_TIMEOUT_MS,
            _ => WRITE_TIMEOUT_MS,
        };
        Action::Write { command, timeout_ms }
    }

    /// The action that reads the reply to the stage's command.
    pub fn receive(&self) -> (action: Action)
        ensures
            action == (Action::Read {
                capacity: REPLY_CAPACITY,
                timeout_ms: self.read_timeout(),
            }),
    {
        let timeout_ms: u64 = match self.stage_command() {
            Command::Poll => SHORT_TIMEOUT_MS,
            _ => READ_TIMEOUT_MS,
        };
        Action::Read { capacity: REPLY_CAPACITY, timeout_ms }
    }
}

/// Why a run ended before its end.
#[derive(Clone, Copy, Debug, PartialEq, Eq, Structural)]
pub enum AbortReason {
    /// The transport timed out, elsewhere than in the channel probe.
    TransportTimeout,
    /// The transport reported another error.
    TransportError,
    /// A reply has not the length that its command calls for.
    LengthMismatch,
    /// The identification reply names no unit.
    UnknownUnit,
    /// The unit answered the reset of its counters with an error code.
    CounterClearFailure,
    /// The transport reported an event that the protocol was not waiting for.
    OutOfSequence,
}

/// How a run ended.
#[derive(Clone, Copy, Debug, PartialEq, Eq, Structural)]
pub enum RunOutcome {
    Completed,
    Aborted { reason: AbortReason },
}

/// What the transport is waited on for.
#[derive(Clone, Copy, Debug, PartialEq, Eq, Structural)]
pub enum Pending {
    /// The command is being sent.
    Write,
    /// The reply is being read.
    Read,
    /// The channel is being reset.
    Reset,
    /// The pause between two polls.
    Sleep,
}

/// Where a run stands.
#[derive(Clone, Copy, Debug, PartialEq, Eq, Structural)]
pub enum Phase {
    Running { stage: Stage, pending: Pending },
    Finished { outcome: RunOutcome },
}

/// What the transport is to do next.
#[derive(Clone, Copy, Debug, PartialEq, Eq, Structural)]
pub enum Action {
    /// Send the command, within the time given.
    Write { command: Command, timeout_ms: u64 },
    /// Read a reply of at most `capacity` bytes, within the time given.
    Read { capacity: usize, timeout_ms: u64 },
    /// Reset the channel.
    Reset,
    /// Pause.
    Sleep { ms: u64 },
    /// Nothing more: the run has ended.
    Finish { outcome: RunOutcome },
}

/// The two kinds of transport error that the protocol tells apart.
#[derive(Clone, Copy, Debug, PartialEq, Eq, Structural)]
pub enum ErrorKind {
    Timeout,
    Other,
}

/// What the transport did.
#[derive(Clone, Debug, PartialEq, Eq)]
pub enum Event {
    /// The command was sent.
    Written,
    /// A reply was read.
    Received { bytes: Vec<u8> },
    /// The channel was reset.
    ResetDone,
    /// The pause is over.
    Slept,
    /// The transport reported an error, which it describes.
    Failed { kind: ErrorKind, description: String },
}

/// An event as a mathematical value.
pub enum EventView {
    Written,
    Received { bytes: Seq<u8> },
    ResetDone,
    Slept,
    Failed { kind: ErrorKind, description: Seq<char> },
}

impl View for Event {
    type V = EventView;

    open spec fn view(&self) -> EventView {
        match *self {
            Event::Written => EventView::Written,
            Event::Received { bytes } => EventView::Received { bytes: bytes@ },
            Event::ResetDone => EventView::ResetDone,
            Event::Slept => EventView::Slept,
            Event::Failed { kind, description } => EventView::Failed {
                kind,
                description: description@,
            },
        }
    }
}

/// What a step of the run gives: what to tell the operator, the output, and
/// what the transport is to do next.
#[derive(Clone, Debug, PartialEq, Eq)]
pub struct Reaction {
    pub notices: Vec<Notice>,
    pub output: String,
    pub action: Action,
}

/// A reaction as a mathematical value.
pub struct ReactionView {
    pub notices: Seq<NoticeView>,
    pub output: Seq<char>,
    pub action: Action,
}

impl View for Reaction {
    type V = ReactionView;

    open spec fn view(&self) -> ReactionView {
        ReactionView {
            notices: notice_views(self.notices@),
            output: self.output@,
            action: self.action,
        }
    }
}

/// The trace of a reply, where traces are asked for.
pub open spec fn dump_remark(config: Config, packet: Packet, bytes: Seq<u8>) -> Seq<NoticeView> {
    if config.dump {
        seq![NoticeView::Dump { packet, bytes }]
    } else {
        seq![]
    }
}

/// The word that the run stays, where it is to stay until the unit is taken
/// out.
pub open spec fn removal_remark(config: Config) -> Seq<NoticeView> {
    if config.wait_remove {
        seq![NoticeView::WaitingForRemoval]
    } else {
        seq![]
    }
}

/// The reason that stands for a transport error of the given kind.
pub open spec fn transport_reason(kind: ErrorKind) -> AbortReason {
    match kind {
        ErrorKind::Timeout => AbortReason::TransportTimeout,
        ErrorKind::Other => AbortReason::TransportError,
    }
}

/// The state of a run.
#[derive(Clone, Copy, Debug, PartialEq, Eq, Structural)]
pub struct Engine {
    /// The options of the run.
    pub config: Config,
    /// Where the run stands.
    pub phase: Phase,
    /// Whether the operator has been told that the cradle is empty.
    pub announced: bool,
}

impl Engine {
    /// The state in which a run begins: the command of the channel probe is
    /// being sent.
    pub open spec fn initial(config: Config) -> Engine {
        Engine {
            config,
            phase: Phase::Running { stage: Stage::Probe, pending: Pending::Write },
            announced: false,
        }
    }

    /// The action with which a run begins.
    pub open spec fn first_action() -> Action {
        Action::Write { command: Command::Poll, timeout_ms: SHORT_TIMEOUT_MS }
    }

    /// The state with another phase.
    pub open spec fn at(self, phase: Phase) -> Engine {
        Engine { phase, ..self }
    }

    /// Entering a stage: its command is sent.
    pub open spec fn entering(self, stage: Stage, notices: Seq<NoticeView>, output: Seq<char>) -> (
        Engine,
        ReactionView,
    ) {
        (
            self.at(Phase::Running { stage, pending: Pending::Write }),
            ReactionView {
                notices,
                output,
                action: Action::Write {
                    command: stage.command(),
                    timeout_ms: stage.write_timeout(),
                },
            },
        )
    }

    /// Pausing before the stage's next poll.
    pub open spec fn pausing(self, stage: Stage, notices: Seq<NoticeView>) -> (
        Engine,
        ReactionView,
    ) {
        (
            Engine {
                phase: Phase::Running { stage, pending: Pending::Sleep },
                announced: self.announced || stage is WaitForUnit,
                ..self
            },
            ReactionView {
                notices,
                output: Seq::empty(),
                action: Action::Sleep { ms: SHORT_TIMEOUT_MS },
            },
        )
    }

    /// Ending the run.
    pub open spec fn ending(self, outcome: RunOutcome, notices: Seq<NoticeView>) -> (
        Engine,
        ReactionView,
    ) {
        (
            self.at(Phase::Finished { outcome }),
            ReactionView { notices, output: Seq::empty(), action: Action::Finish { outcome } },
        )
    }

    /// Ending the run for the given reason.
    pub open spec fn aborting(self, reason: AbortReason, notice: NoticeView) -> (
        Engine,
        ReactionView,
    ) {
        self.ending(RunOutcome::Aborted { reason }, seq![notice])
    }

    /// What follows a transport error while the command of `stage` was being
    /// sent or its reply read. Only a timeout in the channel probe is
    /// survived: the channel is reset.
    pub open spec fn after_failure(
        self,
        stage: Stage,
        pending: Pending,
        kind: ErrorKind,
        description: Seq<char>,
    ) -> (Engine, ReactionView) {
        if stage is Probe && kind is Timeout && (pending is Write || pending is Read) {
            (
                self.at(Phase::Running { stage: Stage::Probe, pending: Pending::Reset }),
                ReactionView {
                    notices: seq![NoticeView::ResettingChannel],
                    output: Seq::empty(),
                    action: Action::Reset,
                },
            )
        } else {
            let operation = match (stage, pending) {
                (Stage::Probe, Pending::Write) => Operation::ProbeWrite,
                (Stage::Probe, Pending::Read) => Operation::ProbeRead,
                (_, Pending::Read) => Operation::BulkTransfer,
                _ => Operation::Usb,
            };
            self.aborting(transport_reason(kind), NoticeView::Failure { operation, description })
        }
    }

    /// What follows a reply to the command of `stage` that has not the length
    /// that the command calls for.
    pub open spec fn after_wrong_length(self, stage: Stage, got: nat) -> (Engine, ReactionView) {
        let notice = if stage is Probe {
            NoticeView::ProbeLength { got: got as usize }
        } else {
            NoticeView::LengthMismatch {
                expected: stage.command().reply_len() as usize,
                got: got as usize,
            }
        };
        self.aborting(AbortReason::LengthMismatch, notice)
    }

    /// What follows the reply to the command of `stage`, which has the
    /// length that the command calls for.
    pub open spec fn after_reply(self, stage: Stage, bytes: Seq<u8>) -> (Engine, ReactionView) {
        let config = self.config;
        match stage {
            Stage::Probe => self.entering(Stage::WaitForUnit, seq![], Seq::empty()),
            Stage::WaitForUnit => if bytes[0] == 1 {
                self.entering(Stage::Identify, seq![NoticeView::UnitFound], Seq::empty())
            } else {
                self.pausing(
                    Stage::WaitForUnit,
                    if self.announced {
                        seq![]
                    } else {
                        seq![NoticeView::CradleEmpty]
                    },
                )
            },
            Stage::Identify => {
                let reply = IdentifyReply::of(bytes);
                let notices = dump_remark(config, Packet::Identification, bytes)
                    + reply.remarks();
                if reply.kind() is Absent {
                    self.ending(
                        RunOutcome::Aborted { reason: AbortReason::UnknownUnit },
                        notices,
                    )
                } else {
                    self.entering(Stage::Fetch, notices, Seq::empty())
                }
            },
            Stage::Fetch => {
                let reply = TelemetryReply::of(bytes);
                let output = reply.converted(Conversion::standard(config)).text(
                    config,
                    distance_unit_text(config),
                    speed_unit_text(config),
                );
                let notices = dump_remark(config, Packet::Data, bytes) + reply.remarks();
                if config.clear {
                    self.entering(Stage::ClearCounters, notices, output)
                } else {
                    self.entering(Stage::Removal, notices + removal_remark(config), output)
                }
            },
            Stage::ClearCounters => if bytes[0] != 0 {
                self.aborting(
                    AbortReason::CounterClearFailure,
                    NoticeView::ClearFailed { code: bytes[0] },
                )
            } else {
                self.entering(
                    Stage::Removal,
                    seq![NoticeView::CountersCleared] + removal_remark(config),
                    Seq::empty(),
                )
            },
            Stage::Removal => if !config.wait_remove {
                self.ending(RunOutcome::Completed, seq![])
            } else if bytes[0] == 0 {
                self.ending(RunOutcome::Completed, seq![NoticeView::UnitRemoved])
            } else {
                self.pausing(Stage::Removal, seq![])
            },
        }
    }

    /// The step of a run: the state and the reaction that follow when, in
    /// this state, the transport reports `event`.
    pub open spec fn transition(self, event: EventView) -> (Engine, ReactionView) {
        match self.phase {
            Phase::Finished { outcome } => (
                self,
                ReactionView {
                    notices: seq![],
                    output: Seq::empty(),
                    action: Action::Finish { outcome },
                },
            ),
            Phase::Running { stage, pending } => match (pending, event) {
                (Pending::Write, EventView::Written) => (
                    self.at(Phase::Running { stage, pending: Pending::Read }),
                    ReactionView {
                        notices: seq![],
                        output: Seq::empty(),
                        action: Action::Read {
                            capacity: REPLY_CAPACITY,
                            timeout_ms: stage.read_timeout(),
                        },
                    },
                ),
                (Pending::Read, EventView::Received { bytes }) => if bytes.len()
                    == stage.command().reply_len() {
                    self.after_reply(stage, bytes)
                } else {
                    self.after_wrong_length(stage, bytes.len())
                },
                (Pending::Reset, EventView::ResetDone) => if stage is Probe {
                    self.entering(Stage::WaitForUnit, seq![], Seq::empty())
                } else {
                    self.aborting(AbortReason::OutOfSequence, NoticeView::OutOfSequence)
                },
                (Pending::Sleep, EventView::Slept) => if stage is WaitForUnit
                    || stage is Removal {
                    self.entering(stage, seq![], Seq::empty())
                } else {
                    self.aborting(AbortReason::OutOfSequence, NoticeView::OutOfSequence)
                },
                (Pending::Sleep, EventView::Failed { .. }) => self.aborting(
                    AbortReason::OutOfSequence,
                    NoticeView::OutOfSequence,
                ),
                (_, EventView::Failed { kind, description }) => self.after_failure(
                    stage,
                    pending,
                    kind,
                    description,
                ),
                _ => self.aborting(AbortReason::OutOfSequence, NoticeView::OutOfSequence),
            },
        }
    }
}

/// The list of one notice.
fn single(notice: Notice) -> (notices: Vec<Notice>)
    ensures
        notice_views(notices@) == seq![notice@],
{
    let mut notices: Vec<Notice> = Vec::new();
    notices.push(notice);
    assert(notice_views(notices@) =~= seq![notice@]);
    notices
}

/// The empty list of notices.
fn silent() -> (notices: Vec<Notice>)
    ensures
        notice_views(notices@) == Seq::<NoticeView>::empty(),
{
    let notices: Vec<Notice> = Vec::new();
    assert(notice_views(notices@) =~= Seq::<NoticeView>::empty());
    notices
}

/// Adds to `notices` the word that the run stays, where it is to stay until
/// the unit is taken out.
fn push_removal_remark(notices: &mut Vec<Notice>, config: &Config)
    ensures
        notice_views(final(notices)@) == notice_views(old(notices)@) + removal_remark(*config),
{
    if config.wait_remove {
        notices.push(Notice::WaitingForRemoval);
    }
    assert(notice_views(notices@) =~= notice_views(old(notices)@) + removal_remark(*config));
}

/// The trace of a reply, where traces are asked for, followed by `remarks`.
fn with_dump(config: &Config, packet: Packet, bytes: Vec<u8>, remarks: Vec<Notice>) -> (notices:
    Vec<Notice>)
    ensures
        notice_views(notices@) == dump_remark(*config, packet, bytes@) + notice_views(remarks@),
{
    let mut notices: Vec<Notice> = Vec::new();
    if config.dump {
        notices.push(Notice::Dump { packet, bytes });
    }
    let mut rest = remarks;
    notices.append(&mut rest);
    assert(notice_views(notices@) =~= dump_remark(*config, packet, bytes@) + notice_views(
        remarks@,
    ));
    notices
}

impl Engine {
    /// Begins a run: gives its first state and the action to begin with.
    pub fn start(config: Config) -> (begun: (Engine, Action))
        ensures
            begun.0 == Engine::initial(config),
            begun.1 == Engine::first_action(),
    {
        (
            Engine {
                config,
                phase: Phase::Running { stage: Stage::Probe, pending: Pending::Write },
                announced: false,
            },
            Action::Write { command: Command::Poll, timeout_ms: SHORT_TIMEOUT_MS },
        )
    }

    /// Whether the run has ended, and how.
    pub fn outcome(&self) -> (outcome: Option<RunOutcome>)
        ensures
            outcome == match self.phase {
                Phase::Finished { outcome } => Some(outcome),
                Phase::Running { .. } => None::<RunOutcome>,
            },
    {
        match self.phase {
            Phase::Finished { outcome } => Some(outcome),
            Phase::Running { .. } => None,
        }
    }

    /// Enters a stage.
    fn enter(&mut self, stage: Stage, notices: Vec<Notice>, output: String) -> (reaction: Reaction)
        ensures
            (*final(self), reaction@) == old(self).entering(
                stage,
                notice_views(notices@),
                output@,
            ),
    {
        self.phase = Phase::Running { stage, pending: Pending::Write };
        Reaction { notices, output, action: stage.send() }
    }

    /// Pauses before the stage's next poll.
    fn pause(&mut self, stage: Stage, notices: Vec<Notice>) -> (reaction: Reaction)
        ensures
            (*final(self), reaction@) == old(self).pausing(stage, notice_views(notices@)),
    {
        self.phase = Phase::Running { stage, pending: Pending::Sleep };
        match stage {
            Stage::WaitForUnit => {
                self.announced = true;
            },
            _ => {},
        }
        Reaction {
            notices,
            output: String::new(),
            action: Action::Sleep { ms: SHORT_TIMEOUT_MS },
        }
    }

    /// Ends the run.
    fn end(&mut self, outcome: RunOutcome, notices: Vec<Notice>) -> (reaction: Reaction)
        ensures
            (*final(self), reaction@) == old(self).ending(outcome, notice_views(notices@)),
    {
        self.phase = Phase::Finished { outcome };
        Reaction { notices, output: String::new(), action: Action::Finish { outcome } }
    }

    /// Ends the run for the given reason.
    fn abort(&mut self, reason: AbortReason, notice: Notice) -> (reaction: Reaction)
        ensures
            (*final(self), reaction@) == old(self).aborting(reason, notice@),
    {
        self.end(RunOutcome::Aborted { reason }, single(notice))
    }

    /// Ends the run on an event that the protocol was not waiting for.
    fn out_of_sequence(&mut self) -> (reaction: Reaction)
        ensures
            (*final(self), reaction@) == old(self).aborting(
                AbortReason::OutOfSequence,
                NoticeView::OutOfSequence,
            ),
    {
        self.abort(AbortReason::OutOfSequence, Notice::OutOfSequence)
    }

    /// Reacts to a transport error.
    fn on_failure(&mut self, stage: Stage, pending: Pending, kind: ErrorKind, description: String)
        -> (reaction: Reaction)
        ensures
            (*final(self), reaction@) == old(self).after_failure(
                stage,
                pending,
                kind,
                description@,
            ),
    {
        let in_probe = match (stage, pending) {
            (Stage::Probe, Pending::Write) | (Stage::Probe, Pending::Read) => true,
            _ => false,
        };
        let timeout = match kind {
            ErrorKind::Timeout => true,
            ErrorKind::Other => false,
        };
        if in_probe && timeout {
            self.phase = Phase::Running { stage: Stage::Probe, pending: Pending::Reset };
            Reaction {
                notices: single(Notice::ResettingChannel),
                output: String::new(),
                action: Action::Reset,
            }
        } else {
            let operation = match (stage, pending) {
                (Stage::Probe, Pending::Write) => Operation::ProbeWrite,
                (Stage::Probe, Pending::Read) => Operation::ProbeRead,
                (_, Pending::Read) => Operation::BulkTransfer,
                _ => Operation::Usb,
            };
            let reason = if timeout {
                AbortReason::TransportTimeout
            } else {
                AbortReason::TransportError
            };
            self.abort(reason, Notice::Failure { operation, description })
        }
    }

    /// Reacts to a reply of the wrong length.
    fn on_wrong_length(&mut self, stage: Stage, got: usize) -> (reaction: Reaction)
        ensures
            (*final(self), reaction@) == old(self).after_wrong_length(stage, got as nat),
    {
        let notice = match stage {
            Stage::Probe => Notice::ProbeLength { got },
            _ => Notice::LengthMismatch { expected: stage.stage_command().expected_reply(), got },
        };
        self.abort(AbortReason::LengthMismatch, notice)
    }

    /// Reacts to the identification reply.
    fn on_identification(&mut self, bytes: Vec<u8>) -> (reaction: Reaction)
        requires
            bytes@.len() == 11,
        ensures
            (*final(self), reaction@) == old(self).after_reply(Stage::Identify, bytes@),
    {
        let reply = IdentifyReply::parse(bytes.as_slice()).unwrap();
        let config = self.config;
        let notices = with_dump(&config, Packet::Identification, bytes, reply.notices());
        match reply.unit_kind() {
            UnitKind::Absent => self.end(
                RunOutcome::Aborted { reason: AbortReason::UnknownUnit },
                notices,
            ),
            _ => self.enter(Stage::Fetch, notices, String::new()),
        }
    }

    /// Reacts to the data reply.
    fn on_telemetry(&mut self, bytes: Vec<u8>) -> (reaction: Reaction)
        requires
            bytes@.len() == 27,
        ensures
            (*final(self), reaction@) == old(self).after_reply(Stage::Fetch, bytes@),
    {
        let reply = TelemetryReply::parse(bytes.as_slice()).unwrap();
        let config = self.config;
        let factor = conversion(&config);
        let decoded = decode_reply(
            &reply,
            &config,
            distance_unit(&config),
            speed_unit(&config),
            &factor,
        );
        let mut notices = with_dump(&config, Packet::Data, bytes, decoded.notices);
        if config.clear {
            self.enter(Stage::ClearCounters, notices, decoded.text)
        } else {
            push_removal_remark(&mut notices, &config);
            self.enter(Stage::Removal, notices, decoded.text)
        }
    }

    /// Reacts to a reply.
    fn on_reply(&mut self, stage: Stage, bytes: Vec<u8>) -> (reaction: Reaction)
        ensures
            (*final(self), reaction@) == if bytes@.len() == stage.command().reply_len() {
                old(self).after_reply(stage, bytes@)
            } else {
                old(self).after_wrong_length(stage, bytes@.len())
            },
    {
        let got: usize = bytes.len();
        if got != stage.stage_command().expected_reply() {
            return self.on_wrong_length(stage, got);
        }
        let config = self.config;
        match stage {
            Stage::Probe => self.enter(Stage::WaitForUnit, silent(), String::new()),
            Stage::WaitForUnit => {
                if bytes[0] == 1 {
                    self.enter(Stage::Identify, single(Notice::UnitFound), String::new())
                } else {
                    let notices = if self.announced {
                        silent()
                    } else {
                        single(Notice::CradleEmpty)
                    };
                    self.pause(Stage::WaitForUnit, notices)
                }
            },
            Stage::Identify => self.on_identification(bytes),
            Stage::Fetch => self.on_telemetry(bytes),
            Stage::ClearCounters => {
                let code: u8 = bytes[0];
                if code != 0 {
                    self.abort(AbortReason::CounterClearFailure, Notice::ClearFailed { code })
                } else {
                    let mut notices = single(Notice::CountersCleared);
                    push_removal_remark(&mut notices, &config);
                    self.enter(Stage::Removal, notices, String::new())
                }
            },
            Stage::Removal => {
                if !config.wait_remove {
                    self.end(RunOutcome::Completed, silent())
                } else if bytes[0] == 0 {
                    self.end(RunOutcome::Completed, single(Notice::UnitRemoved))
                } else {
                    self.pause(Stage::Removal, silent())
                }
            },
        }
    }

    /// Takes the run one step on: told what the transport did, says what to
    /// tell the operator, what to put out, and what the transport is to do
    /// next. Once the run has ended, every step repeats how it ended.
    pub fn step(&mut self, event: Event) -> (reaction: Reaction)
        ensures
            (*final(self), reaction@) == old(self).transition(event@),
    {
        match self.phase {
            Phase::Finished { outcome } => Reaction {
                notices: silent(),
                output: String::new(),
                action: Action::Finish { outcome },
            },
            Phase::Running { stage, pending } => match (pending, event) {
                (Pending::Write, Event::Written) => {
                    self.phase = Phase::Running { stage, pending: Pending::Read };
                    Reaction { notices: silent(), output: String::new(), action: stage.receive() }
                },
                (Pending::Read, Event::Received { bytes }) => self.on_reply(stage, bytes),
                (Pending::Reset, Event::ResetDone) => match stage {
                    Stage::Probe => self.enter(Stage::WaitForUnit, silent(), String::new()),
                    _ => self.out_of_sequence(),
                },
                (Pending::Sleep, Event::Slept) => match stage {
                    Stage::WaitForUnit | Stage::Removal => self.enter(
                        stage,
                        silent(),
                        String::new(),
                    ),
                    _ => self.out_of_sequence(),
                },
                (Pending::Sleep, Event::Failed { .. }) => self.out_of_sequence(),
                (_, Event::Failed { kind, description }) => self.on_failure(
                    stage,
                    pending,
                    kind,
                    description,
                ),
                _ => self.out_of_sequence(),
            },
        }
    }
}

} // verus!
