//! One cycle after another: read the sensor, show the reading, store it.
//!
//! The poller decides and does nothing else. Each turn it is told what happened and
//! answers with what is to be done next; doing it, and waiting for it, is the host's
//! part. A failure ends the cycle that it happens in, and only that cycle.

use crate::decimal::{parsed, ParseError};
use crate::error::Error;
use crate::model::{InsertError, InsertOutcome, InsertStep, Insertion, NewTemperature, Temperature};
use crate::pi::{
    after, read_to_string, Command, FileMode, FileRequest, Stage, Step, Transfer, TransferStep,
};
use crate::segment_display::{codes, Overflow, SegmentDisplay};
use crate::sensor::{
    first_line, format_reading, parse_reading, reading_fills_display, reading_text, whole_text,
    READ_MAX,
};
use crate::shift_register::{ShiftRegister, Wiring};
use vstd::prelude::*;

verus! {

/// Why a cycle ended early.
#[derive(Debug)]
pub enum Failure {
    /// The daemon reported a failure.
    Daemon(Error),
    /// The sensor's file does not hold a reading.
    Sensor(ParseError),
    /// The reading does not fit the display.
    Display(Overflow),
    /// The store did not take the reading.
    Store(InsertError),
    /// The host reported something that the poller had not asked for.
    Unexpected,
}

/// What the host reports to the poller.
#[derive(Debug)]
pub enum Event<'d> {
    /// A cycle may begin.
    Begin,
    /// The daemon replied to the request or command sent last, with this status and,
    /// to a read, these bytes.
    Reply { status: i32, data: &'d [u8] },
    /// The store answered an insert.
    Inserted(InsertOutcome),
    /// The wait is over.
    Woke,
    /// The row was reported.
    Reported,
}

/// What the poller asks of the host.
#[derive(Debug)]
pub enum Action<'p> {
    /// Send the request to the daemon and report its reply.
    File(FileRequest<'p>),
    /// Send the command to the daemon and report its reply.
    Pin(Command),
    /// Insert the row into the store and report the answer.
    Insert(NewTemperature),
    /// Wait for so many seconds and report that the wait is over.
    Sleep(u64),
    /// Report the stored row to the user and say so.
    Report(Temperature),
    /// Nothing is left to do.
    Done,
    /// The cycle failed. Another may begin.
    Fail(Failure),
}

/// An event, with its bytes as a sequence.
pub enum Input {
    Begin,
    Reply { status: i32, data: Seq<u8> },
    Inserted(InsertOutcome),
    Woke,
    Reported,
}

impl<'d> Event<'d> {
    /// The event, with its bytes as a sequence.
    pub open spec fn view(self) -> Input {
        match self {
            Event::Begin => Input::Begin,
            Event::Reply { status, data } => Input::Reply { status, data: data@ },
            Event::Inserted(outcome) => Input::Inserted(outcome),
            Event::Woke => Input::Woke,
            Event::Reported => Input::Reported,
        }
    }
}

/// Where a poller stands.
pub enum Phase {
    /// Between cycles.
    Idle,
    /// The sensor's file is being read.
    Reading(Stage),
    /// The reading, so many thousandths of a degree, is being shown: the command sent
    /// last awaits its reply, and `rest` is still to be sent.
    Displaying { milli: i64, rest: Seq<Command> },
    /// The reading is being inserted.
    Persisting(Insertion),
    /// The insert met a conflict, and the retry waits.
    Sleeping(Insertion),
    /// The stored row is being reported.
    Reporting,
    /// All cycles asked for are over.
    Done,
}

/// What a poller works with: the chain of the display, its number of positions, and
/// the sensor's file.
pub struct Setting<'p> {
    pub wiring: Wiring,
    pub positions: nat,
    pub path: &'p str,
}

/// What a turn comes to: where the poller stands afterwards, how many cycles are left
/// to it, and what it asks of the host.
pub struct Turn<'p> {
    pub phase: Phase,
    pub remaining: Option<usize>,
    pub action: Action<'p>,
}

impl<'p> Setting<'p> {
    /// The file request that `stage` calls for.
    pub open spec fn request_at(self, stage: Stage) -> FileRequest<'p> {
        match stage {
            Stage::Opening => FileRequest::Open {
                pi: self.wiring.pi,
                path: self.path,
                mode: FileMode::Read,
            },
            Stage::Reading { handle } => FileRequest::Read {
                pi: self.wiring.pi,
                handle,
                count: READ_MAX,
            },
            Stage::Closing { handle, .. } => FileRequest::Close { pi: self.wiring.pi, handle },
        }
    }

    /// The beginning of a cycle, with `remaining` cycles left: the sensor's file is
    /// opened, unless no cycle is left.
    pub open spec fn begin(self, remaining: Option<usize>) -> Turn<'p> {
        if remaining == Some(0usize) {
            Turn { phase: Phase::Done, remaining, action: Action::Done }
        } else {
            Turn {
                phase: Phase::Reading(Stage::Opening),
                remaining,
                action: Action::File(self.request_at(Stage::Opening)),
            }
        }
    }

    /// The commands that show a reading on the display: its codes shifted in and
    /// latched.
    pub open spec fn plan(self, milli: i64) -> Seq<Command> {
        self.wiring.write(codes(reading_text(milli as int, self.positions)->Ok_0))
    }

    /// What follows the content of the sensor's file: the first of the commands that
    /// show the reading, or the failure of the cycle where the content holds no reading
    /// or the reading's whole degrees are too long for the display.
    pub open spec fn show(self, remaining: Option<usize>, content: Seq<u8>) -> Turn<'p> {
        match parsed(first_line(content)) {
            Err(e) => Turn { phase: Phase::Idle, remaining, action: Action::Fail(Failure::Sensor(e)) },
            Ok(milli) => match reading_text(milli as int, self.positions) {
                Err(overflow) => Turn {
                    phase: Phase::Idle,
                    remaining,
                    action: Action::Fail(Failure::Display(overflow)),
                },
                Ok(text) => Turn {
                    phase: Phase::Displaying { milli, rest: self.plan(milli).drop_first() },
                    remaining,
                    action: Action::Pin(self.plan(milli).first()),
                },
            },
        }
    }

    /// How many cycles are left after one more is over.
    pub open spec fn left(remaining: Option<usize>) -> Option<usize> {
        match remaining {
            Some(n) => if n > 0 {
                Some((n - 1) as usize)
            } else {
                Some(0usize)
            },
            None => None,
        }
    }

    /// What the turn comes to in which the host reports `input` to a poller at `phase`
    /// with `remaining` cycles left.
    pub open spec fn next(self, remaining: Option<usize>, phase: Phase, input: Input) -> Turn<'p> {
        match (phase, input) {
            (Phase::Done, _) => Turn { phase: Phase::Done, remaining, action: Action::Done },
            (Phase::Idle, Input::Begin) => self.begin(remaining),
            (Phase::Reading(stage), Input::Reply { status, data }) => match after(
                stage,
                status,
                data,
            ) {
                Step::Continue(stage) => Turn {
                    phase: Phase::Reading(stage),
                    remaining,
                    action: Action::File(self.request_at(stage)),
                },
                Step::Finished(Err(e)) => Turn {
                    phase: Phase::Idle,
                    remaining,
                    action: Action::Fail(Failure::Daemon(e)),
                },
                Step::Finished(Ok(content)) => self.show(remaining, content),
            },
            (Phase::Displaying { milli, rest }, Input::Reply { status, data }) => if status < 0 {
                Turn {
                    phase: Phase::Idle,
                    remaining,
                    action: Action::Fail(Failure::Daemon(Error::Pi(status))),
                }
            } else if rest.len() > 0 {
                Turn {
                    phase: Phase::Displaying { milli, rest: rest.drop_first() },
                    remaining,
                    action: Action::Pin(rest.first()),
                }
            } else {
                Turn {
                    phase: Phase::Persisting(NewTemperature::of(milli).first_attempt()),
                    remaining,
                    action: Action::Insert(NewTemperature::of(milli)),
                }
            },
            (Phase::Persisting(insertion), Input::Inserted(outcome)) => match insertion.after(
                outcome,
            ) {
                InsertStep::Stored(row) => Turn {
                    phase: Phase::Reporting,
                    remaining,
                    action: Action::Report(row),
                },
                InsertStep::Retry { seconds, insertion } => Turn {
                    phase: Phase::Sleeping(insertion),
                    remaining,
                    action: Action::Sleep(seconds),
                },
                InsertStep::Failed(e) => Turn {
                    phase: Phase::Idle,
                    remaining,
                    action: Action::Fail(Failure::Store(e)),
                },
            },
            (Phase::Sleeping(insertion), Input::Woke) => Turn {
                phase: Phase::Persisting(insertion),
                remaining,
                action: Action::Insert(insertion.pending()),
            },
            (Phase::Reporting, Input::Reported) => self.begin(Self::left(remaining)),
            _ => Turn { phase: Phase::Idle, remaining, action: Action::Fail(Failure::Unexpected) },
        }
    }
}

enum State<'a, 'p> {
    Idle,
    Reading(Transfer<'a, 'p>),
    Displaying { milli: i64, plan: Vec<Command>, sent: usize },
    Persisting(Insertion),
    Sleeping(Insertion),
    Reporting,
    Done,
}

/// The loop that reads the sensor, shows the reading on a display of `N` positions and
/// stores it, cycle after cycle.
pub struct Poller<'a, 'p, const N: usize> {
    register: &'a ShiftRegister<'a, N>,
    path: &'p str,
    remaining: Option<usize>,
    state: State<'a, 'p>,
}

impl<'a, 'p, const N: usize> Poller<'a, 'p, N> {
    #[verifier::type_invariant]
    spec fn in_order(self) -> bool {
        match self.state {
            State::Reading(transfer) => {
                &&& transfer.session() == self.register.wiring().pi
                &&& transfer.path() == self.path
                &&& transfer.count() == READ_MAX
            },
            State::Displaying { plan, sent, .. } => sent <= plan.len(),
            _ => true,
        }
    }

    /// What the poller works with.
    pub closed spec fn setting(self) -> Setting<'p> {
        Setting { wiring: self.register.wiring(), positions: N as nat, path: self.path }
    }

    /// How many cycles are left; `None` for no end.
    pub closed spec fn remaining(self) -> Option<usize> {
        self.remaining
    }

    /// Where the poller stands.
    pub closed spec fn phase(self) -> Phase {
        match self.state {
            State::Idle => Phase::Idle,
            State::Reading(transfer) => Phase::Reading(transfer.stage()),
            State::Displaying { milli, plan, sent } => Phase::Displaying {
                milli,
                rest: plan@.skip(sent as int),
            },
            State::Persisting(insertion) => Phase::Persisting(insertion),
            State::Sleeping(insertion) => Phase::Sleeping(insertion),
            State::Reporting => Phase::Reporting,
            State::Done => Phase::Done,
        }
    }

    /// A poller between cycles, for the display on `register` and the sensor's file at
    /// `path`, with `count` cycles to run or, for `None`, no end.
    pub fn new(register: &'a ShiftRegister<'a, N>, path: &'p str, count: Option<usize>) -> (poller:
        Self)
        ensures
            poller.phase() == Phase::Idle,
            poller.remaining() == count,
            poller.setting() == (Setting {
                wiring: register.wiring(),
                positions: N as nat,
                path,
            }),
    {
        Poller { register, path, remaining: count, state: State::Idle }
    }

    fn begin(register: &'a ShiftRegister<'a, N>, path: &'p str, remaining: Option<usize>) -> (turn: (
        Self,
        Action<'p>,
    ))
        ensures
            turn.0.setting() == (Setting {
                wiring: register.wiring(),
                positions: N as nat,
                path,
            }),
            (Turn { phase: turn.0.phase(), remaining: turn.0.remaining(), action: turn.1 })
                == turn.0.setting().begin(remaining),
    {
        match remaining {
            Some(0) => (Poller { register, path, remaining, state: State::Done }, Action::Done),
            _ => {
                let transfer = read_to_string(register.pi(), path, READ_MAX);
                let request = transfer.request();
                (
                    Poller { register, path, remaining, state: State::Reading(transfer) },
                    Action::File(request),
                )
            },
        }
    }

    fn show(
        register: &'a ShiftRegister<'a, N>,
        path: &'p str,
        remaining: Option<usize>,
        content: &Vec<u8>,
    ) -> (turn: (Self, Action<'p>))
        ensures
            turn.0.setting() == (Setting {
                wiring: register.wiring(),
                positions: N as nat,
                path,
            }),
            (Turn { phase: turn.0.phase(), remaining: turn.0.remaining(), action: turn.1 })
                == turn.0.setting().show(remaining, content@),
    {
        let idle = Poller { register, path, remaining, state: State::Idle };
        let milli = match parse_reading(content.as_slice()) {
            Ok(milli) => milli,
            Err(e) => {
                return (idle, Action::Fail(Failure::Sensor(e)));
            },
        };
        let text = match format_reading(milli, N) {
            Ok(text) => text,
            Err(overflow) => {
                return (idle, Action::Fail(Failure::Display(overflow)));
            },
        };
        proof {
            reading_fills_display(milli as int, N as nat);
        }
        match register.write(text.as_str()) {
            Ok(plan) => {
                let first = plan[0];
                (
                    Poller {
                        register,
                        path,
                        remaining,
                        state: State::Displaying { milli, plan, sent: 1 },
                    },
                    Action::Pin(first),
                )
            },
            Err(overflow) => (idle, Action::Fail(Failure::Display(overflow))),
        }
    }

    /// Takes what the host reports and answers with what is to be done next.
    pub fn step(self, event: Event<'_>) -> (turn: (Self, Action<'p>))
        ensures
            turn.0.setting() == self.setting(),
            (Turn { phase: turn.0.phase(), remaining: turn.0.remaining(), action: turn.1 })
                == self.setting().next(self.remaining(), self.phase(), event@),
    {
        proof {
            use_type_invariant(&self);
        }
        let Poller { register, path, remaining, state } = self;
        match (state, event) {
            (State::Done, _) => (
                Poller { register, path, remaining, state: State::Done },
                Action::Done,
            ),
            (State::Idle, Event::Begin) => Self::begin(register, path, remaining),
            (State::Reading(transfer), Event::Reply { status, data }) => match transfer.advance(
                status,
                data,
            ) {
                TransferStep::Continue(transfer) => {
                    let request = transfer.request();
                    (
                        Poller { register, path, remaining, state: State::Reading(transfer) },
                        Action::File(request),
                    )
                },
                TransferStep::Finished(Err(e)) => (
                    Poller { register, path, remaining, state: State::Idle },
                    Action::Fail(Failure::Daemon(e)),
                ),
                TransferStep::Finished(Ok(content)) => Self::show(
                    register,
                    path,
                    remaining,
                    &content,
                ),
            },
            (State::Displaying { milli, plan, sent }, Event::Reply { status, data }) => {
                if status < 0 {
                    (
                        Poller { register, path, remaining, state: State::Idle },
                        Action::Fail(Failure::Daemon(Error::from_raw_pi_error(status))),
                    )
                } else if sent < plan.len() {
                    let command = plan[sent];
                    assert(plan@.skip(sent + 1) =~= plan@.skip(sent as int).drop_first());
                    (
                        Poller {
                            register,
                            path,
                            remaining,
                            state: State::Displaying { milli, plan, sent: sent + 1 },
                        },
                        Action::Pin(command),
                    )
                } else {
                    let row = NewTemperature::from(milli);
                    (
                        Poller {
                            register,
                            path,
                            remaining,
                            state: State::Persisting(row.try_insert()),
                        },
                        Action::Insert(row),
                    )
                }
            },
            (State::Persisting(insertion), Event::Inserted(outcome)) => match insertion.advance(
                outcome,
            ) {
                InsertStep::Stored(row) => (
                    Poller { register, path, remaining, state: State::Reporting },
                    Action::Report(row),
                ),
                InsertStep::Retry { seconds, insertion } => (
                    Poller { register, path, remaining, state: State::Sleeping(insertion) },
                    Action::Sleep(seconds),
                ),
                InsertStep::Failed(e) => (
                    Poller { register, path, remaining, state: State::Idle },
                    Action::Fail(Failure::Store(e)),
                ),
            },
            (State::Sleeping(insertion), Event::Woke) => {
                let row = insertion.row();
                (
                    Poller { register, path, remaining, state: State::Persisting(insertion) },
                    Action::Insert(row),
                )
            },
            (State::Reporting, Event::Reported) => {
                let left = match remaining {
                    Some(n) => if n > 0 {
                        Some(n - 1)
                    } else {
                        Some(0)
                    },
                    None => None,
                };
                Self::begin(register, path, left)
            },
            _ => (
                Poller { register, path, remaining, state: State::Idle },
                Action::Fail(Failure::Unexpected),
            ),
        }
    }
}

/// A sensor's file that cannot be opened ends the cycle at once: the turn fails with
/// the daemon's status, classified by its kind, and leaves the poller between cycles,
/// where nothing but the beginning of another cycle asks anything of the daemon or the
/// store.
pub proof fn failed_open_ends_cycle(
    setting: Setting<'_>,
    remaining: Option<usize>,
    status: i32,
    data: Seq<u8>,
    later: Input,
)
    requires
        status < 0,
    ensures
        setting.next(remaining, Phase::Reading(Stage::Opening), Input::Reply { status, data })
            == (Turn {
            phase: Phase::Idle,
            remaining,
            action: Action::Fail(Failure::Daemon(Error::Pi(status))),
        }),
        Error::Pi(status).kind_of() == crate::error::ErrorKind::of_code(status),
        later != Input::Begin ==> setting.next(remaining, Phase::Idle, later).action == Action::Fail(
            Failure::Unexpected,
        ),
{
}

/// The display is driven only with a reading that was just read, command by command
/// for as long as the daemon grants them; the store is asked to insert only a reading
/// whose last command was just granted, or one whose retry has waited; and nothing
/// waits but a first insert that met a conflict.
pub proof fn shown_before_stored(
    setting: Setting<'_>,
    remaining: Option<usize>,
    phase: Phase,
    input: Input,
)
    ensures
        setting.next(remaining, phase, input).action is Pin ==> input is Reply && ((phase
            matches Phase::Reading(Stage::Closing { outcome, .. }) && outcome is Ok) || (phase
            matches Phase::Displaying { rest, .. } && rest.len() > 0 && input->status >= 0)),
        setting.next(remaining, phase, input).action is Insert ==> ((phase matches Phase::Displaying {
            rest,
            ..
        } && rest.len() == 0 && input is Reply && input->status >= 0) || (phase is Sleeping
            && input == Input::Woke)),
        setting.next(remaining, phase, input).action is Sleep ==> (phase matches Phase::Persisting(
            insertion,
        ) && !insertion.has_retried() && input == Input::Inserted(InsertOutcome::Conflict)),
{
    if let Phase::Persisting(insertion) = phase {
        if let Input::Inserted(outcome) = input {
            if insertion.has_retried() {
                crate::model::no_second_retry(insertion, outcome);
            } else {
                crate::model::at_most_one_retry(insertion, outcome, outcome);
            }
        }
    }
}

/// A reading whose whole degrees fit the display is shown in full width: once the
/// sensor's file is closed, the commands that shift in one code for every position of
/// the display, and latch them, go out one by one, each upon the grant of the one
/// before, and the first refusal ends the cycle with the daemon's status.
pub proof fn fitting_reading_is_shown(
    setting: Setting<'_>,
    remaining: Option<usize>,
    handle: u32,
    content: Seq<u8>,
    status: i32,
    data: Seq<u8>,
    rest: Seq<Command>,
)
    requires
        parsed(first_line(content)) is Ok,
        whole_text(parsed(first_line(content))->Ok_0 as int).len() <= setting.positions,
    ensures
        ({
            let milli = parsed(first_line(content))->Ok_0;
            let text = reading_text(milli as int, setting.positions)->Ok_0;
            &&& codes(text).len() == setting.positions
            &&& setting.plan(milli) == setting.wiring.write(codes(text))
            &&& setting.next(
                remaining,
                Phase::Reading(Stage::Closing { handle, outcome: Ok(content) }),
                Input::Reply { status, data },
            ) == (Turn {
                phase: Phase::Displaying { milli, rest: setting.plan(milli).drop_first() },
                remaining,
                action: Action::Pin(setting.plan(milli).first()),
            })
            &&& status >= 0 && rest.len() > 0 ==> setting.next(
                remaining,
                Phase::Displaying { milli, rest },
                Input::Reply { status, data },
            ) == (Turn {
                phase: Phase::Displaying { milli, rest: rest.drop_first() },
                remaining,
                action: Action::Pin(rest.first()),
            })
            &&& status < 0 ==> setting.next(
                remaining,
                Phase::Displaying { milli, rest },
                Input::Reply { status, data },
            ) == (Turn {
                phase: Phase::Idle,
                remaining,
                action: Action::Fail(Failure::Daemon(Error::Pi(status))),
            })
        }),
{
    reading_fills_display(parsed(first_line(content))->Ok_0 as int, setting.positions);
}

} // verus!
