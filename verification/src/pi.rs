//! The client side of the remote GPIO daemon: sessions, pins, and the requests to send.
//!
//! Nothing here talks to the daemon. Each operation yields the request to send, and
//! takes the daemon's reply, a status, to decide what follows: a status below zero
//! reports a failure, any other status is the operation's result.

use crate::decimal::{integer, parse_integer, ParseError};
use crate::error::{Error, ErrorKind};
use vstd::prelude::*;
use vstd::string::StringSliceAdditionalSpecFns;

verus! {

/// No daemon address was chosen: the daemon's default applies.
pub struct NoAddr;

/// No daemon port was chosen: the daemon's default applies.
pub struct NoPort;

/// A session that is not open yet, with what was chosen for it so far.
#[derive(Debug)]
pub struct Uninit<A, P> {
    addr: A,
    port: P,
}

/// An open session, by the handle that the daemon gave it. Never negative.
#[derive(Debug)]
pub struct Init(i32);

impl Init {
    #[verifier::type_invariant]
    spec fn is_handle(self) -> bool {
        self.0 >= 0
    }
}

/// A session with the daemon, open ([`Init`]) or not yet ([`Uninit`]).
#[derive(Debug)]
pub struct Pi<T>(T);

/// The request that opens a session. `None` leaves the choice to the daemon's defaults.
#[derive(Debug, Clone, Copy)]
pub struct Start<'a> {
    pub addr: Option<&'a str>,
    pub port: Option<&'a str>,
}

/// What a reply of the daemon means: the value that it carries, or the failure that it
/// reports.
pub open spec fn reply_of(status: i32) -> Result<u32, Error> {
    if status < 0 {
        Err(Error::Pi(status))
    } else {
        Ok(status as u32)
    }
}

/// Reads a reply of the daemon: a status below zero is a failure, any other is a value.
pub fn reply(status: i32) -> (result: Result<u32, Error>)
    ensures
        result == reply_of(status),
{
    if status < 0 {
        return Err(Error::from_raw_pi_error(status));
    }
    Ok(status as u32)
}

impl Pi<Uninit<NoAddr, NoPort>> {
    /// A session to be opened, with nothing chosen yet.
    pub fn new() -> (pi: Self)
        ensures
            pi.chosen_addr() == NoAddr,
            pi.chosen_port() == NoPort,
    {
        Pi(Uninit { addr: NoAddr, port: NoPort })
    }
}

impl Default for Pi<Uninit<NoAddr, NoPort>> {
    fn default() -> (pi: Self)
        ensures
            pi.chosen_addr() == NoAddr,
            pi.chosen_port() == NoPort,
    {
        Self::new()
    }
}

impl<A, P> Pi<Uninit<A, P>> {
    /// The address chosen so far.
    pub closed spec fn chosen_addr(self) -> A {
        self.0.addr
    }

    /// The port chosen so far.
    pub closed spec fn chosen_port(self) -> P {
        self.0.port
    }

    /// Chooses the daemon's address and keeps the port.
    pub fn addr(self, addr: &str) -> (pi: Pi<Uninit<&str, P>>)
        ensures
            pi.chosen_addr() == addr,
            pi.chosen_port() == self.chosen_port(),
    {
        let Uninit { port, .. } = self.0;
        Pi(Uninit { addr, port })
    }

    /// Chooses the daemon's port and keeps the address.
    pub fn port(self, port: &str) -> (pi: Pi<Uninit<A, &str>>)
        ensures
            pi.chosen_addr() == self.chosen_addr(),
            pi.chosen_port() == port,
    {
        let Uninit { addr, .. } = self.0;
        Pi(Uninit { addr, port })
    }
}

impl Pi<Uninit<NoAddr, NoPort>> {
    /// The request that opens the session at the daemon's default address and port.
    pub fn connect<'a>(self) -> (start: Start<'a>)
        ensures
            start.addr is None,
            start.port is None,
    {
        Start { addr: None, port: None }
    }
}

impl<'a> Pi<Uninit<&'a str, NoPort>> {
    /// The request that opens the session at the chosen address and the default port.
    pub fn connect(self) -> (start: Start<'a>)
        ensures
            start.addr == Some(self.chosen_addr()),
            start.port is None,
    {
        let Uninit { addr, .. } = self.0;
        Start { addr: Some(addr), port: None }
    }
}

impl<'a> Pi<Uninit<NoAddr, &'a str>> {
    /// The request that opens the session at the default address and the chosen port.
    pub fn connect(self) -> (start: Start<'a>)
        ensures
            start.addr is None,
            start.port == Some(self.chosen_port()),
    {
        let Uninit { port, .. } = self.0;
        Start { addr: None, port: Some(port) }
    }
}

impl<'a> Pi<Uninit<&'a str, &'a str>> {
    /// The request that opens the session at the chosen address and port.
    pub fn connect(self) -> (start: Start<'a>)
        ensures
            start.addr == Some(self.chosen_addr()),
            start.port == Some(self.chosen_port()),
    {
        let Uninit { addr, port } = self.0;
        Start { addr: Some(addr), port: Some(port) }
    }
}

impl<'a> Start<'a> {
    /// Takes the daemon's reply to the request: the session, open under the handle
    /// that the reply carries, or the failure that it reports.
    pub fn finish(self, status: i32) -> (result: Result<Pi<Init>, Error>)
        ensures
            status >= 0 ==> (result matches Ok(pi) && pi.handle_of() == status),
            status < 0 ==> result == Err::<Pi<Init>, Error>(Error::Pi(status)),
    {
        if status < 0 {
            return Err(Error::from_raw_pi_error(status));
        }
        Ok(Pi(Init(status)))
    }
}

/// Highest GPIO index of the board.
pub const MAX_GPIO: u32 = 53;

/// A GPIO pin, by its index on the board. Never above [`MAX_GPIO`].
#[derive(Debug, Clone, Copy, PartialEq, Eq, Structural)]
pub struct Gpio(u32);

impl Gpio {
    /// The pin's index on the board.
    pub closed spec fn index_of(self) -> u32 {
        self.0
    }

    #[verifier::type_invariant]
    spec fn on_board(self) -> bool {
        self.0 <= MAX_GPIO
    }

    /// The pin of index `gpio`, where the board has one.
    pub fn new(gpio: u32) -> (pin: Option<Self>)
        ensures
            pin is Some <==> gpio <= MAX_GPIO,
            pin matches Some(p) ==> p.index_of() == gpio,
    {
        if gpio > MAX_GPIO {
            return None;
        }
        Some(Gpio(gpio))
    }

    /// The pin's index on the board.
    pub fn index(&self) -> (gpio: u32)
        ensures
            gpio == self.index_of(),
            gpio <= MAX_GPIO,
    {
        proof {
            use_type_invariant(self);
        }
        self.0
    }
}

/// The number that `text` spells as a pin: digits, behind a `+` or nothing.
pub open spec fn pin_number(text: Seq<u8>) -> Option<int> {
    if text.len() > 0 && text[0] == 0x2D {
        None
    } else {
        integer(text)
    }
}

/// The status by which the daemon refuses a pin that the board does not have.
pub const BAD_GPIO: i32 = -3;

impl std::str::FromStr for Gpio {
    type Err = Error;

    /// Reads a pin from its number in decimal. A number that is no pin of the board
    /// fails as the daemon would refuse it; a text that is no number, or a number
    /// beyond 32 bits, fails with kind [`ErrorKind::Other`] and says which it is.
    fn from_str(s: &str) -> (result: Result<Self, Error>)
        ensures
            match pin_number(s.spec_bytes()) {
                Some(n) => if n <= MAX_GPIO {
                    result matches Ok(pin) && pin.index_of() == n
                } else if n <= u32::MAX {
                    result == Err::<Gpio, Error>(Error::Pi(BAD_GPIO))
                } else {
                    result matches Err(e) && e.kind_of() == ErrorKind::Other && e.detail() == Some(
                        "number out of range"@,
                    )
                },
                None => result matches Err(e) && e.kind_of() == ErrorKind::Other && e.detail()
                    == Some("not a whole number"@),
            },
    {
        let bytes = s.as_bytes();
        if bytes.len() > 0 && bytes[0] == 0x2D {
            return Err(Error::other(ParseError::Malformed.as_str().to_owned()));
        }
        match parse_integer(bytes) {
            Ok(n) => {
                if n > u32::MAX as i64 {
                    return Err(Error::other(ParseError::OutOfRange.as_str().to_owned()));
                }
                match Gpio::new(n as u32) {
                    Some(pin) => Ok(pin),
                    None => Err(Error::from_raw_pi_error(BAD_GPIO)),
                }
            },
            Err(e) => Err(Error::other(e.as_str().to_owned())),
        }
    }
}

/// The direction of a pin.
#[derive(Debug, Clone, Copy, PartialEq, Eq, Structural)]
pub enum GpioMode {
    Input,
    Output,
}

impl GpioMode {
    /// The number by which the daemon knows the direction.
    pub open spec fn code_of(self) -> u32 {
        match self {
            GpioMode::Input => 0,
            GpioMode::Output => 1,
        }
    }

    /// The number by which the daemon knows the direction.
    pub fn code(&self) -> (code: u32)
        ensures
            code == self.code_of(),
    {
        match self {
            GpioMode::Input => 0,
            GpioMode::Output => 1,
        }
    }
}

/// The level of a pin.
#[derive(Debug, Clone, Copy, PartialEq, Eq, Structural)]
pub enum GpioLevel {
    Low,
    High,
}

impl GpioLevel {
    /// The number by which the daemon knows the level.
    pub open spec fn code_of(self) -> u32 {
        match self {
            GpioLevel::Low => 0,
            GpioLevel::High => 1,
        }
    }

    /// The number by which the daemon knows the level.
    pub fn code(&self) -> (code: u32)
        ensures
            code == self.code_of(),
    {
        match self {
            GpioLevel::Low => 0,
            GpioLevel::High => 1,
        }
    }
}

/// A request on a pin, for the session `pi`.
#[derive(Debug, Clone, Copy, PartialEq, Eq, Structural)]
pub enum Command {
    SetMode { pi: i32, gpio: Gpio, mode: GpioMode },
    Write { pi: i32, gpio: Gpio, level: GpioLevel },
}

impl Pi<Init> {
    /// The handle that the daemon gave the session.
    pub closed spec fn handle_of(self) -> i32 {
        self.0.0
    }

    /// The handle that the daemon gave the session.
    pub fn handle(&self) -> (handle: i32)
        ensures
            handle == self.handle_of(),
            handle >= 0,
    {
        proof {
            use_type_invariant(&self.0);
        }
        self.0.0
    }

    /// The request that opens a session at `addr` and the default port.
    pub fn try_with_addr(addr: &str) -> (start: Start<'_>)
        ensures
            start.addr == Some(addr),
            start.port is None,
    {
        Pi::new().addr(addr).connect()
    }

    /// The request that opens a session at `addr` and `port`.
    pub fn try_with_addr_and_port<'a>(addr: &'a str, port: &'a str) -> (start: Start<'a>)
        ensures
            start.addr == Some(addr),
            start.port == Some(port),
    {
        Pi::new().addr(addr).port(port).connect()
    }

    /// The request that sets the direction of `gpio`.
    pub fn set_mode(&self, gpio: Gpio, mode: GpioMode) -> (command: Command)
        ensures
            command == (Command::SetMode { pi: self.handle_of(), gpio, mode }),
    {
        Command::SetMode { pi: self.handle(), gpio, mode }
    }

    /// The request that drives `gpio` to `level`.
    pub fn gpio_write(&self, gpio: Gpio, level: GpioLevel) -> (command: Command)
        ensures
            command == (Command::Write { pi: self.handle_of(), gpio, level }),
    {
        Command::Write { pi: self.handle(), gpio, level }
    }
}

/// How a remote file is opened.
#[derive(Debug, Clone, Copy, PartialEq, Eq, Structural)]
pub enum FileMode {
    Read,
    Write,
    RW,
}

impl FileMode {
    /// The number by which the daemon knows the mode.
    pub open spec fn code_of(self) -> u32 {
        match self {
            FileMode::Read => 1,
            FileMode::Write => 2,
            FileMode::RW => 3,
        }
    }

    /// The number by which the daemon knows the mode.
    pub fn code(&self) -> (code: u32)
        ensures
            code == self.code_of(),
    {
        match self {
            FileMode::Read => 1,
            FileMode::Write => 2,
            FileMode::RW => 3,
        }
    }
}

/// A request on a remote file, for the session `pi`.
#[derive(Debug, Clone, Copy)]
pub enum FileRequest<'p> {
    Open { pi: i32, path: &'p str, mode: FileMode },
    Read { pi: i32, handle: u32, count: u32 },
    Close { pi: i32, handle: u32 },
}

#[derive(Debug)]
struct Handle(u32);

/// An open remote file. It cannot outlive its session, and closing it gives it up.
#[derive(Debug)]
pub struct File<'a> {
    pi: &'a Pi<Init>,
    handle: Handle,
}

/// A remote file that is being opened.
#[derive(Debug)]
pub struct Opening<'a, 'p> {
    pi: &'a Pi<Init>,
    path: &'p str,
    mode: FileMode,
}

impl<'a, 'p> Opening<'a, 'p> {
    /// The handle of the session.
    pub closed spec fn session(self) -> i32 {
        self.pi.handle_of()
    }

    /// The path of the file.
    pub closed spec fn path(self) -> &'p str {
        self.path
    }

    /// How the file is to be opened.
    pub closed spec fn mode(self) -> FileMode {
        self.mode
    }

    /// The request to send.
    pub fn request(&self) -> (request: FileRequest<'p>)
        ensures
            request == (FileRequest::Open {
                pi: self.session(),
                path: self.path(),
                mode: self.mode(),
            }),
    {
        FileRequest::Open { pi: self.pi.handle(), path: self.path, mode: self.mode }
    }

    /// Takes the daemon's reply to the request: the file, open under the handle that
    /// the reply carries, or the failure that it reports.
    pub fn finish(self, status: i32) -> (result: Result<File<'a>, Error>)
        ensures
            status >= 0 ==> (result matches Ok(file) && file.session() == self.session()
                && file.handle_of() == status),
            status < 0 ==> result == Err::<File<'a>, Error>(Error::Pi(status)),
    {
        if status < 0 {
            return Err(Error::from_raw_pi_error(status));
        }
        Ok(File { pi: self.pi, handle: Handle(status as u32) })
    }
}

impl<'a> File<'a> {
    /// The handle of the session that the file is open on.
    pub closed spec fn session(self) -> i32 {
        self.pi.handle_of()
    }

    /// The handle that the daemon gave the file.
    pub closed spec fn handle_of(self) -> u32 {
        self.handle.0
    }

    /// Begins to open the file at `path` on the session.
    pub fn open<'p>(pi: &'a Pi<Init>, path: &'p str, mode: FileMode) -> (opening: Opening<'a, 'p>)
        ensures
            opening.session() == pi.handle_of(),
            opening.path() == path,
            opening.mode() == mode,
    {
        Opening { pi, path, mode }
    }

    /// The request that reads up to `count` bytes from where the file stands.
    pub fn read(&self, count: u32) -> (request: FileRequest<'static>)
        ensures
            request == (FileRequest::Read {
                pi: self.session(),
                handle: self.handle_of(),
                count,
            }),
    {
        FileRequest::Read { pi: self.pi.handle(), handle: self.handle.0, count }
    }

    /// Gives the file up for the request that closes it.
    pub fn close(self) -> (request: FileRequest<'static>)
        ensures
            request == (FileRequest::Close { pi: self.session(), handle: self.handle_of() }),
    {
        FileRequest::Close { pi: self.pi.handle(), handle: self.handle.0 }
    }
}

/// How far the reading of a remote file has come.
pub enum Stage {
    /// The file is being opened.
    Opening,
    /// The file is open under `handle` and its content is asked for.
    Reading { handle: u32 },
    /// The file is being closed, with what the reading came to.
    Closing { handle: u32, outcome: Result<Seq<u8>, Error> },
}

/// What follows a reply in the reading of a remote file.
pub enum Step {
    /// Another request is to be sent.
    Continue(Stage),
    /// The reading is over.
    Finished(Result<Seq<u8>, Error>),
}

/// The bytes that a reply to a read request carries: as many as the status says, of
/// those that came with it.
pub open spec fn received(status: i32, data: Seq<u8>) -> Seq<u8> {
    if status <= data.len() {
        data.take(status as int)
    } else {
        data
    }
}

/// What follows the reply `status`, with the bytes `data`, at `stage`.
///
/// A file that cannot be opened ends the reading with the daemon's failure. A file
/// that was opened is closed whatever the read came to, and the reply to the closing
/// ends the reading with what the read came to.
pub open spec fn after(stage: Stage, status: i32, data: Seq<u8>) -> Step {
    match stage {
        Stage::Opening => if status < 0 {
            Step::Finished(Err(Error::Pi(status)))
        } else {
            Step::Continue(Stage::Reading { handle: status as u32 })
        },
        Stage::Reading { handle } => Step::Continue(
            Stage::Closing {
                handle,
                outcome: if status < 0 {
                    Err(Error::Pi(status))
                } else {
                    Ok(received(status, data))
                },
            },
        ),
        Stage::Closing { handle, outcome } => Step::Finished(outcome),
    }
}

enum Reached<'a> {
    Opening,
    Reading(File<'a>),
    Closing(File<'a>, Result<Vec<u8>, Error>),
}

/// The reading of a remote file: it is opened, read once, and closed.
pub struct Transfer<'a, 'p> {
    pi: &'a Pi<Init>,
    path: &'p str,
    count: u32,
    reached: Reached<'a>,
}

/// What follows a reply in the reading of a remote file.
pub enum TransferStep<'a, 'p> {
    /// Another request is to be sent: [`Transfer::request`].
    Continue(Transfer<'a, 'p>),
    /// The reading is over: the bytes that were read, or the failure.
    Finished(Result<Vec<u8>, Error>),
}

/// A result with its bytes as a sequence.
pub open spec fn outcome_view(outcome: Result<Vec<u8>, Error>) -> Result<Seq<u8>, Error> {
    match outcome {
        Ok(bytes) => Ok(bytes@),
        Err(e) => Err(e),
    }
}

impl<'a, 'p> TransferStep<'a, 'p> {
    /// The step, by the stage that it leads to or the outcome that it ends with.
    pub open spec fn view(self) -> Step {
        match self {
            TransferStep::Continue(transfer) => Step::Continue(transfer.stage()),
            TransferStep::Finished(outcome) => Step::Finished(outcome_view(outcome)),
        }
    }
}

impl<'a, 'p> Transfer<'a, 'p> {
    #[verifier::type_invariant]
    spec fn on_one_session(self) -> bool {
        match self.reached {
            Reached::Opening => true,
            Reached::Reading(file) => file.session() == self.pi.handle_of(),
            Reached::Closing(file, _) => file.session() == self.pi.handle_of(),
        }
    }

    /// The handle of the session.
    pub closed spec fn session(self) -> i32 {
        self.pi.handle_of()
    }

    /// The path of the file.
    pub closed spec fn path(self) -> &'p str {
        self.path
    }

    /// How many bytes are asked for.
    pub closed spec fn count(self) -> u32 {
        self.count
    }

    /// How far the reading has come.
    pub closed spec fn stage(self) -> Stage {
        match self.reached {
            Reached::Opening => Stage::Opening,
            Reached::Reading(file) => Stage::Reading { handle: file.handle_of() },
            Reached::Closing(file, outcome) => Stage::Closing {
                handle: file.handle_of(),
                outcome: outcome_view(outcome),
            },
        }
    }

    /// The request that `stage` calls for.
    pub open spec fn pending(self) -> FileRequest<'p> {
        match self.stage() {
            Stage::Opening => FileRequest::Open {
                pi: self.session(),
                path: self.path(),
                mode: FileMode::Read,
            },
            Stage::Reading { handle } => FileRequest::Read {
                pi: self.session(),
                handle,
                count: self.count(),
            },
            Stage::Closing { handle, .. } => FileRequest::Close { pi: self.session(), handle },
        }
    }

    /// The request to send next.
    pub fn request(&self) -> (request: FileRequest<'p>)
        ensures
            request == self.pending(),
    {
        proof {
            use_type_invariant(self);
        }
        match &self.reached {
            Reached::Opening => FileRequest::Open {
                pi: self.pi.handle(),
                path: self.path,
                mode: FileMode::Read,
            },
            Reached::Reading(file) => file.read(self.count),
            Reached::Closing(file, _) => FileRequest::Close {
                pi: file.pi.handle(),
                handle: file.handle.0,
            },
        }
    }

    /// Takes the daemon's reply to the request sent last: its status and, for a read,
    /// the bytes that came with it.
    pub fn advance(self, status: i32, data: &[u8]) -> (step: TransferStep<'a, 'p>)
        ensures
            step@ == after(self.stage(), status, data@),
            step matches TransferStep::Continue(next) ==> next.session() == self.session()
                && next.path() == self.path() && next.count() == self.count(),
    {
        proof {
            use_type_invariant(&self);
        }
        let Transfer { pi, path, count, reached } = self;
        match reached {
            Reached::Opening => match File::open(pi, path, FileMode::Read).finish(status) {
                Ok(file) => TransferStep::Continue(
                    Transfer { pi, path, count, reached: Reached::Reading(file) },
                ),
                Err(e) => TransferStep::Finished(Err(e)),
            },
            Reached::Reading(file) => {
                let outcome = if status < 0 {
                    Err(Error::from_raw_pi_error(status))
                } else {
                    let taken: usize = if (status as usize) <= data.len() {
                        status as usize
                    } else {
                        data.len()
                    };
                    let bytes = vstd::slice::slice_to_vec(
                        vstd::slice::slice_subrange(data, 0, taken),
                    );
                    assert(bytes@ =~= received(status, data@));
                    Ok(bytes)
                };
                TransferStep::Continue(
                    Transfer { pi, path, count, reached: Reached::Closing(file, outcome) },
                )
            },
            Reached::Closing(file, outcome) => {
                let _ = file.close();
                TransferStep::Finished(outcome)
            },
        }
    }
}

/// Begins to read the file at `path` on the session: up to `count` bytes from its
/// start.
pub fn read_to_string<'a, 'p>(pi: &'a Pi<Init>, path: &'p str, count: u32) -> (transfer: Transfer<
    'a,
    'p,
>)
    ensures
        transfer.stage() == Stage::Opening,
        transfer.session() == pi.handle_of(),
        transfer.path() == path,
        transfer.count() == count,
{
    Transfer { pi, path, count, reached: Reached::Opening }
}

/// A file that was opened is closed exactly once, whatever the read comes to: the
/// request behind the reply to the read closes the handle that the opening gave, and
/// the reply to that request ends the reading with what the read came to.
pub proof fn opened_file_is_closed(opened: i32, read: i32, data: Seq<u8>, closed: i32)
    requires
        opened >= 0,
    ensures
        after(Stage::Opening, opened, Seq::empty()) == Step::Continue(
            Stage::Reading { handle: opened as u32 },
        ),
        after(Stage::Reading { handle: opened as u32 }, read, data) matches Step::Continue(
            Stage::Closing { handle, outcome },
        ) && handle == opened as u32 && after(Stage::Closing { handle, outcome }, closed, data)
            == Step::Finished(outcome) && (read < 0 ==> outcome == Err::<Seq<u8>, Error>(
            Error::Pi(read),
        )) && (read >= 0 ==> outcome == Ok::<Seq<u8>, Error>(received(read, data))),
{
}

} // verus!
