//! A chain of serial-in, parallel-out shift registers on three GPIO pins.
//!
//! The driver turns bytes into the pin commands that shift them into the chain, most
//! significant bit first, and latch them. It sends nothing itself: each operation
//! returns its commands in the order in which they are to be issued.

use crate::error::Error;
use crate::pi::{Command, Gpio, GpioLevel, GpioMode, Init, Pi};
use vstd::prelude::*;

verus! {

/// How a register chain hangs on a session: the data pin, the shift clock and the
/// latch clock.
pub struct Wiring {
    pub pi: i32,
    pub ds: Gpio,
    pub sh_cp: Gpio,
    pub st_cp: Gpio,
}

/// The level that stands for bit `i` of `byte`: high for a set bit.
pub open spec fn bit_level(byte: u8, i: int) -> GpioLevel {
    if (byte >> (i as u8)) & 1 == 1 {
        GpioLevel::High
    } else {
        GpioLevel::Low
    }
}

impl Wiring {
    /// One clock pulse on `gpio`: low, then high.
    pub open spec fn strobe(self, gpio: Gpio) -> Seq<Command> {
        seq![
            Command::Write { pi: self.pi, gpio, level: GpioLevel::Low },
            Command::Write { pi: self.pi, gpio, level: GpioLevel::High },
        ]
    }

    /// One pulse on the shift clock: the chain takes in the level of the data pin.
    pub open spec fn shift(self) -> Seq<Command> {
        self.strobe(self.sh_cp)
    }

    /// One pulse on the latch clock: the chain shows what was shifted in.
    pub open spec fn save(self) -> Seq<Command> {
        self.strobe(self.st_cp)
    }

    /// The commands that shift `byte` in: for each bit from 7 down to 0, the bit on the
    /// data pin and then one pulse on the shift clock.
    pub open spec fn push(self, byte: u8) -> Seq<Command> {
        Seq::new(
            24,
            |k: int|
                if k % 3 == 0 {
                    Command::Write { pi: self.pi, gpio: self.ds, level: bit_level(byte, 7 - k / 3) }
                } else if k % 3 == 1 {
                    Command::Write { pi: self.pi, gpio: self.sh_cp, level: GpioLevel::Low }
                } else {
                    Command::Write { pi: self.pi, gpio: self.sh_cp, level: GpioLevel::High }
                },
        )
    }

    /// The commands that shift `bytes` in, first byte first.
    pub open spec fn push_n(self, bytes: Seq<u8>) -> Seq<Command> {
        Seq::new(24 * bytes.len(), |k: int| self.push(bytes[k / 24])[k % 24])
    }

    /// The commands that fill a chain of `n` registers with zero bytes and latch them.
    pub open spec fn clear(self, n: nat) -> Seq<Command> {
        self.push_n(Seq::new(n, |i: int| 0u8)) + self.save()
    }

    /// The commands that shift `codes` in and latch them.
    pub open spec fn write(self, codes: Seq<u8>) -> Seq<Command> {
        self.push_n(codes) + self.save()
    }
}

/// A byte goes in as eight bits, bit 7 first: for each, one write to the data pin with
/// the level of the bit, and then one pulse on the shift clock, low and high.
pub proof fn push_is_eight_bits(wiring: Wiring, byte: u8)
    ensures
        wiring.push(byte).len() == 24,
        forall|k: int|
            0 <= k < 8 ==> #[trigger] wiring.push(byte).subrange(3 * k, 3 * k + 3) == seq![
                Command::Write { pi: wiring.pi, gpio: wiring.ds, level: bit_level(byte, 7 - k) },
            ] + wiring.shift(),
{
}

/// A chain of `N` registers on a session, its three pins set to output.
#[derive(Debug)]
pub struct ShiftRegister<'a, const N: usize> {
    pi: &'a Pi<Init>,
    ds: Gpio,
    sh_cp: Gpio,
    st_cp: Gpio,
}

impl<'a, const N: usize> ShiftRegister<'a, N> {
    /// The session and the pins of the chain.
    pub closed spec fn wiring(self) -> Wiring {
        Wiring { pi: self.pi.handle_of(), ds: self.ds, sh_cp: self.sh_cp, st_cp: self.st_cp }
    }

    /// Starts the configuration of a chain, with nothing chosen yet.
    pub fn builder() -> (builder: ShiftRegisterBuilder<N, NoPi, NoDs, NoShCp, NoStCp>)
        ensures
            builder.chosen_pi() == NoPi,
            builder.chosen_ds() == NoDs,
            builder.chosen_sh_cp() == NoShCp,
            builder.chosen_st_cp() == NoStCp,
    {
        ShiftRegisterBuilder { pi: NoPi, ds: NoDs, sh_cp: NoShCp, st_cp: NoStCp }
    }

    /// The session that the chain hangs on.
    pub fn pi(&self) -> (pi: &'a Pi<Init>)
        ensures
            pi.handle_of() == self.wiring().pi,
    {
        self.pi
    }

    fn strobe_onto(&self, gpio: Gpio, plan: &mut Vec<Command>)
        ensures
            final(plan)@ == old(plan)@ + self.wiring().strobe(gpio),
    {
        plan.push(self.pi.gpio_write(gpio, GpioLevel::Low));
        plan.push(self.pi.gpio_write(gpio, GpioLevel::High));
    }

    fn push_onto(&self, byte: u8, plan: &mut Vec<Command>)
        ensures
            final(plan)@ == old(plan)@ + self.wiring().push(byte),
    {
        let ghost before = plan@;
        let mut i: u8 = 8;
        while i > 0
            invariant
                i <= 8,
                plan@.len() == before.len() + 3 * (8 - i),
                forall|k: int| 0 <= k < before.len() ==> plan@[k] == before[k],
                forall|k: int|
                    0 <= k < 3 * (8 - i) ==> plan@[before.len() + k] == self.wiring().push(byte)[k],
            decreases i,
        {
            i -= 1;
            let level = if (byte >> i) & 1 == 1 {
                GpioLevel::High
            } else {
                GpioLevel::Low
            };
            plan.push(self.pi.gpio_write(self.ds, level));
            self.strobe_onto(self.sh_cp, plan);
        }
    }

    /// One clock pulse on `gpio`: low, then high.
    pub fn strobe(&self, gpio: Gpio) -> (plan: Vec<Command>)
        ensures
            plan@ == self.wiring().strobe(gpio),
    {
        let mut plan: Vec<Command> = Vec::new();
        self.strobe_onto(gpio, &mut plan);
        plan
    }

    /// One pulse on the shift clock.
    pub fn shift(&self) -> (plan: Vec<Command>)
        ensures
            plan@ == self.wiring().shift(),
    {
        self.strobe(self.sh_cp)
    }

    /// One pulse on the latch clock.
    pub fn save(&self) -> (plan: Vec<Command>)
        ensures
            plan@ == self.wiring().save(),
    {
        self.strobe(self.st_cp)
    }

    /// Shifts `byte` in, most significant bit first.
    pub fn push(&self, byte: u8) -> (plan: Vec<Command>)
        ensures
            plan@ == self.wiring().push(byte),
    {
        let mut plan: Vec<Command> = Vec::new();
        self.push_onto(byte, &mut plan);
        plan
    }

    /// Shifts `bytes` in, first byte first: the first byte ends up furthest down the
    /// chain.
    pub fn push_n(&self, bytes: &[u8; N]) -> (plan: Vec<Command>)
        ensures
            plan@ == self.wiring().push_n(bytes@),
    {
        let mut plan: Vec<Command> = Vec::new();
        let mut i: usize = 0;
        while i < N
            invariant
                i <= N,
                plan@ == self.wiring().push_n(bytes@.take(i as int)),
            decreases N - i,
        {
            self.push_onto(bytes[i], &mut plan);
            i += 1;
        }
        plan
    }

    /// Fills the chain with zero bytes and latches them.
    pub fn clear(&self) -> (plan: Vec<Command>)
        ensures
            plan@ == self.wiring().clear(N as nat),
    {
        let mut plan: Vec<Command> = Vec::new();
        let mut i: usize = 0;
        while i < N
            invariant
                i <= N,
                plan@ == self.wiring().push_n(Seq::new(i as nat, |j: int| 0u8)),
            decreases N - i,
        {
            self.push_onto(0, &mut plan);
            i += 1;
        }
        self.strobe_onto(self.st_cp, &mut plan);
        plan
    }
}

/// No session was chosen yet.
pub struct NoPi;

/// No data pin was chosen yet.
pub struct NoDs;

/// No shift clock pin was chosen yet.
pub struct NoShCp;

/// No latch clock pin was chosen yet.
pub struct NoStCp;

/// The configuration of a chain of `N` registers, with what was chosen for it so far.
#[derive(Debug)]
pub struct ShiftRegisterBuilder<const N: usize, T, U, S, L> {
    pi: T,
    ds: U,
    sh_cp: S,
    st_cp: L,
}

impl<const N: usize, T, U, V, W> ShiftRegisterBuilder<N, T, U, V, W> {
    /// The session chosen so far.
    pub closed spec fn chosen_pi(self) -> T {
        self.pi
    }

    /// The data pin chosen so far.
    pub closed spec fn chosen_ds(self) -> U {
        self.ds
    }

    /// The shift clock pin chosen so far.
    pub closed spec fn chosen_sh_cp(self) -> V {
        self.sh_cp
    }

    /// The latch clock pin chosen so far.
    pub closed spec fn chosen_st_cp(self) -> W {
        self.st_cp
    }

    /// Chooses the session and keeps the rest.
    pub fn pi(self, pi: &Pi<Init>) -> (builder: ShiftRegisterBuilder<N, &Pi<Init>, U, V, W>)
        ensures
            builder.chosen_pi() == pi,
            builder.chosen_ds() == self.chosen_ds(),
            builder.chosen_sh_cp() == self.chosen_sh_cp(),
            builder.chosen_st_cp() == self.chosen_st_cp(),
    {
        let Self { ds, sh_cp, st_cp, .. } = self;
        ShiftRegisterBuilder { pi, ds, sh_cp, st_cp }
    }

    /// Chooses the data pin and keeps the rest.
    pub fn ds(self, ds: Gpio) -> (builder: ShiftRegisterBuilder<N, T, Gpio, V, W>)
        ensures
            builder.chosen_pi() == self.chosen_pi(),
            builder.chosen_ds() == ds,
            builder.chosen_sh_cp() == self.chosen_sh_cp(),
            builder.chosen_st_cp() == self.chosen_st_cp(),
    {
        let Self { pi, sh_cp, st_cp, .. } = self;
        ShiftRegisterBuilder { pi, ds, sh_cp, st_cp }
    }

    /// Chooses the shift clock pin and keeps the rest.
    pub fn sh_cp(self, sh_cp: Gpio) -> (builder: ShiftRegisterBuilder<N, T, U, Gpio, W>)
        ensures
            builder.chosen_pi() == self.chosen_pi(),
            builder.chosen_ds() == self.chosen_ds(),
            builder.chosen_sh_cp() == sh_cp,
            builder.chosen_st_cp() == self.chosen_st_cp(),
    {
        let Self { pi, ds, st_cp, .. } = self;
        ShiftRegisterBuilder { pi, ds, sh_cp, st_cp }
    }

    /// Chooses the latch clock pin and keeps the rest.
    pub fn st_cp(self, st_cp: Gpio) -> (builder: ShiftRegisterBuilder<N, T, U, V, Gpio>)
        ensures
            builder.chosen_pi() == self.chosen_pi(),
            builder.chosen_ds() == self.chosen_ds(),
            builder.chosen_sh_cp() == self.chosen_sh_cp(),
            builder.chosen_st_cp() == st_cp,
    {
        let Self { pi, ds, sh_cp, .. } = self;
        ShiftRegisterBuilder { pi, ds, sh_cp, st_cp }
    }
}

impl<'a, const N: usize> ShiftRegisterBuilder<N, &'a Pi<Init>, Gpio, Gpio, Gpio> {
    /// Begins to set the three pins to output. The chain itself comes out of
    /// [`PinSetup::advance`], once the daemon has granted all three.
    pub fn build(self) -> (setup: PinSetup<'a, N>)
        ensures
            setup.granted() == 0,
            setup.wiring() == (Wiring {
                pi: self.chosen_pi().handle_of(),
                ds: self.chosen_ds(),
                sh_cp: self.chosen_sh_cp(),
                st_cp: self.chosen_st_cp(),
            }),
    {
        let Self { pi, ds, sh_cp, st_cp } = self;
        PinSetup { pi, ds, sh_cp, st_cp, granted: 0 }
    }
}

/// A chain whose pins are being set to output: the data pin first, then the shift
/// clock, then the latch clock.
#[derive(Debug)]
pub struct PinSetup<'a, const N: usize> {
    pi: &'a Pi<Init>,
    ds: Gpio,
    sh_cp: Gpio,
    st_cp: Gpio,
    granted: u8,
}

/// How far the setting up of a chain has come.
#[derive(Debug)]
pub enum Progress<'a, const N: usize> {
    /// A pin is still to be set: send [`PinSetup::request`] next.
    Pending(PinSetup<'a, N>),
    /// All three pins are outputs.
    Ready(ShiftRegister<'a, N>),
}

impl<'a, const N: usize> PinSetup<'a, N> {
    #[verifier::type_invariant]
    spec fn unfinished(self) -> bool {
        self.granted <= 2
    }

    /// The session and the pins of the chain.
    pub closed spec fn wiring(self) -> Wiring {
        Wiring { pi: self.pi.handle_of(), ds: self.ds, sh_cp: self.sh_cp, st_cp: self.st_cp }
    }

    /// How many of the pins the daemon has set to output so far.
    pub closed spec fn granted(self) -> nat {
        self.granted as nat
    }

    /// The request to send next: output mode for the first pin not yet granted.
    pub open spec fn pending(self) -> Command {
        Command::SetMode {
            pi: self.wiring().pi,
            gpio: if self.granted() == 0 {
                self.wiring().ds
            } else if self.granted() == 1 {
                self.wiring().sh_cp
            } else {
                self.wiring().st_cp
            },
            mode: GpioMode::Output,
        }
    }

    /// What follows the daemon's reply `status` to the pending request: its failure, the
    /// next pin, or, after the third grant, the chain.
    pub closed spec fn advance_of(self, status: i32) -> Result<Progress<'a, N>, Error> {
        if status < 0 {
            Err(Error::Pi(status))
        } else if self.granted < 2 {
            Ok(
                Progress::Pending(
                    PinSetup {
                        pi: self.pi,
                        ds: self.ds,
                        sh_cp: self.sh_cp,
                        st_cp: self.st_cp,
                        granted: (self.granted + 1) as u8,
                    },
                ),
            )
        } else {
            Ok(
                Progress::Ready(
                    ShiftRegister { pi: self.pi, ds: self.ds, sh_cp: self.sh_cp, st_cp: self.st_cp },
                ),
            )
        }
    }

    /// The request to send next.
    pub fn request(&self) -> (command: Command)
        ensures
            command == self.pending(),
    {
        let gpio = if self.granted == 0 {
            self.ds
        } else if self.granted == 1 {
            self.sh_cp
        } else {
            self.st_cp
        };
        self.pi.set_mode(gpio, GpioMode::Output)
    }

    /// Takes the daemon's reply to the pending request. A failure ends the setting up
    /// and no chain comes of it.
    pub fn advance(self, status: i32) -> (result: Result<Progress<'a, N>, Error>)
        ensures
            result == self.advance_of(status),
            status < 0 ==> result == Err::<Progress<'a, N>, Error>(Error::Pi(status)),
            status >= 0 && self.granted() < 2 ==> (result matches Ok(Progress::Pending(next))
                && next.granted() == self.granted() + 1 && next.wiring() == self.wiring()),
            status >= 0 && self.granted() >= 2 ==> (result matches Ok(Progress::Ready(chain))
                && chain.wiring() == self.wiring()),
    {
        proof {
            use_type_invariant(&self);
        }
        if status < 0 {
            return Err(Error::from_raw_pi_error(status));
        }
        let Self { pi, ds, sh_cp, st_cp, granted } = self;
        if granted < 2 {
            Ok(Progress::Pending(PinSetup { pi, ds, sh_cp, st_cp, granted: granted + 1 }))
        } else {
            Ok(Progress::Ready(ShiftRegister { pi, ds, sh_cp, st_cp }))
        }
    }
}

/// A chain comes of a setting up only by three grants: the requests are output mode
/// for the data pin, the shift clock and the latch clock, in this order, each sent
/// after the grant of the one before, and the first failure ends it with that failure.
pub proof fn chain_follows_three_grants<'a, const N: usize>(
    setup: PinSetup<'a, N>,
    first: i32,
    second: i32,
    third: i32,
)
    requires
        setup.granted() == 0,
    ensures
        setup.pending() == (Command::SetMode {
            pi: setup.wiring().pi,
            gpio: setup.wiring().ds,
            mode: GpioMode::Output,
        }),
        first < 0 ==> setup.advance_of(first) == Err::<Progress<'a, N>, Error>(Error::Pi(first)),
        first >= 0 ==> (setup.advance_of(first) matches Ok(Progress::Pending(a)) && {
            &&& a.wiring() == setup.wiring()
            &&& a.pending() == (Command::SetMode {
                pi: setup.wiring().pi,
                gpio: setup.wiring().sh_cp,
                mode: GpioMode::Output,
            })
            &&& second < 0 ==> a.advance_of(second) == Err::<Progress<'a, N>, Error>(
                Error::Pi(second),
            )
            &&& second >= 0 ==> (a.advance_of(second) matches Ok(Progress::Pending(b)) && {
                &&& b.wiring() == setup.wiring()
                &&& b.pending() == (Command::SetMode {
                    pi: setup.wiring().pi,
                    gpio: setup.wiring().st_cp,
                    mode: GpioMode::Output,
                })
                &&& third < 0 ==> b.advance_of(third) == Err::<Progress<'a, N>, Error>(
                    Error::Pi(third),
                )
                &&& third >= 0 ==> (b.advance_of(third) matches Ok(Progress::Ready(chain))
                    && chain.wiring() == setup.wiring())
            })
        }),
{
}

} // verus!
