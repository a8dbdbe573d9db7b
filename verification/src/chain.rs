//! What the pin commands do to the register chain.
//!
//! A register takes in the level of its data pin whenever its shift clock rises, and
//! shows what it has taken in whenever its latch clock rises. Registers in a chain hand
//! each bit on to the next, so that the bit taken in first ends up furthest down the
//! chain. This file states that in terms of the bits, and proves what the commands of
//! the driver come to.

use crate::pi::{Command, GpioLevel};
use crate::shift_register::Wiring;
use vstd::prelude::*;

verus! {

/// The wires of a chain and the bits in it.
pub struct Chain {
    /// The level of the data pin.
    pub data: GpioLevel,
    /// The level of the shift clock.
    pub shift_clock: GpioLevel,
    /// The level of the latch clock.
    pub latch_clock: GpioLevel,
    /// Every bit taken in so far, first in first. Of a chain of `n` registers the last
    /// `8 * n` are still in it.
    pub shifted: Seq<bool>,
    /// The bits that had been taken in when the latch clock rose last. The outputs of a
    /// chain of `n` registers show the last `8 * n` of them.
    pub shown: Seq<bool>,
}

/// The three pins of the wiring are three different pins.
pub open spec fn distinct_pins(wiring: Wiring) -> bool {
    wiring.ds != wiring.sh_cp && wiring.ds != wiring.st_cp && wiring.sh_cp != wiring.st_cp
}

/// The chain after one command. Commands of other sessions or on other pins, and
/// changes of direction, leave it as it is.
pub open spec fn after_command(wiring: Wiring, chain: Chain, command: Command) -> Chain {
    match command {
        Command::Write { pi, gpio, level } => {
            if pi != wiring.pi {
                chain
            } else if gpio == wiring.ds {
                Chain { data: level, ..chain }
            } else if gpio == wiring.sh_cp {
                Chain {
                    shift_clock: level,
                    shifted: if chain.shift_clock == GpioLevel::Low && level == GpioLevel::High {
                        chain.shifted.push(chain.data == GpioLevel::High)
                    } else {
                        chain.shifted
                    },
                    ..chain
                }
            } else if gpio == wiring.st_cp {
                Chain {
                    latch_clock: level,
                    shown: if chain.latch_clock == GpioLevel::Low && level == GpioLevel::High {
                        chain.shifted
                    } else {
                        chain.shown
                    },
                    ..chain
                }
            } else {
                chain
            }
        },
        Command::SetMode { .. } => chain,
    }
}

/// The chain after the commands, issued in order.
pub open spec fn run(wiring: Wiring, chain: Chain, commands: Seq<Command>) -> Chain
    decreases commands.len(),
{
    if commands.len() == 0 {
        chain
    } else {
        after_command(wiring, run(wiring, chain, commands.drop_last()), commands.last())
    }
}

/// Bit `i` of `byte` is set.
pub open spec fn bit(byte: u8, i: int) -> bool {
    (byte >> (i as u8)) & 1 == 1
}

/// The bits of `bytes`, first byte first, each byte from bit 7 down to bit 0.
pub open spec fn bits_of(bytes: Seq<u8>) -> Seq<bool> {
    Seq::new(8 * bytes.len(), |k: int| bit(bytes[k / 8], 7 - k % 8))
}

/// Commands issued one batch after another do what the batches do in turn.
pub proof fn run_in_turn(wiring: Wiring, chain: Chain, first: Seq<Command>, second: Seq<Command>)
    ensures
        run(wiring, chain, first + second) == run(wiring, run(wiring, chain, first), second),
    decreases second.len(),
{
    if second.len() > 0 {
        assert((first + second).drop_last() =~= first + second.drop_last());
        run_in_turn(wiring, chain, first, second.drop_last());
    }
}

/// A pulse on the shift clock, low then high, makes the chain take in the level of the
/// data pin exactly once, whatever level the clock had before.
pub proof fn shift_takes_one_bit(wiring: Wiring, chain: Chain)
    requires
        distinct_pins(wiring),
    ensures
        run(wiring, chain, wiring.shift()) == (Chain {
            shift_clock: GpioLevel::High,
            shifted: chain.shifted.push(chain.data == GpioLevel::High),
            ..chain
        }),
{
    reveal_with_fuel(run, 3);
}

/// A pulse on the latch clock, low then high, makes the chain show what it has taken
/// in, whatever level the clock had before.
pub proof fn save_shows_the_bits(wiring: Wiring, chain: Chain)
    requires
        distinct_pins(wiring),
    ensures
        run(wiring, chain, wiring.save()) == (Chain {
            latch_clock: GpioLevel::High,
            shown: chain.shifted,
            ..chain
        }),
{
    reveal_with_fuel(run, 3);
}

proof fn push_takes_bits(wiring: Wiring, chain: Chain, byte: u8, m: int)
    requires
        distinct_pins(wiring),
        0 <= m <= 8,
    ensures
        run(wiring, chain, wiring.push(byte).take(3 * m)).shifted == chain.shifted + bits_of(
            seq![byte],
        ).take(m),
        run(wiring, chain, wiring.push(byte).take(3 * m)).shown == chain.shown,
        run(wiring, chain, wiring.push(byte).take(3 * m)).latch_clock == chain.latch_clock,
    decreases m,
{
    let plan = wiring.push(byte);
    if m > 0 {
        push_takes_bits(wiring, chain, byte, m - 1);
        // The three commands of bit `m - 1`, one after the other.
        let before = run(wiring, chain, plan.take(3 * (m - 1)));
        assert(plan.take(3 * m).drop_last() =~= plan.take(3 * m - 1));
        assert(plan.take(3 * m - 1).drop_last() =~= plan.take(3 * m - 2));
        assert(plan.take(3 * m - 2).drop_last() =~= plan.take(3 * (m - 1)));
        let data = after_command(wiring, before, plan[3 * m - 3]);
        assert(run(wiring, chain, plan.take(3 * m - 2)) == data);
        let low = after_command(wiring, data, plan[3 * m - 2]);
        assert(run(wiring, chain, plan.take(3 * m - 1)) == low);
    }
}

/// Pushing a byte makes the chain take in its eight bits, bit 7 first, and leaves
/// alone what the chain shows.
pub proof fn push_takes_the_byte(wiring: Wiring, chain: Chain, byte: u8)
    requires
        distinct_pins(wiring),
    ensures
        run(wiring, chain, wiring.push(byte)).shifted == chain.shifted + bits_of(seq![byte]),
        run(wiring, chain, wiring.push(byte)).shown == chain.shown,
        run(wiring, chain, wiring.push(byte)).latch_clock == chain.latch_clock,
{
    push_takes_bits(wiring, chain, byte, 8);
    assert(wiring.push(byte).take(24) =~= wiring.push(byte));
}

/// Pushing bytes makes the chain take in their bits, first byte first, and leaves
/// alone what the chain shows.
pub proof fn push_n_takes_the_bytes(wiring: Wiring, chain: Chain, bytes: Seq<u8>)
    requires
        distinct_pins(wiring),
    ensures
        run(wiring, chain, wiring.push_n(bytes)).shifted == chain.shifted + bits_of(bytes),
        run(wiring, chain, wiring.push_n(bytes)).shown == chain.shown,
        run(wiring, chain, wiring.push_n(bytes)).latch_clock == chain.latch_clock,
    decreases bytes.len(),
{
    if bytes.len() > 0 {
        let front = bytes.drop_last();
        let last = bytes.last();
        push_n_takes_the_bytes(wiring, chain, front);
        let before = run(wiring, chain, wiring.push_n(front));
        push_takes_the_byte(wiring, before, last);
        assert(wiring.push_n(bytes) =~= wiring.push_n(front) + wiring.push(last));
        run_in_turn(wiring, chain, wiring.push_n(front), wiring.push(last));
    }
}

/// The bits that the outputs of register `j` show, bit 7 first, in a chain of `n`
/// registers counted from the far end: register 0 holds what went in first.
pub open spec fn position_bits(chain: Chain, n: nat, j: int) -> Seq<bool> {
    chain.shown.subrange(chain.shown.len() - 8 * (n - j), chain.shown.len() - 8 * (n - j) + 8)
}

/// Every output of the register is high: with segments that light on a low output,
/// the position is dark.
pub open spec fn is_dark(bits: Seq<bool>) -> bool {
    forall|k: int| 0 <= k < bits.len() ==> #[trigger] bits[k]
}

/// Writing codes makes the chain show their bits behind whatever it had taken in
/// before: in a chain of as many registers as there are codes, register `j` shows code
/// `j`, so that the first code ends up furthest down the chain.
pub proof fn write_shows_the_codes(wiring: Wiring, chain: Chain, shown: Seq<u8>)
    requires
        distinct_pins(wiring),
    ensures
        run(wiring, chain, wiring.write(shown)).shown == chain.shifted + bits_of(shown),
        run(wiring, chain, wiring.write(shown)).shifted == chain.shifted + bits_of(shown),
        forall|j: int|
            0 <= j < shown.len() ==> #[trigger] position_bits(
                run(wiring, chain, wiring.write(shown)),
                shown.len(),
                j,
            ) == bits_of(seq![shown[j]]),
{
    push_n_takes_the_bytes(wiring, chain, shown);
    run_in_turn(wiring, chain, wiring.push_n(shown), wiring.save());
    save_shows_the_bits(wiring, run(wiring, chain, wiring.push_n(shown)));
}

/// Clearing a chain of `n` registers makes every output of every register low: with
/// segments that light on a low output, all of them are lit. One more pulse on the
/// latch clock changes nothing of that.
pub proof fn clear_shows_zero_bits(wiring: Wiring, chain: Chain, n: nat)
    requires
        distinct_pins(wiring),
    ensures
        run(wiring, chain, wiring.clear(n)).shown == chain.shifted + Seq::new(
            8 * n,
            |k: int| false,
        ),
        run(wiring, chain, wiring.clear(n) + wiring.save()).shown == run(
            wiring,
            chain,
            wiring.clear(n),
        ).shown,
        forall|j: int|
            0 <= j < n ==> #[trigger] position_bits(
                run(wiring, chain, wiring.clear(n) + wiring.save()),
                n,
                j,
            ) == Seq::new(8, |k: int| false),
{
    let zeros = Seq::new(n, |i: int| 0u8);
    write_shows_the_codes(wiring, chain, zeros);
    assert(forall|i: int| !bit(0u8, i)) by {
        assert(forall|i: u8| (0u8 >> i) & 1 != 1) by (bit_vector);
    }
    run_in_turn(wiring, chain, wiring.clear(n), wiring.save());
    save_shows_the_bits(wiring, run(wiring, chain, wiring.clear(n)));
}

/// After a clearing and one more pulse on the latch clock, no position of a chain
/// without registers is lit.
pub proof fn cleared_empty_chain_is_dark(wiring: Wiring, chain: Chain, n: nat)
    requires
        distinct_pins(wiring),
        n == 0,
    ensures
        forall|j: int|
            0 <= j < n ==> is_dark(
                #[trigger] position_bits(
                    run(wiring, chain, wiring.clear(n) + wiring.save()),
                    n,
                    j,
                ),
            ),
{
}

} // verus!
