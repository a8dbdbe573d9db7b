use cps::error::ErrorKind;
use cps::pi::{Command, Gpio, GpioLevel, GpioMode, Init, Pi};
use cps::segment_display::{Overflow, SegmentDisplay};
use cps::shift_register::{Progress, ShiftRegister};

const DS: u32 = 17;
const SH_CP: u32 = 21;
const ST_CP: u32 = 27;

fn open_session(handle: i32) -> Pi<Init> {
    Pi::try_with_addr_and_port("pi", "8888").finish(handle).unwrap()
}

fn chain_of<const N: usize>(pi: &Pi<Init>) -> ShiftRegister<'_, N> {
    let mut setup = ShiftRegister::<N>::builder()
        .pi(pi)
        .ds(Gpio::new(DS).unwrap())
        .sh_cp(Gpio::new(SH_CP).unwrap())
        .st_cp(Gpio::new(ST_CP).unwrap())
        .build();
    loop {
        match setup.advance(0).unwrap() {
            Progress::Pending(next) => setup = next,
            Progress::Ready(chain) => return chain,
        }
    }
}

fn write(pin: u32, level: GpioLevel) -> Command {
    Command::Write { pi: 6, gpio: Gpio::new(pin).unwrap(), level }
}

fn byte_commands(byte: u8) -> Vec<Command> {
    let mut commands = Vec::new();
    for i in (0..8).rev() {
        let level = if byte & (1 << i) != 0 { GpioLevel::High } else { GpioLevel::Low };
        commands.push(write(DS, level));
        commands.push(write(SH_CP, GpioLevel::Low));
        commands.push(write(SH_CP, GpioLevel::High));
    }
    commands
}

fn latch_commands() -> Vec<Command> {
    vec![write(ST_CP, GpioLevel::Low), write(ST_CP, GpioLevel::High)]
}

#[test]
fn the_pins_are_set_to_output_in_order() {
    let pi = open_session(6);
    let setup = ShiftRegister::<4>::builder()
        .pi(&pi)
        .ds(Gpio::new(DS).unwrap())
        .sh_cp(Gpio::new(SH_CP).unwrap())
        .st_cp(Gpio::new(ST_CP).unwrap())
        .build();
    let output = |pin: u32| Command::SetMode {
        pi: 6,
        gpio: Gpio::new(pin).unwrap(),
        mode: GpioMode::Output,
    };
    assert_eq!(setup.request(), output(DS));
    let Progress::Pending(setup) = setup.advance(0).unwrap() else {
        panic!("two pins are still to be set");
    };
    assert_eq!(setup.request(), output(SH_CP));
    let Progress::Pending(setup) = setup.advance(0).unwrap() else {
        panic!("one pin is still to be set");
    };
    assert_eq!(setup.request(), output(ST_CP));
    let Progress::Ready(chain) = setup.advance(0).unwrap() else {
        panic!("all pins are set");
    };
    assert_eq!(chain.pi().handle(), 6);
    assert_eq!(chain.save(), latch_commands());
}

#[test]
fn the_fields_may_be_chosen_in_any_order() {
    let pi = open_session(6);
    let setup = ShiftRegister::<2>::builder()
        .st_cp(Gpio::new(ST_CP).unwrap())
        .sh_cp(Gpio::new(SH_CP).unwrap())
        .ds(Gpio::new(DS).unwrap())
        .ds(Gpio::new(DS).unwrap())
        .pi(&pi)
        .build();
    assert_eq!(
        setup.request(),
        Command::SetMode { pi: 6, gpio: Gpio::new(DS).unwrap(), mode: GpioMode::Output }
    );
}

#[test]
fn a_refused_pin_ends_the_setting_up() {
    for granted in 0..3 {
        let pi = open_session(6);
        let mut setup = ShiftRegister::<4>::builder()
            .pi(&pi)
            .ds(Gpio::new(DS).unwrap())
            .sh_cp(Gpio::new(SH_CP).unwrap())
            .st_cp(Gpio::new(ST_CP).unwrap())
            .build();
        for _ in 0..granted {
            let Progress::Pending(next) = setup.advance(0).unwrap() else {
                panic!("a pin is still to be set");
            };
            setup = next;
        }
        let failure = setup.advance(-4).unwrap_err();
        assert_eq!(failure.raw_pi_error(), Some(-4));
        assert_eq!(failure.kind(), ErrorKind::BadMode);
    }
}

#[test]
fn a_strobe_is_low_then_high() {
    let pi = open_session(6);
    let chain = chain_of::<4>(&pi);
    let pin = Gpio::new(5).unwrap();
    assert_eq!(chain.strobe(pin), vec![write(5, GpioLevel::Low), write(5, GpioLevel::High)]);
}

#[test]
fn shift_strobes_the_shift_clock() {
    let pi = open_session(6);
    let chain = chain_of::<4>(&pi);
    assert_eq!(chain.shift(), vec![write(SH_CP, GpioLevel::Low), write(SH_CP, GpioLevel::High)]);
}

#[test]
fn save_strobes_the_latch_clock() {
    let pi = open_session(6);
    let chain = chain_of::<4>(&pi);
    assert_eq!(chain.save(), latch_commands());
}

#[test]
fn a_byte_goes_in_most_significant_bit_first() {
    let pi = open_session(6);
    let chain = chain_of::<4>(&pi);
    let plan = chain.push(0b1010_0101);
    let high = GpioLevel::High;
    let low = GpioLevel::Low;
    let bits = [high, low, high, low, low, high, low, high];
    assert_eq!(plan.len(), 24);
    for (k, bit) in bits.into_iter().enumerate() {
        assert_eq!(plan[3 * k], write(DS, bit), "bit {}", 7 - k);
        assert_eq!(plan[3 * k + 1], write(SH_CP, low));
        assert_eq!(plan[3 * k + 2], write(SH_CP, high));
    }
}

#[test]
fn a_byte_takes_eight_data_writes_and_eight_strobes() {
    let pi = open_session(6);
    let chain = chain_of::<4>(&pi);
    for byte in [0x00, 0x01, 0x80, 0x7F, 0xFF, 0x5A] {
        let plan = chain.push(byte);
        let on = |pin: u32| {
            plan.iter()
                .filter(|c| matches!(c, Command::Write { gpio, .. } if gpio.index() == pin))
                .count()
        };
        assert_eq!(on(DS), 8);
        assert_eq!(on(SH_CP), 16);
        assert_eq!(on(ST_CP), 0);
        assert_eq!(plan, byte_commands(byte));
    }
}

#[test]
fn bytes_go_in_first_byte_first() {
    let pi = open_session(6);
    let chain = chain_of::<3>(&pi);
    let mut expected = byte_commands(0x12);
    expected.extend(byte_commands(0xFF));
    expected.extend(byte_commands(0x80));
    assert_eq!(chain.push_n(&[0x12, 0xFF, 0x80]), expected);
}

#[test]
fn no_bytes_take_no_commands() {
    let pi = open_session(6);
    let chain = chain_of::<0>(&pi);
    assert_eq!(chain.push_n(&[]), vec![]);
    assert_eq!(chain.clear(), latch_commands());
}

#[test]
fn clear_pushes_zero_bytes_and_latches() {
    let pi = open_session(6);
    let chain = chain_of::<4>(&pi);
    let mut expected = Vec::new();
    for _ in 0..4 {
        expected.extend(byte_commands(0));
    }
    expected.extend(latch_commands());
    let plan = chain.clear();
    assert_eq!(plan.len(), 4 * 24 + 2);
    assert_eq!(plan, expected);
    assert!(plan.iter().all(|c| !matches!(
        c,
        Command::Write { gpio, level: GpioLevel::High, .. } if gpio.index() == DS
    )));
}

#[test]
fn write_pushes_the_codes_and_latches() {
    let pi = open_session(6);
    let chain = chain_of::<4>(&pi);
    let mut expected = Vec::new();
    for code in [0xA4, 0x30, 0x82, 0xA4] {
        expected.extend(byte_commands(code));
    }
    expected.extend(latch_commands());
    assert_eq!(chain.write("23.62"), Ok(expected));
}

#[test]
fn write_pads_short_values() {
    let pi = open_session(6);
    let chain = chain_of::<2>(&pi);
    let mut expected = byte_commands(0xFF);
    expected.extend(byte_commands(0xF9));
    expected.extend(latch_commands());
    assert_eq!(chain.write("1"), Ok(expected));
}

#[test]
fn write_sends_nothing_of_a_value_that_overflows() {
    let pi = open_session(6);
    let chain = chain_of::<4>(&pi);
    assert_eq!(chain.write("123.45"), Err(Overflow { needed: 5, available: 4 }));
}

#[test]
fn the_display_parses_as_the_encoder_encodes() {
    assert_eq!(<ShiftRegister<'_, 4> as SegmentDisplay<'_, 4>>::parse("1.5"), Ok([0xFF, 0xFF, 0x79, 0x92]));
    assert_eq!(
        <ShiftRegister<'_, 1> as SegmentDisplay<'_, 1>>::parse("15"),
        Err(Overflow { needed: 2, available: 1 })
    );
}

#[test]
fn the_display_is_its_own_chain() {
    let pi = open_session(6);
    let chain = chain_of::<4>(&pi);
    assert_eq!(chain.shift_register().save(), chain.save());
}
