use cps::error::{Error, ErrorKind};
use cps::pi::{
    read_to_string, reply, Command, File, FileMode, FileRequest, Gpio, GpioLevel, GpioMode, Init,
    Pi, TransferStep,
};
use std::str::FromStr;

fn session(handle: i32) -> Pi<Init> {
    Pi::try_with_addr("raspberrypi.local").finish(handle).unwrap()
}

#[test]
fn nothing_chosen_leaves_both_to_the_daemon() {
    let start = Pi::new().connect();
    assert_eq!(start.addr, None);
    assert_eq!(start.port, None);
    let start = Pi::default().connect();
    assert_eq!(start.addr, None);
    assert_eq!(start.port, None);
}

#[test]
fn an_address_alone_is_passed_on() {
    let start = Pi::new().addr("10.0.0.2").connect();
    assert_eq!(start.addr, Some("10.0.0.2"));
    assert_eq!(start.port, None);
}

#[test]
fn a_port_alone_is_passed_on() {
    let start = Pi::new().port("8889").connect();
    assert_eq!(start.addr, None);
    assert_eq!(start.port, Some("8889"));
}

#[test]
fn address_and_port_are_passed_on_in_either_order() {
    let start = Pi::new().addr("10.0.0.2").port("8889").connect();
    assert_eq!((start.addr, start.port), (Some("10.0.0.2"), Some("8889")));
    let start = Pi::new().port("8889").addr("10.0.0.2").connect();
    assert_eq!((start.addr, start.port), (Some("10.0.0.2"), Some("8889")));
}

#[test]
fn a_later_choice_replaces_an_earlier_one() {
    let start = Pi::new().addr("first").addr("second").connect();
    assert_eq!(start.addr, Some("second"));
}

#[test]
fn the_short_forms_choose_address_and_port() {
    let start = Pi::try_with_addr("pi");
    assert_eq!((start.addr, start.port), (Some("pi"), None));
    let start = Pi::try_with_addr_and_port("pi", "8888");
    assert_eq!((start.addr, start.port), (Some("pi"), Some("8888")));
}

#[test]
fn a_granted_start_opens_the_session() {
    let pi = Pi::try_with_addr("pi").finish(0).unwrap();
    assert_eq!(pi.handle(), 0);
    let pi = Pi::try_with_addr("pi").finish(31).unwrap();
    assert_eq!(pi.handle(), 31);
}

#[test]
fn a_refused_start_reports_the_status() {
    let failure = Pi::try_with_addr("nowhere").finish(-2003).unwrap_err();
    assert_eq!(failure.raw_pi_error(), Some(-2003));
    assert_eq!(failure.kind(), ErrorKind::BadConnect);
}

#[test]
fn replies_below_zero_are_failures() {
    assert!(matches!(reply(0), Ok(0)));
    assert!(matches!(reply(12), Ok(12)));
    assert!(matches!(reply(i32::MAX), Ok(2147483647)));
    assert!(matches!(reply(-1), Err(Error::Pi(-1))));
    assert!(matches!(reply(i32::MIN), Err(Error::Pi(i32::MIN))));
}

#[test]
fn pins_of_the_board_are_accepted() {
    assert_eq!(Gpio::new(0).unwrap().index(), 0);
    assert_eq!(Gpio::new(17).unwrap().index(), 17);
    assert_eq!(Gpio::new(53).unwrap().index(), 53);
}

#[test]
fn pins_beyond_the_board_are_refused() {
    assert_eq!(Gpio::new(54), None);
    assert_eq!(Gpio::new(u32::MAX), None);
}

#[test]
fn pins_are_read_from_text() {
    assert_eq!(Gpio::from_str("17").unwrap().index(), 17);
    assert_eq!(Gpio::from_str("+5").unwrap().index(), 5);
    assert_eq!(Gpio::from_str("053").unwrap().index(), 53);
    assert_eq!("21".parse::<Gpio>().unwrap().index(), 21);
}

#[test]
fn a_number_that_is_no_pin_is_a_bad_gpio() {
    for text in ["54", "100", "4294967295"] {
        let failure = Gpio::from_str(text).unwrap_err();
        assert_eq!(failure.raw_pi_error(), Some(-3), "text {text:?}");
        assert_eq!(failure.kind(), ErrorKind::BadGpio);
    }
}

#[test]
fn text_that_is_no_number_is_no_pin() {
    for text in ["", "-1", "-0", "seventeen", "1 7", "+", "0x11"] {
        let failure = Gpio::from_str(text).unwrap_err();
        assert_eq!(failure.raw_pi_error(), None, "text {text:?}");
        assert_eq!(failure.kind(), ErrorKind::Other);
        assert_eq!(failure.get_ref(), Some("not a whole number"));
    }
}

#[test]
fn a_number_beyond_32_bits_is_no_pin() {
    for text in ["4294967296", "9223372036854775807", "99999999999999999999"] {
        let failure = Gpio::from_str(text).unwrap_err();
        assert_eq!(failure.raw_pi_error(), None, "text {text:?}");
        assert_eq!(failure.kind(), ErrorKind::Other);
        assert_eq!(failure.get_ref(), Some("number out of range"));
    }
}

#[test]
fn modes_and_levels_have_the_numbers_of_the_daemon() {
    assert_eq!(GpioMode::Input.code(), 0);
    assert_eq!(GpioMode::Output.code(), 1);
    assert_eq!(GpioLevel::Low.code(), 0);
    assert_eq!(GpioLevel::High.code(), 1);
    assert_eq!(FileMode::Read.code(), 1);
    assert_eq!(FileMode::Write.code(), 2);
    assert_eq!(FileMode::RW.code(), 3);
}

#[test]
fn pin_requests_name_session_pin_and_value() {
    let pi = session(5);
    let pin = Gpio::new(27).unwrap();
    assert_eq!(
        pi.set_mode(pin, GpioMode::Output),
        Command::SetMode { pi: 5, gpio: pin, mode: GpioMode::Output }
    );
    assert_eq!(
        pi.gpio_write(pin, GpioLevel::High),
        Command::Write { pi: 5, gpio: pin, level: GpioLevel::High }
    );
}

#[test]
fn a_file_is_opened_read_and_closed_by_its_handle() {
    let pi = session(2);
    let opening = File::open(&pi, "/tmp/data", FileMode::RW);
    assert!(matches!(
        opening.request(),
        FileRequest::Open { pi: 2, path: "/tmp/data", mode: FileMode::RW }
    ));
    let file = opening.finish(9).unwrap();
    assert!(matches!(file.read(16), FileRequest::Read { pi: 2, handle: 9, count: 16 }));
    assert!(matches!(file.close(), FileRequest::Close { pi: 2, handle: 9 }));
}

#[test]
fn a_file_that_cannot_be_opened_reports_the_status() {
    let pi = session(2);
    let failure = File::open(&pi, "/missing", FileMode::Read).finish(-128).unwrap_err();
    assert_eq!(failure.raw_pi_error(), Some(-128));
    assert_eq!(failure.kind(), ErrorKind::FilOpenFailed);
}

#[test]
fn a_transfer_opens_reads_and_closes() {
    let pi = session(4);
    let transfer = read_to_string(&pi, "/sensor", 64);
    assert!(matches!(
        transfer.request(),
        FileRequest::Open { pi: 4, path: "/sensor", mode: FileMode::Read }
    ));
    let TransferStep::Continue(transfer) = transfer.advance(3, &[]) else {
        panic!("the file was opened");
    };
    assert!(matches!(transfer.request(), FileRequest::Read { pi: 4, handle: 3, count: 64 }));
    let TransferStep::Continue(transfer) = transfer.advance(6, b"23625\nrest of the buffer") else {
        panic!("the file is still to be closed");
    };
    assert!(matches!(transfer.request(), FileRequest::Close { pi: 4, handle: 3 }));
    let TransferStep::Finished(outcome) = transfer.advance(0, &[]) else {
        panic!("the file was closed");
    };
    assert_eq!(outcome.unwrap(), b"23625\n");
}

#[test]
fn a_transfer_takes_no_more_bytes_than_came() {
    let pi = session(4);
    let TransferStep::Continue(transfer) = read_to_string(&pi, "/sensor", 64).advance(0, &[])
    else {
        panic!("the file was opened");
    };
    let TransferStep::Continue(transfer) = transfer.advance(100, b"123\n") else {
        panic!("the file is still to be closed");
    };
    let TransferStep::Finished(outcome) = transfer.advance(0, &[]) else {
        panic!("the file was closed");
    };
    assert_eq!(outcome.unwrap(), b"123\n");
}

#[test]
fn a_transfer_ends_at_once_when_the_file_cannot_be_opened() {
    let pi = session(4);
    let TransferStep::Finished(outcome) = read_to_string(&pi, "/sensor", 64).advance(-128, &[])
    else {
        panic!("nothing was opened");
    };
    let failure = outcome.unwrap_err();
    assert_eq!(failure.raw_pi_error(), Some(-128));
}

#[test]
fn a_transfer_closes_the_file_after_a_failed_read() {
    let pi = session(4);
    let TransferStep::Continue(transfer) = read_to_string(&pi, "/sensor", 64).advance(7, &[])
    else {
        panic!("the file was opened");
    };
    let TransferStep::Continue(transfer) = transfer.advance(-131, b"junk") else {
        panic!("the file is still to be closed");
    };
    assert!(matches!(transfer.request(), FileRequest::Close { pi: 4, handle: 7 }));
    let TransferStep::Finished(outcome) = transfer.advance(-25, &[]) else {
        panic!("the file was closed");
    };
    let failure = outcome.unwrap_err();
    assert_eq!(failure.raw_pi_error(), Some(-131));
    assert_eq!(failure.kind(), ErrorKind::BadFileRead);
}
