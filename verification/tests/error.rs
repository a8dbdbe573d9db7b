use cps::error::{Error, ErrorKind};

#[test]
fn statuses_name_their_kinds() {
    assert_eq!(ErrorKind::from(-1), ErrorKind::InitFailed);
    assert_eq!(ErrorKind::from(-2), ErrorKind::BadUserGpio);
    assert_eq!(ErrorKind::from(-3), ErrorKind::BadGpio);
    assert_eq!(ErrorKind::from(-23), ErrorKind::BadPathname);
    assert_eq!(ErrorKind::from(-24), ErrorKind::NoHandle);
    assert_eq!(ErrorKind::from(-25), ErrorKind::BadHandle);
    assert_eq!(ErrorKind::from(-128), ErrorKind::FilOpenFailed);
    assert_eq!(ErrorKind::from(-131), ErrorKind::BadFileRead);
    assert_eq!(ErrorKind::from(-146), ErrorKind::OnlyOnBcm2711);
    assert_eq!(ErrorKind::from(-2000), ErrorKind::BadSend);
    assert_eq!(ErrorKind::from(-2003), ErrorKind::BadConnect);
    assert_eq!(ErrorKind::from(-2011), ErrorKind::UnconnectedPi);
    assert_eq!(ErrorKind::from(-2012), ErrorKind::TooManyPis);
}

#[test]
fn other_statuses_are_unknown() {
    for code in [0, 1, 8888, -147, -1999, -2013, i32::MIN, i32::MAX] {
        assert_eq!(ErrorKind::from(code), ErrorKind::Other, "status {code}");
    }
}

#[test]
fn defined_statuses_name_distinct_kinds() {
    let mut seen = Vec::new();
    for code in (-146..=-1).chain(-2012..=-2000) {
        let kind = ErrorKind::from(code);
        assert_ne!(kind, ErrorKind::Other, "status {code}");
        assert!(!seen.contains(&kind), "status {code}");
        seen.push(kind);
    }
    assert_eq!(seen.len(), 159);
}

#[test]
fn kinds_describe_themselves() {
    assert_eq!(ErrorKind::InitFailed.as_str(), "pigpio initialisation failed");
    assert_eq!(ErrorKind::BadGpio.as_str(), "GPIO not 0-53");
    assert_eq!(ErrorKind::BadPathname.as_str(), "can't open pathname");
    assert_eq!(ErrorKind::FilOpenFailed.as_str(), "file open failed");
    assert_eq!(ErrorKind::TooManyPis.as_str(), "too many connected Pis");
    assert_eq!(ErrorKind::Other.as_str(), "unknown error");
}

#[test]
fn a_daemon_status_keeps_its_code_and_kind() {
    let failure = Error::from_raw_pi_error(-128);
    assert_eq!(failure.raw_pi_error(), Some(-128));
    assert_eq!(failure.kind(), ErrorKind::FilOpenFailed);
    assert_eq!(failure.get_ref(), None);
    assert_eq!(failure.into_inner(), None);
}

#[test]
fn a_bare_kind_is_its_own_kind() {
    let failure = Error::Simple(ErrorKind::BadMode);
    assert_eq!(failure.kind(), ErrorKind::BadMode);
    assert_eq!(failure.raw_pi_error(), None);
    assert_eq!(failure.get_ref(), None);
    assert_eq!(failure.to_text(), "mode not 0-7");
}

#[test]
fn a_described_failure_keeps_its_description() {
    let failure = Error::new(ErrorKind::BadSocket, "no route".to_string());
    assert_eq!(failure.kind(), ErrorKind::BadSocket);
    assert_eq!(failure.raw_pi_error(), None);
    assert_eq!(failure.get_ref(), Some("no route"));
    assert_eq!(failure.to_text(), "no route");
    assert_eq!(failure.into_inner(), Some("no route".to_string()));
}

#[test]
fn other_failures_are_of_the_other_kind() {
    let failure = Error::other("odd".to_string());
    assert_eq!(failure.kind(), ErrorKind::Other);
    assert_eq!(failure.get_ref(), Some("odd"));
}

#[test]
fn a_daemon_status_is_shown_with_its_description() {
    assert_eq!(Error::Pi(-128).to_text(), "file open failed (pi error -128)");
    assert_eq!(Error::Pi(-23).to_text(), "can\\'t open pathname (pi error -23)");
    assert_eq!(Error::Pi(-2003).to_text(), "failed to connect to pigpiod (pi error -2003)");
    assert_eq!(Error::Pi(7).to_text(), "unknown error (pi error 7)");
    assert_eq!(Error::Pi(i32::MIN).to_text(), "unknown error (pi error -2147483648)");
}
