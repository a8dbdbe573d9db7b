use cps::model::{
    InsertError, InsertOutcome, InsertStep, NewTemperature, Temperature, BACKOFF_SECONDS,
};

#[test]
fn a_new_row_holds_its_reading() {
    assert_eq!(NewTemperature::from(23625).temperature(), 23625);
    assert_eq!(NewTemperature::from(-1).temperature(), -1);
}

#[test]
fn a_stored_row_holds_its_reading() {
    assert_eq!(Temperature::new(1431648000, 0, 23625).temperature(), 23625);
}

#[test]
fn the_first_insert_that_succeeds_is_the_last() {
    let row = NewTemperature::from(23625);
    let insertion = row.try_insert();
    assert_eq!(insertion.row(), row);
    let stored = Temperature::new(1431648000, 0, 23625);
    assert_eq!(insertion.advance(InsertOutcome::Stored(stored)), InsertStep::Stored(stored));
}

#[test]
fn a_conflict_is_retried_once_after_a_second() {
    let row = NewTemperature::from(23625);
    let InsertStep::Retry { seconds, insertion } = row.try_insert().advance(InsertOutcome::Conflict)
    else {
        panic!("the first conflict calls for a retry");
    };
    assert_eq!(seconds, 1);
    assert_eq!(seconds, BACKOFF_SECONDS);
    assert_eq!(insertion.row(), row);
    let stored = Temperature::new(1431648001, 0, 23625);
    assert_eq!(insertion.advance(InsertOutcome::Stored(stored)), InsertStep::Stored(stored));
}

#[test]
fn a_second_conflict_is_an_error() {
    let InsertStep::Retry { insertion, .. } =
        NewTemperature::from(5).try_insert().advance(InsertOutcome::Conflict)
    else {
        panic!("the first conflict calls for a retry");
    };
    assert_eq!(
        insertion.advance(InsertOutcome::Conflict),
        InsertStep::Failed(InsertError::Conflict)
    );
}

#[test]
fn other_failures_are_not_retried() {
    let insertion = NewTemperature::from(5).try_insert();
    assert_eq!(insertion.advance(InsertOutcome::Failed), InsertStep::Failed(InsertError::Store));
    let InsertStep::Retry { insertion, .. } = insertion.advance(InsertOutcome::Conflict) else {
        panic!("the first conflict calls for a retry");
    };
    assert_eq!(insertion.advance(InsertOutcome::Failed), InsertStep::Failed(InsertError::Store));
}

#[test]
fn a_row_is_a_line_of_a_comma_separated_table() {
    assert_eq!(Temperature::new(1431648000, 0, 23625).to_csv(), "1431648000,23.625");
    assert_eq!(Temperature::new(1431648000, 999_999_999, 23500).to_csv(), "1431648000,23.5");
    assert_eq!(Temperature::new(0, 0, 23000).to_csv(), "0,23");
    assert_eq!(Temperature::new(-1, 0, 23010).to_csv(), "-1,23.01");
    assert_eq!(Temperature::new(7, 0, -500).to_csv(), "7,-0.5");
    assert_eq!(Temperature::new(7, 0, 0).to_csv(), "7,0");
    assert_eq!(Temperature::new(7, 0, 1).to_csv(), "7,0.001");
}

#[test]
fn a_line_of_a_plain_table_holds_moment_and_degrees() {
    let row = Temperature::new(0, 0, 23625);
    assert_eq!(row.to_line("2015-05-15 00:00:00"), "|2015-05-15 00:00:00|23.625|");
    assert_eq!(row.to_line(""), "||23.625|");
    assert_eq!(Temperature::new(0, 0, 5500).to_line("now"), "|now| 5.500|");
    assert_eq!(Temperature::new(0, 0, 7).to_line("now"), "|now| 0.007|");
    assert_eq!(Temperature::new(0, 0, -7).to_line("now"), "|now|-0.007|");
    assert_eq!(Temperature::new(0, 0, -10007).to_line("now"), "|now|-10.007|");
    assert_eq!(Temperature::new(0, 0, 1234567).to_line("now"), "|now|1234.567|");
}

#[test]
fn a_row_is_a_line_of_a_plain_table() {
    assert_eq!(
        Temperature::new(1431648000, 0, 23625).to_text().unwrap(),
        "|2015-05-15 00:00:00|23.625|"
    );
    assert_eq!(
        Temperature::new(947638923, 4_000_000, 5500).to_text().unwrap(),
        "|2000-01-12 01:02:03.004| 5.500|"
    );
    assert_eq!(Temperature::new(0, 0, 0).to_text().unwrap(), "|1970-01-01 00:00:00| 0.000|");
    assert_eq!(Temperature::new(-1, 0, -500).to_text().unwrap(), "|1969-12-31 23:59:59|-0.500|");
    assert_eq!(
        Temperature::new(86400, 0, 123456).to_text().unwrap(),
        "|1970-01-02 00:00:00|123.456|"
    );
    assert_eq!(
        Temperature::new(86400, 0, -123456).to_text().unwrap(),
        "|1970-01-02 00:00:00|-123.456|"
    );
}

#[test]
fn a_row_of_no_moment_has_no_line() {
    assert_eq!(Temperature::new(i64::MAX, 0, 1).to_text(), None);
    assert_eq!(Temperature::new(i64::MIN, 0, 1).to_text(), None);
    assert_eq!(Temperature::new(0, 2_000_000_000, 1).to_text(), None);
}
