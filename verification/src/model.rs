//! Readings as the store keeps them, and what to do when the store refuses one.
//!
//! Temperatures are thousandths of a degree Celsius. The store assigns each row the
//! moment of its creation, kept here as seconds and nanoseconds since 1970 in UTC.

use crate::decimal::{int_text, push_i64};
use crate::sensor::{degrees_text, push_fraction, push_whole, thousandths_of};
use vstd::prelude::*;

verus! {

/// A reading that is to be stored.
#[derive(Debug, Clone, Copy, PartialEq, Eq, Structural)]
pub struct NewTemperature {
    temperature: i64,
}

impl From<i64> for NewTemperature {
    fn from(temperature: i64) -> (row: Self)
        ensures
            row.thousandths() == temperature,
    {
        Self { temperature }
    }
}

impl vstd::std_specs::convert::FromSpecImpl<i64> for NewTemperature {
    open spec fn obeys_from_spec() -> bool {
        true
    }

    open spec fn from_spec(temperature: i64) -> NewTemperature {
        NewTemperature::of(temperature)
    }
}

/// A reading as the store returned it.
#[derive(Debug, Clone, Copy, PartialEq, Eq, Structural)]
pub struct Temperature {
    created_secs: i64,
    created_nanos: u32,
    temperature: i64,
}

/// What the store made of an insert.
#[derive(Debug, Clone, Copy, PartialEq, Eq, Structural)]
pub enum InsertOutcome {
    /// The row is stored; this is how the store returned it.
    Stored(Temperature),
    /// The store has a row of the same moment already.
    Conflict,
    /// The store failed in another way.
    Failed,
}

/// Why a reading was not stored.
#[derive(Debug, Clone, Copy, PartialEq, Eq, Structural)]
pub enum InsertError {
    /// The store reported a conflict for the second time.
    Conflict,
    /// The store failed in another way.
    Store,
}

/// How long to wait before the one retry, in seconds.
pub const BACKOFF_SECONDS: u64 = 1;

/// The storing of one reading: a first attempt and, after a conflict, one more.
#[derive(Debug, Clone, Copy, PartialEq, Eq, Structural)]
pub struct Insertion {
    row: NewTemperature,
    retried: bool,
}

/// What follows an attempt to insert.
#[derive(Debug, Clone, Copy, PartialEq, Eq, Structural)]
pub enum InsertStep {
    /// The reading is stored.
    Stored(Temperature),
    /// Wait for `seconds`, then insert [`Insertion::row`] once more.
    Retry { seconds: u64, insertion: Insertion },
    /// The reading is not stored, and no further attempt is due.
    Failed(InsertError),
}

impl NewTemperature {
    /// The row that holds the reading `temperature`.
    pub closed spec fn of(temperature: i64) -> NewTemperature {
        NewTemperature { temperature }
    }

    /// The reading, in thousandths of a degree.
    pub closed spec fn thousandths(self) -> i64 {
        self.temperature
    }

    /// The reading, in thousandths of a degree.
    pub fn temperature(&self) -> (temperature: i64)
        ensures
            temperature == self.thousandths(),
    {
        self.temperature
    }

    /// The storing of the reading before its first attempt.
    pub closed spec fn first_attempt(self) -> Insertion {
        Insertion { row: self, retried: false }
    }

    /// Begins to store the reading: the row is to be inserted for the first time.
    pub fn try_insert(self) -> (insertion: Insertion)
        ensures
            insertion == self.first_attempt(),
            insertion.pending() == self,
            !insertion.has_retried(),
    {
        Insertion { row: self, retried: false }
    }
}

/// The row made from a reading holds that reading, and its storing begins with the
/// first attempt.
pub proof fn from_keeps_the_reading(temperature: i64)
    ensures
        NewTemperature::of(temperature).thousandths() == temperature,
        NewTemperature::of(temperature).first_attempt().pending() == NewTemperature::of(temperature),
        !NewTemperature::of(temperature).first_attempt().has_retried(),
{
}

impl Insertion {
    /// The row to insert.
    pub closed spec fn pending(self) -> NewTemperature {
        self.row
    }

    /// The row was refused once already.
    pub closed spec fn has_retried(self) -> bool {
        self.retried
    }

    /// What follows the store's answer `outcome`: a conflict is answered by one retry
    /// after [`BACKOFF_SECONDS`], a second conflict and every other failure by giving up.
    pub closed spec fn after(self, outcome: InsertOutcome) -> InsertStep {
        match outcome {
            InsertOutcome::Stored(row) => InsertStep::Stored(row),
            InsertOutcome::Conflict => if self.retried {
                InsertStep::Failed(InsertError::Conflict)
            } else {
                InsertStep::Retry {
                    seconds: BACKOFF_SECONDS,
                    insertion: Insertion { row: self.row, retried: true },
                }
            },
            InsertOutcome::Failed => InsertStep::Failed(InsertError::Store),
        }
    }

    /// The row to insert.
    pub fn row(&self) -> (row: NewTemperature)
        ensures
            row == self.pending(),
    {
        self.row
    }

    /// Takes the store's answer to the insert.
    pub fn advance(self, outcome: InsertOutcome) -> (step: InsertStep)
        ensures
            step == self.after(outcome),
            outcome matches InsertOutcome::Stored(row) ==> step == InsertStep::Stored(row),
            outcome == InsertOutcome::Failed ==> step == InsertStep::Failed(InsertError::Store),
            outcome == InsertOutcome::Conflict && self.has_retried() ==> step == InsertStep::Failed(
                InsertError::Conflict,
            ),
            outcome == InsertOutcome::Conflict && !self.has_retried() ==> (step
                matches InsertStep::Retry { seconds, insertion } && seconds == BACKOFF_SECONDS
                && insertion.pending() == self.pending() && insertion.has_retried()),
    {
        match outcome {
            InsertOutcome::Stored(row) => InsertStep::Stored(row),
            InsertOutcome::Conflict => if self.retried {
                InsertStep::Failed(InsertError::Conflict)
            } else {
                InsertStep::Retry {
                    seconds: BACKOFF_SECONDS,
                    insertion: Insertion { row: self.row, retried: true },
                }
            },
            InsertOutcome::Failed => InsertStep::Failed(InsertError::Store),
        }
    }
}

/// A reading is inserted twice at most: the first answer calls for a retry exactly
/// when it is a conflict, the retry waits [`BACKOFF_SECONDS`] and inserts the same row,
/// and no answer to the retry calls for another.
pub proof fn at_most_one_retry(fresh: Insertion, first: InsertOutcome, second: InsertOutcome)
    requires
        !fresh.has_retried(),
    ensures
        fresh.after(first) is Retry <==> first == InsertOutcome::Conflict,
        fresh.after(first) matches InsertStep::Retry { seconds, insertion } ==> {
            &&& seconds == BACKOFF_SECONDS
            &&& insertion.pending() == fresh.pending()
            &&& !(insertion.after(second) is Retry)
            &&& second == InsertOutcome::Conflict ==> insertion.after(second)
                == InsertStep::Failed(InsertError::Conflict)
        },
{
}

/// An insertion that has had its retry gets no other.
pub proof fn no_second_retry(retried: Insertion, outcome: InsertOutcome)
    requires
        retried.has_retried(),
    ensures
        !(retried.after(outcome) is Retry),
{
}

/// The text by which chrono shows the moment that lies `secs` seconds and `nanos`
/// nanoseconds behind the start of 1970, without a time zone; `None` where chrono has
/// no such moment.
pub uninterp spec fn moment_text(secs: i64, nanos: u32) -> Option<Seq<char>>;

/// chrono's `DateTime::from_timestamp`, then `naive_utc` and the `Display` of
/// `NaiveDateTime`. The result depends on the two numbers alone, which is all that is
/// claimed of it; `from_timestamp` has no moment for numbers out of its range.
#[verifier::external_body]
fn moment_to_text(secs: i64, nanos: u32) -> (text: Option<String>)
    ensures
        text is Some <==> moment_text(secs, nanos) is Some,
        text matches Some(shown) ==> moment_text(secs, nanos) == Some(shown@),
{
    match chrono::DateTime::from_timestamp(secs, nanos) {
        Some(moment) => Some(moment.naive_utc().to_string()),
        None => None,
    }
}

/// How many digits behind the decimal point a reading needs: none for whole degrees,
/// else as many as leave no zero at the end.
pub open spec fn places_needed(milli: int) -> nat {
    let thousandths = thousandths_of(milli);
    if thousandths == 0 {
        0
    } else if thousandths % 100 == 0 {
        1
    } else if thousandths % 10 == 0 {
        2
    } else {
        3
    }
}

/// As many spaces as `text` lacks to `width` characters, and then `text`.
pub open spec fn right_aligned(text: Seq<char>, width: nat) -> Seq<char> {
    if text.len() >= width {
        text
    } else {
        Seq::new((width - text.len()) as nat, |i: int| ' ') + text
    }
}

impl Temperature {
    /// The moment of creation: seconds and nanoseconds since 1970 in UTC.
    pub closed spec fn created(self) -> (i64, u32) {
        (self.created_secs, self.created_nanos)
    }

    /// The reading, in thousandths of a degree.
    pub closed spec fn thousandths(self) -> i64 {
        self.temperature
    }

    /// The row of the reading `temperature`, created `secs` seconds and `nanos`
    /// nanoseconds after the start of 1970 in UTC.
    pub fn new(secs: i64, nanos: u32, temperature: i64) -> (row: Self)
        ensures
            row.created() == (secs, nanos),
            row.thousandths() == temperature,
    {
        Temperature { created_secs: secs, created_nanos: nanos, temperature }
    }

    /// The reading, in thousandths of a degree.
    pub fn temperature(&self) -> (temperature: i64)
        ensures
            temperature == self.thousandths(),
    {
        self.temperature
    }

    /// The moment of creation: seconds and nanoseconds since 1970 in UTC.
    pub fn created_at(&self) -> (moment: (i64, u32))
        ensures
            moment == self.created(),
    {
        (self.created_secs, self.created_nanos)
    }

    /// The line of the row in a comma-separated table.
    pub open spec fn csv(self) -> Seq<char> {
        int_text(self.created().0 as int) + seq![','] + degrees_text(
            self.thousandths() as int,
            places_needed(self.thousandths() as int),
        )
    }

    /// The line of the row in a plain table, given the text of its moment.
    pub open spec fn line(self, moment: Seq<char>) -> Seq<char> {
        seq!['|'] + moment + seq!['|'] + right_aligned(
            degrees_text(self.thousandths() as int, 3),
            6,
        ) + seq!['|']
    }

    /// The row as a line of a comma-separated table: the second of its creation and
    /// the degrees, with no more digits behind the point than they need.
    pub fn to_csv(&self) -> (line: String)
        ensures
            line@ == self.csv(),
    {
        let mut line = String::new();
        push_i64(&mut line, self.created_secs);
        line.push(',');
        push_whole(&mut line, self.temperature);
        let thousandths: u64 = crate::sensor::magnitude_of(self.temperature) % 1000;
        let places: usize = if thousandths == 0 {
            0
        } else if thousandths % 100 == 0 {
            1
        } else if thousandths % 10 == 0 {
            2
        } else {
            3
        };
        push_fraction(&mut line, self.temperature, places);
        line
    }

    /// The row as a line of a plain table, given the text of its moment: the moment
    /// and the degrees between bars, the degrees with three digits behind the point
    /// and right-aligned in six characters.
    pub fn to_line(&self, moment: &str) -> (line: String)
        ensures
            line@ == self.line(moment@),
    {
        let mut degrees = String::new();
        push_whole(&mut degrees, self.temperature);
        push_fraction(&mut degrees, self.temperature, 3);
        let used = degrees.as_str().unicode_len();
        let mut line = String::new();
        line.push('|');
        line.append(moment);
        line.push('|');
        let ghost head = line@;
        let mut i: usize = used;
        while i < 6
            invariant
                used <= i,
                used < 6 ==> i <= 6,
                used >= 6 ==> i == used,
                line@ == head + Seq::new((i - used) as nat, |j: int| ' '),
            decreases 6 - i,
        {
            line.push(' ');
            i += 1;
        }
        line.append(degrees.as_str());
        line.push('|');
        line
    }

    /// The row as a line of a plain table, with the moment of its creation as chrono
    /// shows it. `None` where chrono has no such moment.
    pub fn to_text(&self) -> (line: Option<String>)
        ensures
            line is Some <==> moment_text(self.created().0, self.created().1) is Some,
            line matches Some(text) ==> text@ == self.line(
                moment_text(self.created().0, self.created().1)->Some_0,
            ),
    {
        match moment_to_text(self.created_secs, self.created_nanos) {
            Some(moment) => Some(self.to_line(moment.as_str())),
            None => None,
        }
    }
}

} // verus!
