//! What the display shows: the time of day as a twelve-hour label, and the
//! row at which the label is drawn.

use vstd::prelude::*;

verus! {

/// Rows that the label takes up on the screen.
pub const TEXT_ROWS: u16 = 5;

/// The decimal digit for `n`, where `n` is below ten.
pub open spec fn digit(n: int) -> char {
    seq!['0', '1', '2', '3', '4', '5', '6', '7', '8', '9'][n]
}

/// The hour of a twelve-hour clock for an hour of the day: 12 at midnight and
/// at noon, 1 to 11 in between.
pub open spec fn twelve_hour(hour: int) -> int {
    if hour % 12 == 0 {
        12
    } else {
        hour % 12
    }
}

/// The label for a time of day: hour of the twelve-hour clock and minute,
/// both in two digits, and `AM` before noon or `PM` from noon on.
pub open spec fn label_text(hour: int, minute: int) -> Seq<char> {
    seq![
        digit(twelve_hour(hour) / 10),
        digit(twelve_hour(hour) % 10),
        ':',
        digit(minute / 10),
        digit(minute % 10),
        ' ',
        if hour < 12 {
            'A'
        } else {
            'P'
        },
        'M',
    ]
}

/// The row at which a label of [`TEXT_ROWS`] rows starts in a viewport of
/// `height` rows: half of what the label leaves free, and the top row where
/// it leaves nothing.
pub open spec fn top_row(height: int) -> int {
    if height > 5 {
        (height - 5) / 2
    } else {
        0
    }
}

/// Formats a time of day with `chrono`: `NaiveTime::from_hms_opt` makes the
/// time from `hour`, `minute` and second 0, and `NaiveTime::format` writes it
/// with the pattern `%I:%M %p`. For that pattern chrono writes the hour of the
/// twelve-hour clock (01 to 12) and the minute (00 to 59), each padded with a
/// zero to two digits, with a colon between them, then a space and `AM` or
/// `PM`. `from_hms_opt` gives no time for an hour from 24 or a minute from 60
/// on, so those are left out.
#[verifier::external_body]
fn format_twelve_hour(hour: u32, minute: u32) -> (text: String)
    requires
        hour < 24,
        minute < 60,
    ensures
        text@ == label_text(hour as int, minute as int),
{
    match chrono::NaiveTime::from_hms_opt(hour, minute, 0) {
        Some(time) => time.format("%I:%M %p").to_string(),
        None => String::new(),
    }
}

/// A time of day, to the minute.
#[derive(Clone, Copy, Debug, PartialEq, Eq)]
pub struct WallClock {
    hour: u32,
    minute: u32,
}

impl WallClock {
    #[verifier::type_invariant]
    spec fn in_range(self) -> bool {
        self.hour < 24 && self.minute < 60
    }

    /// The hour of the day, 0 to 23.
    pub closed spec fn hour(self) -> int {
        self.hour as int
    }

    /// The minute of the hour, 0 to 59.
    pub closed spec fn minute(self) -> int {
        self.minute as int
    }

    /// The time `hour`:`minute`, or `None` where the hour is not below 24 or
    /// the minute not below 60.
    pub fn new(hour: u32, minute: u32) -> (clock: Option<WallClock>)
        ensures
            clock.is_some() <==> hour < 24 && minute < 60,
            clock.is_some() ==> clock.unwrap().hour() == hour && clock.unwrap().minute()
                == minute,
    {
        if hour < 24 && minute < 60 {
            Some(WallClock { hour, minute })
        } else {
            None
        }
    }

    /// The label that the display shows for this time, such as `03:07 PM`.
    pub fn label(&self) -> (text: String)
        ensures
            text@ == label_text(self.hour(), self.minute()),
            text@.len() == 8,
    {
        proof {
            use_type_invariant(self);
        }
        format_twelve_hour(self.hour, self.minute)
    }
}

/// The row at which the label is drawn in a viewport of `height` rows.
pub fn label_row(height: u16) -> (row: u16)
    ensures
        row == top_row(height as int),
{
    height.saturating_sub(TEXT_ROWS) / 2
}

} // verus!
