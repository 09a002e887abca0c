//! Reminders attached to notes.
use vstd::prelude::*;

use crate::types::datetime::DateTime;
use crate::types::id::{is_valid_id, Id};
use crate::types::time::{
    reminder_time_of_fields, utc_fields_of_nanos, Date, Hour, Hour12, Minute, ReminderTime,
    SimpleTime, TimePeriod,
};

verus! {

/// What a reminder holds.
pub struct ReminderView {
    pub id: u64,
    pub text: Seq<char>,
    pub due: ReminderTime,
    pub has_fired: bool,
}

/// A reminder: a text that falls due at a reminder time.
///
/// Reminders are told apart by their identifier alone.
#[derive(Debug)]
pub struct Reminder {
    id: Id,
    text: String,
    due: ReminderTime,
    has_fired: bool,
}

impl View for Reminder {
    type V = ReminderView;

    closed spec fn view(&self) -> ReminderView {
        ReminderView { id: self.id@, text: self.text@, due: self.due, has_fired: self.has_fired }
    }
}

/// Whether two reminders are the same reminder: they have the same identifier.
pub open spec fn same_reminder(a: ReminderView, b: ReminderView) -> bool {
    a.id == b.id
}

impl Reminder {
    /// A new reminder due at `due`; it has fired already when `due` is in the past.
    pub fn new(text: &str, due: DateTime) -> (r: Reminder)
        ensures
            is_valid_id(r@.id),
            r@.text == text@,
            r@.due == reminder_time_of_fields(utc_fields_of_nanos(due@ as i128)),
    {
        let now = DateTime::now_utc();
        let has_fired = now.is_after(&due);
        Reminder {
            id: Id::random(),
            text: text.to_owned(),
            due: ReminderTime::from_time_dt(due),
            has_fired,
        }
    }

    /// A new reminder due one day from now.
    pub fn default_reminder() -> (r: Reminder)
        ensures
            is_valid_id(r@.id),
            r@.text == "New Reminder"@,
            !r@.has_fired,
    {
        let now = DateTime::now_utc();
        let n = now.unix_nanos();
        let day: i128 = 86_400_000_000_000;
        let due = if n <= 253_402_300_799_999_999_999i128 - day {
            DateTime::from_unix_nanos(n + day)
        } else {
            now
        };
        Reminder {
            id: Id::random(),
            text: "New Reminder".to_owned(),
            due: ReminderTime::from_time_dt(due),
            has_fired: false,
        }
    }

    /// A reminder with the given parts.
    pub fn existing(id: Id, text: String, due: DateTime, has_fired: bool) -> (r: Reminder)
        ensures
            r@.id == id@,
            r@.text == text@,
            r@.due == reminder_time_of_fields(utc_fields_of_nanos(due@ as i128)),
            r@.has_fired == has_fired,
    {
        Reminder { id, text, due: ReminderTime::from_time_dt(due), has_fired }
    }

    /// A reminder with the given parts, the due time given as a reminder time.
    pub fn from_parts(id: Id, text: String, due: ReminderTime, has_fired: bool) -> (r: Reminder)
        ensures
            r@ == (ReminderView { id: id@, text: text@, due, has_fired }),
    {
        Reminder { id, text, due, has_fired }
    }

    pub fn id(&self) -> (id: Id)
        ensures
            id@ == self@.id,
    {
        self.id
    }

    pub fn text(&self) -> (s: &str)
        ensures
            s@ == self@.text,
    {
        self.text.as_str()
    }

    pub fn set_text(&mut self, text: &str)
        ensures
            final(self)@ == (ReminderView { text: text@, ..old(self)@ }),
    {
        self.text = text.to_owned();
    }

    /// The instant the reminder is due.
    pub fn due(&self) -> (dt: DateTime)
        ensures
            dt == self@.due.to_time_dt_spec(),
    {
        self.due.to_time_dt_local()
    }

    /// Moves the due time to `due` (to the minute), unless it is due then already.
    pub fn set_due(&mut self, due: DateTime)
        ensures
            due == old(self)@.due.to_time_dt_spec() ==> final(self)@ == old(self)@,
            due != old(self)@.due.to_time_dt_spec() ==> final(self)@ == (ReminderView {
                due: reminder_time_of_fields(utc_fields_of_nanos(due@ as i128)),
                ..old(self)@
            }),
    {
        let current = self.due();
        if current != due {
            self.due = ReminderTime::from_time_dt(due);
        }
    }

    /// Moves the due date to `date`, keeping the time of day.
    pub fn set_due_date(&mut self, date: Date)
        ensures
            final(self)@ == (ReminderView {
                due: ReminderTime { date, ..old(self)@.due },
                ..old(self)@
            }),
    {
        if date != self.due.date {
            self.due.replace_date(date);
        }
    }

    pub fn get_due_time(&self) -> (r: (Hour12, Minute, TimePeriod))
        ensures
            r == (self@.due.time.hour, self@.due.time.minute, self@.due.time.period),
    {
        self.due.time.to_hmp()
    }

    /// The reminder time at which the reminder is due.
    pub fn reminder_time(&self) -> (rt: ReminderTime)
        ensures
            rt == self@.due,
    {
        self.due
    }

    pub fn get_due_date(&self) -> (d: Date)
        ensures
            d == self@.due.date,
    {
        self.due.date
    }

    pub fn set_due_hour(&mut self, hour: Hour12)
        ensures
            final(self)@ == (ReminderView {
                due: ReminderTime {
                    time: SimpleTime { hour, ..old(self)@.due.time },
                    ..old(self)@.due
                },
                ..old(self)@
            }),
    {
        self.due.replace_hour(hour);
    }

    pub fn set_due_minute(&mut self, minute: Minute)
        ensures
            final(self)@ == (ReminderView {
                due: ReminderTime {
                    time: SimpleTime { minute, ..old(self)@.due.time },
                    ..old(self)@.due
                },
                ..old(self)@
            }),
    {
        self.due.replace_mins(minute);
    }

    pub fn set_due_period(&mut self, period: TimePeriod)
        ensures
            final(self)@ == (ReminderView {
                due: ReminderTime {
                    time: SimpleTime { period, ..old(self)@.due.time },
                    ..old(self)@.due
                },
                ..old(self)@
            }),
    {
        self.due.replace_period(period);
    }

    /// Sets the time of day from a twenty-four-hour-clock hour and a minute.
    pub fn set_due_hour_minute(&mut self, hour: Hour, minute: Minute)
        ensures
            final(self)@.due.time == SimpleTime::from_military_spec(hour, minute),
            final(self)@.due.date == old(self)@.due.date,
            final(self)@.id == old(self)@.id,
            final(self)@.text == old(self)@.text,
            final(self)@.has_fired == old(self)@.has_fired,
    {
        self.due.time = SimpleTime::from_military(hour, minute);
    }

    pub fn set_due_hmp(&mut self, hour: Hour12, minute: Minute, period: TimePeriod)
        ensures
            final(self)@ == (ReminderView {
                due: ReminderTime { time: SimpleTime { hour, minute, period }, ..old(self)@.due },
                ..old(self)@
            }),
    {
        self.due.time = SimpleTime::new(hour, minute, period);
    }

    pub fn has_fired(&self) -> (b: bool)
        ensures
            b == self@.has_fired,
    {
        self.has_fired
    }

    /// Whether the reminder is due at `now`: `now` is after its due time.
    pub fn is_due_based_on(&self, now: &DateTime) -> (b: bool)
        ensures
            b == (now@ > self@.due.to_time_dt_spec()@),
    {
        let due = self.due();
        now.is_after(&due)
    }

    /// Whether the reminder is due now, by the system clock.
    pub fn is_due_utc(&self) -> (b: bool) {
        let now = DateTime::now_utc();
        self.is_due_based_on(&now)
    }

    /// Whether the reminder is due now; date-times here carry no zone, so this is
    /// `is_due_utc` and always succeeds.
    pub fn is_due_local(&self) -> (r: Result<bool, crate::types::error::Error>)
        ensures
            r is Ok,
    {
        Ok(self.is_due_utc())
    }

    pub fn fire(&mut self)
        ensures
            final(self)@ == (ReminderView { has_fired: true, ..old(self)@ }),
    {
        self.has_fired = true;
    }

    /// Clears the reminder: null identifier, empty text, fired, due at the epoch.
    pub fn clear(&mut self)
        ensures
            final(self)@ == (ReminderView {
                id: 0,
                text: Seq::empty(),
                due: reminder_time_of_fields(utc_fields_of_nanos(0)),
                has_fired: true,
            }),
    {
        self.due = ReminderTime::epoch();
        self.has_fired = true;
        self.text = String::new();
        self.id.make_null();
    }

    /// Whether the reminder has been cleared (its identifier is null).
    pub fn is_null(&self) -> (b: bool)
        ensures
            b == (self@.id == 0),
    {
        self.id.is_null()
    }
}

impl Clone for Reminder {
    fn clone(&self) -> (r: Reminder)
        ensures
            r@ == self@,
    {
        Reminder {
            id: self.id,
            text: self.text.clone(),
            due: self.due,
            has_fired: self.has_fired,
        }
    }
}

} // verus!
