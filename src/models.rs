use vstd::prelude::*;

verus! {

/// Layout in which a task's creation time is written out.
pub const DATE_FORMAT: &'static str = "[year]-[month]-[day] [hour]:[minute]:[second]";

pub open spec fn is_leap_year(year: int) -> bool {
    year % 4 == 0 && (year % 100 != 0 || year % 400 == 0)
}

pub open spec fn days_in_month(year: int, month: int) -> int {
    if month == 2 {
        if is_leap_year(year) { 29 } else { 28 }
    } else if month == 4 || month == 6 || month == 9 || month == 11 {
        30
    } else {
        31
    }
}

/// The decimal digit `d` (0 to 9) as a character.
pub open spec fn digit(d: int) -> char {
    seq!['0', '1', '2', '3', '4', '5', '6', '7', '8', '9'][d]
}

/// `n` (0 to 99) as two digits, zero-padded.
pub open spec fn two_digits(n: int) -> Seq<char> {
    seq![digit(n / 10), digit(n % 10)]
}

/// `n` (0 to 9999) as four digits, zero-padded.
pub open spec fn four_digits(n: int) -> Seq<char> {
    seq![digit(n / 1000), digit((n / 100) % 10), digit((n / 10) % 10), digit(n % 10)]
}

/// A calendar date and wall-clock time, to the second, as the storage layer
/// stamps a task when it is inserted.
#[derive(Debug, Clone, Copy, PartialEq, Eq)]
pub struct Timestamp {
    pub year: u16,
    pub month: u8,
    pub day: u8,
    pub hour: u8,
    pub minute: u8,
    pub second: u8,
}

impl Timestamp {
    /// A real instant with a four-digit year.
    pub open spec fn wf(&self) -> bool {
        &&& self.year <= 9999
        &&& 1 <= self.month <= 12
        &&& 1 <= self.day <= days_in_month(self.year as int, self.month as int)
        &&& self.hour < 24
        &&& self.minute < 60
        &&& self.second < 60
    }

    /// `YYYY-MM-DD HH:MM:SS`.
    pub open spec fn text(&self) -> Seq<char> {
        four_digits(self.year as int) + seq!['-'] + two_digits(self.month as int) + seq!['-']
            + two_digits(self.day as int) + seq![' '] + two_digits(self.hour as int) + seq![':']
            + two_digits(self.minute as int) + seq![':'] + two_digits(self.second as int)
    }
}

/// Relies on time's `format_description::parse`, `Month::try_from`,
/// `Date::from_calendar_date`, `Time::from_hms` and `PrimitiveDateTime::format`:
/// each field is written zero-padded, a year below 10000 in four digits
/// without sign. A well-formed timestamp is a valid date and time, so no
/// `unwrap` here fails.
#[verifier::external_body]
fn format_timestamp(ts: &Timestamp) -> (r: String)
    requires
        ts.wf(),
    ensures
        r@ == ts.text(),
{
    let format = time::format_description::parse(DATE_FORMAT).unwrap();
    let month = time::Month::try_from(ts.month).unwrap();
    let date = time::Date::from_calendar_date(ts.year as i32, month, ts.day).unwrap();
    let clock = time::Time::from_hms(ts.hour, ts.minute, ts.second).unwrap();
    time::PrimitiveDateTime::new(date, clock).format(&format).unwrap()
}

/// The creation time as it appears in a task's JSON form.
pub fn serialize_datetime(dt: &Timestamp) -> (r: String)
    requires
        dt.wf(),
    ensures
        r@ == dt.text(),
        r@.len() == 19,
{
    format_timestamp(dt)
}

/// One stored task.
#[derive(Debug, Clone, PartialEq, Eq)]
pub struct Task {
    pub id: String,
    pub description: String,
    /// 0 for open, anything else for done.
    pub completed: i32,
    pub created_at: Timestamp,
}

/// Body of a create request.
#[derive(Debug, Clone, PartialEq, Eq)]
pub struct AddTaskBody {
    pub task: String,
}

/// Reply to a successful create.
#[derive(Debug, Clone, PartialEq, Eq)]
pub struct AddTaskResponse {
    pub message: String,
}

impl AddTaskResponse {
    pub fn added() -> (r: AddTaskResponse)
        ensures
            r.message@ == "Task added successfully"@,
    {
        AddTaskResponse { message: String::from_str("Task added successfully") }
    }
}

/// Reply to a list request.
#[derive(Debug, Clone, PartialEq, Eq)]
pub struct ListTaskResponse {
    pub tasks: Vec<Task>,
}

/// Body of an update request; an absent field is left as it is.
#[derive(Debug, Clone, PartialEq, Eq)]
pub struct UpdateTaskBody {
    pub description: Option<String>,
    pub completed: Option<i32>,
}

impl UpdateTaskBody {
    /// The new description, if one is supplied.
    pub open spec fn description_view(&self) -> Option<Seq<char>> {
        match self.description {
            Some(d) => Some(d@),
            None => None,
        }
    }

    /// The new completion flag, if one is supplied.
    pub open spec fn completed_view(&self) -> Option<int> {
        match self.completed {
            Some(c) => Some(c as int),
            None => None,
        }
    }
}

/// Reply to a successful update: the row as read back.
#[derive(Debug, Clone, PartialEq, Eq)]
pub struct UpdateTaskResponse {
    pub task: Task,
}

/// Body of a delete request.
#[derive(Debug, Clone, PartialEq, Eq)]
pub struct DeleteTaskBody {
    pub id: String,
}

/// Reply to a successful delete.
#[derive(Debug, Clone, PartialEq, Eq)]
pub struct DeleteTaskResponse {
    pub message: String,
}

impl DeleteTaskResponse {
    pub fn deleted() -> (r: DeleteTaskResponse)
        ensures
            r.message@ == "Task deleted successfully"@,
    {
        DeleteTaskResponse { message: String::from_str("Task deleted successfully") }
    }
}

} // verus!
