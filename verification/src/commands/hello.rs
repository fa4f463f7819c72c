//! The greeting command.

use crate::utils::text::uppercase_of;
use chrono::Timelike;
use vstd::prelude::*;
use vstd::string::StringExecFns;

verus! {

/// The hour of the local wall clock, from `chrono::Local::now` and
/// `Timelike::hour`. Trusted: the hour of a day is below twenty-four.
/// Nothing else is claimed, as the clock and the time zone decide it.
#[verifier::external_body]
fn local_hour() -> (hour: u32)
    ensures
        hour < 24,
{
    chrono::Local::now().hour()
}

/// The salutation for an hour of the day: morning before noon, afternoon
/// until six in the evening, evening after that.
pub open spec fn time_of_day_text(hour: u32) -> Seq<char> {
    if hour <= 11 {
        "Good morning"@
    } else if hour <= 17 {
        "Good afternoon"@
    } else {
        "Good evening"@
    }
}

/// The greeting of `name` at `hour`.
pub open spec fn greeting_text(hour: u32, name: Seq<char>) -> Seq<char> {
    time_of_day_text(hour) + ", "@ + name + "! Welcome to PTD Ruby CLI"@
}

/// The lines the command prints at `hour`: the greeting, in upper case
/// where asked for, `repeat` times.
pub open spec fn greeting_lines(hour: u32, name: Seq<char>, uppercase: bool, repeat: nat) -> Seq<
    Seq<char>,
> {
    Seq::new(
        repeat,
        |i: int|
            if uppercase {
                uppercase_of(greeting_text(hour, name))
            } else {
                greeting_text(hour, name)
            },
    )
}

/// The greeting command: whom to greet, whether in upper case, and how
/// many times.
#[derive(Debug, Clone, PartialEq, Eq)]
pub struct HelloCommand {
    pub name: String,
    pub uppercase: bool,
    pub repeat: usize,
}

impl HelloCommand {
    pub fn new(name: String, uppercase: bool, repeat: usize) -> (command: Self)
        ensures
            command.name == name,
            command.uppercase == uppercase,
            command.repeat == repeat,
    {
        Self { name, uppercase, repeat }
    }

    /// The salutation for `hour`.
    pub fn time_of_day(hour: u32) -> (text: &'static str)
        ensures
            text@ == time_of_day_text(hour),
    {
        if hour <= 11 {
            "Good morning"
        } else if hour <= 17 {
            "Good afternoon"
        } else {
            "Good evening"
        }
    }

    /// The salutation for the current hour of the local clock.
    pub fn get_time_of_day(&self) -> (text: &'static str)
        ensures
            exists|hour: u32| hour < 24 && text@ == #[trigger] time_of_day_text(hour),
    {
        Self::time_of_day(local_hour())
    }

    /// The greeting at `hour`.
    pub fn greeting_at(&self, hour: u32) -> (text: String)
        ensures
            text@ == greeting_text(hour, self.name@),
    {
        let mut text = String::from_str(Self::time_of_day(hour));
        text.append(", ");
        text.append(self.name.as_str());
        text.append("! Welcome to PTD Ruby CLI");
        text
    }

    /// The greeting at the current hour of the local clock.
    pub fn build_greeting(&self) -> (text: String)
        ensures
            exists|hour: u32| hour < 24 && text@ == #[trigger] greeting_text(hour, self.name@),
    {
        self.greeting_at(local_hour())
    }

    /// The lines the command prints at `hour`.
    pub fn lines_at(&self, hour: u32) -> (lines: Vec<String>)
        ensures
            lines.deep_view() == greeting_lines(
                hour,
                self.name@,
                self.uppercase,
                self.repeat as nat,
            ),
    {
        let greeting = self.greeting_at(hour);
        let mut lines: Vec<String> = Vec::new();
        let mut i: usize = 0;
        while i < self.repeat
            invariant
                i <= self.repeat,
                greeting@ == greeting_text(hour, self.name@),
                lines@.len() == i,
                forall|k: int|
                    0 <= k < i ==> (#[trigger] lines@[k])@ == greeting_lines(
                        hour,
                        self.name@,
                        self.uppercase,
                        self.repeat as nat,
                    )[k],
            decreases self.repeat - i,
        {
            if self.uppercase {
                lines.push(greeting.as_str().to_uppercase());
            } else {
                lines.push(greeting.clone());
            }
            i = i + 1;
        }
        assert(lines.deep_view() =~= greeting_lines(
            hour,
            self.name@,
            self.uppercase,
            self.repeat as nat,
        ));
        lines
    }

    /// The lines the command prints now.
    pub fn execute(&self) -> (lines: Vec<String>)
        ensures
            exists|hour: u32|
                hour < 24 && lines.deep_view() == #[trigger] greeting_lines(
                    hour,
                    self.name@,
                    self.uppercase,
                    self.repeat as nat,
                ),
    {
        self.lines_at(local_hour())
    }
}

/// The outcome of a greeting.
#[derive(Debug, Clone, PartialEq, Eq)]
pub struct HelloResult {
    pub success: bool,
    pub message: String,
}

impl HelloResult {
    pub fn new(success: bool, message: String) -> (result: Self)
        ensures
            result.success == success,
            result.message == message,
    {
        Self { success, message }
    }

    pub fn is_success(&self) -> (success: bool)
        ensures
            success == self.success,
    {
        self.success
    }
}

} // verus!
