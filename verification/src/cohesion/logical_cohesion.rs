//! Logical cohesion: a module groups similar but not identical activities
//! and picks one with a control flag.  The problem shape is a single
//! formatter switching on a destination flag; the solution gives each
//! destination its own `Logger` type behind one trait.

use vstd::prelude::*;

verus! {

/// The control flag that selects a logging destination.
pub enum LogDestination {
    Console,
    File,
    Database,
}

/// The prefix a destination puts in front of a message.
pub open spec fn log_prefix(destination: LogDestination) -> Seq<char> {
    match destination {
        LogDestination::Console => "LOG (Console): "@,
        LogDestination::File => "LOG (File): "@,
        LogDestination::Database => "LOG (Database): "@,
    }
}

/// The problem shape: one function serves every destination, dispatching on
/// the control flag.  Renders the log line for `message`; writing the line
/// out is left to the caller.
pub fn format_log_message(message: &str, destination: LogDestination) -> (r: String)
    ensures
        r@ == log_prefix(destination) + message@,
{
    let mut r = match destination {
        LogDestination::Console => "LOG (Console): ".to_owned(),
        LogDestination::File => "LOG (File): ".to_owned(),
        LogDestination::Database => "LOG (Database): ".to_owned(),
    };
    r.append(message);
    r
}

/// The solution shape: a trait with the single responsibility of rendering
/// a log line.  Any new logger type can implement it without changing
/// existing code.
pub trait Logger {
    /// The prefix this logger puts in front of a message.
    spec fn prefix(&self) -> Seq<char>;

    /// Renders the log line for `message`.
    fn log(&self, message: &str) -> (r: String)
        ensures
            r@ == self.prefix() + message@,
    ;
}

pub struct ConsoleLogger;

impl Logger for ConsoleLogger {
    open spec fn prefix(&self) -> Seq<char> {
        "LOG (Console): "@
    }

    fn log(&self, message: &str) -> (r: String) {
        let mut r = "LOG (Console): ".to_owned();
        r.append(message);
        r
    }
}

pub struct FileLogger;

impl Logger for FileLogger {
    open spec fn prefix(&self) -> Seq<char> {
        "LOG (File): "@
    }

    fn log(&self, message: &str) -> (r: String) {
        let mut r = "LOG (File): ".to_owned();
        r.append(message);
        r
    }
}

pub struct DatabaseLogger;

impl Logger for DatabaseLogger {
    open spec fn prefix(&self) -> Seq<char> {
        "LOG (Database): "@
    }

    fn log(&self, message: &str) -> (r: String) {
        let mut r = "LOG (Database): ".to_owned();
        r.append(message);
        r
    }
}

} // verus!
