//! The trusted boundary to the host: the live terminal, the observers'
//! event channel, and the wall clock.
//!
//! Everything in this module is believed rather than verified: each item's
//! doc comment names the outside function it relies on and what of it the
//! contract states. Results that depend on the environment (the terminal's
//! size, what other threads queued, the time now) carry no promise beyond
//! their type: the verified callers state what holds of every outcome.

use vstd::prelude::*;

use crate::keyboard::KeyEvent;
use crate::render::{Command, ControlCommand};
use crate::terminal::Style;
use crossterm as ct;
use crossterm::cursor::{Hide, MoveTo as TermMoveTo, Show};
use crossterm::style::{
    Attribute, Color as TermColor, Print as TermPrint, ResetColor, SetAttribute,
    SetBackgroundColor, SetForegroundColor,
};
use crossterm::terminal::{EnterAlternateScreen, LeaveAlternateScreen};
use crossterm::QueueableCommand;
use std::io::{stdout, BufWriter, Write};

verus! {

#[verifier::external_type_specification]
#[verifier::external_body]
#[verifier::reject_recursive_types(T)]
pub struct ExReceiver<T>(std::sync::mpsc::Receiver<T>);

/// Relies on std::sync::mpsc::Receiver::try_iter: yields every event the
/// observers have queued, without blocking. What arrives depends on the
/// observer threads, so nothing is promised of the result.
#[verifier::external_body]
pub(crate) fn drain_channel(receiver: &std::sync::mpsc::Receiver<KeyEvent>) -> Vec<KeyEvent> {
    receiver.try_iter().collect()
}

/// Relies on crossterm::terminal::size: the live terminal's dimension as a
/// (columns, rows) pair. The terminal decides the value, so nothing is
/// promised of it; a terminal that cannot report its size is a setup
/// failure, on which this panics as the runtime's fail-fast policy asks.
#[verifier::external_body]
pub(crate) fn terminal_size() -> (u16, u16) {
    ct::terminal::size().unwrap()
}

/// Relies on crossterm's queueable commands SetAttribute,
/// SetForegroundColor, SetBackgroundColor, Print and MoveTo, and on
/// std::io::Write::flush: queues one frame's commands into a buffered
/// stdout sink and flushes it exactly once. A refused queue or flush is a
/// terminal-control failure, on which this panics as the runtime's
/// fail-fast policy asks.
#[verifier::external_body]
pub(crate) fn emit_commands(commands: &Vec<Command>) {
    let mut sink = BufWriter::with_capacity(1 << 16, stdout());
    for command in commands.iter() {
        match command {
            Command::SetWeight(Style::Bold) => sink.queue(SetAttribute(Attribute::Bold)).unwrap(),
            Command::SetWeight(Style::Plain) => sink.queue(SetAttribute(Attribute::NormalIntensity)).unwrap(),
            Command::SetForeground(c) => sink.queue(SetForegroundColor(TermColor::AnsiValue(*c))).unwrap(),
            Command::SetBackground(c) => sink.queue(SetBackgroundColor(TermColor::AnsiValue(*c))).unwrap(),
            Command::Print(v) => sink.queue(TermPrint(*v)).unwrap(),
            Command::MoveTo(x, y) => sink.queue(TermMoveTo(*x, *y)).unwrap(),
        };
    }
    sink.flush().unwrap();
}

/// Relies on crossterm's screen and cursor commands EnterAlternateScreen,
/// LeaveAlternateScreen, Hide, Show, ResetColor and SetAttribute(Reset):
/// queues the given lifecycle commands into stdout and flushes them. A
/// refused queue or flush is a terminal-control failure, on which this
/// panics as the runtime's fail-fast policy asks.
#[verifier::external_body]
pub(crate) fn emit_control(commands: &Vec<ControlCommand>) {
    let mut sink = BufWriter::new(stdout());
    for command in commands.iter() {
        match command {
            ControlCommand::EnterAlternate => sink.queue(EnterAlternateScreen).unwrap(),
            ControlCommand::LeaveAlternate => sink.queue(LeaveAlternateScreen).unwrap(),
            ControlCommand::HideCursor => sink.queue(Hide).unwrap(),
            ControlCommand::ShowCursor => sink.queue(Show).unwrap(),
            ControlCommand::ResetColor => sink.queue(ResetColor).unwrap(),
            ControlCommand::ResetAttributes => sink.queue(SetAttribute(Attribute::Reset)).unwrap(),
        };
    }
    sink.flush().unwrap();
}

/// Relies on crossterm::terminal::enable_raw_mode: keystrokes reach the
/// process directly, without host line editing or echo. Panics when the
/// terminal refuses, as the runtime's fail-fast policy asks.
#[verifier::external_body]
pub(crate) fn raw_mode_on() {
    ct::terminal::enable_raw_mode().unwrap()
}

/// Relies on crossterm::terminal::disable_raw_mode: restores the host's
/// line-edited input mode. Panics when the terminal refuses.
#[verifier::external_body]
pub(crate) fn raw_mode_off() {
    ct::terminal::disable_raw_mode().unwrap()
}

/// Relies on std::time::SystemTime::now and Duration::as_micros: the wall
/// clock now, as microseconds since the Unix epoch. The clock decides the
/// value, so nothing is promised of it.
#[verifier::external_body]
pub(crate) fn now_micros() -> u128 {
    std::time::SystemTime::now().duration_since(std::time::SystemTime::UNIX_EPOCH).unwrap().as_micros()
}

} // verus!
