//! Errors of a device session, and what the poll loop makes of them.

use vstd::prelude::*;
use vstd::string::StringExecFns;

verus! {

broadcast use vstd::string::group_string_axioms;

/// Error type for Modbus operations. Each variant carries the text of the
/// underlying error.
#[derive(Debug)]
pub enum ModbusError {
    /// The peer answered with a Modbus exception.
    Exception(String),
    /// The Modbus transport failed.
    Transport(String),
    /// The socket or serial line failed.
    Io(String),
    /// The session has no open connection.
    NotConnected,
    /// The device is configured with settings that cannot be used.
    Config(String),
}

pub enum ModbusErrorView {
    Exception(Seq<char>),
    Transport(Seq<char>),
    Io(Seq<char>),
    NotConnected,
    Config(Seq<char>),
}

impl DeepView for ModbusError {
    type V = ModbusErrorView;

    open spec fn deep_view(&self) -> ModbusErrorView {
        match self {
            ModbusError::Exception(text) => ModbusErrorView::Exception(text@),
            ModbusError::Transport(text) => ModbusErrorView::Transport(text@),
            ModbusError::Io(text) => ModbusErrorView::Io(text@),
            ModbusError::NotConnected => ModbusErrorView::NotConnected,
            ModbusError::Config(text) => ModbusErrorView::Config(text@),
        }
    }
}

/// The three kinds of failure a session reports.
#[derive(Debug, Clone, Copy, PartialEq, Eq, Structural)]
pub enum ErrorClass {
    /// A valid Modbus frame that carries an exception code.
    Protocol,
    /// The connection is broken, timed out or absent.
    Transport,
    /// The configuration cannot be used.
    Configuration,
}

/// What the poll loop does after a failed read.
#[derive(Debug, Clone, Copy, PartialEq, Eq, Structural)]
pub enum PollReaction {
    /// Keep the last good value and go on with the next register.
    NextRegister,
    /// Mark the device disconnected, abandon the cycle and reconnect.
    Reconnect,
}

/// The kind of failure an error is.
pub open spec fn class_of(error: ModbusErrorView) -> ErrorClass {
    match error {
        ModbusErrorView::Exception(_) => ErrorClass::Protocol,
        ModbusErrorView::Transport(_) => ErrorClass::Transport,
        ModbusErrorView::Io(_) => ErrorClass::Transport,
        ModbusErrorView::NotConnected => ErrorClass::Transport,
        ModbusErrorView::Config(_) => ErrorClass::Configuration,
    }
}

/// Only transport failures interrupt a cycle.
pub open spec fn reaction_to(class: ErrorClass) -> PollReaction {
    match class {
        ErrorClass::Transport => PollReaction::Reconnect,
        ErrorClass::Protocol => PollReaction::NextRegister,
        ErrorClass::Configuration => PollReaction::NextRegister,
    }
}

/// The message of an error.
pub open spec fn message_of(error: ModbusErrorView) -> Seq<char> {
    match error {
        ModbusErrorView::Exception(text) => "Modbus exception: "@ + text,
        ModbusErrorView::Transport(text) => "Transport error: "@ + text,
        ModbusErrorView::Io(text) => "IO error: "@ + text,
        ModbusErrorView::NotConnected => "No connection available"@,
        ModbusErrorView::Config(text) => "Configuration error: "@ + text,
    }
}

impl ModbusError {
    /// The kind of failure this is.
    pub fn class(&self) -> (class: ErrorClass)
        ensures
            class == class_of(self.deep_view()),
    {
        match self {
            ModbusError::Exception(_) => ErrorClass::Protocol,
            ModbusError::Transport(_) => ErrorClass::Transport,
            ModbusError::Io(_) => ErrorClass::Transport,
            ModbusError::NotConnected => ErrorClass::Transport,
            ModbusError::Config(_) => ErrorClass::Configuration,
        }
    }

    /// What the poll loop does after a read failed with this error.
    pub fn reaction(&self) -> (reaction: PollReaction)
        ensures
            reaction == reaction_to(class_of(self.deep_view())),
    {
        match self.class() {
            ErrorClass::Transport => PollReaction::Reconnect,
            ErrorClass::Protocol => PollReaction::NextRegister,
            ErrorClass::Configuration => PollReaction::NextRegister,
        }
    }

    /// The message of this error.
    pub fn message(&self) -> (text: String)
        ensures
            text@ == message_of(self.deep_view()),
    {
        match self {
            ModbusError::Exception(text) => String::from_str("Modbus exception: ").concat(
                text.as_str(),
            ),
            ModbusError::Transport(text) => String::from_str("Transport error: ").concat(
                text.as_str(),
            ),
            ModbusError::Io(text) => String::from_str("IO error: ").concat(text.as_str()),
            ModbusError::NotConnected => String::from_str("No connection available"),
            ModbusError::Config(text) => String::from_str("Configuration error: ").concat(
                text.as_str(),
            ),
        }
    }
}

} // verus!
