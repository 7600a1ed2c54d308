//! The shell protocol of the panel: commands that arrive over the web socket,
//! the answers to them, and the executor that runs them.
use vstd::prelude::*;
use crate::senka_error::{code_name, SenkaError, SenkaErrorCode};
use crate::text::{contains_seq, contains_str};

verus! {

/// A shell command sent by the browser.
#[derive(Debug)]
pub struct ShellCommand {
    pub command: String,
}

/// The answer to a shell command.
#[derive(Debug)]
pub struct ShellCommandResponse {
    pub message: String,
    pub hold_on: bool,
}

/// The answer to a batch of shell commands.
#[derive(Debug)]
pub struct ShellCommandsResponse {
    pub message: String,
    pub hold_on: bool,
}

/// A message received on the web socket: a text frame, or any other frame
/// together with the way it is displayed.
#[derive(Debug)]
pub enum IncomingMessage {
    Text(String),
    Other(String),
}

impl ShellCommand {
    /// The command with this text.
    pub fn from_str(message: &str) -> (res: Self)
        ensures
            res.command@ == message@,
    {
        ShellCommand { command: String::from_str(message) }
    }

    /// The command with this text.
    pub fn from_string(message: String) -> (res: Self)
        ensures
            res.command@ == message@,
    {
        ShellCommand { command: message }
    }

    /// The command carried by a web-socket message. `parsed` is what reading the
    /// JSON of a text frame gave. A text frame that does not hold a command, and
    /// any frame that is not text, are `Format` errors that quote the message.
    pub fn from_message(message: IncomingMessage, parsed: Option<ShellCommand>) -> (res: Result<Self, SenkaError>)
        ensures
            match message {
                IncomingMessage::Text(text) => match parsed {
                    Some(command) => res matches Ok(c) && c.command == command.command,
                    None => res matches Err(e) && e.senka_error_code == SenkaErrorCode::Format
                        && e.error_message@ == "Can not parse message:"@ + text@,
                },
                IncomingMessage::Other(shown) => res matches Err(e) && e.senka_error_code
                    == SenkaErrorCode::Format && e.error_message@ == "Message is not text:"@ + shown@,
            },
    {
        match message {
            IncomingMessage::Text(text) => match parsed {
                Some(command) => Ok(command),
                None => {
                    let mut error_message = String::from_str("Can not parse message:");
                    error_message.append(text.as_str());
                    Err(SenkaError::new(SenkaErrorCode::Format, error_message))
                },
            },
            IncomingMessage::Other(shown) => {
                let mut error_message = String::from_str("Message is not text:");
                error_message.append(shown.as_str());
                Err(SenkaError::new(SenkaErrorCode::Format, error_message))
            },
        }
    }

    /// Whether the command contains `sudo`.
    pub fn is_sudo(&self) -> (res: bool)
        ensures
            res == contains_seq(self.command@, "sudo"@),
    {
        contains_str(self.command.as_str(), "sudo")
    }
}

/// Runs shell commands.
#[derive(Debug)]
pub struct ShellExecutor {}

impl ShellExecutor {
    /// An executor.
    pub fn new() -> (res: Self) {
        ShellExecutor {}
    }

    /// Running commands is not implemented: every command is answered with a
    /// `NoImplementation` error.
    pub fn execute(&mut self, shell_command: &ShellCommand) -> (res: Result<ShellCommandResponse, SenkaError>)
        ensures
            res matches Err(e) && e.senka_error_code == SenkaErrorCode::NoImplementation
                && e.error_message@ == code_name(SenkaErrorCode::NoImplementation),
    {
        Err(SenkaError::from_err(SenkaErrorCode::NoImplementation))
    }
}

} // verus!
