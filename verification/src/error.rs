//! The failures that the client reports.

use vstd::prelude::*;

verus! {

/// Why an exchange or a command did not succeed. Every failure is local to the
/// exchange that met it; none closes the connection.
#[derive(Clone, Copy, Debug, PartialEq, Eq, Structural)]
pub enum ClientError {
    /// The channel closed while a reply was awaited.
    NoResponse,
    /// A frame was not well-formed structured data.
    DecodeError,
    /// The first frame of a subscribing exchange carried no `subscription.id`.
    MissingSubscriptionId,
    /// The command name is not one of the recognized commands.
    InvalidCommand,
    /// The command is recognized, but its argument is outside the valid domain.
    InvalidArgument,
}

impl ClientError {
    /// The diagnostic shown to the operator.
    pub open spec fn spec_message(self) -> Seq<char> {
        match self {
            ClientError::NoResponse => "No response: the connection is closed"@,
            ClientError::DecodeError => "Malformed response"@,
            ClientError::MissingSubscriptionId => "Subscription not established: the response carries no subscription id"@,
            ClientError::InvalidCommand => "Invalid command"@,
            ClientError::InvalidArgument => "Invalid command"@,
        }
    }

    /// The diagnostic shown to the operator. A rejected argument is reported
    /// with the same words as an unknown command.
    pub fn message(&self) -> (text: String)
        ensures
            text@ == self.spec_message(),
    {
        match self {
            ClientError::NoResponse => "No response: the connection is closed".to_owned(),
            ClientError::DecodeError => "Malformed response".to_owned(),
            ClientError::MissingSubscriptionId => "Subscription not established: the response carries no subscription id".to_owned(),
            ClientError::InvalidCommand => "Invalid command".to_owned(),
            ClientError::InvalidArgument => "Invalid command".to_owned(),
        }
    }
}

} // verus!
