use vstd::prelude::*;

verus! {

/// Why an operation of the library failed.
#[derive(Debug)]
pub enum KyotoError {
    /// The request head is not valid HTTP.
    HttpParse(httparse::Error),
    /// The request body is not valid JSON.
    JsonParse(serde_json::Error),
    /// A command was handed to the executor of another kind of command.
    InvalidCommandType,
    /// Clients of this type are not counted.
    InvalidClientType,
    /// A primary probe client asked to join another primary.
    JoinFromPrimary,
    /// The primary sent a command that failed, with the failure's text.
    PrimaryCommandFailed(String),
    /// The peer closed the connection with nothing left unread.
    ConnectionClosed,
    /// The peer closed the connection in the middle of a request.
    ConnectionReset,
}

impl KyotoError {
    /// The text that describes the error, as the server reports it.
    pub fn message(&self) -> (r: String)
        ensures
            r@ == match self {
                KyotoError::HttpParse(_) => "invalid HTTP request"@,
                KyotoError::JsonParse(_) => "invalid JSON body"@,
                KyotoError::InvalidCommandType => "Invalid command type"@,
                KyotoError::InvalidClientType => "Invalid client type given when getting client number."@,
                KyotoError::JoinFromPrimary => "Cannot do join from primary probe client"@,
                KyotoError::PrimaryCommandFailed(m) => m@,
                KyotoError::ConnectionClosed => "connection closed"@,
                KyotoError::ConnectionReset => "connection reset by peer"@,
            },
    {
        match self {
            KyotoError::HttpParse(_) => "invalid HTTP request".to_owned(),
            KyotoError::JsonParse(_) => "invalid JSON body".to_owned(),
            KyotoError::InvalidCommandType => "Invalid command type".to_owned(),
            KyotoError::InvalidClientType => "Invalid client type given when getting client number.".to_owned(),
            KyotoError::JoinFromPrimary => "Cannot do join from primary probe client".to_owned(),
            KyotoError::PrimaryCommandFailed(m) => m.clone(),
            KyotoError::ConnectionClosed => "connection closed".to_owned(),
            KyotoError::ConnectionReset => "connection reset by peer".to_owned(),
        }
    }
}

} // verus!
