//! What can go wrong.

use vstd::prelude::*;
use vstd::string::*;

verus! {

/// The failures that this library reports. None is retried.
#[derive(Clone, Copy, Debug, PartialEq, Eq, Structural)]
pub enum StatusError {
    /// The configuration holds no token for the remote profile.
    MissingToken,
    /// The request for the public IP address could not be made.
    IpRequestFailed,
    /// The request for the public IP address was answered with this HTTP
    /// status, which is not a success.
    IpRequestStatus(u16),
    /// The answer to the request for the public IP address is no address.
    IpUnparsable,
    /// The remote profile's answer is not JSON.
    ReplyUnreadable,
    /// The remote profile's answer holds no whole number as the status's
    /// expiration.
    ReplyWithoutExpiration,
    /// The cache is there but cannot be read. Resolution goes on as if
    /// there were none.
    CacheUnreadable,
    /// The remote profile did not take the update.
    UpdateFailed,
    /// The remote profile took the update, but the record of it could not
    /// be stored.
    CacheUnwritable,
}

impl StatusError {
    /// The failure in words.
    pub open spec fn message_text(self) -> Seq<char> {
        match self {
            StatusError::MissingToken => "You must copy your Slack token to configuration file."@,
            StatusError::IpRequestFailed => "Request error"@,
            StatusError::IpRequestStatus(_) => "Request error, status is not a success"@,
            StatusError::IpUnparsable => "Cannot parse IP"@,
            StatusError::ReplyUnreadable => "Cannot deserialize"@,
            StatusError::ReplyWithoutExpiration => "Status expiration is missing"@,
            StatusError::CacheUnreadable => "Cannot read cache"@,
            StatusError::UpdateFailed => "Failed to change status"@,
            StatusError::CacheUnwritable => "Status changed, but the cache could not be saved"@,
        }
    }

    /// The failure in words.
    pub fn message(&self) -> (text: String)
        ensures
            text@ == self.message_text(),
    {
        match self {
            StatusError::MissingToken => String::from_str(
                "You must copy your Slack token to configuration file.",
            ),
            StatusError::IpRequestFailed => String::from_str("Request error"),
            StatusError::IpRequestStatus(_) => String::from_str(
                "Request error, status is not a success",
            ),
            StatusError::IpUnparsable => String::from_str("Cannot parse IP"),
            StatusError::ReplyUnreadable => String::from_str("Cannot deserialize"),
            StatusError::ReplyWithoutExpiration => String::from_str("Status expiration is missing"),
            StatusError::CacheUnreadable => String::from_str("Cannot read cache"),
            StatusError::UpdateFailed => String::from_str("Failed to change status"),
            StatusError::CacheUnwritable => String::from_str(
                "Status changed, but the cache could not be saved",
            ),
        }
    }
}

} // verus!
