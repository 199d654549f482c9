//! The failures of a transfer session, gathered in one taxonomy, and how a client sees them.
use crate::address::AddressError;
use crate::reference::ReferenceError;
use vstd::prelude::*;

verus! {

/// A download that the session does not serve.
#[derive(Clone, Copy, Debug, PartialEq, Eq, Structural)]
pub enum ModeError {
    /// No file was selected: the session only receives.
    NotSendMode,
    /// The reference names another file than the selected one.
    Mismatch,
}

/// Every failure of a transfer session.
#[derive(Clone, Copy, Debug, PartialEq, Eq, Structural)]
pub enum QrSyncError {
    /// No address to bind could be chosen.
    Address(AddressError),
    /// A download reference could not be read.
    Reference(ReferenceError),
    /// A download that the session does not serve.
    Mode(ModeError),
    /// A file could not be opened, read or written.
    Io,
    /// The body of an upload is not well-formed multipart data.
    Multipart,
    /// The URL does not fit in a QR code.
    QrCode,
}

/// The text that describes an error, for the log.
pub open spec fn message_of(e: QrSyncError) -> Seq<char> {
    match e {
        QrSyncError::Address(AddressError::NoInterface) => "Unable to find default interface"@,
        QrSyncError::Address(AddressError::Invalid) => "The IP address given is not valid"@,
        QrSyncError::Address(AddressError::Unroutable) => "Unable to find a valid IP address to bind with"@,
        QrSyncError::Reference(ReferenceError::Malformed) => "The requested reference is not valid base64"@,
        QrSyncError::Reference(ReferenceError::NotUtf8) => "The requested reference is not UTF-8 text"@,
        QrSyncError::Mode(ModeError::NotSendMode) => "QrSync is not running in send mode"@,
        QrSyncError::Mode(ModeError::Mismatch) => "Requested file differs from served one"@,
        QrSyncError::Io => "I/O error"@,
        QrSyncError::Multipart => "Malformed multipart form"@,
        QrSyncError::QrCode => "The URL does not fit in a QR code"@,
    }
}

impl QrSyncError {
    /// The text that describes this error, for the log. What a client sees is the generic
    /// error document alone.
    pub fn message(&self) -> (r: String)
        ensures
            r@ == message_of(*self),
    {
        let text = match self {
            QrSyncError::Address(AddressError::NoInterface) => "Unable to find default interface",
            QrSyncError::Address(AddressError::Invalid) => "The IP address given is not valid",
            QrSyncError::Address(AddressError::Unroutable) => "Unable to find a valid IP address to bind with",
            QrSyncError::Reference(ReferenceError::Malformed) => "The requested reference is not valid base64",
            QrSyncError::Reference(ReferenceError::NotUtf8) => "The requested reference is not UTF-8 text",
            QrSyncError::Mode(ModeError::NotSendMode) => "QrSync is not running in send mode",
            QrSyncError::Mode(ModeError::Mismatch) => "Requested file differs from served one",
            QrSyncError::Io => "I/O error",
            QrSyncError::Multipart => "Malformed multipart form",
            QrSyncError::QrCode => "The URL does not fit in a QR code",
        };
        text.to_owned()
    }
}

} // verus!
