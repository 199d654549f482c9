//! QrSync: copy files over a local network to or from a phone, by scanning a QR code printed in
//! the terminal.
//!
//! The library holds the decisions of a transfer session: which address the server binds to,
//! how a file name becomes a URL path segment and back, which URL the QR code carries, whether a
//! download request is served, and what becomes of each part of an upload. The HTTP listener,
//! the file system and the terminal stay with the program that drives the library.

pub mod address;
pub mod error;
pub mod http;
pub mod qr;
pub mod reference;
pub mod routes;
pub mod session;
pub mod upload;
