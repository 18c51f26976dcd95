//! Argument payloads of the host shell's file-download and notification
//! commands. The shell fills them at its boundary and performs the actual
//! I/O itself; as a side effect of handling them it appends entries to the
//! log store.

use vstd::prelude::*;

verus! {

/// Arguments of the URL-download command.
pub struct DownloadFileParams {
    pub url: String,
    pub filename: String,
}

/// Arguments of the binary-download command.
pub struct BinaryDownloadParams {
    pub filename: String,
    pub binary: Vec<u8>,
}

/// Arguments of the desktop-notification command.
pub struct NotificationParams {
    pub title: String,
    pub body: String,
    pub icon: String,
}

} // verus!
