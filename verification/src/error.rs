//! What can go wrong in a backup run.

use vstd::prelude::*;

use crate::text::{size_text, HumanReadable};

verus! {

/// Why a backup run came to nothing. None of these ends the process.
#[derive(Debug, PartialEq, Eq)]
pub enum BackupError {
    /// The manifest could not be read; the reason.
    ManifestUnreadable(String),
    /// A pattern of the manifest could not be expanded; the reason.
    GlobExpansionFailed(String),
    /// A path of the manifest does not exist; the path.
    MissingManifestPath(String),
    /// No removable volume has room for the backup; the bytes it needs.
    NoSuitableDestination(u64),
    /// The backup's folder or log could not be made; the reason.
    DestinationUnwritable(String),
}

/// A `BackupError` as contracts see it.
pub enum BackupFailure {
    ManifestUnreadable(Seq<char>),
    GlobExpansionFailed(Seq<char>),
    MissingManifestPath(Seq<char>),
    NoSuitableDestination(nat),
    DestinationUnwritable(Seq<char>),
}

impl BackupFailure {
    /// The line that tells the user of the failure.
    pub open spec fn message(self) -> Seq<char> {
        match self {
            BackupFailure::ManifestUnreadable(reason) => "Error parsing resources! "@ + reason,
            BackupFailure::GlobExpansionFailed(reason) => "Error parsing resources! "@ + reason,
            BackupFailure::MissingManifestPath(path) => "Error parsing resources! "@
                + "Path does not exist: "@ + path,
            BackupFailure::NoSuitableDestination(required) =>
                "No removable drives with enough free space found! Required space: "@ + size_text(
                    required,
                ),
            BackupFailure::DestinationUnwritable(reason) => "Error copying files! "@ + reason,
        }
    }
}

impl View for BackupError {
    type V = BackupFailure;

    open spec fn view(&self) -> BackupFailure {
        match self {
            BackupError::ManifestUnreadable(reason) => BackupFailure::ManifestUnreadable(reason@),
            BackupError::GlobExpansionFailed(reason) => BackupFailure::GlobExpansionFailed(
                reason@,
            ),
            BackupError::MissingManifestPath(path) => BackupFailure::MissingManifestPath(path@),
            BackupError::NoSuitableDestination(required) => BackupFailure::NoSuitableDestination(
                *required as nat,
            ),
            BackupError::DestinationUnwritable(reason) => BackupFailure::DestinationUnwritable(
                reason@,
            ),
        }
    }
}

impl BackupError {
    /// The line that tells the user of the failure.
    pub fn message(&self) -> (text: String)
        ensures
            text@ == self@.message(),
    {
        match self {
            BackupError::ManifestUnreadable(reason) => {
                let mut text = String::from_str("Error parsing resources! ");
                text.append(reason.as_str());
                text
            },
            BackupError::GlobExpansionFailed(reason) => {
                let mut text = String::from_str("Error parsing resources! ");
                text.append(reason.as_str());
                text
            },
            BackupError::MissingManifestPath(path) => {
                let mut text = String::from_str("Error parsing resources! ");
                text.append("Path does not exist: ");
                text.append(path.as_str());
                text
            },
            BackupError::NoSuitableDestination(required) => {
                let mut text = String::from_str(
                    "No removable drives with enough free space found! Required space: ",
                );
                let size = required.human_readable();
                text.append(size.as_str());
                text
            },
            BackupError::DestinationUnwritable(reason) => {
                let mut text = String::from_str("Error copying files! ");
                text.append(reason.as_str());
                text
            },
        }
    }
}

} // verus!
