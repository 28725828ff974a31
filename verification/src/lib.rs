//! A backup that is armed and triggered by a gesture: moving the pointer
//! round the four corners of the screen arms it, doing so again copies the
//! files of a manifest to the first removable volume with room for them.
//!
//! The crate holds the decisions. The gesture recognizer (`mouse`) turns
//! pointer readings into events. The coordinator (`state`) keeps the
//! lifecycle state and tells its subscribers of every change. The backup
//! pipeline resolves the manifest (`manifest`), chooses the destination
//! (`destination`), reports on the copy (`copy`) and orders its stages
//! (`backup`). The loops of the console, the log and the tray icon are here
//! as the steps they take (`echo`, `logger`, `tray`).
//!
//! What touches the screen, the disk, the speakers or another process is the
//! caller's: a loop performs the action it is told and comes back with what
//! happened.

pub mod audio;
pub mod backup;
pub mod clock;
pub mod copy;
pub mod destination;
pub mod echo;
pub mod error;
pub mod feedback;
pub mod logger;
pub mod manifest;
pub mod mouse;
pub mod state;
pub mod text;
pub mod tray;
