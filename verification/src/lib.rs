//! Cue-sheet interpretation for splitting one long audio file into tracks.
//!
//! The library does no input or output of its own. A caller reads the cue
//! file, asks the disk and the audio tool what the checks need to know,
//! talks to the user, and runs the commands; the library decides.
//!
//! - [`decode`]: the bytes of a cue file as text.
//! - [`parser`]: the text as a [`sheet::CueSheet`].
//! - [`timing`]: positions in minutes, seconds and frames, and their order.
//! - [`validate`]: the checks that a sheet must pass before it is split.
//! - [`matching`] and [`resolver`]: the file to take for a missing audio
//!   file, the user's answer to the offer, and the repair menu.
//! - [`discovery`] and [`disc`]: which files are cue sheets, and the disc
//!   number of one sheet among several.
//! - [`command`]: each track's output file and split command.
//! - [`orchestrator`]: the list of tracks to split and what becomes of
//!   each as its steps succeed or fail.
//! - [`text`] and [`paths`]: the text and path helpers that the rest uses.

pub mod command;
pub mod decode;
pub mod disc;
pub mod discovery;
pub mod matching;
pub mod orchestrator;
pub mod parser;
pub mod paths;
pub mod resolver;
pub mod sheet;
pub mod text;
pub mod timing;
pub mod validate;
