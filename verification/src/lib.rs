//! Change detection and notification planning for a git-versioned package index.
//!
//! The index holds one JSON record per package version, one record per line.
//! From the line-level difference between two consecutive commits this
//! library reconstructs what happened to a package version (published, yanked,
//! unyanked), decides when the locally checked-out position may move on, and
//! plans the rate-limited delivery of the resulting notification.
//!
//! Everything here works on plain values: whoever drives the library reads the
//! repository, sends the messages and sleeps, and reports back what happened.
//!
//! - [`record`] reads a line of the index as a record, with [`json`] as its
//!   reader.
//! - [`diff`] and [`extract`] turn the difference between two commits into an
//!   event.
//! - [`sync`] is the synchronizer: one cycle over the new commits, in which
//!   the cursor waits for each event to be acknowledged; [`idle`] is the pause
//!   between two cycles.
//! - [`dispatch`] lays out the delivery of an event, and [`sender`] bounds
//!   the attempts of each send.

pub mod commit;
pub mod diff;
pub mod dispatch;
pub mod extract;
pub mod idle;
pub mod json;
pub mod record;
pub mod sender;
pub mod sync;
