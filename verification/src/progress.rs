//! The lines that a fetch shows while it runs: what the server says, which
//! references moved, how far the transfer is, and the closing summary.
//!
//! Every function returns the exact text to write; none of them writes it.

use vstd::prelude::*;
use vstd::string::*;
use vstd::slice::slice_to_vec;
use vstd::utf8::{decode_utf8, valid_utf8};
use crate::object_id::{all_zero, hex_text, ObjectId};
use crate::text::{decimal, decimal_text, pad_right, padded, utf8_text};

verus! {

/// Counters of one transfer, as read when the download has ended or while it
/// runs.
#[derive(Clone, Copy, Debug, PartialEq, Eq)]
pub struct FetchStatistics {
    /// Objects that the remote announced.
    pub total_objects: usize,
    /// Objects that were hashed and entered into the pack index.
    pub indexed_objects: usize,
    /// Objects that arrived.
    pub received_objects: usize,
    /// Objects that were taken from local storage to complete a thin pack.
    pub local_objects: usize,
    /// Deltas that the pack holds.
    pub total_deltas: usize,
    /// Deltas that were resolved.
    pub indexed_deltas: usize,
    /// Size of what arrived, in bytes.
    pub received_bytes: usize,
}

/// What every progress callback answers when it is asked whether the
/// transfer may go on: it may. A run is never cancelled from within.
pub const PROCEED: bool = true;

/// What is shown for a message of the server: the message after `remote: `,
/// with no line end added.
pub open spec fn sideband_text(message: Seq<char>) -> Seq<char> {
    "remote: "@ + message
}

/// The text to show for `data` that the server sent beside the pack. Data that
/// is not UTF-8 has no text.
pub fn sideband_line(data: &[u8]) -> (line: Option<String>)
    ensures
        line is Some <==> valid_utf8(data@),
        line is Some ==> line->0@ == sideband_text(decode_utf8(data@)),
{
    match utf8_text(slice_to_vec(data)) {
        Some(message) => {
            let mut line = String::from_str("remote: ");
            line.append(message.as_str());
            Some(line)
        },
        None => None,
    }
}

/// What is shown for a reference that moved from `old` to `new`. A reference
/// that had no target before is new; any other is updated. An id takes a
/// column of at least twenty characters in the first form and of ten in the
/// second.
pub open spec fn ref_update_text(refname: Seq<char>, old: Seq<u8>, new: Seq<u8>) -> Seq<char> {
    if all_zero(old) {
        "[new]     "@ + padded(hex_text(new), 20) + " "@ + refname + "\n"@
    } else {
        "[updated] "@ + padded(hex_text(old), 10) + ".."@ + padded(hex_text(new), 10) + " "@
            + refname + "\n"@
    }
}

/// The line to show when the reference `refname` moved from `old` to `new`.
pub fn ref_update_line(refname: &str, old: &ObjectId, new: &ObjectId) -> (line: String)
    ensures
        line@ == ref_update_text(refname@, old@, new@),
{
    if old.is_zero() {
        let mut line = String::from_str("[new]     ");
        line.append(pad_right(new.to_hex(), 20).as_str());
        line.append(" ");
        line.append(refname);
        line.append("\n");
        line
    } else {
        let mut line = String::from_str("[updated] ");
        line.append(pad_right(old.to_hex(), 10).as_str());
        line.append("..");
        line.append(pad_right(new.to_hex(), 10).as_str());
        line.append(" ");
        line.append(refname);
        line.append("\n");
        line
    }
}

/// An id is wider than either column, so no blank is ever added to it: the
/// new id follows the tag directly, and the two ids of an update stand on
/// both sides of the two dots.
pub proof fn law_ids_fill_their_columns(refname: Seq<char>, old: Seq<u8>, new: Seq<u8>)
    requires
        old.len() == 20,
        new.len() == 20,
    ensures
        all_zero(old) ==> ref_update_text(refname, old, new) == "[new]     "@ + hex_text(new)
            + " "@ + refname + "\n"@,
        !all_zero(old) ==> ref_update_text(refname, old, new) == "[updated] "@ + hex_text(old)
            + ".."@ + hex_text(new) + " "@ + refname + "\n"@,
{
}

/// What is shown while a transfer runs. Once every announced object has
/// arrived the line counts resolved deltas; before that, and only while
/// objects are announced at all, it counts objects and bytes. The line ends in
/// a carriage return, so that the next one overwrites it.
pub open spec fn transfer_progress_text(stats: FetchStatistics) -> Option<Seq<char>> {
    if stats.received_objects == stats.total_objects {
        Some(
            "Resolving deltas "@ + decimal(stats.indexed_deltas as nat) + "/"@ + decimal(
                stats.total_deltas as nat,
            ) + "\r"@,
        )
    } else if stats.total_objects > 0 {
        Some(
            "Received "@ + decimal(stats.received_objects as nat) + "/"@ + decimal(
                stats.total_objects as nat,
            ) + " objects ("@ + decimal(stats.indexed_objects as nat) + ") in "@ + decimal(
                stats.received_bytes as nat,
            ) + " bytes\r"@,
        )
    } else {
        None
    }
}

/// The progress line for `stats`, if there is anything to show.
pub fn transfer_progress_line(stats: &FetchStatistics) -> (line: Option<String>)
    ensures
        line is Some <==> transfer_progress_text(*stats) is Some,
        line is Some ==> line->0@ == transfer_progress_text(*stats)->0,
{
    if stats.received_objects == stats.total_objects {
        let mut line = String::from_str("Resolving deltas ");
        line.append(decimal_text(stats.indexed_deltas).as_str());
        line.append("/");
        line.append(decimal_text(stats.total_deltas).as_str());
        line.append("\r");
        Some(line)
    } else if stats.total_objects > 0 {
        let mut line = String::from_str("Received ");
        line.append(decimal_text(stats.received_objects).as_str());
        line.append("/");
        line.append(decimal_text(stats.total_objects).as_str());
        line.append(" objects (");
        line.append(decimal_text(stats.indexed_objects).as_str());
        line.append(") in ");
        line.append(decimal_text(stats.received_bytes).as_str());
        line.append(" bytes\r");
        Some(line)
    } else {
        None
    }
}

/// The part of the summary that every transfer has: a carriage return, to
/// overwrite the last progress line, then the counts.
pub open spec fn summary_counts(stats: FetchStatistics) -> Seq<char> {
    "\rReceived "@ + decimal(stats.indexed_objects as nat) + "/"@ + decimal(
        stats.total_objects as nat,
    ) + " objects in "@ + decimal(stats.received_bytes as nat) + " bytes"@
}

/// The part of the summary that only a transfer that used local objects has.
pub open spec fn local_objects_clause(stats: FetchStatistics) -> Seq<char> {
    " (used "@ + decimal(stats.local_objects as nat) + " local objects)"@
}

/// The summary of a finished download. It names the local objects that
/// completed the pack if, and only if, there were any.
pub open spec fn summary_text(stats: FetchStatistics) -> Seq<char> {
    if stats.local_objects > 0 {
        summary_counts(stats) + local_objects_clause(stats) + "\n"@
    } else {
        summary_counts(stats) + "\n"@
    }
}

/// The summary line of a finished download.
pub fn summary_line(stats: &FetchStatistics) -> (line: String)
    ensures
        line@ == summary_text(*stats),
{
    let mut line = String::from_str("\rReceived ");
    line.append(decimal_text(stats.indexed_objects).as_str());
    line.append("/");
    line.append(decimal_text(stats.total_objects).as_str());
    line.append(" objects in ");
    line.append(decimal_text(stats.received_bytes).as_str());
    line.append(" bytes");
    if stats.local_objects > 0 {
        let mut clause = String::from_str(" (used ");
        clause.append(decimal_text(stats.local_objects).as_str());
        clause.append(" local objects)");
        line.append(clause.as_str());
    }
    line.append("\n");
    line
}

} // verus!
