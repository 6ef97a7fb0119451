//! The index of repositories: a text file with one repository path on each
//! line.
//!
//! The file is read line by line, and each read hands over one line as it
//! stands in the file: everything up to and including the next line feed, or
//! up to the end of the file where no line feed follows. The line feed, and a
//! carriage return just before it, are the line end; the rest is the path.
//! Nothing is skipped: an empty line is an empty path. A line that is not
//! UTF-8 has no path.

use vstd::prelude::*;
use vstd::slice::{slice_subrange, slice_to_vec};
use vstd::utf8::{decode_utf8, valid_utf8};
use crate::text::utf8_text;

verus! {

/// The name of the index file, looked up in the working directory.
pub const INDEX_FILE_NAME: &'static str = ".gmf";

/// The byte that ends a line.
pub const LINE_FEED: u8 = 10;

/// The byte that may stand before a line feed as part of the line end.
pub const CARRIAGE_RETURN: u8 = 13;

/// The text that `bytes` encode, if they are UTF-8.
pub open spec fn decoded(bytes: Seq<u8>) -> Option<Seq<char>> {
    if valid_utf8(bytes) {
        Some(decode_utf8(bytes))
    } else {
        None
    }
}

/// A line that a line feed ended, without the carriage return that came just
/// before the line feed, if there was one.
pub open spec fn without_carriage_return(line: Seq<u8>) -> Seq<u8> {
    if line.len() > 0 && line.last() == CARRIAGE_RETURN {
        line.drop_last()
    } else {
        line
    }
}

/// A line as it was read, without its line end: without the line feed at its
/// end and the carriage return before that. A line that no line feed ended
/// is left as it is, carriage return and all.
pub open spec fn without_line_end(raw: Seq<u8>) -> Seq<u8> {
    if raw.len() > 0 && raw.last() == LINE_FEED {
        without_carriage_return(raw.drop_last())
    } else {
        raw
    }
}

/// The path that a line of the index holds, if the line is UTF-8.
pub open spec fn line_path(raw: Seq<u8>) -> Option<Seq<char>> {
    decoded(without_line_end(raw))
}

fn strip_line_end(raw: &[u8]) -> (line: &[u8])
    ensures
        line@ == without_line_end(raw@),
{
    let n = raw.len();
    if n > 0 && raw[n - 1] == LINE_FEED {
        let ended = slice_subrange(raw, 0, n - 1);
        assert(ended@ =~= raw@.drop_last());
        if n > 1 && ended[n - 2] == CARRIAGE_RETURN {
            let line = slice_subrange(ended, 0, n - 2);
            assert(line@ =~= ended@.drop_last());
            line
        } else {
            ended
        }
    } else {
        raw
    }
}

/// Reads the path from a line of the index, given as it was read.
pub fn read_path(raw: &[u8]) -> (path: Option<String>)
    ensures
        path is Some <==> line_path(raw@) is Some,
        path is Some ==> path->0@ == line_path(raw@)->0,
{
    utf8_text(slice_to_vec(strip_line_end(raw)))
}

/// A line feed ends the line, and takes one carriage return before it along:
/// the path of a line that a line feed ends is what stands before the line
/// feed, less one carriage return at its end.
pub proof fn law_line_feed_ends_the_line(line: Seq<u8>)
    ensures
        line_path(line.push(LINE_FEED)) == decoded(without_carriage_return(line)),
        line_path(line.push(CARRIAGE_RETURN).push(LINE_FEED)) == decoded(line),
{
    assert(line.push(LINE_FEED).drop_last() =~= line);
    let ended = line.push(CARRIAGE_RETURN);
    assert(ended.push(LINE_FEED).drop_last() =~= ended);
    assert(ended.drop_last() =~= line);
}

/// The last line needs no line feed: what a line holds that no line feed
/// ends is its path as it stands, a carriage return at its end included.
pub proof fn law_last_line_needs_no_line_feed(raw: Seq<u8>)
    requires
        raw.len() == 0 || raw.last() != LINE_FEED,
    ensures
        line_path(raw) == decoded(raw),
{
}

} // verus!
