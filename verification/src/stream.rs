//! The three standard streams of the worker process.

use vstd::prelude::*;

verus! {

/// One of the worker's standard streams. The parent holds the other end of
/// each: what the parent writes to `Stdin` the worker reads from it, and what
/// the worker writes to `Stdout` or `Stderr` the parent reads.
#[derive(Clone, Copy, Debug, PartialEq, Eq)]
pub enum Stream {
    Stdin,
    Stdout,
    Stderr,
}

/// What reading the next line of a stream came to, as a value for contracts:
/// a line without its terminator, the clean end of the stream, or the reason
/// why the read failed.
pub type ReadView = Result<Option<Seq<char>>, Seq<char>>;

/// The content of the outcome of reading one line.
pub open spec fn read_view(read: Result<Option<String>, String>) -> ReadView {
    match read {
        Ok(Some(line)) => Ok(Some(line@)),
        Ok(None) => Ok(None),
        Err(detail) => Err(detail@),
    }
}

} // verus!
