use vstd::prelude::*;

use crate::response::{
    found, found_view, not_found, not_found_view, Response, ResponseView, STATUS_NOT_FOUND, STATUS_OK,
};

verus! {

/// What a filesystem lookup of the resolved path found, following symbolic
/// links.
#[derive(Clone, Copy, Debug, PartialEq, Eq, Structural)]
pub enum EntryKind {
    /// Nothing is there, or the lookup itself failed.
    Missing,
    /// A directory.
    Directory,
    /// A regular file.
    File,
    /// Anything else: a socket, a device, a pipe.
    Other,
}

/// A read of a regular file that failed: permission denied, the file went
/// away after the lookup, or an I/O fault. The cause is not kept.
#[derive(Clone, Copy, Debug, PartialEq, Eq, Structural)]
pub struct ReadError;

/// Why a request was not served. All causes reach the client as the same
/// not-found response; the distinction is kept for callers that observe it.
#[derive(Clone, Copy, Debug, PartialEq, Eq, Structural)]
pub enum Failure {
    /// Nothing exists at the resolved path.
    Missing,
    /// Something exists there, but it is not a regular file.
    NotAFile,
    /// The regular file could not be read.
    Unreadable,
}

/// What the responder asks for once the lookup is done.
pub enum Step {
    /// The path names a regular file: read it whole and hand the result to
    /// `after_read`.
    ReadFile,
    /// Nothing more to do: send this response.
    Reply(Response),
}

/// The read result, with the bytes as a sequence.
pub open spec fn read_view(read: Result<Vec<u8>, ReadError>) -> Result<Seq<u8>, ReadError> {
    match read {
        Ok(bytes) => Ok(bytes@),
        Err(e) => Err(e),
    }
}

/// An outcome, with the bytes as a sequence.
pub open spec fn outcome_view(outcome: Result<Vec<u8>, Failure>) -> Result<Seq<u8>, Failure> {
    match outcome {
        Ok(bytes) => Ok(bytes@),
        Err(f) => Err(f),
    }
}

/// The failure that a lookup result alone decides, if any.
pub open spec fn lookup_failure(kind: EntryKind) -> Option<Failure> {
    match kind {
        EntryKind::Missing => Some(Failure::Missing),
        EntryKind::Directory | EntryKind::Other => Some(Failure::NotAFile),
        EntryKind::File => None,
    }
}

/// The result of a request whose lookup found `kind` and, for a regular
/// file, whose read gave `read`.
pub open spec fn outcome_of(kind: EntryKind, read: Result<Seq<u8>, ReadError>) -> Result<
    Seq<u8>,
    Failure,
> {
    match lookup_failure(kind) {
        Some(f) => Err(f),
        None => match read {
            Ok(bytes) => Ok(bytes),
            Err(_) => Err(Failure::Unreadable),
        },
    }
}

/// The response that carries an outcome to the client.
pub open spec fn response_of(outcome: Result<Seq<u8>, Failure>) -> ResponseView {
    match outcome {
        Ok(bytes) => found_view(bytes),
        Err(_) => not_found_view(),
    }
}

/// The response to a request whose lookup found `kind` and, for a regular
/// file, whose read gave `read`.
pub open spec fn served(kind: EntryKind, read: Result<Seq<u8>, ReadError>) -> ResponseView {
    response_of(outcome_of(kind, read))
}

/// Decides, from the lookup alone, whether the file must be read or the
/// not-found response is due.
pub fn after_lookup(kind: EntryKind) -> (s: Step)
    ensures
        (s is ReadFile) == (kind == EntryKind::File),
        s matches Step::Reply(r) ==> r@ == not_found_view(),
{
    match kind {
        EntryKind::File => Step::ReadFile,
        _ => Step::Reply(not_found()),
    }
}

/// The response once a regular file has been read: its bytes, or not found
/// whatever the cause of the failure.
pub fn after_read(read: Result<Vec<u8>, ReadError>) -> (r: Response)
    ensures
        r@ == served(EntryKind::File, read_view(read)),
{
    match read {
        Ok(bytes) => found(bytes),
        Err(_) => not_found(),
    }
}

/// The outcome of a request whose lookup found `kind` and, for a regular
/// file, whose read gave `read`; `read` is not looked at otherwise.
pub fn outcome(kind: EntryKind, read: Result<Vec<u8>, ReadError>) -> (o: Result<Vec<u8>, Failure>)
    ensures
        outcome_view(o) == outcome_of(kind, read_view(read)),
{
    match kind {
        EntryKind::Missing => Err(Failure::Missing),
        EntryKind::Directory | EntryKind::Other => Err(Failure::NotAFile),
        EntryKind::File => match read {
            Ok(bytes) => Ok(bytes),
            Err(_) => Err(Failure::Unreadable),
        },
    }
}

/// Collapses an outcome into the response the client sees: every failure
/// becomes the same not-found response.
pub fn into_response(outcome: Result<Vec<u8>, Failure>) -> (r: Response)
    ensures
        r@ == response_of(outcome_view(outcome)),
{
    match outcome {
        Ok(bytes) => found(bytes),
        Err(_) => not_found(),
    }
}

/// The response to a request whose lookup found `kind` and, for a regular
/// file, whose read gave `read`.
pub fn handle(kind: EntryKind, read: Result<Vec<u8>, ReadError>) -> (r: Response)
    ensures
        r@ == served(kind, read_view(read)),
{
    into_response(outcome(kind, read))
}

/// A request whose path names a regular file that reads as `bytes` is
/// answered with status 200 and exactly those bytes.
pub proof fn regular_file_is_served(bytes: Seq<u8>)
    ensures
        served(EntryKind::File, Ok(bytes)) == found_view(bytes),
{
}

/// A request whose path names nothing is answered with the not-found
/// response.
pub proof fn missing_entry_is_not_found(read: Result<Seq<u8>, ReadError>)
    ensures
        served(EntryKind::Missing, read) == not_found_view(),
{
}

/// A request whose path names a directory is answered with the not-found
/// response.
pub proof fn directory_is_not_found(read: Result<Seq<u8>, ReadError>)
    ensures
        served(EntryKind::Directory, read) == not_found_view(),
{
}

/// A regular file whose read fails is answered with the not-found response,
/// whatever the cause.
pub proof fn unreadable_file_is_not_found(e: ReadError)
    ensures
        served(EntryKind::File, Err(e)) == not_found_view(),
{
}

/// Two requests that see the same filesystem, the same lookup result and,
/// for a regular file, the same bytes, get the same response. Where the
/// path names no regular file, nothing read matters.
pub proof fn repeated_request_is_answered_alike(
    kind: EntryKind,
    first: Result<Seq<u8>, ReadError>,
    second: Result<Seq<u8>, ReadError>,
)
    requires
        kind == EntryKind::File ==> first == second,
    ensures
        served(kind, first) == served(kind, second),
{
}

/// Every response has status 200 or 404, and a 404 always carries the
/// not-found text.
pub proof fn status_is_ok_or_not_found(kind: EntryKind, read: Result<Seq<u8>, ReadError>)
    ensures
        served(kind, read).status == STATUS_OK || served(kind, read) == not_found_view(),
        served(kind, read).status == STATUS_NOT_FOUND ==> served(kind, read) == not_found_view(),
{
}

} // verus!
