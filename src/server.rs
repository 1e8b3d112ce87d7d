//! Serving files from a root directory: where a request's URL leads, what
//! is sent back, and when the serving loop stops.
//!
//! The requested URL is joined under the root as it stands: `..` segments
//! are kept, so a request can reach files outside the root.
use vstd::prelude::*;
use vstd::string::*;
use crate::mime::{content_type, extension_of, mime_of};

verus! {

/// `rel` appended to the directory `dir` the way `std::path::Path::join`
/// appends a relative path: with a `/` between them unless `dir` is empty
/// or already ends in one.
pub open spec fn join_relative(dir: Seq<char>, rel: Seq<char>) -> Seq<char> {
    if dir.len() == 0 || dir.last() == '/' {
        dir + rel
    } else {
        dir + seq!['/'] + rel
    }
}

/// The file that a request for `url` under `root` reads: the URL, made
/// relative by a leading `.`, joined under the root.
pub open spec fn file_path(root: Seq<char>, url: Seq<char>) -> Seq<char> {
    join_relative(root, seq!['.'] + url)
}

/// What is sent back for one request.
#[derive(Clone, Copy, Debug)]
pub enum Reply {
    /// Status 200, the file's bytes as the body, with this content type.
    File { content_type: &'static str },
    /// Status 404 with an empty body.
    NotFound,
}

impl Reply {
    /// The HTTP status of the reply.
    pub fn status(&self) -> (r: u16)
        ensures
            self is File ==> r == 200,
            self is NotFound ==> r == 404,
    {
        match self {
            Reply::File { .. } => 200,
            Reply::NotFound => 404,
        }
    }
}

/// The reply for the file at `path`, where `opened` tells whether it could
/// be opened for reading: any failure is a 404.
pub fn reply_for(path: &str, opened: bool) -> (r: Reply)
    ensures
        opened <==> r is File,
        r matches Reply::File { content_type } ==> content_type@ == mime_of(
            extension_of(path@),
        ),
{
    if opened {
        Reply::File { content_type: content_type(path) }
    } else {
        Reply::NotFound
    }
}

/// A server of the files under one root directory. The root is not checked
/// when the server is made; each request is resolved against it afresh.
pub struct FileServer {
    pub root: String,
}

impl FileServer {
    pub fn new(root: String) -> (r: FileServer)
        ensures
            r.root@ == root@,
    {
        FileServer { root }
    }

    /// The path of the file that a request for `url` reads.
    pub fn path_for(&self, url: &str) -> (r: String)
        ensures
            r@ == file_path(self.root@, url@),
    {
        let root = self.root.as_str();
        let mut r = String::from_str(root);
        let n = root.unicode_len();
        if n > 0 && root.get_char(n - 1) != '/' {
            r.append("/");
            proof {
                reveal_strlit("/");
            }
        }
        r.append(".");
        r.append(url);
        proof {
            reveal_strlit(".");
            assert(r@ =~= file_path(self.root@, url@));
        }
        r
    }
}

/// Where the serving loop stands.
#[derive(Clone, Copy, Debug, PartialEq, Eq, Structural)]
pub enum ServeState {
    /// Waiting for the next request.
    Listening,
    /// A request was received and its reply is being sent.
    Responding,
    /// Receiving failed: the loop is over.
    Stopped,
}

/// What happened to the serving loop.
#[derive(Clone, Copy, Debug, PartialEq, Eq, Structural)]
pub enum ServeEvent {
    Received,
    ReceiveFailed,
    Sent,
    SendFailed,
}

/// Whether `e` can happen in state `s`: receiving while listening, sending
/// while responding.
pub open spec fn serve_expects(s: ServeState, e: ServeEvent) -> bool {
    match s {
        ServeState::Listening => e == ServeEvent::Received || e == ServeEvent::ReceiveFailed,
        ServeState::Responding => e == ServeEvent::Sent || e == ServeEvent::SendFailed,
        ServeState::Stopped => false,
    }
}

/// The next state of the serving loop. Only a failed receive stops it; a
/// reply that could not be sent is dropped and the loop listens again.
pub open spec fn serve_next(s: ServeState, e: ServeEvent) -> ServeState {
    match e {
        ServeEvent::Received => ServeState::Responding,
        ServeEvent::ReceiveFailed => ServeState::Stopped,
        ServeEvent::Sent => ServeState::Listening,
        ServeEvent::SendFailed => ServeState::Listening,
    }
}

/// Moves the serving loop on after event `e`.
pub fn serve_step(s: ServeState, e: ServeEvent) -> (r: ServeState)
    requires
        serve_expects(s, e),
    ensures
        r == serve_next(s, e),
        r == ServeState::Stopped <==> e == ServeEvent::ReceiveFailed,
{
    match e {
        ServeEvent::Received => ServeState::Responding,
        ServeEvent::ReceiveFailed => ServeState::Stopped,
        ServeEvent::Sent => ServeState::Listening,
        ServeEvent::SendFailed => ServeState::Listening,
    }
}

} // verus!
