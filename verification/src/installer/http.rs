//! What the download of a file decides, and the sum of what it brought.
//!
//! The exchange itself is the caller's: it sends one GET request, hands
//! what came of it to [`load_file`], and where that allows it writes each
//! chunk of the body to the destination and hands the chunk, and what came
//! of writing it, to [`FileLoad::chunk`]. The body is never held as a whole.
//! After the last chunk, [`FileLoad::finish`] gives the sum of the file.

use crate::installer::digest::{absorb, absorbed, finish, sha256, start, Sha256Sum};
use crate::status::{status_text, StatusCode};
use vstd::prelude::*;
use vstd::string::*;

verus! {

/// An error that can happen when loading a file.
#[derive(Debug)]
pub enum FileLoadError {
    /// The request could not be built or sent. Holds what the transport said
    /// of it.
    Reqwest(String),
    /// The server returned a bad status code.
    Server(StatusCode),
    /// The reading from the network failed. Holds what the transport said of
    /// it.
    Read(String),
    /// The writing to the file failed. Holds what the system said of it.
    Write(String),
}

impl FileLoadError {
    /// The text of the message that describes the error.
    pub open spec fn text(self) -> Seq<char> {
        match self {
            FileLoadError::Reqwest(cause) => "reqwest error: "@ + cause@,
            FileLoadError::Server(status) => "server error: "@ + status_text(status.value()),
            FileLoadError::Read(cause) => "read error: "@ + cause@,
            FileLoadError::Write(cause) => "write error: "@ + cause@,
        }
    }

    /// Describes the error.
    pub fn to_string(&self) -> (r: String)
        ensures
            r@ == self.text(),
    {
        match self {
            FileLoadError::Reqwest(cause) => "reqwest error: ".to_owned().concat(cause.as_str()),
            FileLoadError::Server(status) => {
                let shown = status.to_string();
                "server error: ".to_owned().concat(shown.as_str())
            },
            FileLoadError::Read(cause) => "read error: ".to_owned().concat(cause.as_str()),
            FileLoadError::Write(cause) => "write error: ".to_owned().concat(cause.as_str()),
        }
    }
}

/// The body of a file as it arrives.
pub struct FileLoad {
    sum: Sha256Sum,
}

/// Takes what came of sending the request: the status of the answer, or
/// what the transport said of its failure to build or send the request.
///
/// A request that failed fails the loading, and so does an answer that
/// reports no success: its body is not taken. Of any other answer nothing
/// has arrived yet.
pub fn load_file(sent: Result<StatusCode, String>) -> (r: Result<FileLoad, FileLoadError>)
    ensures
        match sent {
            Ok(status) => if status.succeeded() {
                r matches Ok(load) && load.received() == Seq::<u8>::empty()
            } else {
                r matches Err(error) && error == FileLoadError::Server(status)
            },
            Err(cause) => r matches Err(error) && error == FileLoadError::Reqwest(cause),
        },
{
    match sent {
        Ok(status) => if status.is_success() {
            Ok(FileLoad { sum: start() })
        } else {
            Err(FileLoadError::Server(status))
        },
        Err(cause) => Err(FileLoadError::Reqwest(cause)),
    }
}

impl FileLoad {
    /// The bytes that arrived, and were written, so far.
    pub closed spec fn received(self) -> Seq<u8> {
        absorbed(self.sum)
    }

    /// Takes the next chunk of the body, and what came of writing it to the
    /// destination: a chunk that was written counts as arrived, and one that
    /// was not fails the loading.
    pub fn chunk(&mut self, chunk: &[u8], written: Result<(), String>) -> (r: Result<
        (),
        FileLoadError,
    >)
        ensures
            match written {
                Ok(_) => r is Ok && final(self).received() == old(self).received() + chunk@,
                Err(cause) => r == Err::<(), FileLoadError>(FileLoadError::Write(cause))
                    && final(self).received() == old(self).received(),
            },
    {
        match written {
            Ok(_) => {
                absorb(&mut self.sum, chunk);
                Ok(())
            },
            Err(cause) => Err(FileLoadError::Write(cause)),
        }
    }

    /// Takes the failure of the transport to read the next chunk, which
    /// fails the loading.
    pub fn interrupted(self, cause: String) -> (error: FileLoadError)
        ensures
            error == FileLoadError::Read(cause),
    {
        FileLoadError::Read(cause)
    }

    /// Ends the body: the SHA-256 sum of all that arrived.
    pub fn finish(self) -> (hash: Vec<u8>)
        ensures
            hash@ == sha256(self.received()),
    {
        finish(self.sum)
    }
}

} // verus!
