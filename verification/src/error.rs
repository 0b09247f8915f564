//! Protocol errors: every one carries the reply owed to the client.

use crate::reply::Replies;
use vstd::prelude::*;

verus! {

/// A failure to decode or to serve a request, with the reply code that goes
/// back to the client before the connection ends.
#[derive(Debug)]
pub struct Error {
    /// Reply code
    pub reply: Replies,
    /// Error message
    pub message: String,
}

impl Error {
    /// An error with this reply and this message.
    pub fn new(reply: Replies, message: &str) -> (e: Error)
        ensures
            e.reply == reply,
            e.message@ == message@,
    {
        Error { reply, message: message.to_owned() }
    }

    /// The error that stands for a failed read or write: a general failure
    /// with the description of what went wrong.
    pub fn from_io(description: &str) -> (e: Error)
        ensures
            e.reply == Replies::GeneralFailure,
            e.message@ == description@,
    {
        Error::new(Replies::GeneralFailure, description)
    }

    /// The message.
    pub fn message(&self) -> (m: &str)
        ensures
            m@ == self.message@,
    {
        self.message.as_str()
    }

    /// The message as an owned string: what the error prints as.
    pub fn to_string(&self) -> (s: String)
        ensures
            s@ == self.message@,
    {
        self.message.clone()
    }
}

impl Clone for Error {
    fn clone(&self) -> (e: Error)
        ensures
            e.reply == self.reply,
            e.message@ == self.message@,
    {
        Error { reply: self.reply, message: self.message.clone() }
    }
}

/// Why a frame could not be decoded from the bytes at hand.
#[derive(Debug)]
pub enum DecodeError {
    /// The source ends before the frame does: `needed` more bytes have to be
    /// read before decoding can go on.
    UnexpectedEof { needed: usize },
    /// The bytes break the protocol.
    Protocol(Error),
}

/// What a decoder makes of a byte sequence.
pub enum Decoded<T> {
    /// A value, and the number of leading bytes that it was decoded from.
    Complete(T, nat),
    /// The sequence is a proper prefix of a frame; so many bytes have to
    /// follow before more can be said.
    Incomplete(nat),
    /// The sequence breaks the protocol: the reply owed, and a message.
    Rejected(Replies, Seq<char>),
}

/// The result of an executable decoder as a `Decoded`.
pub open spec fn outcome<T: View>(r: Result<(T, usize), DecodeError>) -> Decoded<T::V> {
    match r {
        Ok((v, n)) => Decoded::Complete(v@, n as nat),
        Err(DecodeError::UnexpectedEof { needed }) => Decoded::Incomplete(needed as nat),
        Err(DecodeError::Protocol(e)) => Decoded::Rejected(e.reply, e.message@),
    }
}

} // verus!
