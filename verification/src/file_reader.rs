//! What a finished file read amounts to.

use vstd::prelude::*;
use crate::error::{ErrorKind, Failure};

verus! {

/// The result of reading a file whose read ended in `outcome`: the bytes as
/// they were read, or an I/O failure with the system's text for it.
pub open spec fn read_result(outcome: Result<Seq<u8>, Seq<char>>) -> Result<Seq<u8>, Failure> {
    match outcome {
        Ok(bytes) => Ok(bytes),
        Err(text) => Err(Failure::Io(text)),
    }
}

/// The outcome of a read, as values.
pub open spec fn outcome_model(outcome: Result<Vec<u8>, String>) -> Result<Seq<u8>, Seq<char>> {
    match outcome {
        Ok(bytes) => Ok(bytes@),
        Err(text) => Err(text@),
    }
}

/// A result of [`read_file_bytes`], as values.
pub open spec fn result_model(result: Result<Vec<u8>, ErrorKind>) -> Result<Seq<u8>, Failure> {
    match result {
        Ok(bytes) => Ok(bytes@),
        Err(e) => Err(e@),
    }
}

/// Turns the outcome of reading a whole file into what the front-end gets.
///
/// The caller has read the file, once and with no limit on its size, and
/// hands over either all its bytes or the system's error text. The bytes
/// come back untouched, in number and in content; an error comes back as
/// [`ErrorKind::IoFailure`] with the same text.
pub fn read_file_bytes(outcome: Result<Vec<u8>, String>) -> (result: Result<Vec<u8>, ErrorKind>)
    ensures
        result_model(result) == read_result(outcome_model(outcome)),
        outcome is Ok ==> result is Ok && result->Ok_0 == outcome->Ok_0,
{
    match outcome {
        Ok(bytes) => Ok(bytes),
        Err(text) => Err(ErrorKind::IoFailure(text)),
    }
}

/// A failed read never yields bytes, and a read that succeeded never yields
/// a failure.
pub proof fn lemma_read_result_kind(outcome: Result<Seq<u8>, Seq<char>>)
    ensures
        read_result(outcome) is Ok <==> outcome is Ok,
        read_result(outcome) is Err ==> read_result(outcome)->Err_0 is Io,
{
}

/// A read that succeeded yields its bytes unchanged, as many as were read.
pub proof fn lemma_read_result_bytes(bytes: Seq<u8>)
    ensures
        read_result(Ok(bytes)) == Ok::<Seq<u8>, Failure>(bytes),
        read_result(Ok(bytes))->Ok_0.len() == bytes.len(),
{
}

} // verus!
