//! The transport capability: raw bus operations on flattened buffers.

use vstd::prelude::*;
use std::time::Duration;

verus! {

/// What a read-back looks like in contracts: the bytes received, or the
/// cause of the failure.
pub open spec fn response<E>(result: Result<Vec<u8>, E>) -> Result<Seq<u8>, E> {
    match result {
        Ok(bytes) => Ok(bytes@),
        Err(cause) => Err(cause),
    }
}

/// A transport that can write to, read from and exchange bytes with one
/// addressed slave device.
///
/// Each operation comes with a relation that says which results it may give
/// for which arguments. A transport that says nothing of itself admits every
/// result; one with known behaviour (a scripted test double, say) narrows the
/// relation. Whatever is proved of a caller holds for every such relation.
///
/// Nothing checks an implementation written outside this crate: it owes the
/// clauses below, above all that a successful read-back has exactly the
/// requested length.
pub trait Stream {
    /// The cause carried by a failed operation.
    type StreamError;

    /// Whether `write`, handed `buffer`, may give `result`.
    open spec fn write_may_give(
        &self,
        buffer: Seq<u8>,
        result: Result<(), Self::StreamError>,
    ) -> bool {
        true
    }

    /// Whether `read`, handed `buffer` and `rx_len`, may give `result`.
    open spec fn read_may_give(
        &self,
        buffer: Seq<u8>,
        rx_len: usize,
        result: Result<Seq<u8>, Self::StreamError>,
    ) -> bool {
        true
    }

    /// Whether `read_timeout`, handed `buffer`, `rx_len` and `timeout`, may
    /// give `result`.
    open spec fn read_timeout_may_give(
        &self,
        buffer: Seq<u8>,
        rx_len: usize,
        timeout: Duration,
        result: Result<Seq<u8>, Self::StreamError>,
    ) -> bool {
        true
    }

    /// Whether `transfer`, handed `buffer`, `rx_len` and `delay`, may give
    /// `result`.
    open spec fn transfer_may_give(
        &self,
        buffer: Seq<u8>,
        rx_len: usize,
        delay: Duration,
        result: Result<Seq<u8>, Self::StreamError>,
    ) -> bool {
        true
    }

    /// Sends `buffer` to the slave as one block write: the first byte names
    /// the register, the rest is the payload.
    fn write(&self, buffer: Vec<u8>) -> (result: Result<(), Self::StreamError>)
        requires
            buffer@.len() > 0,
        ensures
            self.write_may_give(buffer@, result),
    ;

    /// Sends `buffer` to the slave exactly as `write` does.
    fn write_bytes(&self, buffer: Vec<u8>) -> (result: Result<(), Self::StreamError>)
        requires
            buffer@.len() > 0,
        ensures
            self.write_may_give(buffer@, result),
    ;

    /// Reads `rx_len` bytes from the register named by the first byte of
    /// `buffer`.
    fn read(&self, buffer: &[u8], rx_len: usize) -> (result: Result<Vec<u8>, Self::StreamError>)
        requires
            buffer@.len() > 0,
        ensures
            self.read_may_give(buffer@, rx_len, response(result)),
            result matches Ok(bytes) ==> bytes@.len() == rx_len,
    ;

    /// Reads as `read` does, waiting no longer than `timeout` for the slave.
    fn read_timeout(&self, buffer: Vec<u8>, rx_len: usize, timeout: Duration) -> (result: Result<
        Vec<u8>,
        Self::StreamError,
    >)
        requires
            buffer@.len() > 0,
        ensures
            self.read_timeout_may_give(buffer@, rx_len, timeout, response(result)),
            result matches Ok(bytes) ==> bytes@.len() == rx_len,
    ;

    /// Writes `buffer` to the slave, waits at least `delay`, then reads
    /// `rx_len` bytes back, as one logical exchange.
    fn transfer(&self, buffer: Vec<u8>, rx_len: usize, delay: Duration) -> (result: Result<
        Vec<u8>,
        Self::StreamError,
    >)
        ensures
            self.transfer_may_give(buffer@, rx_len, delay, response(result)),
            result matches Ok(bytes) ==> bytes@.len() == rx_len,
    ;
}

} // verus!
