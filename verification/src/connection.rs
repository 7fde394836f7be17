//! The command-framing layer over one transport.

use vstd::prelude::*;
use std::time::Duration;
use crate::command::Command;
use crate::i2c_stream::I2CStream;
use crate::stream::{response, Stream};

verus! {

/// A session with one slave device over one transport, which it owns.
pub struct Connection<S> {
    stream: S,
}

impl<S> Connection<S> {
    /// The transport that this connection owns.
    pub closed spec fn stream(&self) -> S {
        self.stream
    }

    /// Binds a connection to `stream`.
    pub fn new(stream: S) -> (connection: Self)
        ensures
            connection.stream() == stream,
    {
        Connection { stream }
    }

    /// Gives the transport back.
    pub fn into_stream(self) -> (stream: S)
        ensures
            stream == self.stream(),
    {
        self.stream
    }
}

impl Connection<I2CStream> {
    /// Binds a connection to the slave at `slave` on the bus at `path`.
    pub fn from_path(path: &str, slave: u16) -> (connection: Self)
        ensures
            connection.stream().path() == path@,
            connection.stream().slave() == slave,
    {
        Connection { stream: I2CStream::new(path, slave) }
    }
}

impl<S: Stream> Connection<S> {
    /// Writes `command`: the transport's `write` is handed the register byte
    /// followed by the payload, and its result comes back unchanged.
    pub fn write(&self, command: Command) -> (result: Result<(), S::StreamError>)
        ensures
            self.stream().write_may_give(command.framed(), result),
    {
        let buffer = command.into_buffer();
        self.stream.write(buffer)
    }

    /// Reads `rx_len` bytes from the register of `command`: the transport's
    /// `read` is handed the register byte followed by the payload, and its
    /// result comes back unchanged.
    pub fn read(&self, command: Command, rx_len: usize) -> (result: Result<Vec<u8>, S::StreamError>)
        ensures
            self.stream().read_may_give(command.framed(), rx_len, response(result)),
            result matches Ok(bytes) ==> bytes@.len() == rx_len,
    {
        let buffer = command.into_buffer();
        self.stream.read(buffer.as_slice(), rx_len)
    }

    /// Writes `command` and reads `rx_len` bytes back: the transport's
    /// `transfer` is handed the register byte followed by the payload,
    /// `rx_len` and `delay`, and its result comes back unchanged.
    pub fn transfer(&self, command: Command, rx_len: usize, delay: Duration) -> (result: Result<
        Vec<u8>,
        S::StreamError,
    >)
        ensures
            self.stream().transfer_may_give(command.framed(), rx_len, delay, response(result)),
            result matches Ok(bytes) ==> bytes@.len() == rx_len,
    {
        let buffer = command.into_buffer();
        self.stream.transfer(buffer, rx_len, delay)
    }
}

/// A transport whose exchanges answer with bytes that depend on the buffer
/// and the requested length alone gives, through a connection, exactly those
/// bytes for the register byte followed by the payload.
pub proof fn lemma_transfer_round_trip<S: Stream>(
    connection: Connection<S>,
    command: Command,
    rx_len: usize,
    delay: Duration,
    echo: spec_fn(Seq<u8>, usize) -> Seq<u8>,
    result: Result<Seq<u8>, S::StreamError>,
)
    requires
        forall|buffer: Seq<u8>, n: usize, d: Duration, r: Result<Seq<u8>, S::StreamError>|
            #[trigger] connection.stream().transfer_may_give(buffer, n, d, r) ==> r == Ok::<
                Seq<u8>,
                S::StreamError,
            >(echo(buffer, n)),
        connection.stream().transfer_may_give(command.framed(), rx_len, delay, result),
    ensures
        result == Ok::<Seq<u8>, S::StreamError>(echo(seq![command.cmd] + command.data@, rx_len)),
{
}

/// Where the transport's write of the framed command can only fail with
/// `cause`, so does the connection's write.
pub proof fn lemma_write_failure_propagates<S: Stream>(
    connection: Connection<S>,
    command: Command,
    cause: S::StreamError,
    result: Result<(), S::StreamError>,
)
    requires
        forall|r: Result<(), S::StreamError>| #[trigger]
            connection.stream().write_may_give(command.framed(), r) ==> r == Err::<
                (),
                S::StreamError,
            >(cause),
        connection.stream().write_may_give(command.framed(), result),
    ensures
        result == Err::<(), S::StreamError>(cause),
{
}

/// Where the transport's read for the framed command can only fail with
/// `cause` (a timeout, say), the connection's read fails with that very
/// cause, not another.
pub proof fn lemma_read_failure_propagates<S: Stream>(
    connection: Connection<S>,
    command: Command,
    rx_len: usize,
    cause: S::StreamError,
    result: Result<Seq<u8>, S::StreamError>,
)
    requires
        forall|r: Result<Seq<u8>, S::StreamError>| #[trigger]
            connection.stream().read_may_give(command.framed(), rx_len, r) ==> r == Err::<
                Seq<u8>,
                S::StreamError,
            >(cause),
        connection.stream().read_may_give(command.framed(), rx_len, result),
    ensures
        result == Err::<Seq<u8>, S::StreamError>(cause),
{
}

} // verus!
