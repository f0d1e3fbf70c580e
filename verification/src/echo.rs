use vstd::prelude::*;

verus! {

/// What one read of a socket into a buffer gave.
#[derive(Debug, Clone, PartialEq, Eq)]
pub enum ReadResult {
    /// The read filled the first `n` bytes of the buffer; `0` means the peer closed.
    Filled(usize),
    /// The read failed.
    Failed,
}

/// What the echo server does with a connection after a read.
#[derive(Debug, Clone, PartialEq, Eq)]
pub enum EchoAction {
    /// Drop the connection.
    Close,
    /// Write these bytes back to the client, then read again.
    WriteBack(Vec<u8>),
}

/// What the reader of the greeting server does after a read.
#[derive(Debug, Clone, PartialEq, Eq)]
pub enum ReaderAction {
    /// The peer closed: stop reading this connection and accept the next one.
    Finish,
    /// Report these bytes, then read again.
    Report(Vec<u8>),
    /// Stop the whole server with the read's error.
    Exit,
}

/// The echo server's decision: the bytes that were read go back to the client; an empty
/// read or a failed one ends the connection.
pub fn echo_step(buf: &Vec<u8>, read: ReadResult) -> (action: EchoAction)
    requires
        read matches ReadResult::Filled(n) ==> n <= buf@.len(),
    ensures
        match read {
            ReadResult::Filled(n) => if n == 0 {
                action is Close
            } else {
                action is WriteBack && action->WriteBack_0@ == buf@.take(n as int)
            },
            ReadResult::Failed => action is Close,
        },
{
    match read {
        ReadResult::Filled(n) => if n == 0 {
            EchoAction::Close
        } else {
            EchoAction::WriteBack(prefix(buf, n))
        },
        ReadResult::Failed => EchoAction::Close,
    }
}

/// The greeting server's reader: report what was read until the peer closes; a failed
/// read stops the server.
pub fn reader_step(buf: &Vec<u8>, read: ReadResult) -> (action: ReaderAction)
    requires
        read matches ReadResult::Filled(n) ==> n <= buf@.len(),
    ensures
        match read {
            ReadResult::Filled(n) => if n == 0 {
                action is Finish
            } else {
                action is Report && action->Report_0@ == buf@.take(n as int)
            },
            ReadResult::Failed => action is Exit,
        },
{
    match read {
        ReadResult::Filled(n) => if n == 0 {
            ReaderAction::Finish
        } else {
            ReaderAction::Report(prefix(buf, n))
        },
        ReadResult::Failed => ReaderAction::Exit,
    }
}

/// The first `n` bytes of `buf`.
fn prefix(buf: &Vec<u8>, n: usize) -> (r: Vec<u8>)
    requires
        n <= buf@.len(),
    ensures
        r@ == buf@.take(n as int),
{
    let mut r: Vec<u8> = Vec::with_capacity(n);
    let mut i: usize = 0;
    while i < n
        invariant
            i <= n <= buf@.len(),
            r@ == buf@.take(i as int),
        decreases n - i,
    {
        r.push(buf[i]);
        i = i + 1;
        assert(r@ =~= buf@.take(i as int));
    }
    r
}

} // verus!
