//! The transport-agnostic byte-stream abstraction the runner drives.
//!
//! [`Communicate`] is the raw capability a serial port or TCP socket
//! supplies: single byte reads and whole-buffer writes, implemented
//! outside the verifier because they are I/O.  [`Connection`] wraps such a
//! transport and layers the verified line-framing read on top, keeping a
//! ghost log of every read outcome so that [`Connection::read_until`] can
//! promise exactly which bytes it copied and why it stopped.  Reads
//! proceed one byte at a time so that no byte belonging to the next frame
//! is retained across calls.

use vstd::prelude::*;

verus! {

/// A transport operation that failed.
#[derive(Clone, Copy, Debug, PartialEq, Eq, Structural)]
pub enum TransportError {
    /// The underlying stream could not be read.
    ReadFailed,
    /// The underlying stream could not be written or flushed.
    WriteFailed,
}

/// One byte-read outcome: a byte, a zero-byte read (a short read, not an
/// error), or a failure.
pub type ReadOutcome = Result<Option<u8>, TransportError>;

/// A byte sequence as the read outcomes that yielded it.
pub open spec fn ok_bytes(s: Seq<u8>) -> Seq<ReadOutcome> {
    s.map_values(|b: u8| Ok(Some(b)))
}

/// Raw capability surface of a transport: one byte per bounded read,
/// whole-buffer writes.  Implementations are I/O and live outside the
/// verifier.
pub trait Communicate {
    /// Reads one byte from the stream; `Ok(None)` means the stream
    /// yielded zero bytes.
    fn read_byte(&mut self) -> (r: ReadOutcome);

    /// Writes all given bytes, blocking until flushed or failed.
    fn write(&mut self, data: &[u8]) -> (r: Result<(), TransportError>);
}

/// A transport together with the ghost log of its read outcomes, oldest
/// first.  The log is appended by this wrapper's own verified code, so
/// every promise [`Connection::read_until`] makes about it is proved, not
/// assumed.
pub struct Connection<C: Communicate> {
    inner: C,
    history: Ghost<Seq<ReadOutcome>>,
}

impl<C: Communicate> Connection<C> {
    /// The log of this connection's read outcomes so far.
    pub closed spec fn history(&self) -> Seq<ReadOutcome> {
        self.history@
    }

    pub fn new(inner: C) -> (r: Connection<C>)
        ensures
            r.history() == Seq::<ReadOutcome>::empty(),
    {
        Connection { inner, history: Ghost(Seq::empty()) }
    }

    /// Hands the wrapped transport back, dropping the log.
    pub fn into_inner(self) -> C {
        self.inner
    }

    /// Reads one byte and logs the outcome.
    fn read_byte(&mut self) -> (r: ReadOutcome)
        ensures
            final(self).history() == old(self).history() + seq![r],
    {
        let r = self.inner.read_byte();
        self.history = Ghost(self.history@ + seq![r]);
        r
    }

    /// Writes all given bytes; the read log is untouched.
    pub fn write(&mut self, data: &[u8]) -> (r: Result<(), TransportError>)
        ensures
            final(self).history() == old(self).history(),
    {
        self.inner.write(data)
    }

    /// Reads one byte at a time into `buf` until the buffer is full, the
    /// delimiter byte was copied (inclusive), or the stream yields zero
    /// bytes; returns how many bytes were copied.  The copied bytes are
    /// exactly the bytes the stream yielded during the call, the delimiter
    /// can appear only as the last copied byte, bytes past the count keep
    /// their old values, and a failed read is returned as the error after
    /// the bytes copied so far.
    pub fn read_until(&mut self, buf: &mut Vec<u8>, until: u8) -> (r: Result<
        usize,
        TransportError,
    >)
        ensures
            final(buf)@.len() == old(buf)@.len(),
            match r {
                Ok(n) => n <= final(buf)@.len() && (forall|k: int|
                    0 <= k < n as int - 1 ==> final(buf)@[k] != until) && (forall|k: int|
                    n <= k < final(buf)@.len() ==> final(buf)@[k] == old(buf)@[k]) && ((
                final(self).history() == old(self).history() + ok_bytes(
                    final(buf)@.subrange(0, n as int),
                ) && (n == final(buf)@.len() || (n > 0 && final(buf)@[n as int - 1] == until)))
                    || final(self).history() == old(self).history() + ok_bytes(
                    final(buf)@.subrange(0, n as int),
                ) + seq![Ok::<Option<u8>, TransportError>(None)]),
                Err(e) => exists|k: int|
                    0 <= k <= final(buf)@.len() && #[trigger] final(self).history() == old(
                        self,
                    ).history() + ok_bytes(final(buf)@.subrange(0, k)) + seq![
                        Err::<Option<u8>, TransportError>(e),
                    ] && (forall|j: int| 0 <= j < k ==> final(buf)@[j] != until) && (forall|
                        j: int,
                    |
                        k <= j < final(buf)@.len() ==> final(buf)@[j] == old(buf)@[j]),
            },
    {
        let ghost history0 = self.history();
        let ghost buf0 = buf@;
        let mut bytes_read: usize = 0;
        let mut i: usize = 0;
        let mut failure: Option<TransportError> = None;
        let mut short_read = false;
        while i < buf.len()
            invariant_except_break
                i <= buf@.len(),
                buf@.len() == buf0.len(),
                bytes_read == i,
                failure is None,
                !short_read,
                self.history() == history0 + ok_bytes(buf@.subrange(0, i as int)),
                forall|k: int| 0 <= k < i ==> buf@[k] != until,
                forall|k: int| i <= k < buf@.len() ==> buf@[k] == buf0[k],
            ensures
                buf@.len() == buf0.len(),
                bytes_read <= buf@.len(),
                forall|k: int| 0 <= k < bytes_read as int - 1 ==> buf@[k] != until,
                forall|k: int| bytes_read <= k < buf@.len() ==> buf@[k] == buf0[k],
                failure matches Some(e) ==> self.history() == history0 + ok_bytes(
                    buf@.subrange(0, bytes_read as int),
                ) + seq![Err::<Option<u8>, TransportError>(e)] && (forall|k: int|
                    0 <= k < bytes_read ==> buf@[k] != until),
                failure is None && short_read ==> self.history() == history0 + ok_bytes(
                    buf@.subrange(0, bytes_read as int),
                ) + seq![Ok::<Option<u8>, TransportError>(None)],
                failure is None && !short_read ==> self.history() == history0 + ok_bytes(
                    buf@.subrange(0, bytes_read as int),
                ) && (bytes_read == buf@.len() || (bytes_read > 0 && buf@[bytes_read as int
                    - 1] == until)),
            decreases buf@.len() - i,
        {
            let ghost prefix = buf@.subrange(0, i as int);
            let byte = match self.read_byte() {
                Ok(b) => b,
                Err(e) => {
                    failure = Some(e);
                    break;
                },
            };
            match byte {
                None => {
                    short_read = true;
                    break;
                },
                Some(b) => {
                    buf.set(i, b);
                    bytes_read = bytes_read + 1;
                    proof {
                        assert(buf@.subrange(0, i + 1) =~= prefix + seq![b]);
                        assert(ok_bytes(prefix + seq![b]) =~= ok_bytes(prefix) + seq![
                            Ok::<Option<u8>, TransportError>(Some(b)),
                        ]);
                        assert(self.history() =~= history0 + ok_bytes(buf@.subrange(0, i + 1)));
                    }
                    if b == until {
                        break;
                    }
                },
            }
            i = i + 1;
        }
        match failure {
            Some(e) => {
                proof {
                    assert(0 <= bytes_read as int <= buf@.len() && self.history() == history0
                        + ok_bytes(buf@.subrange(0, bytes_read as int)) + seq![
                        Err::<Option<u8>, TransportError>(e),
                    ] && (forall|j: int| 0 <= j < bytes_read ==> buf@[j] != until) && (forall|
                        j: int,
                    |
                        bytes_read as int <= j < buf@.len() ==> buf@[j] == buf0[j]));
                }
                Err(e)
            },
            None => Ok(bytes_read),
        }
    }
}

} // verus!
