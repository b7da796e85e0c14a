//! Errors, and byte-oriented reading and writing.

use vstd::prelude::*;

verus! {

/// The kinds of error that operations of this library report.
#[derive(Clone, Copy, Debug, PartialEq, Eq, Hash, Structural)]
pub enum Error {
    /// A write accepted no bytes.
    WriteZero,
    /// A read found the source exhausted before enough bytes came.
    UnexpectedEof,
    /// The value given stands for no interrupt line.
    InvalidInterruptPin,
    /// The serial port does not support the framing asked for.
    UnsupportedSerialMode,
    /// Any other failure.
    Other,
}

/// The result of an operation that may fail with an `Error`.
pub type Result<T> = core::result::Result<T, Error>;

impl Error {
    /// A short description of the error.
    pub fn description(&self) -> (r: &'static str)
        ensures
            r@ == error_text(*self),
    {
        match self {
            Error::WriteZero => "write zero",
            Error::UnexpectedEof => "unexpected end of file",
            Error::InvalidInterruptPin => "invalid interrupt pin",
            Error::UnsupportedSerialMode => "unsupported serial mode",
            Error::Other => "other error",
        }
    }
}

/// The description of each kind of error.
pub open spec fn error_text(e: Error) -> Seq<char> {
    match e {
        Error::WriteZero => "write zero"@,
        Error::UnexpectedEof => "unexpected end of file"@,
        Error::InvalidInterruptPin => "invalid interrupt pin"@,
        Error::UnsupportedSerialMode => "unsupported serial mode"@,
        Error::Other => "other error"@,
    }
}

/// A sink of bytes.
pub trait Write {
    /// Everything written to the sink so far.
    spec fn written(&self) -> Seq<u8>;

    /// Writes a prefix of `buf`, possibly empty, and returns its length; on an error, writes
    /// nothing.
    fn write(&mut self, buf: &[u8]) -> (r: Result<usize>)
        ensures
            match r {
                Ok(n) => {
                    &&& n <= buf@.len()
                    &&& final(self).written() == old(self).written() + buf@.subrange(0, n as int)
                },
                Err(_) => final(self).written() == old(self).written(),
            },
    ;

    /// Makes sure that buffered output reaches its destination.
    fn flush(&mut self) -> (r: Result<()>)
        ensures
            final(self).written() == old(self).written(),
    ;

    /// Writes all of `buf`, calling `write` until nothing is left.
    ///
    /// Fails with `WriteZero` when a call writes nothing, and with the error of a call that
    /// fails; a prefix of `buf` has been written then.
    fn write_all(&mut self, buf: &[u8]) -> (r: Result<()>)
        ensures
            r is Ok <==> final(self).written() == old(self).written() + buf@,
            buf@.len() == 0 ==> r is Ok,
            r is Err ==> exists|k: int|
                0 <= k < buf@.len() && final(self).written() == old(self).written()
                    + buf@.subrange(0, k),
    {
        let mut pos: usize = 0;
        while pos < buf.len()
            invariant
                pos <= buf@.len(),
                self.written() == old(self).written() + buf@.subrange(0, pos as int),
            decreases buf@.len() - pos,
        {
            let (_, rest) = buf.split_at(pos);
            let res = self.write(rest);
            match write_all_step(buf.len(), pos, res) {
                Ok(next) => {
                    proof {
                        let n = res->Ok_0;
                        assert(buf@.subrange(0, pos + n) =~= buf@.subrange(0, pos as int)
                            + rest@.subrange(0, n as int));
                    }
                    pos = next;
                },
                Err(e) => {
                    proof {
                        if res is Ok {
                            assert(self.written() =~= old(self).written() + buf@.subrange(
                                0,
                                pos as int,
                            ));
                        }
                        lemma_prefix_differs(old(self).written(), buf@, pos as int);
                    }
                    return Err(e);
                },
            }
        }
        proof {
            assert(buf@.subrange(0, pos as int) =~= buf@);
        }
        Ok(())
    }
}

/// A source of bytes.
pub trait Read {
    /// The bytes that the source has yet to give, in order.
    spec fn pending(&self) -> Seq<u8>;

    /// Reads the next bytes of the source into the front of `buf` and returns how many; the
    /// rest of `buf` is left alone. `Ok(0)` means that the source has nothing more to give for
    /// now. On an error, nothing is read.
    fn read(&mut self, buf: &mut [u8]) -> (r: Result<usize>)
        ensures
            final(buf)@.len() == old(buf)@.len(),
            match r {
                Ok(n) => {
                    &&& n <= old(buf)@.len()
                    &&& n <= old(self).pending().len()
                    &&& final(buf)@ == old(self).pending().subrange(0, n as int) + old(
                        buf,
                    )@.subrange(n as int, old(buf)@.len() as int)
                    &&& final(self).pending() == old(self).pending().subrange(
                        n as int,
                        old(self).pending().len() as int,
                    )
                },
                Err(_) => {
                    &&& final(buf)@ == old(buf)@
                    &&& final(self).pending() == old(self).pending()
                },
            },
    ;

    /// Reads exactly enough bytes to fill `buf`, calling `read` until it is full.
    ///
    /// Fails with `UnexpectedEof` when a call reads nothing, and with the error of a call that
    /// fails; a prefix of the bytes needed has been taken from the source then.
    fn read_exact(&mut self, buf: &mut [u8]) -> (r: Result<()>)
        ensures
            final(buf)@.len() == old(buf)@.len(),
            r is Ok ==> {
                &&& old(buf)@.len() <= old(self).pending().len()
                &&& final(buf)@ == old(self).pending().subrange(0, old(buf)@.len() as int)
                &&& final(self).pending() == old(self).pending().subrange(
                    old(buf)@.len() as int,
                    old(self).pending().len() as int,
                )
            },
            old(buf)@.len() == 0 ==> r is Ok,
            old(buf)@.len() > old(self).pending().len() ==> r is Err,
            r is Err ==> exists|k: int|
                0 <= k < old(buf)@.len() && k <= old(self).pending().len()
                    && final(self).pending() == old(self).pending().subrange(
                    k,
                    old(self).pending().len() as int,
                ),
    {
        let ghost src = old(self).pending();
        let mut pos: usize = 0;
        while pos < buf.len()
            invariant
                src == old(self).pending(),
                pos <= buf@.len(),
                buf@.len() == old(buf)@.len(),
                pos <= src.len(),
                buf@.subrange(0, pos as int) == src.subrange(0, pos as int),
                self.pending() == src.subrange(pos as int, src.len() as int),
            decreases buf@.len() - pos,
        {
            let ghost before = buf@;
            let (head, rest) = buf.split_at_mut(pos);
            let res = self.read(rest);
            proof {
                assert(head@ == before.subrange(0, pos as int));
            }
            match read_exact_step(buf.len(), pos, res) {
                Ok(next) => {
                    proof {
                        let n = res->Ok_0;
                        assert(buf@.subrange(0, pos + n) =~= src.subrange(0, pos + n));
                        assert(self.pending() =~= src.subrange(pos + n, src.len() as int));
                    }
                    pos = next;
                },
                Err(e) => {
                    proof {
                        assert(self.pending() =~= src.subrange(pos as int, src.len() as int));
                        assert(self.pending() == old(self).pending().subrange(
                            pos as int,
                            old(self).pending().len() as int,
                        ));
                    }
                    return Err(e);
                },
            }
        }
        proof {
            assert(buf@ =~= buf@.subrange(0, pos as int));
        }
        Ok(())
    }

    /// Reads until a read gives nothing, appending what was read to `buf`, and returns how
    /// many bytes were appended.
    ///
    /// The buffer grows by chunks that double from 16 bytes up to 64. On an error, what was
    /// read before it stays appended to `buf`, and the error is returned.
    fn read_to_end(&mut self, buf: &mut Vec<u8>) -> (r: Result<usize>)
        where Self: Sized,
        requires
            old(buf)@.len() + old(self).pending().len() + READ_CHUNK_MAX <= usize::MAX,
        ensures
            r is Ok ==> {
                let n = r->Ok_0 as int;
                &&& n <= old(self).pending().len()
                &&& final(buf)@ == old(buf)@ + old(self).pending().subrange(0, n)
                &&& final(self).pending() == old(self).pending().subrange(
                    n,
                    old(self).pending().len() as int,
                )
            },
            r is Err ==> exists|k: int|
                0 <= k <= old(self).pending().len() && final(buf)@ == old(buf)@ + old(
                    self,
                ).pending().subrange(0, k) && final(self).pending() == old(
                    self,
                ).pending().subrange(k, old(self).pending().len() as int),
    {
        let ghost src = old(self).pending();
        let start_len = buf.len();
        let mut len: usize = start_len;
        let mut new_write_size: usize = 8;
        loop
            invariant
                src == old(self).pending(),
                start_len == old(buf)@.len(),
                start_len + src.len() + READ_CHUNK_MAX <= usize::MAX,
                start_len <= len <= buf@.len(),
                len - start_len <= src.len(),
                new_write_size == 8 || new_write_size == 16 || new_write_size == 32
                    || new_write_size == 64,
                buf@.len() <= len + READ_CHUNK_MAX,
                buf@.subrange(0, len as int) == old(buf)@ + src.subrange(0, len - start_len),
                self.pending() == src.subrange(len - start_len, src.len() as int),
            decreases self.pending().len(),
        {
            if len == buf.len() {
                if new_write_size < READ_CHUNK_MAX {
                    new_write_size = new_write_size * 2;
                }
                let ghost grown_from = buf@;
                buf.resize(len + new_write_size, 0);
                proof {
                    assert(buf@.subrange(0, len as int) =~= grown_from.subrange(0, len as int));
                }
            }
            let ghost before = buf@;
            let ghost p = self.pending();
            let (head, rest) = buf.as_mut_slice().split_at_mut(len);
            let got = self.read(rest);
            proof {
                assert(head@ == before.subrange(0, len as int));
                assert(buf@ == before.subrange(0, len as int) + rest@);
            }
            match read_to_end_step(start_len, len, got) {
                Ok(ReadProgress::Done(count)) => {
                    buf.truncate(len);
                    proof {
                        assert(self.pending() =~= src.subrange(len - start_len, src.len() as int));
                    }
                    return Ok(count);
                },
                Ok(ReadProgress::More(next)) => {
                    proof {
                        let n = got->Ok_0;
                        let k = len - start_len;
                        assert(rest@.subrange(0, n as int) =~= p.subrange(0, n as int));
                        assert(p.subrange(0, n as int) =~= src.subrange(k, k + n));
                        assert(buf@.subrange(0, len + n) =~= before.subrange(0, len as int)
                            + p.subrange(0, n as int));
                        assert(src.subrange(0, k) + src.subrange(k, k + n) =~= src.subrange(
                            0,
                            k + n,
                        ));
                        assert(buf@.subrange(0, len + n) =~= old(buf)@ + src.subrange(
                            0,
                            len + n - start_len,
                        ));
                        assert(self.pending() =~= src.subrange(len + n - start_len, src.len() as int));
                    }
                    len = next;
                },
                Err(e) => {
                    buf.truncate(len);
                    proof {
                        let k = len - start_len;
                        assert(self.pending() == old(self).pending().subrange(
                            k,
                            old(self).pending().len() as int,
                        ));
                    }
                    return Err(e);
                },
            }
        }
    }
}

/// The most that `read_to_end` grows its buffer by at a time.
pub const READ_CHUNK_MAX: usize = 64;

/// An output buffer of fixed capacity: writes fill it until it is full, and a write to a
/// full buffer writes nothing.
pub struct FixedBuffer {
    data: Vec<u8>,
    capacity: usize,
}

impl FixedBuffer {
    /// What the buffer holds.
    pub closed spec fn contents(&self) -> Seq<u8> {
        self.data@
    }

    /// How many bytes the buffer can hold.
    pub closed spec fn max_len(&self) -> usize {
        self.capacity
    }

    /// How many more bytes fit in the buffer.
    pub open spec fn room(&self) -> int {
        if self.contents().len() < self.max_len() {
            self.max_len() - self.contents().len()
        } else {
            0
        }
    }

    /// An empty buffer that can hold `capacity` bytes.
    pub fn new(capacity: usize) -> (r: FixedBuffer)
        ensures
            r.contents() == Seq::<u8>::empty(),
            r.max_len() == capacity,
    {
        FixedBuffer { data: Vec::new(), capacity }
    }

    /// What the buffer holds.
    pub fn as_slice(&self) -> (r: &[u8])
        ensures
            r@ == self.contents(),
    {
        self.data.as_slice()
    }
}

impl Write for FixedBuffer {
    closed spec fn written(&self) -> Seq<u8> {
        self.data@
    }

    /// Writes as much of `buf` as there is room for.
    fn write(&mut self, buf: &[u8]) -> (r: Result<usize>)
        ensures
            r == Ok::<usize, Error>(vstd::math::min(buf@.len() as int, old(self).room()) as usize),
            final(self).max_len() == old(self).max_len(),
    {
        let room = if self.data.len() < self.capacity {
            self.capacity - self.data.len()
        } else {
            0
        };
        let n = if buf.len() <= room {
            buf.len()
        } else {
            room
        };
        let mut i: usize = 0;
        while i < n
            invariant
                n <= buf@.len(),
                self.capacity == old(self).capacity,
                i <= n,
                self.data@ == old(self).data@ + buf@.subrange(0, i as int),
            decreases n - i,
        {
            self.data.push(buf[i]);
            proof {
                assert(buf@.subrange(0, i + 1) =~= buf@.subrange(0, i as int).push(buf@[i as int]));
            }
            i = i + 1;
        }
        Ok(n)
    }

    fn flush(&mut self) -> (r: Result<()>) {
        Ok(())
    }
}

/// A receive queue: bytes that arrived and wait to be read, handed out at most `burst` at a
/// time, as a device with a small input buffer does.
pub struct ReceiveQueue {
    data: Vec<u8>,
    burst: usize,
}

impl ReceiveQueue {
    /// The most bytes that one read gives.
    pub closed spec fn max_burst(&self) -> usize {
        self.burst
    }

    /// A queue holding `data`, read at most `burst` bytes at a time.
    pub fn new(data: Vec<u8>, burst: usize) -> (r: ReceiveQueue)
        ensures
            r.pending() == data@,
            r.max_burst() == burst,
    {
        ReceiveQueue { data, burst }
    }

    /// How many bytes wait to be read.
    pub fn available(&self) -> (r: usize)
        ensures
            r == self.pending().len(),
    {
        self.data.len()
    }
}

impl Read for ReceiveQueue {
    closed spec fn pending(&self) -> Seq<u8> {
        self.data@
    }

    /// Reads as many waiting bytes as fit in `buf`, at most `burst` of them.
    fn read(&mut self, buf: &mut [u8]) -> (r: Result<usize>)
        ensures
            r == Ok::<usize, Error>(vstd::math::min(
                vstd::math::min(old(buf)@.len() as int, old(self).max_burst() as int),
                old(self).pending().len() as int,
            ) as usize),
            final(self).max_burst() == old(self).max_burst(),
    {
        let wanted = if self.burst < buf.len() {
            self.burst
        } else {
            buf.len()
        };
        let n = immediate_read_len(self.data.len(), wanted);
        let ghost start = buf@;
        let mut i: usize = 0;
        while i < n
            invariant
                n <= buf@.len(),
                n <= self.data@.len(),
                buf@.len() == start.len(),
                self.data == old(self).data,
                i <= n,
                forall|j: int| 0 <= j < i ==> buf@[j] == self.data@[j],
                forall|j: int| i <= j < buf@.len() ==> buf@[j] == start[j],
            decreases n - i,
        {
            buf[i] = self.data[i];
            i = i + 1;
        }
        proof {
            assert(buf@ =~= self.data@.subrange(0, n as int) + start.subrange(
                n as int,
                start.len() as int,
            ));
        }
        let rest = self.data.split_off(n);
        self.data = rest;
        Ok(n)
    }
}

/// How many bytes a read that takes only what is immediately available asks for: the
/// smaller of the count waiting in the device's input buffer and the room in the buffer.
pub fn immediate_read_len(available: usize, buf_len: usize) -> (r: usize)
    ensures
        r == vstd::math::min(available as int, buf_len as int),
{
    if available > buf_len {
        buf_len
    } else {
        available
    }
}

/// One step of `Write::write_all`, from the result `res` of a write of the bytes from `pos`
/// on of a buffer of `len` bytes: where the next write starts, or the error that ends the
/// loop. A write of nothing ends it with `WriteZero`; a failed write ends it with its error.
pub fn write_all_step(len: usize, pos: usize, res: Result<usize>) -> (r: Result<usize>)
    requires
        pos <= len,
        res is Ok ==> res->Ok_0 <= len - pos,
    ensures
        match res {
            Ok(n) => if n == 0 {
                r == Err::<usize, Error>(Error::WriteZero)
            } else {
                r == Ok::<usize, Error>((pos + n) as usize)
            },
            Err(e) => r == Err::<usize, Error>(e),
        },
{
    match res {
        Ok(0) => Err(Error::WriteZero),
        Ok(n) => Ok(pos + n),
        Err(e) => Err(e),
    }
}

/// One step of `Read::read_exact`, from the result `res` of a read into the bytes from `pos`
/// on of a buffer of `len` bytes: where the next read starts, or the error that ends the
/// loop. A read of nothing ends it with `UnexpectedEof`; a failed read ends it with its error.
pub fn read_exact_step(len: usize, pos: usize, res: Result<usize>) -> (r: Result<usize>)
    requires
        pos <= len,
        res is Ok ==> res->Ok_0 <= len - pos,
    ensures
        match res {
            Ok(n) => if n == 0 {
                r == Err::<usize, Error>(Error::UnexpectedEof)
            } else {
                r == Ok::<usize, Error>((pos + n) as usize)
            },
            Err(e) => r == Err::<usize, Error>(e),
        },
{
    match res {
        Ok(0) => Err(Error::UnexpectedEof),
        Ok(n) => Ok(pos + n),
        Err(e) => Err(e),
    }
}

/// Where `Read::read_to_end` stands after one read.
#[derive(Clone, Copy, Debug, PartialEq, Eq, Structural)]
pub enum ReadProgress {
    /// Go on reading at this length of the buffer.
    More(usize),
    /// The source gave nothing: this many bytes were appended in all.
    Done(usize),
}

/// One step of `Read::read_to_end`, from the result `res` of a read into a buffer that held
/// `start_len` bytes at the start and `len` bytes now: a read of nothing ends the loop with
/// the count appended, a read of `n` bytes moves on by `n`, and a failed read ends it with
/// its error.
pub fn read_to_end_step(start_len: usize, len: usize, res: Result<usize>) -> (r: Result<
    ReadProgress,
>)
    requires
        start_len <= len,
        res is Ok ==> len + res->Ok_0 <= usize::MAX,
    ensures
        match res {
            Ok(n) => if n == 0 {
                r == Ok::<ReadProgress, Error>(ReadProgress::Done((len - start_len) as usize))
            } else {
                r == Ok::<ReadProgress, Error>(ReadProgress::More((len + n) as usize))
            },
            Err(e) => r == Err::<ReadProgress, Error>(e),
        },
{
    match res {
        Ok(0) => Ok(ReadProgress::Done(len - start_len)),
        Ok(n) => Ok(ReadProgress::More(len + n)),
        Err(e) => Err(e),
    }
}

/// Appending a proper prefix of `b` to `a` gives something other than appending all of `b`.
proof fn lemma_prefix_differs(a: Seq<u8>, b: Seq<u8>, k: int)
    requires
        0 <= k < b.len(),
    ensures
        a + b.subrange(0, k) != a + b,
{
    assert((a + b.subrange(0, k)).len() != (a + b).len());
}

} // verus!
