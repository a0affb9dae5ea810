//! The byte-stream collaborators of the core: a byte source that models
//! the keyboard and a byte sink that models the display. The host hands
//! the machine plain byte buffers; the view of a source is the sequence
//! of bytes still unread, the view of a sink the sequence written so far.

use vstd::prelude::*;

verus! {

/// A byte-oriented input source. Reading consumes bytes from the front;
/// an empty source stands for a stream that has ended.
#[derive(Debug)]
pub struct InputStream {
    data: Vec<u8>,
}

impl View for InputStream {
    type V = Seq<u8>;

    closed spec fn view(&self) -> Seq<u8> {
        self.data@
    }
}

impl InputStream {
    /// A source that will yield exactly the given bytes, in order.
    pub fn new(data: Vec<u8>) -> (s: InputStream)
        ensures
            s@ == data@,
    {
        InputStream { data }
    }

    /// A source that has already ended.
    pub fn empty() -> (s: InputStream)
        ensures
            s@ == Seq::<u8>::empty(),
    {
        InputStream { data: Vec::new() }
    }

    /// Takes the next byte, or reports the end of the stream.
    pub fn read_byte(&mut self) -> (r: Option<u8>)
        ensures
            old(self)@.len() == 0 ==> r is None && final(self)@ == old(self)@,
            old(self)@.len() > 0 ==> r == Some(old(self)@[0]) && final(self)@ == old(self)@.skip(1),
    {
        if self.data.len() > 0 {
            let b = self.data.remove(0);
            proof {
                assert(self.data@ =~= old(self)@.skip(1));
            }
            Some(b)
        } else {
            None
        }
    }

    /// How many bytes are still unread.
    pub fn len(&self) -> (n: usize)
        ensures
            n == self@.len(),
    {
        self.data.len()
    }
}

/// A byte-oriented output sink. Writes append to the end; everything ever
/// written stays observable.
#[derive(Debug)]
pub struct OutputStream {
    data: Vec<u8>,
}

impl View for OutputStream {
    type V = Seq<u8>;

    closed spec fn view(&self) -> Seq<u8> {
        self.data@
    }
}

impl OutputStream {
    /// A sink that has seen no writes yet.
    pub fn new() -> (s: OutputStream)
        ensures
            s@ == Seq::<u8>::empty(),
    {
        OutputStream { data: Vec::new() }
    }

    /// Appends one byte to the sink.
    pub fn write_byte(&mut self, byte: u8)
        ensures
            final(self)@ == old(self)@.push(byte),
    {
        self.data.push(byte);
    }

    /// Makes earlier writes observable. A buffer-backed sink holds every
    /// write already, so this changes nothing; it marks the places where
    /// the machine guarantees prompt output.
    pub fn flush(&mut self)
        ensures
            final(self)@ == old(self)@,
    {
    }

    /// The bytes written so far.
    pub fn as_bytes(&self) -> (r: &Vec<u8>)
        ensures
            r@ == self@,
    {
        &self.data
    }

    /// Removes and returns everything written so far, leaving the sink
    /// empty.
    pub fn take_bytes(&mut self) -> (r: Vec<u8>)
        ensures
            r@ == old(self)@,
            final(self)@ == Seq::<u8>::empty(),
    {
        let r = self.data.split_off(0);
        proof {
            assert(r@ =~= old(self)@);
            assert(self.data@ =~= Seq::<u8>::empty());
        }
        r
    }
}

} // verus!
