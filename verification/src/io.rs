//! The input/output device interface, and an in-memory device.

use vstd::prelude::*;

verus! {

/// An input/output device interface.
///
/// A device is modelled by two byte streams: [`IoDevice::input`], the bytes
/// waiting to be read, and [`IoDevice::output`], the bytes accepted for
/// output so far. Every method may fail with a device-specific error, which
/// callers surface unchanged.
pub trait IoDevice: Sized {
    /// The device-specific error type.
    type Error;

    /// The bytes waiting to be read from the device, in order. A device
    /// implemented outside the verifier's view (a real terminal) need not
    /// model its streams and may leave these defaults; the method
    /// contracts below are then not meaningful statements about it, and
    /// nothing checks that such a device honours them.
    open spec fn input(&self) -> Seq<u8> {
        Seq::empty()
    }

    /// The bytes the device has accepted for output, in order.
    open spec fn output(&self) -> Seq<u8> {
        Seq::empty()
    }

    /// Whether this device promises that no operation ever fails. A
    /// reliable device never returns `Err`, so contracts over it have no
    /// failure case to admit. The default is false, the only honest
    /// answer for a device whose implementation the verifier has not
    /// seen.
    open spec fn reliable(&self) -> bool {
        false
    }

    /// Is a byte available now, without blocking?
    fn poll(&self) -> (r: bool)
        ensures
            r == (self.input().len() > 0),
    ;

    /// Read one byte: the next waiting byte, or 0 when the input is
    /// exhausted. A failed read consumes nothing, and a reliable device
    /// does not fail.
    fn read(&mut self) -> (r: Result<u8, Self::Error>)
        ensures
            final(self).output() == old(self).output(),
            final(self).reliable() == old(self).reliable(),
            old(self).reliable() ==> r is Ok,
            match r {
                Ok(b) => if old(self).input().len() > 0 {
                    b == old(self).input()[0] && final(self).input() == old(self).input().skip(1)
                } else {
                    b == 0 && final(self).input() == old(self).input()
                },
                Err(_) => final(self).input() == old(self).input(),
            },
    ;

    /// Write all the bytes of `buf`, in order. On failure some prefix of
    /// `buf` may have been accepted; a reliable device does not fail.
    fn write(&mut self, buf: &[u8]) -> (r: Result<(), Self::Error>)
        ensures
            final(self).input() == old(self).input(),
            final(self).reliable() == old(self).reliable(),
            old(self).reliable() ==> r is Ok,
            r is Ok ==> final(self).output() == old(self).output() + buf@,
            r is Err ==> exists|k: int|
                0 <= k <= buf@.len() && final(self).output() == old(self).output() + buf@.subrange(
                    0,
                    k,
                ),
    ;

    /// Commit buffered output; a reliable device does not fail.
    fn flush(&mut self) -> (r: Result<(), Self::Error>)
        ensures
            final(self).input() == old(self).input(),
            final(self).output() == old(self).output(),
            final(self).reliable() == old(self).reliable(),
            old(self).reliable() ==> r is Ok,
    ;
}

/// An in-memory [`IoDevice`]: reads come from a queue of bytes given at
/// construction, writes land in a growing buffer, and no operation ever
/// fails.
pub struct BufferDevice {
    input: Vec<u8>,
    output: Vec<u8>,
}

impl BufferDevice {
    /// A device whose waiting input is the bytes of `input` and whose output
    /// is empty.
    pub fn new(input: Vec<u8>) -> (d: BufferDevice)
        ensures
            d.input() == input@,
            d.output() == Seq::<u8>::empty(),
    {
        BufferDevice { input, output: Vec::new() }
    }

    /// The bytes the device has accepted for output so far.
    pub fn output_bytes(&self) -> (r: &Vec<u8>)
        ensures
            r@ == self.output(),
    {
        &self.output
    }

    /// The bytes still waiting to be read.
    pub fn input_bytes(&self) -> (r: &Vec<u8>)
        ensures
            r@ == self.input(),
    {
        &self.input
    }
}

impl IoDevice for BufferDevice {
    type Error = ();

    closed spec fn input(&self) -> Seq<u8> {
        self.input@
    }

    closed spec fn output(&self) -> Seq<u8> {
        self.output@
    }

    open spec fn reliable(&self) -> bool {
        true
    }

    fn poll(&self) -> (r: bool) {
        self.input.len() > 0
    }

    fn read(&mut self) -> (r: Result<u8, ()>) {
        if self.input.len() > 0 {
            let b = self.input.remove(0);
            proof {
                assert(self.input@ =~= old(self).input@.skip(1));
            }
            Ok(b)
        } else {
            Ok(0)
        }
    }

    fn write(&mut self, buf: &[u8]) -> (r: Result<(), ()>) {
        let mut i: usize = 0;
        while i < buf.len()
            invariant
                i <= buf@.len(),
                self.input@ == old(self).input@,
                self.output@ == old(self).output@ + buf@.subrange(0, i as int),
            decreases buf@.len() - i,
        {
            self.output.push(buf[i]);
            proof {
                assert(self.output@ =~= old(self).output@ + buf@.subrange(0, i + 1));
            }
            i = i + 1;
        }
        proof {
            assert(old(self).output@ + buf@.subrange(0, buf@.len() as int) =~= old(self).output@
                + buf@);
        }
        Ok(())
    }

    fn flush(&mut self) -> (r: Result<(), ()>) {
        Ok(())
    }
}

} // verus!
