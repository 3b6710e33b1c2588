//! Image loading: an image is a big-endian origin word followed by
//! big-endian 16-bit words, loaded contiguously into memory from the origin.

use vstd::prelude::*;

use crate::io::IoDevice;
use crate::memory::{MemModel, Memory, MEMORY_LEN};

verus! {

/// The load address given by the first two bytes of `bytes`, big-endian.
/// A byte the stream did not yield reads as zero.
pub open spec fn image_origin(bytes: Seq<u8>) -> u16 {
    if bytes.len() == 0 {
        0u16
    } else if bytes.len() == 1 {
        (bytes[0] * 256) as u16
    } else {
        (bytes[0] * 256 + bytes[1]) as u16
    }
}

/// How many whole words the image holds after the origin, capped at the
/// room between the origin and the end of memory. A trailing odd byte is
/// not a word and is ignored.
pub open spec fn image_word_count(bytes: Seq<u8>) -> int {
    let avail = 0x10000 - image_origin(bytes);
    let have = if bytes.len() < 2 {
        0int
    } else {
        (bytes.len() - 2) / 2
    };
    if have <= avail {
        have
    } else {
        avail
    }
}

/// The `k`-th data word of the image: bytes `2 + 2k` and `3 + 2k`,
/// big-endian.
pub open spec fn image_word(bytes: Seq<u8>, k: int) -> u16 {
    (bytes[2 + 2 * k] * 256 + bytes[3 + 2 * k]) as u16
}

/// The backing store after loading the image `bytes` over `words`: the
/// image's words laid down contiguously from its origin, every other
/// address untouched.
pub open spec fn load_spec(words: Seq<u16>, bytes: Seq<u8>) -> Seq<u16> {
    Seq::new(
        words.len(),
        |a: int|
            if image_origin(bytes) <= a < image_origin(bytes) + image_word_count(bytes) {
                image_word(bytes, a - image_origin(bytes))
            } else {
                words[a]
            },
    )
}

/// An image file interface: a source that yields the raw bytes of one
/// LC-3 object image.
pub trait ImageFile: Sized {
    /// The source-specific error type.
    type Error;

    /// The bytes of the image this source yields. A source implemented
    /// outside the verifier's view (a file on disk) need not model its
    /// bytes and may leave this default; the contract of [`Self::read`]
    /// is then not a meaningful statement about it, and nothing checks
    /// that such a source honours it.
    open spec fn data(&self) -> Seq<u8> {
        Seq::empty()
    }

    /// Whether this source promises that reading never fails. The default
    /// is false, the only honest answer for a source the verifier has not
    /// seen.
    open spec fn reliable(&self) -> bool {
        false
    }

    /// Pull the whole image out of this source; a reliable source does
    /// not fail.
    fn read(&mut self) -> (r: Result<Vec<u8>, Self::Error>)
        ensures
            r matches Ok(v) ==> v@ == old(self).data(),
            old(self).reliable() ==> r is Ok,
    ;
}

impl ImageFile for Vec<u8> {
    type Error = ();

    open spec fn data(&self) -> Seq<u8> {
        self@
    }

    open spec fn reliable(&self) -> bool {
        true
    }

    fn read(&mut self) -> (r: Result<Vec<u8>, ()>) {
        let mut v: Vec<u8> = Vec::new();
        let mut i: usize = 0;
        while i < self.len()
            invariant
                i <= self@.len(),
                self@ == old(self)@,
                v@ == self@.subrange(0, i as int),
            decreases self@.len() - i,
        {
            let b = self[i];
            v.push(b);
            proof {
                assert(v@ =~= self@.subrange(0, i + 1));
            }
            i = i + 1;
        }
        proof {
            assert(v@ =~= self@);
        }
        Ok(v)
    }
}

/// Load the image `bytes` into `memory`: parse the origin from the first
/// two bytes, then lay the remaining big-endian words down contiguously in
/// the backing store from that origin, stopping at the end of the image or
/// of memory. The I/O device is not involved.
pub fn load_image_into<IO: IoDevice>(memory: &mut Memory<IO>, bytes: &Vec<u8>)
    requires
        old(memory).wf(),
    ensures
        final(memory).wf(),
        final(memory)@.words == load_spec(old(memory)@.words, bytes@),
        final(memory)@.input == old(memory)@.input,
        final(memory)@.output == old(memory)@.output,
        final(memory)@.reliable == old(memory)@.reliable,
{
    let origin: u16 = if bytes.len() == 0 {
        0
    } else if bytes.len() == 1 {
        (bytes[0] as u16) * 256
    } else {
        (bytes[0] as u16) * 256 + (bytes[1] as u16)
    };
    assert(origin == image_origin(bytes@));

    let have: usize = if bytes.len() < 2 {
        0
    } else {
        (bytes.len() - 2) / 2
    };
    let avail: usize = MEMORY_LEN - (origin as usize);
    let n: usize = if have <= avail {
        have
    } else {
        avail
    };
    assert(n == image_word_count(bytes@));

    let mut k: usize = 0;
    while k < n
        invariant
            k <= n,
            n == image_word_count(bytes@),
            origin == image_origin(bytes@),
            origin + n <= MEMORY_LEN,
            memory.wf(),
            memory@.input == old(memory)@.input,
            memory@.output == old(memory)@.output,
            memory@.reliable == old(memory)@.reliable,
            forall|a: int|
                0 <= a < MEMORY_LEN ==> memory@.words[a] == if origin <= a < origin + k {
                    image_word(bytes@, a - origin)
                } else {
                    old(memory)@.words[a]
                },
        decreases n - k,
    {
        proof {
            assert(bytes@.len() >= 2);
            assert(2 * (n as int) <= bytes@.len() - 2);
            assert(3 + 2 * (k as int) < bytes@.len());
        }
        let hi = bytes[2 + 2 * k];
        let lo = bytes[3 + 2 * k];
        let w: u16 = (hi as u16) * 256 + (lo as u16);
        assert(w == image_word(bytes@, k as int));
        memory.set_word(origin + (k as u16), w);
        k = k + 1;
    }
    proof {
        assert(memory@.words =~= load_spec(old(memory)@.words, bytes@));
    }
}

} // verus!
