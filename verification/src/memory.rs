//! Main memory unit in LC-3: 65,536 words of storage plus the memory-mapped
//! I/O overlay. Reads of the keyboard data register are side-effecting.

use vstd::prelude::*;

use crate::io::IoDevice;
use crate::registers::{device_register_of, IoDeviceRegister, STATUS_ACCEPT, STATUS_DECLINE};

verus! {

/// Number of words in [`Memory`].
pub const MEMORY_LEN: usize = 0x10000;

/// The mathematical content of a [`Memory`] value: the 65,536 words of the
/// backing store and the two byte streams of the attached I/O device.
pub struct MemModel {
    /// The backing store, one entry per address.
    pub words: Seq<u16>,
    /// The bytes waiting to be read from the device.
    pub input: Seq<u8>,
    /// The bytes the device has accepted for output.
    pub output: Seq<u8>,
    /// Whether the device promises that no operation fails
    /// ([`IoDevice::reliable`]). No memory operation changes it.
    pub reliable: bool,
}

/// How one call of [`Memory::read`] at `addr`, returning `r`, takes the
/// memory from `pre` to `post`.
///
/// The five mapped registers behave as the LC-3 memory map demands: KBSR
/// reads 0x8000 exactly when input is waiting; a KBDR read consumes and
/// returns the next input byte when one is waiting — only a device whose
/// read can fail (`!pre.reliable`) may instead consume nothing and return
/// 0, the failure being swallowed — or returns 0 when no input waits; DSR
/// always reads 0x8000; DDR reads 0; every other address, MCR included,
/// reads the backing store and changes nothing.
pub open spec fn mem_read_rel(pre: MemModel, addr: u16, r: u16, post: MemModel) -> bool {
    match device_register_of(addr) {
        Some(IoDeviceRegister::Kbsr) => post == pre && r == if pre.input.len() > 0 {
            0x8000u16
        } else {
            0u16
        },
        Some(IoDeviceRegister::Kbdr) => if pre.input.len() > 0 {
            (r == pre.input[0] && post == (MemModel { input: pre.input.skip(1), ..pre })) || (
            !pre.reliable && r == 0 && post == pre)
        } else {
            r == 0 && post == pre
        },
        Some(IoDeviceRegister::Dsr) => post == pre && r == 0x8000u16,
        Some(IoDeviceRegister::Ddr) => post == pre && r == 0u16,
        _ => post == pre && r == pre.words[addr as int],
    }
}

/// How one call of [`Memory::write`] of `value` at `addr` takes the memory
/// from `pre` to `post`.
///
/// Writes to KBSR, KBDR and DSR are ignored; a write to DDR hands the low
/// byte of `value` to the device — only an unreliable device may fail and
/// accept nothing, the failure being swallowed — and never mutates a word;
/// every other address, MCR included, stores `value` in the backing store.
pub open spec fn mem_write_rel(pre: MemModel, addr: u16, value: u16, post: MemModel) -> bool {
    match device_register_of(addr) {
        Some(IoDeviceRegister::Kbsr) => post == pre,
        Some(IoDeviceRegister::Kbdr) => post == pre,
        Some(IoDeviceRegister::Dsr) => post == pre,
        Some(IoDeviceRegister::Ddr) => post.words == pre.words && post.input == pre.input
            && post.reliable == pre.reliable && (post.output == pre.output.push(value as u8) || (
        !pre.reliable && post.output == pre.output)),
        _ => post == (MemModel { words: pre.words.update(addr as int, value), ..pre }),
    }
}

/// Main memory unit in LC-3: the 65,536-word backing store and the attached
/// I/O device, through which every memory-mapped side effect funnels.
pub struct Memory<IO: IoDevice> {
    words: Vec<u16>,
    /// The attached I/O device.
    pub io: IO,
}

impl<IO: IoDevice> View for Memory<IO> {
    type V = MemModel;

    closed spec fn view(&self) -> MemModel {
        MemModel {
            words: self.words@,
            input: self.io.input(),
            output: self.io.output(),
            reliable: self.io.reliable(),
        }
    }
}

impl<IO: IoDevice> Memory<IO> {
    /// The backing store always holds one word per 16-bit address.
    pub open spec fn wf(&self) -> bool {
        self@.words.len() == MEMORY_LEN
    }

    /// Initialize a new memory device: every word zero, the I/O streams
    /// those of `iodevice`.
    pub fn new(iodevice: IO) -> (m: Memory<IO>)
        ensures
            m.wf(),
            forall|a: int| 0 <= a < MEMORY_LEN ==> m@.words[a] == 0u16,
            m@.input == iodevice.input(),
            m@.output == iodevice.output(),
            m@.reliable == iodevice.reliable(),
    {
        let mut words: Vec<u16> = Vec::new();
        let mut i: usize = 0;
        while i < MEMORY_LEN
            invariant
                i <= MEMORY_LEN,
                words@.len() == i,
                forall|a: int| 0 <= a < i ==> words@[a] == 0u16,
            decreases MEMORY_LEN - i,
        {
            words.push(0);
            i = i + 1;
        }
        Memory { words, io: iodevice }
    }

    /// Read the value at address `index`, through the memory-mapped I/O
    /// overlay; a read of KBDR consumes waiting input.
    pub fn read(&mut self, index: u16) -> (r: u16)
        requires
            old(self).wf(),
        ensures
            final(self).wf(),
            mem_read_rel(old(self)@, index, r, final(self)@),
    {
        match IoDeviceRegister::from_u16(index) {
            Some(IoDeviceRegister::Kbsr) => if self.io.poll() {
                STATUS_ACCEPT
            } else {
                STATUS_DECLINE
            },
            Some(IoDeviceRegister::Kbdr) => {
                if self.io.poll() {
                    match self.io.read() {
                        Ok(b) => b as u16,
                        Err(_) => 0,
                    }
                } else {
                    STATUS_DECLINE
                }
            },
            Some(IoDeviceRegister::Dsr) => STATUS_ACCEPT,
            Some(IoDeviceRegister::Ddr) => STATUS_DECLINE,
            _ => self.words[index as usize],
        }
    }

    /// Write `value` to the address `index`, through the memory-mapped I/O
    /// overlay; a write to DDR goes to the device, not to any word.
    pub fn write(&mut self, index: u16, value: u16)
        requires
            old(self).wf(),
        ensures
            final(self).wf(),
            mem_write_rel(old(self)@, index, value, final(self)@),
    {
        match IoDeviceRegister::from_u16(index) {
            Some(IoDeviceRegister::Ddr) => {
                let mut buf: Vec<u8> = Vec::new();
                buf.push(value as u8);
                let _ = self.io.write(buf.as_slice());
                let _ = self.io.flush();
                proof {
                    assert(self.io.output() == old(self).io.output() || self.io.output() == old(
                        self,
                    ).io.output() + seq![value as u8]) by {
                        if self.io.output() != old(self).io.output() {
                            assert(self.io.output() =~= old(self).io.output() + seq![
                                value as u8,
                            ]);
                        }
                    }
                    assert(old(self).io.output().push(value as u8) =~= old(self).io.output()
                        + seq![value as u8]);
                }
            },
            Some(IoDeviceRegister::Mcr) | None => {
                self.words[index as usize] = value;
            },
            _ => {},
        }
    }

    /// Hand `buf` to the attached I/O device, without flushing. No word
    /// and no input changes; on success the whole of `buf` is appended to
    /// the output, on failure some prefix of it.
    pub fn io_write(&mut self, buf: &[u8]) -> (r: Result<(), IO::Error>)
        requires
            old(self).wf(),
        ensures
            final(self).wf(),
            final(self)@.words == old(self)@.words,
            final(self)@.input == old(self)@.input,
            final(self)@.reliable == old(self)@.reliable,
            old(self)@.reliable ==> r is Ok,
            r is Ok ==> final(self)@.output == old(self)@.output + buf@,
            r is Err ==> exists|k: int|
                0 <= k <= buf@.len() && final(self)@.output == old(self)@.output
                    + #[trigger] buf@.subrange(0, k),
    {
        self.io.write(buf)
    }

    /// Ask the attached I/O device to commit buffered output; neither
    /// stream nor any word changes.
    pub fn io_flush(&mut self) -> (r: Result<(), IO::Error>)
        requires
            old(self).wf(),
        ensures
            final(self).wf(),
            final(self)@ == old(self)@,
            old(self)@.reliable ==> r is Ok,
    {
        self.io.flush()
    }

    /// Read one byte from the attached I/O device: the next waiting byte,
    /// or 0 when the input is exhausted. A failed read consumes nothing.
    pub fn io_read(&mut self) -> (r: Result<u8, IO::Error>)
        requires
            old(self).wf(),
        ensures
            final(self).wf(),
            final(self)@.words == old(self)@.words,
            final(self)@.output == old(self)@.output,
            final(self)@.reliable == old(self)@.reliable,
            old(self)@.reliable ==> r is Ok,
            match r {
                Ok(b) => if old(self)@.input.len() > 0 {
                    b == old(self)@.input[0] && final(self)@.input == old(self)@.input.skip(1)
                } else {
                    b == 0 && final(self)@.input == old(self)@.input
                },
                Err(_) => final(self)@.input == old(self)@.input,
            },
    {
        self.io.read()
    }

    /// Read the word at address `index` from the backing store directly,
    /// bypassing the memory-mapped I/O overlay.
    pub fn word_at(&self, index: u16) -> (r: u16)
        requires
            self.wf(),
        ensures
            r == self@.words[index as int],
    {
        self.words[index as usize]
    }

    /// Store `value` at address `index` in the backing store directly,
    /// bypassing the memory-mapped I/O overlay, as the image loader does.
    pub fn set_word(&mut self, index: u16, value: u16)
        requires
            old(self).wf(),
        ensures
            final(self).wf(),
            final(self)@ == (MemModel {
                words: old(self)@.words.update(index as int, value),
                ..old(self)@
            }),
    {
        self.words[index as usize] = value;
    }
}

} // verus!
