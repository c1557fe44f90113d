//! A reference console: a bounded buffer that is written and read back.

use vstd::prelude::*;
use crate::mock::platform::AxUnifiedPlatform;
use crate::api::{accepted, ConsoleIf};
use crate::bounded::{
    byte_items, bytes_clear, bytes_clone, bytes_new, bytes_push, bytes_remove, bytes_slice,
};

verus! {

/// The most bytes the console buffers.
pub const CONSOLE_CAPACITY: usize = 256;

pub struct MockConsole {
    buffer: heapless::Vec<u8, 256>,
}

impl MockConsole {
    /// A console with nothing buffered.
    pub fn new() -> (console: Self)
        ensures
            console.buffered() == Seq::<u8>::empty(),
    {
        Self { buffer: bytes_new() }
    }

    /// A copy of the buffered bytes, oldest first.
    pub fn snapshot(&self) -> (bytes: heapless::Vec<u8, 256>)
        ensures
            byte_items(bytes) == self.buffered(),
    {
        bytes_clone(&self.buffer)
    }

    /// Drops everything buffered.
    pub fn clear(&mut self)
        ensures
            final(self).buffered() == Seq::<u8>::empty(),
    {
        bytes_clear(&mut self.buffer);
    }
}

impl ConsoleIf for MockConsole {
    closed spec fn buffered(&self) -> Seq<u8> {
        byte_items(self.buffer)
    }

    open spec fn limit(&self) -> nat {
        CONSOLE_CAPACITY as nat
    }

    open spec fn interrupt_capable(&self) -> bool {
        true
    }

    fn write_bytes(&mut self, bytes: &[u8]) {
        let ghost before = self.buffered();
        let mut i: usize = 0;
        let mut room = true;
        while room && i < bytes.len()
            invariant
                0 <= i <= bytes.len(),
                self.buffered() == before + bytes@.take(i as int),
                i == 0 || before.len() + i <= CONSOLE_CAPACITY,
                !room ==> before.len() + i >= CONSOLE_CAPACITY && i < bytes.len(),
            decreases (if room { 1int } else { 0int }), bytes.len() - i,
        {
            match bytes_push(&mut self.buffer, bytes[i]) {
                Ok(()) => {
                    assert(bytes@.take(i as int).push(bytes@[i as int]) =~= bytes@.take(i + 1));
                    assert(self.buffered() =~= before + bytes@.take(i + 1));
                    i += 1;
                },
                Err(_) => {
                    room = false;
                },
            }
        }
        assert(bytes@.take(i as int) =~= accepted(before, CONSOLE_CAPACITY as nat, bytes@));
    }

    fn read_bytes(&mut self, buf: &mut [u8]) -> (count: usize) {
        let ghost before = self.buffered();
        let ghost room = buf@;
        let held = bytes_slice(&self.buffer);
        let count: usize = if buf.len() <= held.len() { buf.len() } else { held.len() };
        let mut i: usize = 0;
        while i < count
            invariant
                0 <= i <= count,
                count <= held@.len(),
                count <= room.len(),
                held@ == before,
                buf@.len() == room.len(),
                buf@ =~= before.take(i as int) + room.skip(i as int),
            decreases count - i,
        {
            buf[i] = held[i];
            i += 1;
        }
        let mut k: usize = 0;
        while k < count
            invariant
                0 <= k <= count,
                count <= before.len(),
                self.buffered() =~= before.skip(k as int),
            decreases count - k,
        {
            let _ = bytes_remove(&mut self.buffer, 0);
            k += 1;
        }
        count
    }

    fn supports_interrupts(&self) -> (capable: bool) {
        true
    }
}

/// Drops everything that `console` has buffered.
pub fn reset(console: &mut MockConsole)
    ensures
        final(console).buffered() == Seq::<u8>::empty(),
{
    console.clear();
}

/// The platform's console.
pub fn platform_console(platform: &AxUnifiedPlatform) -> (console: &MockConsole)
    ensures
        console.buffered() == platform@.console,
{
    platform.console_backend()
}

} // verus!
