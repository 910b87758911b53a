//! The GPIO register block, held as a value.
//!
//! [`RegisterFile`] is the single owner of the block's state. The register
//! layer reads and writes it through `&` and `&mut`, so every write to a
//! register is exclusive. It keeps the word of each readable register and a
//! log of every write, in order; code at the hardware edge replays the log
//! on the device and loads sampled words back in.

use vstd::prelude::*;

verus! {

/// The named 32-bit registers of the block.
#[derive(Debug, PartialEq, Eq, Clone, Copy, Structural)]
pub enum Register {
    /// Function select, pins 0 to 9.
    Gpfsel0,
    /// Function select, pins 10 to 19.
    Gpfsel1,
    /// Function select, pins 20 to 29.
    Gpfsel2,
    /// Function select, pins 30 to 39.
    Gpfsel3,
    /// Function select, pins 40 to 49.
    Gpfsel4,
    /// Function select, pins 50 to 57.
    Gpfsel5,
    /// Output set, pins 0 to 31. Write-only.
    Gpset0,
    /// Output set, pins 32 to 57. Write-only.
    Gpset1,
    /// Output clear, pins 0 to 31. Write-only.
    Gpclr0,
    /// Output clear, pins 32 to 57. Write-only.
    Gpclr1,
    /// Pin level, pins 0 to 31. Read-only.
    Gplev0,
    /// Pin level, pins 32 to 57. Read-only.
    Gplev1,
}

/// One write of an exact bit pattern to a register.
#[derive(Debug, PartialEq, Eq, Clone, Copy, Structural)]
pub struct RegisterWrite {
    pub register: Register,
    pub bits: u32,
}

/// The state of the block as contracts see it: one word for each register
/// that can be read back, and every write made so far, oldest first.
pub struct RegisterState {
    pub gpfsel0: u32,
    pub gpfsel1: u32,
    pub gpfsel2: u32,
    pub gpfsel3: u32,
    pub gpfsel4: u32,
    pub gpfsel5: u32,
    pub gplev0: u32,
    pub gplev1: u32,
    pub writes: Seq<RegisterWrite>,
}

impl RegisterState {
    /// The state after reset: every word zero, nothing written.
    pub open spec fn reset() -> RegisterState {
        RegisterState {
            gpfsel0: 0,
            gpfsel1: 0,
            gpfsel2: 0,
            gpfsel3: 0,
            gpfsel4: 0,
            gpfsel5: 0,
            gplev0: 0,
            gplev1: 0,
            writes: Seq::empty(),
        }
    }

    /// The word a read of `register` returns. The write-only set and clear
    /// registers read as zero.
    pub open spec fn read(self, register: Register) -> u32 {
        match register {
            Register::Gpfsel0 => self.gpfsel0,
            Register::Gpfsel1 => self.gpfsel1,
            Register::Gpfsel2 => self.gpfsel2,
            Register::Gpfsel3 => self.gpfsel3,
            Register::Gpfsel4 => self.gpfsel4,
            Register::Gpfsel5 => self.gpfsel5,
            Register::Gpset0 | Register::Gpset1 | Register::Gpclr0 | Register::Gpclr1 => 0,
            Register::Gplev0 => self.gplev0,
            Register::Gplev1 => self.gplev1,
        }
    }

    /// The state with the word behind `register` replaced by `word`, as
    /// when a sampled value is brought in. A set or clear register holds no
    /// word, so nothing changes for it. The log is never touched.
    pub open spec fn load(self, register: Register, word: u32) -> RegisterState {
        match register {
            Register::Gpfsel0 => RegisterState { gpfsel0: word, ..self },
            Register::Gpfsel1 => RegisterState { gpfsel1: word, ..self },
            Register::Gpfsel2 => RegisterState { gpfsel2: word, ..self },
            Register::Gpfsel3 => RegisterState { gpfsel3: word, ..self },
            Register::Gpfsel4 => RegisterState { gpfsel4: word, ..self },
            Register::Gpfsel5 => RegisterState { gpfsel5: word, ..self },
            Register::Gpset0 | Register::Gpset1 | Register::Gpclr0 | Register::Gpclr1 => self,
            Register::Gplev0 => RegisterState { gplev0: word, ..self },
            Register::Gplev1 => RegisterState { gplev1: word, ..self },
        }
    }

    /// The effect of a write on the words alone.
    ///
    /// A function-select register takes the written pattern as it is. A set
    /// register raises, and a clear register lowers, exactly the level bits
    /// written as one. A level register is read-only and ignores the write.
    pub open spec fn store(self, w: RegisterWrite) -> RegisterState {
        match w.register {
            Register::Gpset0 => RegisterState { gplev0: self.gplev0 | w.bits, ..self },
            Register::Gpset1 => RegisterState { gplev1: self.gplev1 | w.bits, ..self },
            Register::Gpclr0 => RegisterState { gplev0: self.gplev0 & !w.bits, ..self },
            Register::Gpclr1 => RegisterState { gplev1: self.gplev1 & !w.bits, ..self },
            Register::Gplev0 | Register::Gplev1 => self,
            _ => self.load(w.register, w.bits),
        }
    }

    /// The state after the write `w`: its effect on the words, and `w`
    /// appended to the log.
    pub open spec fn write(self, w: RegisterWrite) -> RegisterState {
        RegisterState { writes: self.writes.push(w), ..self.store(w) }
    }

    /// The state with the log emptied and every word kept.
    pub open spec fn drained(self) -> RegisterState {
        RegisterState { writes: Seq::empty(), ..self }
    }
}

/// The register block: the words of its readable registers and the log of
/// writes made to it.
pub struct RegisterFile {
    gpfsel0: u32,
    gpfsel1: u32,
    gpfsel2: u32,
    gpfsel3: u32,
    gpfsel4: u32,
    gpfsel5: u32,
    gplev0: u32,
    gplev1: u32,
    writes: Vec<RegisterWrite>,
}

impl View for RegisterFile {
    type V = RegisterState;

    closed spec fn view(&self) -> RegisterState {
        RegisterState {
            gpfsel0: self.gpfsel0,
            gpfsel1: self.gpfsel1,
            gpfsel2: self.gpfsel2,
            gpfsel3: self.gpfsel3,
            gpfsel4: self.gpfsel4,
            gpfsel5: self.gpfsel5,
            gplev0: self.gplev0,
            gplev1: self.gplev1,
            writes: self.writes@,
        }
    }
}

impl RegisterFile {
    /// A block in its reset state.
    pub fn new() -> (regs: Self)
        ensures
            regs@ == RegisterState::reset(),
    {
        RegisterFile {
            gpfsel0: 0,
            gpfsel1: 0,
            gpfsel2: 0,
            gpfsel3: 0,
            gpfsel4: 0,
            gpfsel5: 0,
            gplev0: 0,
            gplev1: 0,
            writes: Vec::new(),
        }
    }

    /// Reads a register.
    pub fn read(&self, register: Register) -> (word: u32)
        ensures
            word == self@.read(register),
    {
        match register {
            Register::Gpfsel0 => self.gpfsel0,
            Register::Gpfsel1 => self.gpfsel1,
            Register::Gpfsel2 => self.gpfsel2,
            Register::Gpfsel3 => self.gpfsel3,
            Register::Gpfsel4 => self.gpfsel4,
            Register::Gpfsel5 => self.gpfsel5,
            Register::Gpset0 | Register::Gpset1 | Register::Gpclr0 | Register::Gpclr1 => 0,
            Register::Gplev0 => self.gplev0,
            Register::Gplev1 => self.gplev1,
        }
    }

    /// Writes the exact pattern `bits` to `register`, with no read of the
    /// register beforehand, and records the write.
    pub fn write_with_zero(&mut self, register: Register, bits: u32)
        ensures
            final(self)@ == old(self)@.write(RegisterWrite { register, bits }),
    {
        match register {
            Register::Gpfsel0 => { self.gpfsel0 = bits; },
            Register::Gpfsel1 => { self.gpfsel1 = bits; },
            Register::Gpfsel2 => { self.gpfsel2 = bits; },
            Register::Gpfsel3 => { self.gpfsel3 = bits; },
            Register::Gpfsel4 => { self.gpfsel4 = bits; },
            Register::Gpfsel5 => { self.gpfsel5 = bits; },
            Register::Gpset0 => { self.gplev0 = self.gplev0 | bits; },
            Register::Gpset1 => { self.gplev1 = self.gplev1 | bits; },
            Register::Gpclr0 => { self.gplev0 = self.gplev0 & !bits; },
            Register::Gpclr1 => { self.gplev1 = self.gplev1 & !bits; },
            Register::Gplev0 | Register::Gplev1 => {},
        }
        self.writes.push(RegisterWrite { register, bits });
    }

    /// Replaces the word behind `register` by one sampled from the device.
    /// This is not a write: the log stays as it is.
    pub fn load(&mut self, register: Register, word: u32)
        ensures
            final(self)@ == old(self)@.load(register, word),
    {
        match register {
            Register::Gpfsel0 => { self.gpfsel0 = word; },
            Register::Gpfsel1 => { self.gpfsel1 = word; },
            Register::Gpfsel2 => { self.gpfsel2 = word; },
            Register::Gpfsel3 => { self.gpfsel3 = word; },
            Register::Gpfsel4 => { self.gpfsel4 = word; },
            Register::Gpfsel5 => { self.gpfsel5 = word; },
            Register::Gpset0 | Register::Gpset1 | Register::Gpclr0 | Register::Gpclr1 => {},
            Register::Gplev0 => { self.gplev0 = word; },
            Register::Gplev1 => { self.gplev1 = word; },
        }
    }

    /// The writes made so far, oldest first.
    pub fn writes(&self) -> (log: &Vec<RegisterWrite>)
        ensures
            log@ == self@.writes,
    {
        &self.writes
    }

    /// Hands out the logged writes, oldest first, and empties the log.
    pub fn take_writes(&mut self) -> (log: Vec<RegisterWrite>)
        ensures
            log@ == old(self)@.writes,
            final(self)@ == old(self)@.drained(),
    {
        let mut log: Vec<RegisterWrite> = Vec::new();
        core::mem::swap(&mut log, &mut self.writes);
        log
    }
}

} // verus!
