//! Value-level pin identities and pin modes.

use vstd::prelude::*;

use super::reg::{level_in, level_write, mode_write, ModeFields, RegisterInterface};
use super::regfile::RegisterFile;

verus! {

/// Number of pins on the chip; valid pin numbers are `0..PIN_COUNT`.
pub const PIN_COUNT: u8 = 58;

/// Value-level `enum` for disabled configurations
#[derive(Debug, PartialEq, Eq, Clone, Copy, Structural)]
pub enum DynDisabled {
    Floating,
    PullDown,
    PullUp,
    BusKeep,
}

/// Value-level `enum` for input configurations
#[derive(Debug, PartialEq, Eq, Clone, Copy, Structural)]
pub enum DynInput {
    Floating,
    PullDown,
    PullUp,
    BusKeep,
}

/// Value-level `enum` for output configurations
#[derive(Debug, PartialEq, Eq, Clone, Copy, Structural)]
pub enum DynOutput {
    PushPull,
    Readable,
}

/// Value-level `enum` for peripheral function configurations
#[derive(Debug, PartialEq, Eq, Clone, Copy, Structural)]
pub enum DynFunction {
    Spi,
    Xip,
    Uart,
    I2C,
    Pwm,
    Pio0,
    Pio1,
    Clock,
    UsbAux,
}

/// Value-level `enum` representing pin modes
#[derive(Debug, PartialEq, Eq, Clone, Copy, Structural)]
pub enum DynPinMode {
    Disabled(DynDisabled),
    Input(DynInput),
    Output(DynOutput),
    Function(DynFunction),
}

/// Value-level `struct` representing pin IDs
#[derive(Debug, PartialEq, Eq, Clone, Copy, Structural)]
pub struct DynPinId {
    pub num: u8,
}

impl DynPinId {
    pub open spec fn spec_is_valid(&self) -> bool {
        self.num < PIN_COUNT
    }

    /// Whether the number names a pin that exists on the chip.
    #[verifier::when_used_as_spec(spec_is_valid)]
    pub fn is_valid(&self) -> (valid: bool)
        ensures
            valid == (self.num < PIN_COUNT),
    {
        self.num < PIN_COUNT
    }

    pub open spec fn spec_group(&self) -> u8 {
        self.num / 32
    }

    pub open spec fn spec_fsel_group(&self) -> u8 {
        self.num / 10
    }

    pub open spec fn spec_pull_group(&self) -> u8 {
        self.num / 15
    }

    /// Index of the 32-bit level, set and clear registers that hold this pin.
    #[verifier::when_used_as_spec(spec_group)]
    pub fn group(&self) -> (g: u8)
        ensures
            g == self.num / 32,
            self.is_valid() ==> g <= 1,
    {
        self.num / 32
    }

    /// Index of the function-select register that holds this pin's field.
    #[verifier::when_used_as_spec(spec_fsel_group)]
    pub fn fsel_group(&self) -> (g: u8)
        ensures
            g == self.num / 10,
            self.is_valid() ==> g <= 5,
    {
        self.num / 10
    }

    /// Index of the pull-control register that holds this pin.
    #[verifier::when_used_as_spec(spec_pull_group)]
    pub fn pull_group(&self) -> (g: u8)
        ensures
            g == self.num / 15,
            self.is_valid() ==> g <= 3,
    {
        self.num / 15
    }
}

/// Access to the registers of a pin whose identity is a value.
pub struct DynRegisters {
    id: DynPinId,
}

impl DynRegisters {
    #[verifier::type_invariant]
    spec fn names_a_pin(self) -> bool {
        self.id.is_valid()
    }

    /// Create a new instance of [`DynRegisters`]
    ///
    /// Users must never create two simultaneous instances of this `struct`
    /// with the same [`DynPinId`]
    pub fn new(id: DynPinId) -> (registers: Self)
        requires
            id.is_valid(),
        ensures
            registers.pin() == id,
    {
        DynRegisters { id }
    }
}

impl RegisterInterface for DynRegisters {
    closed spec fn pin(&self) -> DynPinId {
        self.id
    }

    fn id(&self) -> (id: DynPinId) {
        proof {
            use_type_invariant(self);
        }
        self.id
    }
}

/// What a [`DynPin`] operation can fail with.
#[derive(Debug, PartialEq, Eq, Clone, Copy, Structural)]
pub enum Error {
    /// The pin is not in a mode that allows the operation.
    ModeMismatch,
}

/// A value-level pin, whose identity and mode are checked when it is used.
pub struct DynPin {
    regs: DynRegisters,
    mode: DynPinMode,
}

impl DynPin {
    pub closed spec fn spec_id(&self) -> DynPinId {
        self.regs.pin()
    }

    pub closed spec fn spec_mode(&self) -> DynPinMode {
        self.mode
    }

    /// Create a new [`DynPin`]
    ///
    /// Each [`DynPin`] must be a singleton. For a given [`DynPinId`], there
    /// must be at most one corresponding [`DynPin`] in existence at any given
    /// time, and `mode` must be the mode the pin is in. Nothing checks
    /// either: both are for the caller to keep.
    pub fn new(id: DynPinId, mode: DynPinMode) -> (pin: Self)
        requires
            id.is_valid(),
        ensures
            pin.id() == id,
            pin.mode() == mode,
    {
        DynPin { regs: DynRegisters::new(id), mode }
    }

    /// Return a copy of the pin ID
    #[verifier::when_used_as_spec(spec_id)]
    pub fn id(&self) -> (id: DynPinId)
        ensures
            id == self.spec_id(),
            id.is_valid(),
    {
        self.regs.id()
    }

    /// Return a copy of the pin mode
    #[verifier::when_used_as_spec(spec_mode)]
    pub fn mode(&self) -> (mode: DynPinMode)
        ensures
            mode == self.spec_mode(),
    {
        self.mode
    }

    /// Convert the pin to the requested [`DynPinMode`]
    ///
    /// Where the pin is in that mode already, no register is written.
    /// Otherwise the mode's function-select field is written, once.
    pub fn into_mode(&mut self, regs: &mut RegisterFile, mode: DynPinMode)
        requires
            mode == old(self).mode() || ModeFields::of(mode) is Some,
        ensures
            final(self).id() == old(self).id(),
            final(self).mode() == mode,
            mode == old(self).mode() ==> final(regs)@ == old(regs)@,
            mode != old(self).mode() ==> final(regs)@ == old(regs)@.write(
                mode_write(old(self).id(), mode),
            ),
    {
        if mode != self.mode {
            self.regs.change_mode(regs, mode);
            self.mode = mode;
        }
    }

    /// Drives the pin to `bit`, where the pin is an output.
    fn write(&mut self, regs: &mut RegisterFile, bit: bool) -> (result: Result<(), Error>)
        ensures
            final(self).id() == old(self).id(),
            final(self).mode() == old(self).mode(),
            old(self).mode() is Output ==> result is Ok && final(regs)@ == old(regs)@.write(
                level_write(old(self).id(), bit),
            ) && level_in(final(regs)@, old(self).id()) == bit,
            !(old(self).mode() is Output) ==> result == Err::<(), Error>(Error::ModeMismatch)
                && final(regs)@ == old(regs)@,
    {
        match self.mode {
            DynPinMode::Output(_) => {
                self.regs.write_pin(regs, bit);
                Ok(())
            },
            _ => Err(Error::ModeMismatch),
        }
    }

    /// Reads the pin's level, where the pin is an input.
    fn read(&self, regs: &RegisterFile) -> (result: Result<bool, Error>)
        ensures
            self.mode() is Input ==> result == Ok::<bool, Error>(level_in(regs@, self.id())),
            !(self.mode() is Input) ==> result == Err::<bool, Error>(Error::ModeMismatch),
    {
        match self.mode {
            DynPinMode::Input(_) => Ok(self.regs.read_pin(regs)),
            _ => Err(Error::ModeMismatch),
        }
    }

    /// Drives the pin high. Fails, and writes nothing, unless the pin is in
    /// an output mode.
    pub fn set_high(&mut self, regs: &mut RegisterFile) -> (result: Result<(), Error>)
        ensures
            final(self).id() == old(self).id(),
            final(self).mode() == old(self).mode(),
            old(self).mode() is Output ==> result is Ok && final(regs)@ == old(regs)@.write(
                level_write(old(self).id(), true),
            ) && level_in(final(regs)@, old(self).id()),
            !(old(self).mode() is Output) ==> result == Err::<(), Error>(Error::ModeMismatch)
                && final(regs)@ == old(regs)@,
    {
        self.write(regs, true)
    }

    /// Drives the pin low. Fails, and writes nothing, unless the pin is in
    /// an output mode.
    pub fn set_low(&mut self, regs: &mut RegisterFile) -> (result: Result<(), Error>)
        ensures
            final(self).id() == old(self).id(),
            final(self).mode() == old(self).mode(),
            old(self).mode() is Output ==> result is Ok && final(regs)@ == old(regs)@.write(
                level_write(old(self).id(), false),
            ) && !level_in(final(regs)@, old(self).id()),
            !(old(self).mode() is Output) ==> result == Err::<(), Error>(Error::ModeMismatch)
                && final(regs)@ == old(regs)@,
    {
        self.write(regs, false)
    }

    /// Whether the pin's level is high. Fails unless the pin is in an input
    /// mode.
    pub fn is_high(&self, regs: &RegisterFile) -> (result: Result<bool, Error>)
        ensures
            self.mode() is Input ==> result == Ok::<bool, Error>(level_in(regs@, self.id())),
            !(self.mode() is Input) ==> result == Err::<bool, Error>(Error::ModeMismatch),
    {
        self.read(regs)
    }

    /// Whether the pin's level is low. Fails unless the pin is in an input
    /// mode.
    pub fn is_low(&self, regs: &RegisterFile) -> (result: Result<bool, Error>)
        ensures
            self.mode() is Input ==> result == Ok::<bool, Error>(!level_in(regs@, self.id())),
            !(self.mode() is Input) ==> result == Err::<bool, Error>(Error::ModeMismatch),
    {
        match self.read(regs) {
            Ok(level) => Ok(!level),
            Err(e) => Err(e),
        }
    }
}

} // verus!
