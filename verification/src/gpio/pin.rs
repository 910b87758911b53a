//! Type-level pin handles: the pin's identity and its mode are type
//! parameters, so an operation that the mode does not allow is a type error.

use core::convert::Infallible;
use core::marker::PhantomData;
use vstd::prelude::*;

use super::dynpin::{DynInput, DynOutput, DynPinId, DynPinMode};
use super::reg::{level_in, level_write, mode_write, ModeFields, RegisterInterface};
use super::regfile::RegisterFile;

verus! {

/// Type-level variant of [`InputConfig`] for a floating input
pub struct Floating;

/// Type-level variant of [`InputConfig`] for an input with a pull-down
pub struct PullDown;

/// Type-level variant of [`InputConfig`] for an input with a pull-up
pub struct PullUp;

/// Type-level variant of [`InputConfig`] for an input with a bus keeper
pub struct BusKeep;

/// Type-level `enum` for input configurations
pub trait InputConfig {
    /// The value of the configuration.
    spec fn dyn_config() -> DynInput;

    /// Corresponding [`DynInput`]
    fn config() -> (config: DynInput)
        ensures
            config == Self::dyn_config(),
    ;
}

impl InputConfig for Floating {
    open spec fn dyn_config() -> DynInput {
        DynInput::Floating
    }

    fn config() -> (config: DynInput) {
        DynInput::Floating
    }
}

impl InputConfig for PullDown {
    open spec fn dyn_config() -> DynInput {
        DynInput::PullDown
    }

    fn config() -> (config: DynInput) {
        DynInput::PullDown
    }
}

impl InputConfig for PullUp {
    open spec fn dyn_config() -> DynInput {
        DynInput::PullUp
    }

    fn config() -> (config: DynInput) {
        DynInput::PullUp
    }
}

impl InputConfig for BusKeep {
    open spec fn dyn_config() -> DynInput {
        DynInput::BusKeep
    }

    fn config() -> (config: DynInput) {
        DynInput::BusKeep
    }
}

/// Type-level variant of [`PinMode`] for input modes
pub struct Input<C: InputConfig> {
    _config: PhantomData<C>,
}

/// Type-level variant of [`PinMode`] for floating input mode
pub type FloatingInput = Input<Floating>;

/// Type-level variant of [`PinMode`] for pull-down input mode
pub type PullDownInput = Input<PullDown>;

/// Type-level variant of [`PinMode`] for pull-up input mode
pub type PullUpInput = Input<PullUp>;

/// Type-level variant of [`PinMode`] for bus-keeper input mode
pub type BusKeepInput = Input<BusKeep>;

/// Type-level `enum` for output configurations
pub trait OutputConfig {
    /// The value of the configuration.
    spec fn dyn_config() -> DynOutput;

    /// Corresponding [`DynOutput`]
    fn config() -> (config: DynOutput)
        ensures
            config == Self::dyn_config(),
    ;
}

/// Type-level variant of [`OutputConfig`] for a push-pull output
pub struct PushPull;

/// Type-level variant of [`OutputConfig`] for an output whose level can be
/// read back
pub struct Readable;

impl OutputConfig for PushPull {
    open spec fn dyn_config() -> DynOutput {
        DynOutput::PushPull
    }

    fn config() -> (config: DynOutput) {
        DynOutput::PushPull
    }
}

impl OutputConfig for Readable {
    open spec fn dyn_config() -> DynOutput {
        DynOutput::Readable
    }

    fn config() -> (config: DynOutput) {
        DynOutput::Readable
    }
}

/// Type-level variant of [`PinMode`] for output modes
pub struct Output<C: OutputConfig> {
    _config: PhantomData<C>,
}

/// Type-level variant of [`PinMode`] for push-pull output mode
pub type PushPullOutput = Output<PushPull>;

/// Type-level variant of [`PinMode`] for readable push-pull output mode
pub type ReadableOutput = Output<Readable>;

/// Type-level `enum` representing pin modes
pub trait PinMode {
    /// The canonical value of the mode.
    spec fn dyn_mode() -> DynPinMode;

    /// Corresponding [`DynPinMode`]
    fn mode() -> (mode: DynPinMode)
        ensures
            mode == Self::dyn_mode(),
    ;
}

impl<C: OutputConfig> PinMode for Output<C> {
    open spec fn dyn_mode() -> DynPinMode {
        DynPinMode::Output(C::dyn_config())
    }

    fn mode() -> (mode: DynPinMode) {
        DynPinMode::Output(C::config())
    }
}

impl<C: InputConfig> PinMode for Input<C> {
    open spec fn dyn_mode() -> DynPinMode {
        DynPinMode::Input(C::dyn_config())
    }

    fn mode() -> (mode: DynPinMode) {
        DynPinMode::Input(C::config())
    }
}

/// Type-level `enum` for pin identities. Every identity names a pin that
/// exists on the chip.
pub trait PinId {
    /// The mode of the pin after a hardware reset.
    type Reset;

    /// The value of the identity.
    spec fn dyn_id() -> DynPinId;

    /// Corresponding [`DynPinId`]
    fn id() -> (id: DynPinId)
        ensures
            id == Self::dyn_id(),
            id.is_valid(),
    ;
}

/// Access to the registers of the pin `I`.
pub struct Registers<I: PinId> {
    _id: PhantomData<I>,
}

impl<I: PinId> RegisterInterface for Registers<I> {
    open spec fn pin(&self) -> DynPinId {
        I::dyn_id()
    }

    #[inline]
    fn id(&self) -> (id: DynPinId) {
        I::id()
    }
}

impl<I: PinId> Registers<I> {
    /// Create a new instance of [`Registers`]
    ///
    /// Users must never create two simultaneous instances of this `struct`
    /// with the same [`PinId`]
    #[inline]
    pub fn new() -> (registers: Self)
        ensures
            registers.pin() == I::dyn_id(),
    {
        Registers { _id: PhantomData }
    }

    /// Provide a type-level equivalent for the
    /// [`RegisterInterface::change_mode`] method.
    #[inline]
    pub fn change_mode<M: PinMode>(&mut self, regs: &mut RegisterFile)
        requires
            ModeFields::of(M::dyn_mode()) is Some,
        ensures
            final(regs)@ == old(regs)@.write(mode_write(I::dyn_id(), M::dyn_mode())),
    {
        RegisterInterface::change_mode(self, regs, M::mode());
    }
}

/// A type-level GPIO pin, parameterized by [`PinId`] and [`PinMode`] types
pub struct Pin<I, M> where I: PinId, M: PinMode {
    registers: Registers<I>,
    mode: PhantomData<M>,
}

impl<I, M> Pin<I, M> where I: PinId, M: PinMode {
    /// Create a new [`Pin`]
    ///
    /// Each [`Pin`] must be a singleton. For a given [`PinId`], there must be
    /// at most one corresponding [`Pin`] in existence at any given time, and
    /// its mode must be the one the pin is in. Nothing checks either: both
    /// are for the caller to keep.
    pub fn new() -> (pin: Self) {
        Pin { registers: Registers::new(), mode: PhantomData }
    }

    /// The identity of the pin.
    pub fn id(&self) -> (id: DynPinId)
        ensures
            id == I::dyn_id(),
            id.is_valid(),
    {
        I::id()
    }

    /// The mode of the pin.
    pub fn mode(&self) -> (mode: DynPinMode)
        ensures
            mode == M::dyn_mode(),
    {
        M::mode()
    }

    /// Convert the pin to the requested [`PinMode`]
    ///
    /// Where the pin is in that mode already, no register is written.
    /// Otherwise the mode's function-select field is written, once.
    pub fn into_mode<N: PinMode>(self, regs: &mut RegisterFile) -> (pin: Pin<I, N>)
        requires
            N::dyn_mode() == M::dyn_mode() || ModeFields::of(N::dyn_mode()) is Some,
        ensures
            N::dyn_mode() == M::dyn_mode() ==> final(regs)@ == old(regs)@,
            N::dyn_mode() != M::dyn_mode() ==> final(regs)@ == old(regs)@.write(
                mode_write(I::dyn_id(), N::dyn_mode()),
            ),
    {
        let mut pin = self;
        if N::mode() != M::mode() {
            pin.registers.change_mode::<N>(regs);
        }
        Pin::new()
    }
}

/// Type class for [`Pin`] types
pub trait AnyPin where Self: From<SpecificPin<Self>>, Self: Into<SpecificPin<Self>> {
    /// [`PinId`] of the corresponding [`Pin`]
    type Id: PinId;

    /// [`PinMode`] of the corresponding [`Pin`]
    type Mode: PinMode;
}

impl<I, M> AnyPin for Pin<I, M> where I: PinId, M: PinMode {
    type Id = I;

    type Mode = M;
}

/// Type alias to recover the specific [`Pin`] type from an implementation of
/// [`AnyPin`]
pub type SpecificPin<P> = Pin<<P as AnyPin>::Id, <P as AnyPin>::Mode>;

impl<I, C> Pin<I, Output<C>> where I: PinId, C: OutputConfig {
    /// Drives the pin high. This cannot fail.
    pub fn set_high(&mut self, regs: &mut RegisterFile) -> (result: Result<(), Infallible>)
        ensures
            result is Ok,
            final(regs)@ == old(regs)@.write(level_write(I::dyn_id(), true)),
            level_in(final(regs)@, I::dyn_id()),
    {
        self.registers.write_pin(regs, true);
        Ok(())
    }

    /// Drives the pin low. This cannot fail.
    pub fn set_low(&mut self, regs: &mut RegisterFile) -> (result: Result<(), Infallible>)
        ensures
            result is Ok,
            final(regs)@ == old(regs)@.write(level_write(I::dyn_id(), false)),
            !level_in(final(regs)@, I::dyn_id()),
    {
        self.registers.write_pin(regs, false);
        Ok(())
    }
}

impl<I, C> Pin<I, Input<C>> where I: PinId, C: InputConfig {
    /// Whether the pin's level is high. This cannot fail.
    pub fn is_high(&self, regs: &RegisterFile) -> (result: Result<bool, Infallible>)
        ensures
            result == Ok::<bool, Infallible>(level_in(regs@, I::dyn_id())),
    {
        Ok(self.registers.read_pin(regs) == true)
    }

    /// Whether the pin's level is low. This cannot fail.
    pub fn is_low(&self, regs: &RegisterFile) -> (result: Result<bool, Infallible>)
        ensures
            result == Ok::<bool, Infallible>(!level_in(regs@, I::dyn_id())),
    {
        Ok(self.registers.read_pin(regs) == false)
    }
}

/// Pin 42. It resets to a pulled-down input.
pub struct Gpio42;

impl PinId for Gpio42 {
    type Reset = PullDownInput;

    open spec fn dyn_id() -> DynPinId {
        DynPinId { num: 42 }
    }

    fn id() -> (id: DynPinId) {
        DynPinId { num: 42 }
    }
}

/// Pin 0. It resets to a pulled-up input.
pub struct Gpio0;

impl PinId for Gpio0 {
    type Reset = PullUpInput;

    open spec fn dyn_id() -> DynPinId {
        DynPinId { num: 0 }
    }

    fn id() -> (id: DynPinId) {
        DynPinId { num: 0 }
    }
}

} // verus!
