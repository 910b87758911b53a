use gpio_hal::gpio::dynpin::{DynInput, DynOutput, DynPinId, DynPinMode};
use gpio_hal::gpio::pin::{
    BusKeepInput, FloatingInput, Gpio0, Gpio42, InputConfig, OutputConfig, Pin, PinId, PinMode,
    PullDown, PullDownInput, PullUp, PullUpInput, PushPull, PushPullOutput, Readable,
    ReadableOutput, Registers, BusKeep, Floating,
};
use gpio_hal::gpio::reg::RegisterInterface;
use gpio_hal::gpio::regfile::{Register, RegisterFile, RegisterWrite};

#[test]
fn input_configs_map_to_their_values() {
    assert_eq!(Floating::config(), DynInput::Floating);
    assert_eq!(PullDown::config(), DynInput::PullDown);
    assert_eq!(PullUp::config(), DynInput::PullUp);
    assert_eq!(BusKeep::config(), DynInput::BusKeep);
}

#[test]
fn output_configs_map_to_their_values() {
    assert_eq!(PushPull::config(), DynOutput::PushPull);
    assert_eq!(Readable::config(), DynOutput::Readable);
}

#[test]
fn modes_map_to_their_canonical_values() {
    assert_eq!(FloatingInput::mode(), DynPinMode::Input(DynInput::Floating));
    assert_eq!(PullDownInput::mode(), DynPinMode::Input(DynInput::PullDown));
    assert_eq!(PullUpInput::mode(), DynPinMode::Input(DynInput::PullUp));
    assert_eq!(BusKeepInput::mode(), DynPinMode::Input(DynInput::BusKeep));
    assert_eq!(PushPullOutput::mode(), DynPinMode::Output(DynOutput::PushPull));
    assert_eq!(ReadableOutput::mode(), DynPinMode::Output(DynOutput::Readable));
}

#[test]
fn pin_ids_map_to_their_numbers() {
    assert_eq!(Gpio0::id(), DynPinId { num: 0 });
    assert_eq!(Gpio42::id(), DynPinId { num: 42 });
    assert_eq!(Registers::<Gpio42>::new().id(), DynPinId { num: 42 });
}

#[test]
fn reset_modes() {
    assert_eq!(<<Gpio0 as PinId>::Reset as PinMode>::mode(), DynPinMode::Input(DynInput::PullUp));
    assert_eq!(
        <<Gpio42 as PinId>::Reset as PinMode>::mode(),
        DynPinMode::Input(DynInput::PullDown)
    );
}

#[test]
fn pin_reports_identity_and_mode() {
    let pin: Pin<Gpio42, ReadableOutput> = Pin::new();
    assert_eq!(pin.id(), DynPinId { num: 42 });
    assert_eq!(pin.mode(), DynPinMode::Output(DynOutput::Readable));
}

#[test]
fn transition_to_the_same_mode_writes_nothing() {
    let mut regs = RegisterFile::new();
    let pin: Pin<Gpio0, PullUpInput> = Pin::new();
    let pin = pin.into_mode::<PullUpInput>(&mut regs);
    assert!(regs.writes().is_empty());
    let pin = pin.into_mode::<PushPullOutput>(&mut regs);
    assert_eq!(regs.writes().len(), 1);
    let pin = pin.into_mode::<PushPullOutput>(&mut regs);
    let pin = pin.into_mode::<PushPullOutput>(&mut regs);
    assert_eq!(regs.writes().len(), 1);
    assert_eq!(pin.mode(), DynPinMode::Output(DynOutput::PushPull));
}

#[test]
fn transition_within_a_family_writes_the_field_again() {
    let mut regs = RegisterFile::new();
    let pin: Pin<Gpio42, PullDownInput> = Pin::new();
    let pin = pin.into_mode::<FloatingInput>(&mut regs);
    assert_eq!(regs.take_writes(), vec![RegisterWrite { register: Register::Gpfsel4, bits: 0 }]);
    let pin = pin.into_mode::<PushPullOutput>(&mut regs);
    let _pin = pin.into_mode::<ReadableOutput>(&mut regs);
    assert_eq!(
        regs.take_writes(),
        vec![
            RegisterWrite { register: Register::Gpfsel4, bits: 0b001 << 2 },
            RegisterWrite { register: Register::Gpfsel4, bits: 0b001 << 2 },
        ]
    );
}

#[test]
fn registers_change_mode_writes_the_field_of_the_type() {
    let mut regs = RegisterFile::new();
    let mut registers = Registers::<Gpio42>::new();
    registers.change_mode::<PushPullOutput>(&mut regs);
    assert_eq!(
        regs.take_writes(),
        vec![RegisterWrite { register: Register::Gpfsel4, bits: 0b001 << 2 }]
    );
    registers.change_mode::<BusKeepInput>(&mut regs);
    assert_eq!(regs.take_writes(), vec![RegisterWrite { register: Register::Gpfsel4, bits: 0 }]);
}

#[test]
fn pin_0_from_reset_to_output_and_high() {
    let mut regs = RegisterFile::new();
    let pin: Pin<Gpio0, <Gpio0 as PinId>::Reset> = Pin::new();
    assert_eq!(pin.mode(), DynPinMode::Input(DynInput::PullUp));

    let mut pin = pin.into_mode::<PushPullOutput>(&mut regs);
    assert_eq!(
        regs.take_writes(),
        vec![RegisterWrite { register: Register::Gpfsel0, bits: 0b001 }]
    );
    assert_eq!(regs.read(Register::Gpfsel0), 0b001);

    assert_eq!(pin.set_high(&mut regs), Ok(()));
    assert_eq!(regs.take_writes(), vec![RegisterWrite { register: Register::Gpset0, bits: 0x1 }]);
    assert_eq!(regs.read(Register::Gplev0), 0x1);
}

#[test]
fn output_pin_sets_and_clears_its_level() {
    let mut regs = RegisterFile::new();
    let mut pin: Pin<Gpio42, PushPullOutput> = Pin::new();
    assert_eq!(pin.set_high(&mut regs), Ok(()));
    assert_eq!(regs.read(Register::Gplev1), 1 << 10);
    assert_eq!(pin.set_low(&mut regs), Ok(()));
    assert_eq!(regs.read(Register::Gplev1), 0);
    assert_eq!(
        regs.take_writes(),
        vec![
            RegisterWrite { register: Register::Gpset1, bits: 1 << 10 },
            RegisterWrite { register: Register::Gpclr1, bits: 1 << 10 },
        ]
    );
}

#[test]
fn input_pin_reads_its_level() {
    let mut regs = RegisterFile::new();
    let pin: Pin<Gpio42, PullDownInput> = Pin::new();
    assert_eq!(pin.is_high(&regs), Ok(false));
    assert_eq!(pin.is_low(&regs), Ok(true));
    regs.load(Register::Gplev1, 1 << 10);
    assert_eq!(pin.is_high(&regs), Ok(true));
    assert_eq!(pin.is_low(&regs), Ok(false));
    regs.load(Register::Gplev1, !(1 << 10));
    assert_eq!(pin.is_high(&regs), Ok(false));
    assert!(regs.writes().is_empty());
}

#[test]
fn level_set_as_output_is_read_back_as_input() {
    let mut regs = RegisterFile::new();
    let mut pin: Pin<Gpio0, PushPullOutput> = Pin::new();
    assert_eq!(pin.set_high(&mut regs), Ok(()));
    let pin = pin.into_mode::<FloatingInput>(&mut regs);
    assert_eq!(pin.is_high(&regs), Ok(true));
    let mut pin = pin.into_mode::<ReadableOutput>(&mut regs);
    assert_eq!(pin.set_low(&mut regs), Ok(()));
    let pin = pin.into_mode::<FloatingInput>(&mut regs);
    assert_eq!(pin.is_low(&regs), Ok(true));
}
