use gpio_hal::gpio::dynpin::{
    DynDisabled, DynFunction, DynInput, DynOutput, DynPin, DynPinId, DynPinMode, Error,
};
use gpio_hal::gpio::regfile::{Register, RegisterFile, RegisterWrite};

const PUSH_PULL: DynPinMode = DynPinMode::Output(DynOutput::PushPull);
const READABLE: DynPinMode = DynPinMode::Output(DynOutput::Readable);
const FLOATING: DynPinMode = DynPinMode::Input(DynInput::Floating);
const PULL_UP: DynPinMode = DynPinMode::Input(DynInput::PullUp);

#[test]
fn dyn_pin_reports_identity_and_mode() {
    let pin = DynPin::new(DynPinId { num: 12 }, PULL_UP);
    assert_eq!(pin.id(), DynPinId { num: 12 });
    assert_eq!(pin.mode(), PULL_UP);
}

#[test]
fn dyn_pin_keeps_an_unencoded_mode_it_was_made_with() {
    let mut regs = RegisterFile::new();
    let disabled = DynPinMode::Disabled(DynDisabled::Floating);
    let mut pin = DynPin::new(DynPinId { num: 12 }, disabled);
    pin.into_mode(&mut regs, disabled);
    assert_eq!(pin.mode(), disabled);
    assert!(regs.writes().is_empty());

    let function = DynPinMode::Function(DynFunction::I2C);
    let mut pin = DynPin::new(DynPinId { num: 13 }, function);
    pin.into_mode(&mut regs, function);
    assert_eq!(pin.mode(), function);
    assert!(regs.writes().is_empty());
}

#[test]
fn dyn_read_in_output_mode_is_a_mode_mismatch() {
    let mut regs = RegisterFile::new();
    regs.load(Register::Gplev0, 0xffff_ffff);
    let pin = DynPin::new(DynPinId { num: 5 }, PUSH_PULL);
    assert_eq!(pin.is_high(&regs), Err(Error::ModeMismatch));
    assert_eq!(pin.is_low(&regs), Err(Error::ModeMismatch));
    let pin = DynPin::new(DynPinId { num: 5 }, READABLE);
    assert_eq!(pin.is_high(&regs), Err(Error::ModeMismatch));
    assert_eq!(pin.is_low(&regs), Err(Error::ModeMismatch));
}

#[test]
fn dyn_read_in_disabled_or_function_mode_is_a_mode_mismatch() {
    let regs = RegisterFile::new();
    let pin = DynPin::new(DynPinId { num: 5 }, DynPinMode::Disabled(DynDisabled::PullDown));
    assert_eq!(pin.is_high(&regs), Err(Error::ModeMismatch));
    assert_eq!(pin.is_low(&regs), Err(Error::ModeMismatch));
    let pin = DynPin::new(DynPinId { num: 5 }, DynPinMode::Function(DynFunction::Pwm));
    assert_eq!(pin.is_high(&regs), Err(Error::ModeMismatch));
    assert_eq!(pin.is_low(&regs), Err(Error::ModeMismatch));
}

#[test]
fn dyn_write_outside_output_mode_is_a_mode_mismatch_and_writes_nothing() {
    let mut regs = RegisterFile::new();
    let modes = [
        FLOATING,
        PULL_UP,
        DynPinMode::Disabled(DynDisabled::BusKeep),
        DynPinMode::Function(DynFunction::Clock),
    ];
    for mode in modes {
        let mut pin = DynPin::new(DynPinId { num: 40 }, mode);
        assert_eq!(pin.set_high(&mut regs), Err(Error::ModeMismatch));
        assert_eq!(pin.set_low(&mut regs), Err(Error::ModeMismatch));
        assert_eq!(pin.mode(), mode);
    }
    assert!(regs.writes().is_empty());
    assert_eq!(regs.read(Register::Gplev1), 0);
}

#[test]
fn dyn_input_reads_its_level() {
    let mut regs = RegisterFile::new();
    let pin = DynPin::new(DynPinId { num: 33 }, FLOATING);
    assert_eq!(pin.is_high(&regs), Ok(false));
    assert_eq!(pin.is_low(&regs), Ok(true));
    regs.load(Register::Gplev1, 0b10);
    assert_eq!(pin.is_high(&regs), Ok(true));
    assert_eq!(pin.is_low(&regs), Ok(false));
}

#[test]
fn dyn_output_sets_and_clears_its_level() {
    let mut regs = RegisterFile::new();
    let mut pin = DynPin::new(DynPinId { num: 33 }, READABLE);
    assert_eq!(pin.set_high(&mut regs), Ok(()));
    assert_eq!(regs.read(Register::Gplev1), 0b10);
    assert_eq!(pin.set_low(&mut regs), Ok(()));
    assert_eq!(regs.read(Register::Gplev1), 0);
    assert_eq!(
        regs.take_writes(),
        vec![
            RegisterWrite { register: Register::Gpset1, bits: 0b10 },
            RegisterWrite { register: Register::Gpclr1, bits: 0b10 },
        ]
    );
}

#[test]
fn dyn_transition_writes_once_when_the_mode_changes() {
    let mut regs = RegisterFile::new();
    let mut pin = DynPin::new(DynPinId { num: 5 }, FLOATING);
    pin.into_mode(&mut regs, FLOATING);
    assert!(regs.writes().is_empty());
    assert_eq!(pin.mode(), FLOATING);

    pin.into_mode(&mut regs, PUSH_PULL);
    assert_eq!(pin.mode(), PUSH_PULL);
    assert_eq!(pin.id(), DynPinId { num: 5 });
    assert_eq!(
        regs.writes().as_slice(),
        [RegisterWrite { register: Register::Gpfsel0, bits: 0b001 << 5 }].as_slice()
    );

    pin.into_mode(&mut regs, PUSH_PULL);
    assert_eq!(regs.writes().len(), 1);

    pin.into_mode(&mut regs, PULL_UP);
    assert_eq!(pin.mode(), PULL_UP);
    assert_eq!(regs.writes().len(), 2);
    assert_eq!(regs.writes()[1], RegisterWrite { register: Register::Gpfsel0, bits: 0 });
}

#[test]
fn dyn_pin_follows_its_mode_at_run_time() {
    let mut regs = RegisterFile::new();
    let mut pin = DynPin::new(DynPinId { num: 0 }, PULL_UP);
    assert_eq!(pin.set_high(&mut regs), Err(Error::ModeMismatch));
    pin.into_mode(&mut regs, PUSH_PULL);
    assert_eq!(pin.set_high(&mut regs), Ok(()));
    assert_eq!(pin.is_high(&regs), Err(Error::ModeMismatch));
    pin.into_mode(&mut regs, FLOATING);
    assert_eq!(pin.is_high(&regs), Ok(true));
    assert_eq!(pin.set_low(&mut regs), Err(Error::ModeMismatch));
    assert_eq!(pin.is_high(&regs), Ok(true));
}
