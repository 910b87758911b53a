//! The register layer: from a pin identity and a target mode or level to
//! the exact register and bit pattern.

use vstd::prelude::*;
use vstd::std_specs::convert::FromSpecImpl;

use super::dynpin::{DynPinId, DynPinMode};
use super::regfile::{Register, RegisterFile, RegisterState, RegisterWrite};

verus! {

/// The setting of a pin's function-select field.
#[derive(Debug, PartialEq, Eq, Clone, Copy, Structural)]
pub enum FunctionSelect {
    Input,
    Output,
    AlternateFunction0,
    AlternateFunction1,
    AlternateFunction2,
    AlternateFunction3,
    AlternateFunction4,
    AlternateFunction5,
}

impl FunctionSelect {
    pub open spec fn spec_code(self) -> u8 {
        match self {
            FunctionSelect::Input => 0b000,
            FunctionSelect::Output => 0b001,
            FunctionSelect::AlternateFunction0 => 0b100,
            FunctionSelect::AlternateFunction1 => 0b101,
            FunctionSelect::AlternateFunction2 => 0b110,
            FunctionSelect::AlternateFunction3 => 0b111,
            FunctionSelect::AlternateFunction4 => 0b011,
            FunctionSelect::AlternateFunction5 => 0b010,
        }
    }

    /// The 3-bit code of the setting.
    #[verifier::when_used_as_spec(spec_code)]
    pub fn code(self) -> (code: u8)
        ensures
            code == self.spec_code(),
    {
        match self {
            FunctionSelect::Input => 0b000,
            FunctionSelect::Output => 0b001,
            FunctionSelect::AlternateFunction0 => 0b100,
            FunctionSelect::AlternateFunction1 => 0b101,
            FunctionSelect::AlternateFunction2 => 0b110,
            FunctionSelect::AlternateFunction3 => 0b111,
            FunctionSelect::AlternateFunction4 => 0b011,
            FunctionSelect::AlternateFunction5 => 0b010,
        }
    }
}

impl From<FunctionSelect> for u8 {
    fn from(value: FunctionSelect) -> (code: u8) {
        value.code()
    }
}

impl FromSpecImpl<FunctionSelect> for u8 {
    open spec fn obeys_from_spec() -> bool {
        true
    }

    open spec fn from_spec(value: FunctionSelect) -> u8 {
        value.code()
    }
}

impl Default for FunctionSelect {
    fn default() -> (fsel: Self)
        ensures
            fsel == FunctionSelect::Input,
    {
        FunctionSelect::Input
    }
}

/// The register fields that a pin mode sets.
#[derive(Debug, PartialEq, Eq, Clone, Copy, Structural)]
pub struct ModeFields {
    pub fsel: FunctionSelect,
}

impl Default for ModeFields {
    fn default() -> (fields: Self)
        ensures
            fields.fsel == FunctionSelect::Input,
    {
        ModeFields { fsel: FunctionSelect::default() }
    }
}

impl ModeFields {
    /// The fields of `mode`. Only the input and output modes have an
    /// encoding; the disabled and peripheral-function modes have none.
    pub open spec fn of(mode: DynPinMode) -> Option<ModeFields> {
        match mode {
            DynPinMode::Input(_) => Some(ModeFields { fsel: FunctionSelect::Input }),
            DynPinMode::Output(_) => Some(ModeFields { fsel: FunctionSelect::Output }),
            DynPinMode::Disabled(_) => None,
            DynPinMode::Function(_) => None,
        }
    }

    /// Whether `mode` has an encoding.
    pub fn supports(mode: DynPinMode) -> (known: bool)
        ensures
            known == (ModeFields::of(mode) is Some),
            known == (mode is Input || mode is Output),
    {
        match mode {
            DynPinMode::Input(_) => true,
            DynPinMode::Output(_) => true,
            DynPinMode::Disabled(_) => false,
            DynPinMode::Function(_) => false,
        }
    }

    /// The fields of a mode that has an encoding.
    pub fn from(value: DynPinMode) -> (fields: Self)
        requires
            ModeFields::of(value) is Some,
        ensures
            Some(fields) == ModeFields::of(value),
    {
        let mut fields = ModeFields::default();
        match value {
            DynPinMode::Input(_) => {
                fields.fsel = FunctionSelect::Input;
            },
            DynPinMode::Output(_) => {
                fields.fsel = FunctionSelect::Output;
            },
            DynPinMode::Disabled(_) => unreached(),
            DynPinMode::Function(_) => unreached(),
        }
        fields
    }
}

/// The pin's single bit within the 32-bit registers of its group.
pub open spec fn mask_of(id: DynPinId) -> u32 {
    1u32 << ((id.num % 32) as u32)
}

/// The level register of the pin's group.
pub open spec fn level_register(id: DynPinId) -> Register {
    if id.group() == 0 {
        Register::Gplev0
    } else {
        Register::Gplev1
    }
}

/// The register that drives the pin to `bit`: the set register of its group
/// to raise it, the clear register to lower it.
pub open spec fn drive_register(id: DynPinId, bit: bool) -> Register {
    if id.group() == 0 {
        if bit {
            Register::Gpset0
        } else {
            Register::Gpclr0
        }
    } else {
        if bit {
            Register::Gpset1
        } else {
            Register::Gpclr1
        }
    }
}

/// The function-select register that holds the pin's field.
pub open spec fn fsel_register(id: DynPinId) -> Register {
    match id.fsel_group() {
        0 => Register::Gpfsel0,
        1 => Register::Gpfsel1,
        2 => Register::Gpfsel2,
        3 => Register::Gpfsel3,
        4 => Register::Gpfsel4,
        _ => Register::Gpfsel5,
    }
}

/// The pin's level in `state`: whether its bit of the level register is set.
pub open spec fn level_in(state: RegisterState, id: DynPinId) -> bool {
    state.read(level_register(id)) & mask_of(id) != 0
}

/// The write that drives the pin to `bit`. It carries the pin's bit alone.
pub open spec fn level_write(id: DynPinId, bit: bool) -> RegisterWrite {
    RegisterWrite { register: drive_register(id, bit), bits: mask_of(id) }
}

/// The word that holds the code of `fsel` at the pin's offset, `num % 10`,
/// and zero everywhere else.
pub open spec fn fsel_bits(id: DynPinId, fsel: FunctionSelect) -> u32 {
    (fsel.code() as u32) << ((id.num % 10) as u32)
}

/// The write that puts the pin in `mode`.
pub open spec fn mode_write(id: DynPinId, mode: DynPinMode) -> RegisterWrite
    recommends
        ModeFields::of(mode) is Some,
{
    RegisterWrite {
        register: fsel_register(id),
        bits: fsel_bits(id, ModeFields::of(mode).unwrap().fsel),
    }
}

/// Access to the registers of one pin.
pub trait RegisterInterface {
    /// The pin that this value stands for.
    spec fn pin(&self) -> DynPinId;

    /// The pin's identity. It always names a pin of the chip.
    fn id(&self) -> (id: DynPinId)
        ensures
            id == self.pin(),
            id.is_valid(),
    ;

    /// The pin's bit within the registers of its group.
    fn mask(&self) -> (mask: u32)
        ensures
            mask == mask_of(self.pin()),
    {
        let shift: u32 = (self.id().num % 32) as u32;
        1u32 << shift
    }

    /// Reads the pin's level.
    fn read_pin(&self, regs: &RegisterFile) -> (level: bool)
        ensures
            level == level_in(regs@, self.pin()),
    {
        let mask: u32 = self.mask();
        let word: u32 = match self.id().group() {
            0 => regs.read(Register::Gplev0),
            1 => regs.read(Register::Gplev1),
            _ => unreached(),
        };
        word & mask != 0
    }

    /// Drives the pin to `bit` by one write of its mask to the set or clear
    /// register of its group. No register is read, and no other pin's level
    /// changes.
    fn write_pin(&mut self, regs: &mut RegisterFile, bit: bool)
        ensures
            final(self).pin() == old(self).pin(),
            final(regs)@ == old(regs)@.write(level_write(old(self).pin(), bit)),
            level_in(final(regs)@, old(self).pin()) == bit,
            forall|other: DynPinId|
                other.is_valid() && other != old(self).pin() ==> #[trigger] level_in(
                    final(regs)@,
                    other,
                ) == level_in(old(regs)@, other),
    {
        let mask: u32 = self.mask();
        let register: Register = match self.id().group() {
            0 => {
                if bit {
                    Register::Gpset0
                } else {
                    Register::Gpclr0
                }
            },
            1 => {
                if bit {
                    Register::Gpset1
                } else {
                    Register::Gpclr1
                }
            },
            _ => unreached(),
        };
        proof {
            lemma_level_round_trip(regs@, self.pin(), bit);
            assert forall|other: DynPinId| other.is_valid() && other != self.pin() implies level_in(
                regs@.write(level_write(self.pin(), bit)),
                other,
            ) == level_in(regs@, other) by {
                lemma_level_write_disjoint(regs@, self.pin(), bit, other);
            }
        }
        regs.write_with_zero(register, mask);
    }

    /// Puts the pin in `mode` by one write to the function-select register
    /// of its group: the mode's 3-bit code at the pin's offset, zero in every
    /// other bit.
    fn change_mode(&mut self, regs: &mut RegisterFile, mode: DynPinMode)
        requires
            ModeFields::of(mode) is Some,
        ensures
            final(self).pin() == old(self).pin(),
            final(regs)@ == old(regs)@.write(mode_write(old(self).pin(), mode)),
    {
        let fields: ModeFields = ModeFields::from(mode);
        let fsel_offset: u32 = (self.id().num % 10) as u32;
        let code: u8 = fields.fsel.code();
        let fsel: u32 = (code as u32) << fsel_offset;
        let register: Register = match self.id().fsel_group() {
            0 => Register::Gpfsel0,
            1 => Register::Gpfsel1,
            2 => Register::Gpfsel2,
            3 => Register::Gpfsel3,
            4 => Register::Gpfsel4,
            5 => Register::Gpfsel5,
            _ => unreached(),
        };
        regs.write_with_zero(register, fsel);
    }
}

/// A pin's mask has exactly the bit `num % 32` set, so two pins whose
/// numbers differ by 32 share a mask and lie in different groups.
pub proof fn lemma_mask_repeats_across_groups(low: DynPinId, high: DynPinId)
    requires
        high.num == low.num + 32,
    ensures
        mask_of(low) == mask_of(high),
        low.group() != high.group(),
{
}

/// After a write that drives a pin to `bit`, the pin's level reads `bit`.
pub proof fn lemma_level_round_trip(state: RegisterState, id: DynPinId, bit: bool)
    requires
        id.is_valid(),
    ensures
        level_in(state.write(level_write(id, bit)), id) == bit,
{
    let k: u32 = (id.num % 32) as u32;
    lemma_single_bit_update_shows(state.gplev0, k);
    lemma_single_bit_update_shows(state.gplev1, k);
}

/// A write that drives one pin leaves the level of every other pin as it
/// was.
pub proof fn lemma_level_write_disjoint(
    state: RegisterState,
    id: DynPinId,
    bit: bool,
    other: DynPinId,
)
    requires
        id.is_valid(),
        other.is_valid(),
        other != id,
    ensures
        level_in(state.write(level_write(id, bit)), other) == level_in(state, other),
{
    let k: u32 = (id.num % 32) as u32;
    let j: u32 = (other.num % 32) as u32;
    if id.group() == other.group() {
        assert(k != j);
        lemma_single_bit_update_keeps_others(state.gplev0, k, j);
        lemma_single_bit_update_keeps_others(state.gplev1, k, j);
    }
}

/// Writes that drive two different pins leave the registers in the same
/// state whichever is made first, so the two pins need no coordination.
pub proof fn lemma_level_writes_commute(
    state: RegisterState,
    id: DynPinId,
    bit: bool,
    other: DynPinId,
    other_bit: bool,
)
    requires
        id.is_valid(),
        other.is_valid(),
        other != id,
    ensures
        state.store(level_write(id, bit)).store(level_write(other, other_bit)) == state.store(
            level_write(other, other_bit),
        ).store(level_write(id, bit)),
{
    let k: u32 = (id.num % 32) as u32;
    let j: u32 = (other.num % 32) as u32;
    if id.group() == other.group() {
        assert(k != j);
        lemma_single_bit_updates_commute(state.gplev0, k, j);
        lemma_single_bit_updates_commute(state.gplev1, k, j);
    }
}

/// Bit `k` of a word is set after it was set, and clear after it was
/// cleared.
proof fn lemma_single_bit_update_shows(w: u32, k: u32)
    by (bit_vector)
    requires
        k < 32,
    ensures
        ((w | (1u32 << k)) & (1u32 << k)) != 0,
        ((w & !(1u32 << k)) & (1u32 << k)) == 0,
{
}

/// Setting or clearing bit `k` of a word leaves another bit `j` as it was.
proof fn lemma_single_bit_update_keeps_others(w: u32, k: u32, j: u32)
    by (bit_vector)
    requires
        k < 32,
        j < 32,
        k != j,
    ensures
        ((w | (1u32 << k)) & (1u32 << j)) == (w & (1u32 << j)),
        ((w & !(1u32 << k)) & (1u32 << j)) == (w & (1u32 << j)),
{
}

/// Setting or clearing bit `k` of a word and setting or clearing another bit
/// `j` give the same word in either order.
proof fn lemma_single_bit_updates_commute(w: u32, k: u32, j: u32)
    by (bit_vector)
    requires
        k < 32,
        j < 32,
        k != j,
    ensures
        ((w | (1u32 << k)) | (1u32 << j)) == ((w | (1u32 << j)) | (1u32 << k)),
        ((w | (1u32 << k)) & !(1u32 << j)) == ((w & !(1u32 << j)) | (1u32 << k)),
        ((w & !(1u32 << k)) | (1u32 << j)) == ((w | (1u32 << j)) & !(1u32 << k)),
        ((w & !(1u32 << k)) & !(1u32 << j)) == ((w & !(1u32 << j)) & !(1u32 << k)),
{
}

/// A write that drives a pin leaves every function-select register as it
/// was, and a write that sets a pin's mode leaves every level as it was.
pub proof fn lemma_level_and_mode_writes_are_apart(
    state: RegisterState,
    id: DynPinId,
    bit: bool,
    mode: DynPinMode,
    other: DynPinId,
)
    ensures
        state.write(level_write(id, bit)).read(fsel_register(other)) == state.read(
            fsel_register(other),
        ),
        level_in(state.write(mode_write(id, mode)), other) == level_in(state, other),
{
}

} // verus!
