//! Register fields: named runs of bits inside a 32-bit peripheral register.
//!
//! The bit arithmetic on field values is done by the `ruspiro-register` crate. This module
//! calls it through a few small functions whose contracts state what the crate computes, and
//! builds the register map's rules on them: a field write never disturbs bits outside the
//! field, and a value too wide for its field is cut to the field's width.

use vstd::prelude::*;

verus! {

/// Start of the peripherals' registers in the address space.
pub const PERIPHERAL_BASE: u32 = 0x3F00_0000;

/// How software may access a register.
#[derive(Clone, Copy, Debug, PartialEq, Eq, Structural)]
pub enum Access {
    ReadOnly,
    ReadWrite,
}

/// A run of `width` bits that starts at bit `shift` of the register at `register`.
#[derive(Clone, Copy, Debug, PartialEq, Eq, Structural)]
pub struct RegisterField {
    /// Address of the register that holds the field.
    pub register: u32,
    /// Position of the field's lowest bit.
    pub shift: u32,
    /// Number of bits in the field.
    pub width: u32,
    pub access: Access,
}

/// A value placed in one or more fields of a register: `mask` covers the fields, `bits` holds
/// the values at their positions.
#[derive(Clone, Copy, Debug, PartialEq, Eq, Structural)]
pub struct FieldValue {
    pub mask: u32,
    pub bits: u32,
}

/// The `width` lowest bits set.
pub open spec fn low_bits(width: u32) -> u32 {
    if width >= 32 {
        0xFFFF_FFFFu32
    } else {
        ((1u32 << width) - 1) as u32
    }
}

/// `ruspiro_register::RegisterField::<u32>::mask` on a field made of `mask` and `shift`: the
/// mask moved up to the field's position.
#[verifier::external_body]
fn shifted_mask(mask: u32, shift: u32) -> (shifted: u32)
    requires
        shift < 32,
    ensures
        shifted == mask << shift,
{
    ruspiro_register::RegisterField::<u32>::new(mask, shift).mask()
}

/// `ruspiro_register::RegisterFieldValue::<u32>::raw_value` on `value` in a field made of
/// `mask` and `shift`: the value cut to the mask and moved up to the field's position.
#[verifier::external_body]
fn raw_value(mask: u32, shift: u32, value: u32) -> (raw: u32)
    requires
        shift < 32,
    ensures
        raw == (value & mask) << shift,
{
    let field = ruspiro_register::RegisterField::<u32>::new(mask, shift);
    ruspiro_register::RegisterFieldValue::<u32>::new(field, value).raw_value()
}

/// `ruspiro_register::RegisterFieldValue::<u32>::from_raw` on a field made of `mask` and
/// `shift`: what the field holds in the register content `raw`, moved down to bit 0.
#[verifier::external_body]
fn value_from_raw(mask: u32, shift: u32, raw: u32) -> (value: u32)
    requires
        shift < 32,
    ensures
        value == (raw >> shift) & mask,
{
    let field = ruspiro_register::RegisterField::<u32>::new(mask, shift);
    ruspiro_register::RegisterFieldValue::<u32>::from_raw(field, raw).value()
}

/// The `|` of two `ruspiro_register::RegisterFieldValue<u32>`, each given by a mask and bits
/// that stand at their positions: the union of the masks and of the bits under them.
#[verifier::external_body]
fn union_of(a: FieldValue, b: FieldValue) -> (both: FieldValue)
    ensures
        both.mask == a.mask | b.mask,
        both.bits == (a.bits & a.mask) | (b.bits & b.mask),
{
    let left = ruspiro_register::RegisterFieldValue::<u32>::new(
        ruspiro_register::RegisterField::<u32>::new(a.mask, 0),
        a.bits,
    );
    let right = ruspiro_register::RegisterFieldValue::<u32>::new(
        ruspiro_register::RegisterField::<u32>::new(b.mask, 0),
        b.bits,
    );
    let both = left | right;
    FieldValue { mask: both.mask(), bits: both.raw_value() }
}

impl RegisterField {
    /// A field lies inside its 32-bit register and holds at least one bit.
    pub open spec fn valid(self) -> bool {
        1 <= self.width && self.shift + self.width <= 32
    }

    /// The bits of the register that belong to the field: none, if the field does not lie
    /// inside the register.
    pub open spec fn mask_spec(self) -> u32 {
        if self.valid() {
            low_bits(self.width) << self.shift
        } else {
            0
        }
    }

    /// `value`, cut to the field's width, at the field's position.
    pub open spec fn value_spec(self, value: u32) -> FieldValue {
        FieldValue {
            mask: self.mask_spec(),
            bits: if self.valid() {
                (value & low_bits(self.width)) << self.shift
            } else {
                0
            },
        }
    }

    /// What the field holds in the register content `raw`: 0, if the field does not lie
    /// inside the register.
    pub open spec fn read_spec(self, raw: u32) -> u32 {
        if self.valid() {
            (raw >> self.shift) & low_bits(self.width)
        } else {
            0
        }
    }

    /// The register content `raw` with the field replaced by `value`. A read-only field keeps
    /// what it holds.
    pub open spec fn write_spec(self, raw: u32, value: u32) -> u32 {
        if self.access == Access::ReadWrite {
            self.value_spec(value).apply_spec(raw)
        } else {
            raw
        }
    }

    /// The field of one bit at bit `shift`.
    pub open spec fn spec_bit(register: u32, shift: u32) -> RegisterField {
        RegisterField { register, shift, width: 1, access: Access::ReadWrite }
    }

    /// The field of `width` bits that starts at bit `shift`.
    pub open spec fn spec_bits(register: u32, shift: u32, width: u32) -> RegisterField {
        RegisterField { register, shift, width, access: Access::ReadWrite }
    }

    /// The same field of a register that software can only read.
    pub open spec fn spec_read_only(self) -> RegisterField {
        RegisterField { access: Access::ReadOnly, ..self }
    }

    #[verifier::when_used_as_spec(spec_bit)]
    pub fn bit(register: u32, shift: u32) -> (field: RegisterField)
        ensures
            field == Self::spec_bit(register, shift),
    {
        RegisterField { register, shift, width: 1, access: Access::ReadWrite }
    }

    #[verifier::when_used_as_spec(spec_bits)]
    pub fn bits(register: u32, shift: u32, width: u32) -> (field: RegisterField)
        ensures
            field == Self::spec_bits(register, shift, width),
    {
        RegisterField { register, shift, width, access: Access::ReadWrite }
    }

    #[verifier::when_used_as_spec(spec_read_only)]
    pub fn read_only(self) -> (field: RegisterField)
        ensures
            field == self.spec_read_only(),
    {
        RegisterField { access: Access::ReadOnly, ..self }
    }

    /// The field of `width` bits at bit `shift` of the register at `register`, if such a field
    /// fits into 32 bits.
    pub fn new(register: u32, shift: u32, width: u32, access: Access) -> (field: Option<Self>)
        ensures
            field == if 1 <= width && shift + width <= 32 {
                Some(RegisterField { register, shift, width, access })
            } else {
                None
            },
    {
        if 1 <= width && width <= 32 && shift <= 32 - width {
            Some(RegisterField { register, shift, width, access })
        } else {
            None
        }
    }

    /// Whether the field lies inside its register and holds at least one bit.
    pub fn is_valid(&self) -> (valid: bool)
        ensures
            valid == self.valid(),
    {
        1 <= self.width && self.width <= 32 && self.shift <= 32 - self.width
    }

    /// The mask of the field's value before it is moved to the field's position.
    fn value_mask(&self) -> (mask: u32)
        requires
            self.valid(),
        ensures
            mask == low_bits(self.width),
    {
        let width: u32 = self.width;
        if width >= 32 {
            0xFFFF_FFFFu32
        } else {
            assert(width < 32 ==> (1u32 << width) >= 1) by (bit_vector);
            (1u32 << width) - 1
        }
    }

    /// The bits of the register that belong to the field.
    pub fn mask(&self) -> (mask: u32)
        ensures
            mask == self.mask_spec(),
    {
        if self.is_valid() {
            shifted_mask(self.value_mask(), self.shift)
        } else {
            0
        }
    }

    /// Places `value` in the field. Bits of `value` beyond the field's width are dropped. A
    /// field that does not lie inside the register takes no bits.
    pub fn with_value(&self, value: u32) -> (placed: FieldValue)
        ensures
            placed == self.value_spec(value),
            placed.valid(),
    {
        if self.is_valid() {
            let low: u32 = self.value_mask();
            proof {
                lemma_field(self.shift, self.width, 0, value);
            }
            FieldValue {
                mask: shifted_mask(low, self.shift),
                bits: raw_value(low, self.shift, value),
            }
        } else {
            assert(0u32 & !0u32 == 0) by (bit_vector);
            FieldValue { mask: 0, bits: 0 }
        }
    }

    /// Reads the field out of the register content `raw`.
    pub fn read(&self, raw: u32) -> (value: u32)
        ensures
            value == self.read_spec(raw),
            value <= low_bits(self.width),
    {
        if self.is_valid() {
            proof {
                lemma_field(self.shift, self.width, raw, 0);
            }
            value_from_raw(self.value_mask(), self.shift, raw)
        } else {
            0
        }
    }

    /// Writes `value` into the field of the register content `raw` and leaves the other bits
    /// of `raw` as they are. A read-only field keeps what it holds.
    pub fn write(&self, raw: u32, value: u32) -> (written: u32)
        ensures
            written == self.write_spec(raw, value),
    {
        match self.access {
            Access::ReadWrite => self.with_value(value).apply(raw),
            Access::ReadOnly => raw,
        }
    }
}

impl FieldValue {
    /// No bit is set outside the mask.
    pub open spec fn valid(self) -> bool {
        self.bits & !self.mask == 0
    }

    /// The two values together.
    pub open spec fn or_spec(self, other: FieldValue) -> FieldValue {
        FieldValue {
            mask: self.mask | other.mask,
            bits: (self.bits & self.mask) | (other.bits & other.mask),
        }
    }

    /// The register content `raw` with the bits under the mask replaced.
    pub open spec fn apply_spec(self, raw: u32) -> u32 {
        (raw & !self.mask) | (self.bits & self.mask)
    }

    /// Combines two field values into one that holds both. Where the fields overlap, the bits
    /// of both are set.
    pub fn or(self, other: FieldValue) -> (both: FieldValue)
        ensures
            both == self.or_spec(other),
            both.valid(),
    {
        let both = union_of(self, other);
        proof {
            lemma_union(self.mask, self.bits, other.mask, other.bits);
        }
        both
    }

    /// Replaces the bits under the mask in the register content `raw`.
    pub fn apply(&self, raw: u32) -> (merged: u32)
        ensures
            merged == self.apply_spec(raw),
    {
        (raw & !self.mask) | (self.bits & self.mask)
    }
}

proof fn lemma_field(shift: u32, width: u32, raw: u32, value: u32)
    by (bit_vector)
    requires
        1 <= width,
        shift + width <= 32,
    ensures
        (((value & low_bits(width)) << shift) & !(low_bits(width) << shift)) == 0,
        ((raw >> shift) & low_bits(width)) <= low_bits(width),
        0u32 <= low_bits(width),
{
}

proof fn lemma_union(a_mask: u32, a_bits: u32, b_mask: u32, b_bits: u32)
    by (bit_vector)
    ensures
        (((a_bits & a_mask) | (b_bits & b_mask)) & !(a_mask | b_mask)) == 0,
{
}

proof fn lemma_write(shift: u32, width: u32, raw: u32, value: u32)
    by (bit_vector)
    requires
        1 <= width,
        shift + width <= 32,
    ensures
        (raw & !0u32) | (0u32 & 0u32) == raw,
        ({
            let low = low_bits(width);
            let mask = low << shift;
            let bits = (value & low) << shift;
            let written = (raw & !mask) | (bits & mask);
            &&& written & !mask == raw & !mask
            &&& (written >> shift) & low == value & low
            &&& (written & !mask) | (bits & mask) == written
            &&& (value & low) & low == value & low
        }),
{
}

/// A field write never disturbs the bits outside the field.
pub proof fn write_keeps_other_bits(field: RegisterField, raw: u32, value: u32)
    ensures
        field.write_spec(raw, value) & !field.mask_spec() == raw & !field.mask_spec(),
{
    if field.valid() {
        lemma_write(field.shift, field.width, raw, value);
    } else {
        lemma_write(0, 1, raw, value);
    }
}

/// Reading a field after a write to it gives the value written, cut to the field's width.
pub proof fn read_after_write(field: RegisterField, raw: u32, value: u32)
    requires
        field.valid(),
        field.access == Access::ReadWrite,
    ensures
        field.read_spec(field.write_spec(raw, value)) == value & low_bits(field.width),
{
    lemma_write(field.shift, field.width, raw, value);
}

/// A value that does not fit into the field is cut to the field's width, without notice.
pub proof fn write_truncates(field: RegisterField, raw: u32, value: u32)
    ensures
        field.write_spec(raw, value) == field.write_spec(raw, value & low_bits(field.width)),
{
    if field.valid() {
        lemma_write(field.shift, field.width, raw, value);
    } else {
        lemma_write(0, 1, raw, value);
    }
}

/// Writing the same value to a field twice leaves the register as one write does.
pub proof fn write_is_idempotent(field: RegisterField, raw: u32, value: u32)
    ensures
        field.write_spec(field.write_spec(raw, value), value) == field.write_spec(raw, value),
{
    if field.valid() {
        lemma_write(field.shift, field.width, raw, value);
    } else {
        lemma_write(0, 1, raw, value);
    }
}

/// Merging bits that fill their mask sets them, merging none clears them, and either leaves
/// the bits outside the mask as they were.
pub proof fn merge_sets_or_clears(raw: u32, mask: u32)
    ensures
        (FieldValue { mask, bits: mask }).apply_spec(raw) == raw | mask,
        (FieldValue { mask, bits: 0 }).apply_spec(raw) == raw & !mask,
{
    assert((raw & !mask) | (mask & mask) == raw | mask && (raw & !mask) | (0u32 & mask) == raw
        & !mask) by (bit_vector);
}

/// One write to a peripheral register.
#[derive(Clone, Copy, Debug, PartialEq, Eq, Structural)]
pub enum RegisterOp {
    /// Overwrites the whole register at `address`.
    Store { address: u32, value: u32 },
    /// Replaces the bits under `fields.mask` in the register at `address` and keeps the others.
    Merge { address: u32, fields: FieldValue },
}

impl RegisterOp {
    /// The register that the write goes to.
    pub open spec fn address_spec(self) -> u32 {
        match self {
            RegisterOp::Store { address, .. } => address,
            RegisterOp::Merge { address, .. } => address,
        }
    }

    /// What the register holds after the write, if it held `raw` before.
    pub open spec fn result_spec(self, raw: u32) -> u32 {
        match self {
            RegisterOp::Store { value, .. } => value,
            RegisterOp::Merge { fields, .. } => fields.apply_spec(raw),
        }
    }

    /// The registers after the write. `registers` maps addresses to contents.
    pub open spec fn apply_spec(self, registers: Map<u32, u32>) -> Map<u32, u32> {
        registers.insert(self.address_spec(), self.result_spec(registers[self.address_spec()]))
    }

    /// The write of `value` to the field `field`. A read-only field takes no bits.
    pub open spec fn field_spec(field: RegisterField, value: u32) -> RegisterOp {
        if field.access == Access::ReadWrite {
            RegisterOp::Merge { address: field.register, fields: field.value_spec(value) }
        } else {
            RegisterOp::Merge { address: field.register, fields: FieldValue { mask: 0, bits: 0 } }
        }
    }

    #[verifier::when_used_as_spec(address_spec)]
    pub fn address(self) -> (address: u32)
        ensures
            address == self.address_spec(),
    {
        match self {
            RegisterOp::Store { address, .. } => address,
            RegisterOp::Merge { address, .. } => address,
        }
    }

    /// What the register holds after the write, if it held `raw` before.
    pub fn result(self, raw: u32) -> (content: u32)
        ensures
            content == self.result_spec(raw),
    {
        match self {
            RegisterOp::Store { value, .. } => value,
            RegisterOp::Merge { fields, .. } => fields.apply(raw),
        }
    }

    /// The write of `value` to the field `field`, which leaves the rest of the register alone.
    pub fn field(field: RegisterField, value: u32) -> (op: RegisterOp)
        ensures
            op == Self::field_spec(field, value),
            forall|raw: u32| #[trigger] op.result_spec(raw) == field.write_spec(raw, value),
    {
        assert forall|raw: u32| (raw & !0u32) | (0u32 & 0u32) == raw by {
            lemma_write(0, 1, raw, 0);
        }
        match field.access {
            Access::ReadWrite => RegisterOp::Merge {
                address: field.register,
                fields: field.with_value(value),
            },
            Access::ReadOnly => RegisterOp::Merge {
                address: field.register,
                fields: FieldValue { mask: 0, bits: 0 },
            },
        }
    }
}

/// The registers after the writes `ops[from..]`, made in order.
pub open spec fn apply_from(ops: Seq<RegisterOp>, from: int, registers: Map<u32, u32>) -> Map<
    u32,
    u32,
>
    decreases ops.len() - from,
{
    if 0 <= from < ops.len() {
        apply_from(ops, from + 1, ops[from].apply_spec(registers))
    } else {
        registers
    }
}

/// The registers after all the writes `ops`, made in order.
pub open spec fn apply_all(ops: Seq<RegisterOp>, registers: Map<u32, u32>) -> Map<u32, u32> {
    apply_from(ops, 0, registers)
}

} // verus!
