//! Gate descriptors and the interrupt descriptor table.
//!
//! A gate descriptor is a 16-byte record: `address_low: u16, selector: u16,
//! ist: u8, attributes: u8, address_middle: u16, address_high: u32,
//! reserved: u32`, little-endian. The attribute byte holds the present flag in
//! bit 7, the privilege level in bits 5-6 and the type field in bits 0-3.

use vstd::prelude::*;

verus! {

/// Number of slots in the table: one per processor exception vector.
pub const IDT_ENTRIES: usize = 32;

/// Size in bytes of one gate descriptor.
pub const ENTRY_SIZE: usize = 16;

/// Privilege ring of a gate.
#[derive(Debug, Clone, Copy, PartialEq, Eq, Hash, Structural)]
pub enum PrivilegeLevel {
    Ring0,
    Ring1,
    Ring2,
    Ring3,
}

impl PrivilegeLevel {
    pub open spec fn spec_value(&self) -> u8 {
        match self {
            PrivilegeLevel::Ring0 => 0,
            PrivilegeLevel::Ring1 => 1,
            PrivilegeLevel::Ring2 => 2,
            PrivilegeLevel::Ring3 => 3,
        }
    }

    /// The ring number, 0 to 3.
    pub fn value(&self) -> (r: u8)
        ensures
            r == self.spec_value(),
            r <= 3,
    {
        match self {
            PrivilegeLevel::Ring0 => 0,
            PrivilegeLevel::Ring1 => 1,
            PrivilegeLevel::Ring2 => 2,
            PrivilegeLevel::Ring3 => 3,
        }
    }
}

/// Kind of gate: an interrupt gate masks further interrupts on entry, a trap
/// gate does not.
#[derive(Debug, Clone, Copy, PartialEq, Eq, Structural)]
pub enum GateType {
    Interrupt,
    Trap,
}

impl GateType {
    pub open spec fn spec_value(&self) -> u8 {
        match self {
            GateType::Interrupt => 0xE,
            GateType::Trap => 0xF,
        }
    }

    /// The 4-bit type field of the attribute byte.
    pub fn value(&self) -> (r: u8)
        ensures
            r == self.spec_value(),
    {
        match self {
            GateType::Interrupt => 0xE,
            GateType::Trap => 0xF,
        }
    }
}

/// Operand of the table-load instruction: the table's size in bytes minus one
/// and its base address.
#[derive(Debug, Clone, Copy, PartialEq, Eq, Structural)]
pub struct InterruptPointer {
    pub limit: u16,
    pub base_addr: u64,
}

/// Access attributes of a gate.
#[derive(Debug, Clone, Copy, PartialEq, Eq, Structural)]
pub struct Attributes {
    pub gate_type: GateType,
    pub privilege_level: PrivilegeLevel,
    pub present: bool,
}

impl Attributes {
    pub open spec fn spec_new() -> Attributes {
        Attributes {
            gate_type: GateType::Interrupt,
            privilege_level: PrivilegeLevel::Ring0,
            present: true,
        }
    }

    /// A present ring-0 interrupt gate.
    pub fn new() -> (r: Attributes)
        ensures
            r == Attributes::spec_new(),
    {
        Attributes {
            gate_type: GateType::Interrupt,
            privilege_level: PrivilegeLevel::Ring0,
            present: true,
        }
    }
}

/// Mask of the present flag in the attribute byte.
pub const PRESENT_MASK: u8 = 0x80;

/// Mask of the privilege level in the attribute byte.
pub const PRIVILEGE_MASK: u8 = 0x60;

/// Mask of the type field in the attribute byte.
pub const GATE_TYPE_MASK: u8 = 0x0F;

/// The attribute byte of a gate.
pub open spec fn attribute_byte(present: bool, privilege: u8, gate_type: u8) -> u8 {
    (if present { 0x80u8 } else { 0u8 }) | ((privilege << 5u8) as u8) | gate_type
}

/// The present flag that an attribute byte holds.
pub open spec fn attr_present(a: u8) -> bool {
    a & 0x80 != 0
}

/// The privilege level that an attribute byte holds.
pub open spec fn attr_privilege(a: u8) -> u8 {
    (a >> 5u8) & 3
}

/// The type field that an attribute byte holds.
pub open spec fn attr_gate_type(a: u8) -> u8 {
    a & 0xF
}

/// One gate descriptor, field by field in the hardware's order.
#[derive(Debug, Clone, Copy, PartialEq, Eq, Structural)]
pub struct Entry {
    pub address_low: u16,
    pub selector: u16,
    pub ist: u8,
    pub attributes: u8,
    pub address_middle: u16,
    pub address_high: u32,
    pub reserved: u32,
}

/// The entry point address that the three address fields reassemble.
pub open spec fn join_address(low: u16, middle: u16, high: u32) -> u64 {
    (low as u64) | ((middle as u64) << 16u64) | ((high as u64) << 32u64)
}

/// A descriptor for the given fields; all reserved bits are zero.
pub open spec fn encode_spec(
    selector: u16,
    address: u64,
    ist: u8,
    gate_type: GateType,
    privilege: PrivilegeLevel,
    present: bool,
) -> Entry {
    Entry {
        address_low: address as u16,
        selector,
        ist,
        attributes: attribute_byte(present, privilege.spec_value(), gate_type.spec_value()),
        address_middle: (address >> 16u64) as u16,
        address_high: (address >> 32u64) as u32,
        reserved: 0,
    }
}

/// The unused descriptor: every field zero, not present.
pub open spec fn empty_entry() -> Entry {
    Entry {
        address_low: 0,
        selector: 0,
        ist: 0,
        attributes: 0,
        address_middle: 0,
        address_high: 0,
        reserved: 0,
    }
}

/// Two little-endian bytes.
pub open spec fn le16(v: u16) -> Seq<u8> {
    seq![v as u8, (v >> 8u16) as u8]
}

/// Four little-endian bytes.
pub open spec fn le32(v: u32) -> Seq<u8> {
    seq![v as u8, (v >> 8u32) as u8, (v >> 16u32) as u8, (v >> 24u32) as u8]
}

/// The 16 bytes of a descriptor as the processor reads them.
pub open spec fn entry_bytes(e: Entry) -> Seq<u8> {
    le16(e.address_low) + le16(e.selector) + seq![e.ist, e.attributes] + le16(e.address_middle)
        + le32(e.address_high) + le32(e.reserved)
}

/// The bytes of a sequence of descriptors, one after the other.
pub open spec fn table_bytes(entries: Seq<Entry>) -> Seq<u8>
    decreases entries.len(),
{
    if entries.len() == 0 {
        Seq::empty()
    } else {
        table_bytes(entries.drop_last()) + entry_bytes(entries.last())
    }
}

proof fn lemma_split_join(address: u64)
    ensures
        join_address(address as u16, (address >> 16u64) as u16, (address >> 32u64) as u32)
            == address,
{
    assert(((address as u16) as u64) | ((((address >> 16u64) as u16) as u64) << 16u64) | ((((
    address >> 32u64) as u32) as u64) << 32u64) == address) by (bit_vector);
}

/// Reassembling the three address fields of an encoded descriptor yields the
/// handler address it was encoded from, whatever the other fields are.
pub proof fn lemma_encode_round_trip(
    selector: u16,
    address: u64,
    ist: u8,
    gate_type: GateType,
    privilege: PrivilegeLevel,
    present: bool,
)
    ensures
        ({
            let e = encode_spec(selector, address, ist, gate_type, privilege, present);
            &&& join_address(e.address_low, e.address_middle, e.address_high) == address
            &&& e.selector == selector
            &&& e.ist == ist
            &&& attr_present(e.attributes) == present
            &&& attr_privilege(e.attributes) == privilege.spec_value()
            &&& attr_gate_type(e.attributes) == gate_type.spec_value()
        }),
{
    lemma_split_join(address);
    lemma_attribute_packing(present, privilege, gate_type);
}

proof fn lemma_attribute_fields(present: bool, p: u8, g: u8)
    requires
        p <= 3,
        g <= 15,
    ensures
        attr_present(attribute_byte(present, p, g)) == present,
        attr_privilege(attribute_byte(present, p, g)) == p,
        attr_gate_type(attribute_byte(present, p, g)) == g,
        attribute_byte(present, p, g) & 0x10 == 0,
{
    let x: u8 = if present { 0x80u8 } else { 0u8 };
    assert(x == 0x80 || x == 0);
    assert((x | ((p << 5u8) as u8) | g) & 0x80 != 0 <==> x == 0x80) by (bit_vector)
        requires
            x == 0x80 || x == 0,
            p <= 3,
            g <= 15,
    ;
    assert(((x | ((p << 5u8) as u8) | g) >> 5u8) & 3 == p) by (bit_vector)
        requires
            x == 0x80 || x == 0,
            p <= 3,
            g <= 15,
    ;
    assert((x | ((p << 5u8) as u8) | g) & 0xF == g) by (bit_vector)
        requires
            x == 0x80 || x == 0,
            p <= 3,
            g <= 15,
    ;
    assert((x | ((p << 5u8) as u8) | g) & 0x10 == 0) by (bit_vector)
        requires
            x == 0x80 || x == 0,
            p <= 3,
            g <= 15,
    ;
}

/// Each field of a packed attribute byte reads back independently: the
/// present flag, the privilege level and the type field each depend on their
/// own input alone, so changing one leaves the others as they were.
pub proof fn lemma_attribute_packing(present: bool, privilege: PrivilegeLevel, gate_type: GateType)
    ensures
        attr_present(attribute_byte(present, privilege.spec_value(), gate_type.spec_value()))
            == present,
        attr_privilege(attribute_byte(present, privilege.spec_value(), gate_type.spec_value()))
            == privilege.spec_value(),
        attr_gate_type(attribute_byte(present, privilege.spec_value(), gate_type.spec_value()))
            == gate_type.spec_value(),
        attribute_byte(present, privilege.spec_value(), gate_type.spec_value()) & 0x10 == 0,
{
    lemma_attribute_fields(present, privilege.spec_value(), gate_type.spec_value());
}

impl Entry {
    /// The handler address held by the three address fields.
    pub open spec fn spec_address(&self) -> u64 {
        join_address(self.address_low, self.address_middle, self.address_high)
    }

    /// A zeroed, not-present descriptor.
    pub fn new() -> (r: Entry)
        ensures
            r == empty_entry(),
    {
        Entry {
            address_low: 0,
            selector: 0,
            ist: 0,
            attributes: 0,
            address_middle: 0,
            address_high: 0,
            reserved: 0,
        }
    }

    /// Encodes a descriptor: the address split across its three fields and
    /// the attributes packed into one byte, with all reserved bits zero.
    pub fn encode(
        selector: u16,
        address: u64,
        ist: u8,
        gate_type: GateType,
        privilege: PrivilegeLevel,
        present: bool,
    ) -> (r: Entry)
        requires
            ist < 8,
        ensures
            r == encode_spec(selector, address, ist, gate_type, privilege, present),
            r.spec_address() == address,
    {
        let mut e = Entry::new();
        e.set_handler(selector, address);
        e.set_attributes(Attributes { gate_type, privilege_level: privilege, present });
        e.set_interrupt_stack_table(ist);
        proof {
            lemma_split_join(address);
            assert((0u8 & 0xF8u8) | (ist & 7) == ist) by (bit_vector)
                requires
                    ist < 8,
            ;
        }
        e
    }

    /// The handler address held by the descriptor.
    pub fn address(&self) -> (r: u64)
        ensures
            r == self.spec_address(),
    {
        (self.address_low as u64) | ((self.address_middle as u64) << 16u64) | ((
        self.address_high as u64) << 32u64)
    }

    /// Writes the low 3 bits of `ist` into the low 3 bits of the stack-table
    /// field, leaving its other bits.
    pub fn set_interrupt_stack_table(&mut self, ist: u8)
        ensures
            *final(self) == (Entry { ist: (old(self).ist & 0xF8) | (ist & 7), ..*old(self) }),
            final(self).ist & 7 == ist & 7,
            final(self).ist & 0xF8 == old(self).ist & 0xF8,
    {
        let old_ist = self.ist;
        self.ist = (self.ist & 0xF8) | (ist & 7);
        proof {
            assert(((old_ist & 0xF8) | (ist & 7)) & 7 == ist & 7) by (bit_vector);
            assert(((old_ist & 0xF8) | (ist & 7)) & 0xF8 == old_ist & 0xF8) by (bit_vector);
        }
    }

    /// Sets the code selector and splits the handler address across the three
    /// address fields.
    pub fn set_handler(&mut self, selector: u16, handler: u64)
        ensures
            *final(self) == (Entry {
                selector,
                address_low: handler as u16,
                address_middle: (handler >> 16u64) as u16,
                address_high: (handler >> 32u64) as u32,
                ..*old(self)
            }),
            final(self).spec_address() == handler,
    {
        let ptr = handler;
        self.selector = selector;
        self.address_low = ptr as u16;
        self.address_middle = (ptr >> 16u64) as u16;
        self.address_high = (ptr >> 32u64) as u32;
        proof {
            lemma_split_join(handler);
        }
    }

    /// Packs the attributes into the attribute byte: present flag in bit 7,
    /// privilege level in bits 5-6, type in bits 0-3, every other bit zero.
    pub fn set_attributes(&mut self, attr: Attributes)
        ensures
            *final(self) == (Entry {
                attributes: attribute_byte(
                    attr.present,
                    attr.privilege_level.spec_value(),
                    attr.gate_type.spec_value(),
                ),
                ..*old(self)
            }),
    {
        let present: u8 = if attr.present { 0x80 } else { 0 };
        let p = attr.privilege_level.value();
        let g = attr.gate_type.value();
        self.attributes = present | (p << 5u8) | g;
        proof {
            assert((p << 5u8) == ((p << 5u8) as u8));
        }
    }

    /// The 16 bytes of the descriptor, in the order the processor reads them.
    pub fn to_bytes(&self) -> (r: Vec<u8>)
        ensures
            r@ == entry_bytes(*self),
    {
        let mut out: Vec<u8> = Vec::new();
        push_le16(&mut out, self.address_low);
        push_le16(&mut out, self.selector);
        out.push(self.ist);
        out.push(self.attributes);
        push_le16(&mut out, self.address_middle);
        push_le32(&mut out, self.address_high);
        push_le32(&mut out, self.reserved);
        proof {
            assert(out@ =~= entry_bytes(*self));
        }
        out
    }
}

fn push_le16(out: &mut Vec<u8>, v: u16)
    ensures
        final(out)@ == old(out)@ + le16(v),
{
    out.push(v as u8);
    out.push((v >> 8u16) as u8);
    proof {
        assert(final(out)@ =~= old(out)@ + le16(v));
    }
}

fn push_le32(out: &mut Vec<u8>, v: u32)
    ensures
        final(out)@ == old(out)@ + le32(v),
{
    out.push(v as u8);
    out.push((v >> 8u32) as u8);
    out.push((v >> 16u32) as u8);
    out.push((v >> 24u32) as u8);
    proof {
        assert(final(out)@ =~= old(out)@ + le32(v));
    }
}

/// The interrupt descriptor table: one gate descriptor per exception vector.
pub struct InterruptDescriptorTable {
    entries: [Entry; IDT_ENTRIES],
}

impl View for InterruptDescriptorTable {
    type V = Seq<Entry>;

    closed spec fn view(&self) -> Seq<Entry> {
        self.entries@
    }
}

/// The descriptor with only its gate type replaced.
pub open spec fn with_gate_type(e: Entry, gate_type: GateType) -> Entry {
    Entry { attributes: (e.attributes & 0xF0) | gate_type.spec_value(), ..e }
}

/// The descriptor with only its present flag replaced.
pub open spec fn with_present(e: Entry, present: bool) -> Entry {
    Entry { attributes: (e.attributes & 0x7F) | (if present { 0x80u8 } else { 0u8 }), ..e }
}

/// The descriptor that registration writes: a present ring-0 interrupt gate
/// on the current stack.
pub open spec fn registered_entry(selector: u16, handler: u64) -> Entry {
    encode_spec(selector, handler, 0, GateType::Interrupt, PrivilegeLevel::Ring0, true)
}

/// The table-pointer limit: the table's size in bytes minus one.
pub open spec fn table_limit() -> int {
    IDT_ENTRIES * ENTRY_SIZE - 1
}

/// Relies on `x86_64::instructions::segmentation::CS::get_reg`, which reads
/// the code-segment register; its value depends on the machine alone.
#[verifier::external_body]
pub(crate) fn current_code_selector() -> (r: u16) {
    <x86_64::instructions::segmentation::CS as x86_64::instructions::segmentation::Segment>::get_reg().0
}

impl InterruptDescriptorTable {
    /// Every table has exactly `IDT_ENTRIES` slots.
    pub proof fn lemma_len(&self)
        ensures
            self@.len() == IDT_ENTRIES,
    {
    }

    /// A table whose every slot is the zeroed, not-present descriptor.
    pub fn new() -> (r: InterruptDescriptorTable)
        ensures
            r@ == Seq::new(IDT_ENTRIES as nat, |i: int| empty_entry()),
    {
        let r = InterruptDescriptorTable { entries: [Entry::new(); IDT_ENTRIES] };
        proof {
            assert(r@ =~= Seq::new(IDT_ENTRIES as nat, |i: int| empty_entry()));
        }
        r
    }

    /// The descriptor in slot `entry`.
    pub fn entry(&self, entry: usize) -> (r: Entry)
        requires
            entry < IDT_ENTRIES,
        ensures
            self@.len() == IDT_ENTRIES,
            r == self@[entry as int],
    {
        self.entries[entry]
    }

    /// The table-pointer limit of a table of `IDT_ENTRIES` descriptors.
    pub fn limit() -> (r: u16)
        ensures
            r as int == table_limit(),
    {
        (IDT_ENTRIES * ENTRY_SIZE - 1) as u16
    }

    /// The operand of the table-load instruction for this table placed at
    /// `base_addr`. The table must stay at that address for as long as it is
    /// loaded.
    pub fn pointer(base_addr: u64) -> (r: InterruptPointer)
        ensures
            r.limit as int == table_limit(),
            r.base_addr == base_addr,
    {
        InterruptPointer { limit: Self::limit(), base_addr }
    }

    /// Turns slot `entry` into a trap gate, leaving every other bit as it was.
    pub fn disable_interrupts(&mut self, entry: usize)
        requires
            entry < IDT_ENTRIES,
        ensures
            final(self)@.len() == IDT_ENTRIES,
            final(self)@ == old(self)@.update(
                entry as int,
                with_gate_type(old(self)@[entry as int], GateType::Trap),
            ),
            final(self)@[entry as int].attributes & 0xF0 == old(self)@[entry as int].attributes
                & 0xF0,
            attr_gate_type(final(self)@[entry as int].attributes) == GateType::Trap.spec_value(),
    {
        self.set_gate_type(entry, GateType::Trap);
    }

    /// Turns slot `entry` into an interrupt gate, leaving every other bit as
    /// it was.
    pub fn enable_interrupts(&mut self, entry: usize)
        requires
            entry < IDT_ENTRIES,
        ensures
            final(self)@.len() == IDT_ENTRIES,
            final(self)@ == old(self)@.update(
                entry as int,
                with_gate_type(old(self)@[entry as int], GateType::Interrupt),
            ),
            final(self)@[entry as int].attributes & 0xF0 == old(self)@[entry as int].attributes
                & 0xF0,
            attr_gate_type(final(self)@[entry as int].attributes)
                == GateType::Interrupt.spec_value(),
    {
        self.set_gate_type(entry, GateType::Interrupt);
    }

    fn set_gate_type(&mut self, entry: usize, gate_type: GateType)
        requires
            entry < IDT_ENTRIES,
        ensures
            final(self)@.len() == IDT_ENTRIES,
            final(self)@ == old(self)@.update(
                entry as int,
                with_gate_type(old(self)@[entry as int], gate_type),
            ),
            final(self)@[entry as int].attributes & 0xF0 == old(self)@[entry as int].attributes
                & 0xF0,
            attr_gate_type(final(self)@[entry as int].attributes) == gate_type.spec_value(),
    {
        let mut e = self.entries[entry];
        let a = e.attributes;
        let g = gate_type.value();
        e.attributes = (a & 0xF0) | g;
        self.entries[entry] = e;
        proof {
            assert(((a & 0xF0) | g) & 0xF0 == a & 0xF0) by (bit_vector)
                requires
                    g == 0xE || g == 0xF,
            ;
            assert(((a & 0xF0) | g) & 0xF == g) by (bit_vector)
                requires
                    g == 0xE || g == 0xF,
            ;
            assert(self@ =~= old(self)@.update(entry as int, with_gate_type(old(self)@[entry as int], gate_type)));
        }
    }

    /// Writes a present ring-0 interrupt gate for `handler` into slot
    /// `entry`, with the code selector given and the current stack.
    pub fn register_handler_with_selector(&mut self, entry: usize, selector: u16, handler: u64)
        requires
            entry < IDT_ENTRIES,
        ensures
            final(self)@.len() == IDT_ENTRIES,
            final(self)@ == old(self)@.update(entry as int, registered_entry(selector, handler)),
    {
        let attr = Attributes::new();
        let e = Entry::encode(selector, handler, 0, attr.gate_type, attr.privilege_level, attr.present);
        self.entries[entry] = e;
        proof {
            assert(self@ =~= old(self)@.update(entry as int, registered_entry(selector, handler)));
        }
    }

    /// Writes a present ring-0 interrupt gate for `handler` into slot
    /// `entry`, with the code selector that the processor runs under now.
    pub fn register_handler(&mut self, entry: usize, handler: u64)
        requires
            entry < IDT_ENTRIES,
        ensures
            final(self)@.len() == IDT_ENTRIES,
            exists|selector: u16|
                final(self)@ == old(self)@.update(entry as int, registered_entry(selector, handler)),
    {
        let selector = current_code_selector();
        self.register_handler_with_selector(entry, selector, handler);
    }

    /// Sets or clears the present flag of slot `entry`, leaving every other
    /// bit as it was.
    pub fn set_presentation(&mut self, entry: u8, value: bool)
        requires
            entry < IDT_ENTRIES,
        ensures
            final(self)@.len() == IDT_ENTRIES,
            final(self)@ == old(self)@.update(
                entry as int,
                with_present(old(self)@[entry as int], value),
            ),
            final(self)@[entry as int].attributes & 0x7F == old(self)@[entry as int].attributes
                & 0x7F,
            attr_present(final(self)@[entry as int].attributes) == value,
    {
        let i = entry as usize;
        let mut e = self.entries[i];
        let a = e.attributes;
        let bit: u8 = if value { 0x80 } else { 0 };
        e.attributes = (a & 0x7F) | bit;
        self.entries[i] = e;
        proof {
            assert(((a & 0x7F) | bit) & 0x7F == a & 0x7F) by (bit_vector)
                requires
                    bit == 0x80 || bit == 0,
            ;
            assert((((a & 0x7F) | bit) & 0x80 != 0) == (bit == 0x80)) by (bit_vector)
                requires
                    bit == 0x80 || bit == 0,
            ;
            assert(self@ =~= old(self)@.update(entry as int, with_present(old(self)@[entry as int], value)));
        }
    }

    /// The 16 bytes of slot `entry`.
    pub fn entry_bytes(&self, entry: usize) -> (r: Vec<u8>)
        requires
            entry < IDT_ENTRIES,
        ensures
            r@ == entry_bytes(self@[entry as int]),
    {
        self.entries[entry].to_bytes()
    }

    /// The whole table as the processor reads it: every descriptor's bytes in
    /// slot order.
    pub fn to_bytes(&self) -> (r: Vec<u8>)
        ensures
            r@ == table_bytes(self@),
    {
        let mut out: Vec<u8> = Vec::new();
        let mut i: usize = 0;
        while i < IDT_ENTRIES
            invariant
                i <= IDT_ENTRIES,
                self@.len() == IDT_ENTRIES,
                out@ == table_bytes(self@.take(i as int)),
            decreases IDT_ENTRIES - i,
        {
            let b = self.entries[i].to_bytes();
            let mut j: usize = 0;
            let ghost before = out@;
            while j < b.len()
                invariant
                    j <= b@.len(),
                    out@ == before + b@.take(j as int),
                decreases b@.len() - j,
            {
                out.push(b[j]);
                j = j + 1;
                proof {
                    assert(out@ =~= before + b@.take(j as int));
                }
            }
            proof {
                assert(self@.take(i + 1).drop_last() =~= self@.take(i as int));
                assert(b@.take(j as int) =~= b@);
            }
            i = i + 1;
        }
        proof {
            assert(self@.take(IDT_ENTRIES as int) =~= self@);
        }
        out
    }
}

} // verus!
