//! Interrupt gate descriptors and the 256-vector interrupt descriptor table.

use vstd::prelude::*;
use vstd::string::StringSliceAdditionalSpecFns;
use crate::gdt::{descriptor_pointer, DescriptorPointer};
use crate::vga::{printc_effect, Color, Writer};

verus! {

pub const IDT_ENTRIES: usize = 256;

/// Size of the table in bytes.
pub const IDT_BYTES: usize = 2048;

/// Selector of the kernel code segment.
pub const KERNEL_CODE_SELECTOR: u16 = 0x08;

/// Present, ring 0, 32-bit interrupt gate.
pub const INTERRUPT_GATE: u8 = 0x8E;

pub const VEC_DIVIDE_BY_ZERO: usize = 0;

pub const VEC_INVALID_OPCODE: usize = 6;

pub const VEC_DOUBLE_FAULT: usize = 8;

pub const VEC_GENERAL_PROTECTION: usize = 13;

pub const VEC_PAGE_FAULT: usize = 14;

/// Keyboard line (IRQ1) after the controller remap.
pub const VEC_KEYBOARD: usize = 33;

/// One 8-byte interrupt gate descriptor.
#[derive(Clone, Copy, Debug, PartialEq, Eq, Structural)]
pub struct IdtEntry {
    pub offset_low: u16,
    pub selector: u16,
    pub zero: u8,
    pub type_attr: u8,
    pub offset_high: u16,
}

pub open spec fn empty_gate() -> IdtEntry {
    IdtEntry { offset_low: 0, selector: 0, zero: 0, type_attr: 0, offset_high: 0 }
}

/// Kernel interrupt gate to the handler at `address`.
pub open spec fn gate(address: u32) -> IdtEntry {
    IdtEntry {
        offset_low: (address & 0xFFFF) as u16,
        selector: KERNEL_CODE_SELECTOR,
        zero: 0,
        type_attr: INTERRUPT_GATE,
        offset_high: ((address >> 16u32) & 0xFFFF) as u16,
    }
}

/// Handler address held by a gate.
pub open spec fn gate_address(e: IdtEntry) -> u32 {
    (e.offset_low as u32) | ((e.offset_high as u32) << 16u32)
}

impl IdtEntry {
    /// A gate that is not present.
    pub fn new() -> (r: IdtEntry)
        ensures
            r == empty_gate(),
    {
        IdtEntry { offset_low: 0, selector: 0, zero: 0, type_attr: 0, offset_high: 0 }
    }

    /// Makes this a kernel interrupt gate to the handler at `address`.
    pub fn set_handler(&mut self, address: u32)
        ensures
            *final(self) == gate(address),
    {
        self.offset_low = (address & 0xFFFF) as u16;
        self.offset_high = ((address >> 16u32) & 0xFFFF) as u16;
        self.selector = KERNEL_CODE_SELECTOR;
        self.zero = 0;
        self.type_attr = INTERRUPT_GATE;
    }

    /// Handler address of this descriptor.
    pub fn address(&self) -> (r: u32)
        ensures
            r == gate_address(*self),
    {
        (self.offset_low as u32) | ((self.offset_high as u32) << 16u32)
    }
}

/// A gate gives back the handler address it was made with.
pub proof fn lemma_gate_address(address: u32)
    ensures
        gate_address(gate(address)) == address,
{
    assert((((address & 0xFFFF) as u16) as u32) | (((((address >> 16u32) & 0xFFFF) as u16) as u32)
        << 16u32) == address) by (bit_vector);
}

/// Entry addresses of the handler stubs.
#[derive(Clone, Copy, Debug, PartialEq, Eq, Structural)]
pub struct Handlers {
    pub divide_by_zero: u32,
    pub invalid_opcode: u32,
    pub double_fault: u32,
    pub general_protection_fault: u32,
    pub page_fault: u32,
    pub keyboard: u32,
    pub default: u32,
}

impl Handlers {
    pub open spec fn all_non_null(self) -> bool {
        &&& self.divide_by_zero != 0
        &&& self.invalid_opcode != 0
        &&& self.double_fault != 0
        &&& self.general_protection_fault != 0
        &&& self.page_fault != 0
        &&& self.keyboard != 0
        &&& self.default != 0
    }
}

/// The handler that vector `v` is routed to.
pub open spec fn handler_for(v: int, h: Handlers) -> u32 {
    if v == VEC_DIVIDE_BY_ZERO {
        h.divide_by_zero
    } else if v == VEC_INVALID_OPCODE {
        h.invalid_opcode
    } else if v == VEC_DOUBLE_FAULT {
        h.double_fault
    } else if v == VEC_GENERAL_PROTECTION {
        h.general_protection_fault
    } else if v == VEC_PAGE_FAULT {
        h.page_fault
    } else if v == VEC_KEYBOARD {
        h.keyboard
    } else {
        h.default
    }
}

/// The table after initialization: every vector has a gate to its handler.
pub open spec fn initialized_table(h: Handlers) -> Seq<IdtEntry> {
    Seq::new(IDT_ENTRIES as nat, |v: int| gate(handler_for(v, h)))
}

/// The interrupt descriptor table.
pub struct Idt {
    entries: Vec<IdtEntry>,
}

impl View for Idt {
    type V = Seq<IdtEntry>;

    closed spec fn view(&self) -> Seq<IdtEntry> {
        self.entries@
    }
}

impl Idt {
    /// A table of 256 gates, none present.
    pub fn new() -> (r: Idt)
        ensures
            r@ == Seq::new(IDT_ENTRIES as nat, |v: int| empty_gate()),
    {
        let mut entries: Vec<IdtEntry> = Vec::new();
        let mut i: usize = 0;
        while i < IDT_ENTRIES
            invariant
                i <= IDT_ENTRIES,
                entries@ == Seq::new(i as nat, |v: int| empty_gate()),
            decreases IDT_ENTRIES - i,
        {
            entries.push(IdtEntry::new());
            i = i + 1;
            assert(entries@ =~= Seq::new(i as nat, |v: int| empty_gate()));
        }
        Idt { entries }
    }

    pub fn entry(&self, v: usize) -> (r: IdtEntry)
        requires
            v < self@.len(),
        ensures
            r == self@[v as int],
    {
        self.entries[v]
    }

    /// Installs a gate to `address` at vector `v`.
    pub fn set_handler(&mut self, v: usize, address: u32)
        requires
            v < old(self)@.len(),
        ensures
            final(self)@ == old(self)@.update(v as int, gate(address)),
    {
        let mut e = self.entries[v];
        e.set_handler(address);
        self.entries.set(v, e);
    }

    /// The table as the CPU reads it.
    pub fn to_bytes(&self) -> (r: Vec<u8>)
        ensures
            r@.len() == self@.len() * 8,
            forall|v: int, j: int|
                0 <= v < self@.len() && 0 <= j < 8 ==> r@[v * 8 + j] == #[trigger] gate_bytes(
                    self@[v],
                )[j],
    {
        let mut r: Vec<u8> = Vec::new();
        let mut i: usize = 0;
        while i < self.entries.len()
            invariant
                i <= self@.len(),
                r@.len() == i * 8,
                forall|k: int, j: int|
                    0 <= k < i && 0 <= j < 8 ==> r@[k * 8 + j] == #[trigger] gate_bytes(
                        self@[k],
                    )[j],
            decreases self@.len() - i,
        {
            let e = self.entries[i];
            let b: [u8; 8] = [
                (e.offset_low & 0xFF) as u8,
                (e.offset_low >> 8u16) as u8,
                (e.selector & 0xFF) as u8,
                (e.selector >> 8u16) as u8,
                e.zero,
                e.type_attr,
                (e.offset_high & 0xFF) as u8,
                (e.offset_high >> 8u16) as u8,
            ];
            assert(b@ =~= gate_bytes(self@[i as int]));
            let ghost prev = r@;
            let mut j: usize = 0;
            while j < 8
                invariant
                    j <= 8,
                    i < self@.len(),
                    b@ == gate_bytes(self@[i as int]),
                    r@.len() == i * 8 + j,
                    forall|k: int| 0 <= k < i * 8 ==> r@[k] == prev[k],
                    forall|jj: int| 0 <= jj < j ==> r@[i * 8 + jj] == b@[jj],
                decreases 8 - j,
            {
                r.push(b[j]);
                j = j + 1;
            }
            assert forall|k: int, jj: int| 0 <= k < i + 1 && 0 <= jj < 8 implies r@[k * 8 + jj]
                == #[trigger] gate_bytes(self@[k])[jj] by {
                if k < i {
                    assert(r@[k * 8 + jj] == prev[k * 8 + jj]);
                    assert(k * 8 + jj < i * 8) by (nonlinear_arith)
                        requires
                            k < i,
                            jj < 8,
                    ;
                }
            }
            i = i + 1;
        }
        r
    }
}

/// The 8 bytes of a gate in memory order (multi-byte fields little-endian).
pub open spec fn gate_bytes(e: IdtEntry) -> Seq<u8> {
    seq![
        (e.offset_low & 0xFF) as u8,
        (e.offset_low >> 8u16) as u8,
        (e.selector & 0xFF) as u8,
        (e.selector >> 8u16) as u8,
        e.zero,
        e.type_attr,
        (e.offset_high & 0xFF) as u8,
        (e.offset_high >> 8u16) as u8,
    ]
}

/// Fills every vector of `idt`: the five fault vectors and the keyboard
/// vector get their own handlers, every other vector the default one.
pub fn populate(idt: &mut Idt, h: &Handlers)
    requires
        old(idt)@.len() == IDT_ENTRIES,
    ensures
        final(idt)@ == initialized_table(*h),
{
    idt.set_handler(VEC_DIVIDE_BY_ZERO, h.divide_by_zero);
    idt.set_handler(VEC_INVALID_OPCODE, h.invalid_opcode);
    idt.set_handler(VEC_DOUBLE_FAULT, h.double_fault);
    idt.set_handler(VEC_GENERAL_PROTECTION, h.general_protection_fault);
    idt.set_handler(VEC_PAGE_FAULT, h.page_fault);
    let mut i: usize = 1;
    while i < IDT_ENTRIES
        invariant
            1 <= i <= IDT_ENTRIES,
            idt@.len() == IDT_ENTRIES,
            forall|v: int|
                0 <= v < i && v != VEC_KEYBOARD ==> #[trigger] idt@[v] == gate(handler_for(v, *h)),
            forall|v: int|
                i <= v < IDT_ENTRIES && (v == VEC_INVALID_OPCODE || v == VEC_DOUBLE_FAULT || v
                    == VEC_GENERAL_PROTECTION || v == VEC_PAGE_FAULT) ==> #[trigger] idt@[v]
                    == gate(handler_for(v, *h)),
        decreases IDT_ENTRIES - i,
    {
        if i != VEC_INVALID_OPCODE && i != VEC_DOUBLE_FAULT && i != VEC_GENERAL_PROTECTION && i
            != VEC_PAGE_FAULT && i != VEC_KEYBOARD {
            idt.set_handler(i, h.default);
        }
        i = i + 1;
    }
    idt.set_handler(VEC_KEYBOARD, h.keyboard);
    assert(idt@ =~= initialized_table(*h));
}

/// Every one of the 256 vectors holds a present kernel interrupt gate with
/// a non-null handler address.
pub open spec fn fully_populated(t: Seq<IdtEntry>) -> bool {
    &&& t.len() == IDT_ENTRIES
    &&& forall|v: int|
        0 <= v < IDT_ENTRIES ==> {
            &&& gate_address(#[trigger] t[v]) != 0
            &&& t[v].type_attr == INTERRUPT_GATE
            &&& t[v].type_attr & 0x80 != 0
            &&& t[v].selector == KERNEL_CODE_SELECTOR
        }
}

/// Builds the table for handlers `h` (handler stubs are never at address
/// 0), reports it, and gives the operand that
/// loads it from `address`.
pub fn init(out: &mut Writer, h: &Handlers, address: u32) -> (r: (Idt, DescriptorPointer))
    requires
        old(out).wf(),
        h.all_non_null(),
    ensures
        final(out).wf(),
        r.0@ == initialized_table(*h),
        fully_populated(r.0@),
        r.1 == (DescriptorPointer { limit: (IDT_BYTES - 1) as u16, base: address }),
        final(out)@ == printc_effect(
            printc_effect(old(out)@, "[1/4] Initializing IDT...\n".spec_bytes(), Color::Yellow, Color::Black),
            "      IDT initialized!\n\n".spec_bytes(),
            Color::Green,
            Color::Black,
        ),
{
    out.printc("[1/4] Initializing IDT...\n", Color::Yellow, Color::Black);
    let mut idt = Idt::new();
    populate(&mut idt, h);
    let p = descriptor_pointer(IDT_BYTES as u16, address);
    out.printc("      IDT initialized!\n\n", Color::Green, Color::Black);
    proof {
        lemma_vector_completeness(*h);
    }
    (idt, p)
}

/// Once the table is initialized, every one of the 256 vectors holds a
/// present kernel interrupt gate with a non-null handler address, provided
/// the handler stubs themselves are non-null.
pub proof fn lemma_vector_completeness(h: Handlers)
    requires
        h.all_non_null(),
    ensures
        fully_populated(initialized_table(h)),
{
    assert(INTERRUPT_GATE & 0x80 != 0) by (bit_vector);
    assert forall|v: int| 0 <= v < IDT_ENTRIES implies {
        &&& gate_address(#[trigger] initialized_table(h)[v]) != 0
        &&& initialized_table(h)[v].type_attr == INTERRUPT_GATE
        &&& initialized_table(h)[v].selector == KERNEL_CODE_SELECTOR
    } by {
        lemma_gate_address(handler_for(v, h));
    }
}

/// The processor flags the core changes: interrupts enabled, and stopped
/// for good.
#[derive(Clone, Copy, Debug, PartialEq, Eq, Structural)]
pub struct Cpu {
    pub interrupts_enabled: bool,
    pub halted: bool,
}

impl Cpu {
    /// Power-on state: interrupts off, running.
    pub fn new() -> (r: Cpu)
        ensures
            r == (Cpu { interrupts_enabled: false, halted: false }),
    {
        Cpu { interrupts_enabled: false, halted: false }
    }

    /// Disables interrupts and stops.
    pub fn halt(&mut self)
        ensures
            *final(self) == (Cpu { interrupts_enabled: false, halted: true }),
    {
        self.interrupts_enabled = false;
        self.halted = true;
    }
}

/// Enables interrupts. Only a fully populated table may be in place when
/// interrupts come on, and a halted CPU stays halted.
pub fn enable_interrupts(cpu: &mut Cpu, idt: &Idt)
    requires
        fully_populated(idt@),
        !old(cpu).halted,
    ensures
        *final(cpu) == (Cpu { interrupts_enabled: true, halted: false }),
{
    cpu.interrupts_enabled = true;
}

} // verus!
