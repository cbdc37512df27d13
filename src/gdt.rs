//! Segment descriptors and the six-entry global descriptor table.

use vstd::prelude::*;
use vstd::string::StringSliceAdditionalSpecFns;
use crate::text::{digit, hex_digits, push_hex, push_str};
use crate::vga::{printc_effect, put_text, Color, Writer};

verus! {

/// One 8-byte segment descriptor, field by field as the CPU reads it.
#[derive(Clone, Copy, Debug, PartialEq, Eq, Structural)]
pub struct GdtEntry {
    pub limit_low: u16,
    pub base_low: u16,
    pub base_middle: u8,
    pub access: u8,
    pub granularity: u8,
    pub base_high: u8,
}

/// A descriptor encodes a 20-bit limit.
pub open spec fn valid_limit(limit: u32) -> bool {
    limit <= 0xFFFFF
}

pub open spec fn spec_entry(base: u32, limit: u32, access: u8, gran: u8) -> GdtEntry {
    GdtEntry {
        limit_low: (limit & 0xFFFF) as u16,
        base_low: (base & 0xFFFF) as u16,
        base_middle: ((base >> 16u32) & 0xFF) as u8,
        access,
        granularity: (((limit >> 16u32) & 0x0F) as u8) | (gran & 0xF0),
        base_high: ((base >> 24u32) & 0xFF) as u8,
    }
}

pub open spec fn null_entry() -> GdtEntry {
    GdtEntry { limit_low: 0, base_low: 0, base_middle: 0, access: 0, granularity: 0, base_high: 0 }
}

/// The 8 bytes of a descriptor in memory order (multi-byte fields little-endian).
pub open spec fn entry_bytes(e: GdtEntry) -> Seq<u8> {
    seq![
        (e.limit_low & 0xFF) as u8,
        (e.limit_low >> 8u16) as u8,
        (e.base_low & 0xFF) as u8,
        (e.base_low >> 8u16) as u8,
        e.base_middle,
        e.access,
        e.granularity,
        e.base_high,
    ]
}

/// Base address held by an encoded descriptor.
pub open spec fn bytes_base(b: Seq<u8>) -> u32 {
    (b[2] as u32) | ((b[3] as u32) << 8u32) | ((b[4] as u32) << 16u32) | ((b[7] as u32) << 24u32)
}

/// Limit held by an encoded descriptor.
pub open spec fn bytes_limit(b: Seq<u8>) -> u32 {
    (b[0] as u32) | ((b[1] as u32) << 8u32) | (((b[6] & 0x0F) as u32) << 16u32)
}

pub open spec fn spec_base(e: GdtEntry) -> u32 {
    (e.base_low as u32) | ((e.base_middle as u32) << 16u32) | ((e.base_high as u32) << 24u32)
}

pub open spec fn spec_limit(e: GdtEntry) -> u32 {
    (e.limit_low as u32) | (((e.granularity & 0x0F) as u32) << 16u32)
}

impl GdtEntry {
    /// The all-zero descriptor.
    pub fn null() -> (r: GdtEntry)
        ensures
            r == null_entry(),
    {
        GdtEntry { limit_low: 0, base_low: 0, base_middle: 0, access: 0, granularity: 0, base_high: 0 }
    }

    /// Encodes base, limit, access byte and granularity flags (high nibble of
    /// `gran`); the limit's bits 16-19 go into the low nibble of the
    /// granularity field.
    pub fn new(base: u32, limit: u32, access: u8, gran: u8) -> (r: GdtEntry)
        ensures
            r == spec_entry(base, limit, access, gran),
    {
        GdtEntry {
            limit_low: (limit & 0xFFFF) as u16,
            base_low: (base & 0xFFFF) as u16,
            base_middle: ((base >> 16u32) & 0xFF) as u8,
            access,
            granularity: (((limit >> 16u32) & 0x0F) as u8) | (gran & 0xF0),
            base_high: ((base >> 24u32) & 0xFF) as u8,
        }
    }

    /// The base address, reassembled from its three fields.
    pub fn base(&self) -> (r: u32)
        ensures
            r == spec_base(*self),
    {
        (self.base_low as u32) | ((self.base_middle as u32) << 16u32) | ((self.base_high as u32) << 24u32)
    }

    /// The 20-bit limit, reassembled from its two fields.
    pub fn limit(&self) -> (r: u32)
        ensures
            r == spec_limit(*self),
    {
        (self.limit_low as u32) | (((self.granularity & 0x0F) as u32) << 16u32)
    }

    /// The descriptor as the CPU reads it from memory.
    pub fn to_bytes(&self) -> (r: [u8; 8])
        ensures
            r@ == entry_bytes(*self),
    {
        let r = [
            (self.limit_low & 0xFF) as u8,
            (self.limit_low >> 8u16) as u8,
            (self.base_low & 0xFF) as u8,
            (self.base_low >> 8u16) as u8,
            self.base_middle,
            self.access,
            self.granularity,
            self.base_high,
        ];
        assert(r@ =~= entry_bytes(*self));
        r
    }
}

/// Decoding an encoded descriptor gives back its base and (20-bit) limit,
/// its access byte and the high nibble of its granularity flags.
pub proof fn lemma_descriptor_round_trip(base: u32, limit: u32, access: u8, gran: u8)
    requires
        valid_limit(limit),
    ensures
        bytes_base(entry_bytes(spec_entry(base, limit, access, gran))) == base,
        bytes_limit(entry_bytes(spec_entry(base, limit, access, gran))) == limit,
        entry_bytes(spec_entry(base, limit, access, gran))[5] == access,
        entry_bytes(spec_entry(base, limit, access, gran))[6] & 0xF0 == gran & 0xF0,
        spec_base(spec_entry(base, limit, access, gran)) == base,
        spec_limit(spec_entry(base, limit, access, gran)) == limit,
{
    let e = spec_entry(base, limit, access, gran);
    let b = entry_bytes(e);
    assert(bytes_base(b) == base) by {
        assert(((((base & 0xFFFF) as u16 & 0xFF) as u8) as u32) | (((((base & 0xFFFF) as u16
            >> 8u16) as u8) as u32) << 8u32) | (((((base >> 16u32) & 0xFF) as u8) as u32)
            << 16u32) | (((((base >> 24u32) & 0xFF) as u8) as u32) << 24u32) == base)
            by (bit_vector);
    }
    assert(bytes_limit(b) == limit) by {
        assert(((((limit & 0xFFFF) as u16 & 0xFF) as u8) as u32) | (((((limit & 0xFFFF) as u16
            >> 8u16) as u8) as u32) << 8u32) | (((((((limit >> 16u32) & 0x0F) as u8) | (gran
            & 0xF0)) & 0x0F) as u32) << 16u32) == limit) by (bit_vector)
            requires
                limit <= 0xFFFFF,
        ;
    }
    assert(b[6] & 0xF0 == gran & 0xF0) by {
        assert(((((limit >> 16u32) & 0x0F) as u8) | (gran & 0xF0)) & 0xF0 == gran & 0xF0)
            by (bit_vector);
    }
    assert(spec_base(e) == base) by {
        assert((((base & 0xFFFF) as u16) as u32) | (((((base >> 16u32) & 0xFF) as u8) as u32)
            << 16u32) | (((((base >> 24u32) & 0xFF) as u8) as u32) << 24u32) == base)
            by (bit_vector);
    }
    assert(spec_limit(e) == limit) by {
        assert((((limit & 0xFFFF) as u16) as u32) | (((((((limit >> 16u32) & 0x0F) as u8) | (
        gran & 0xF0)) & 0x0F) as u32) << 16u32) == limit) by (bit_vector)
            requires
                limit <= 0xFFFFF,
        ;
    }
}

pub const GDT_ENTRIES: usize = 6;

/// Size of the table in bytes.
pub const GDT_BYTES: usize = 48;

/// The six descriptors of the kernel: null, kernel code, kernel data, user
/// code, user data, and a null placeholder for the task-state segment.
pub open spec fn kernel_entries() -> Seq<GdtEntry> {
    seq![
        null_entry(),
        spec_entry(0, 0xFFFFF, 0x9A, 0xC0),
        spec_entry(0, 0xFFFFF, 0x92, 0xC0),
        spec_entry(0, 0xFFFFF, 0xFA, 0xC0),
        spec_entry(0, 0xFFFFF, 0xF2, 0xC0),
        null_entry(),
    ]
}

/// Pointer operand of the table-load instructions.
#[derive(Clone, Copy, Debug, PartialEq, Eq, Structural)]
pub struct DescriptorPointer {
    pub limit: u16,
    pub base: u32,
}

/// The global descriptor table.
pub struct Gdt {
    entries: [GdtEntry; 6],
}

impl View for Gdt {
    type V = Seq<GdtEntry>;

    closed spec fn view(&self) -> Seq<GdtEntry> {
        self.entries@
    }
}

/// Segment selector of table entry `index`.
pub fn selector(index: u16) -> (r: u16)
    requires
        index < GDT_ENTRIES,
    ensures
        r == index * 8,
{
    index * 8
}

impl Gdt {
    /// A table whose entry 0 is the null descriptor and whose entries 1 to 5
    /// encode the given (base, limit, access, granularity) tuples in order.
    pub fn build(entries: [(u32, u32, u8, u8); 5]) -> (r: Gdt)
        requires
            forall|i: int| 0 <= i < 5 ==> valid_limit(#[trigger] entries@[i].1),
        ensures
            r@.len() == GDT_ENTRIES,
            r@[0] == null_entry(),
            forall|i: int|
                1 <= i < GDT_ENTRIES ==> #[trigger] r@[i] == spec_entry(
                    entries@[i - 1].0,
                    entries@[i - 1].1,
                    entries@[i - 1].2,
                    entries@[i - 1].3,
                ),
    {
        let mut table = [GdtEntry::null(); 6];
        let mut i: usize = 0;
        while i < 5
            invariant
                i <= 5,
                table@.len() == GDT_ENTRIES,
                table@[0] == null_entry(),
                forall|k: int|
                    1 <= k <= i ==> #[trigger] table@[k] == spec_entry(
                        entries@[k - 1].0,
                        entries@[k - 1].1,
                        entries@[k - 1].2,
                        entries@[k - 1].3,
                    ),
            decreases 5 - i,
        {
            let (base, limit, access, gran) = entries[i];
            table[i + 1] = GdtEntry::new(base, limit, access, gran);
            i = i + 1;
        }
        Gdt { entries: table }
    }

    /// The kernel's table (see `kernel_entries`).
    pub fn new() -> (r: Gdt)
        ensures
            r@ == kernel_entries(),
    {
        let specs: [(u32, u32, u8, u8); 5] = [
            (0, 0xFFFFF, 0x9A, 0xC0),
            (0, 0xFFFFF, 0x92, 0xC0),
            (0, 0xFFFFF, 0xFA, 0xC0),
            (0, 0xFFFFF, 0xF2, 0xC0),
            (0, 0, 0, 0),
        ];
        let r = Gdt::build(specs);
        assert(spec_entry(0, 0, 0, 0) == null_entry()) by {
            assert((0u32 & 0xFFFF) as u16 == 0u16 && ((0u32 >> 16u32) & 0xFF) as u8 == 0u8 && (((
            (0u32 >> 16u32) & 0x0F) as u8) | (0u8 & 0xF0)) == 0u8 && ((0u32 >> 24u32) & 0xFF) as u8
                == 0u8) by (bit_vector);
        }
        assert(r@ =~= kernel_entries());
        r
    }

    pub fn entry(&self, i: usize) -> (r: GdtEntry)
        requires
            i < GDT_ENTRIES,
        ensures
            r == self@[i as int],
    {
        self.entries[i]
    }

    /// The table as the CPU reads it: the entries' bytes one after another.
    pub fn to_bytes(&self) -> (r: Vec<u8>)
        ensures
            r@.len() == GDT_BYTES,
            forall|i: int, j: int|
                0 <= i < GDT_ENTRIES && 0 <= j < 8 ==> r@[i * 8 + j] == #[trigger] entry_bytes(
                    self@[i],
                )[j],
    {
        let mut r: Vec<u8> = Vec::new();
        let mut i: usize = 0;
        while i < GDT_ENTRIES
            invariant
                i <= GDT_ENTRIES,
                self@.len() == GDT_ENTRIES,
                r@.len() == i * 8,
                forall|k: int, j: int|
                    0 <= k < i && 0 <= j < 8 ==> r@[k * 8 + j] == #[trigger] entry_bytes(
                        self@[k],
                    )[j],
            decreases GDT_ENTRIES - i,
        {
            let b = self.entries[i].to_bytes();
            let ghost prev = r@;
            let mut j: usize = 0;
            while j < 8
                invariant
                    j <= 8,
                    i < GDT_ENTRIES,
                    self@.len() == GDT_ENTRIES,
                    b@ == entry_bytes(self@[i as int]),
                    r@.len() == i * 8 + j,
                    forall|k: int| 0 <= k < i * 8 ==> r@[k] == prev[k],
                    forall|jj: int| 0 <= jj < j ==> r@[i * 8 + jj] == b@[jj],
                decreases 8 - j,
            {
                r.push(b[j]);
                j = j + 1;
            }
            assert forall|k: int, jj: int| 0 <= k < i + 1 && 0 <= jj < 8 implies r@[k * 8 + jj]
                == #[trigger] entry_bytes(self@[k])[jj] by {
                if k < i {
                    assert(r@[k * 8 + jj] == prev[k * 8 + jj]);
                    assert(k * 8 + jj < i * 8) by (nonlinear_arith)
                        requires
                            k < i,
                            jj < 8,
                    ;
                }
            }
            i = i + 1;
        }
        r
    }
}

/// Load operand for a table of `size` bytes at `address`.
pub fn descriptor_pointer(size: u16, address: u32) -> (r: DescriptorPointer)
    requires
        size >= 1,
    ensures
        r == (DescriptorPointer { limit: (size - 1) as u16, base: address }),
{
    DescriptorPointer { limit: size - 1, base: address }
}

/// Reports the table's setup and gives the operand that loads it from
/// `address`.
pub fn init(out: &mut Writer, address: u32) -> (r: DescriptorPointer)
    requires
        old(out).wf(),
    ensures
        final(out).wf(),
        r == (DescriptorPointer { limit: (GDT_BYTES - 1) as u16, base: address }),
        final(out)@ == printc_effect(
            printc_effect(old(out)@, "[3/4] Initializing GDT...\n".spec_bytes(), Color::Yellow, Color::Black),
            "      GDT loaded!\n\n".spec_bytes(),
            Color::Green,
            Color::Black,
        ),
{
    out.printc("[3/4] Initializing GDT...\n", Color::Yellow, Color::Black);
    let p = descriptor_pointer(GDT_BYTES as u16, address);
    out.printc("      GDT loaded!\n\n", Color::Green, Color::Black);
    p
}

/// Name of table entry `i` in reports.
pub open spec fn entry_name(i: int) -> Seq<u8> {
    if i == 0 {
        "Null Descriptor".spec_bytes()
    } else if i == 1 {
        "Kernel Code".spec_bytes()
    } else if i == 2 {
        "Kernel Data".spec_bytes()
    } else if i == 3 {
        "User Code".spec_bytes()
    } else if i == 4 {
        "User Data".spec_bytes()
    } else {
        "TSS".spec_bytes()
    }
}

fn push_entry_name(buf: &mut Vec<u8>, i: usize)
    ensures
        final(buf)@ == old(buf)@ + entry_name(i as int),
{
    if i == 0 {
        push_str(buf, "Null Descriptor");
    } else if i == 1 {
        push_str(buf, "Kernel Code");
    } else if i == 2 {
        push_str(buf, "Kernel Data");
    } else if i == 3 {
        push_str(buf, "User Code");
    } else if i == 4 {
        push_str(buf, "User Data");
    } else {
        push_str(buf, "TSS");
    }
}

/// One report line: a label, a hex value and a newline.
pub open spec fn field_line(label: Seq<u8>, value: u32, n: nat) -> Seq<u8> {
    label + hex_digits(value, n) + "\n".spec_bytes()
}

/// Title line of entry `i`: its index, name and selector offset.
pub open spec fn entry_title(i: int) -> Seq<u8> {
    "[".spec_bytes() + seq![digit(i as nat)] + "] ".spec_bytes() + entry_name(i)
        + " (offset 0x".spec_bytes() + hex_digits((i * 8) as u32, 2) + "):\n".spec_bytes()
}

/// Report lines of entry `i`: title, then the decoded fields.
pub open spec fn entry_report(i: int, e: GdtEntry) -> Seq<u8> {
    entry_title(i) + field_line("    Base:  0x".spec_bytes(), spec_base(e), 8) + field_line(
        "    Limit: 0x".spec_bytes(),
        spec_limit(e),
        5,
    ) + field_line("    Access: 0x".spec_bytes(), e.access as u32, 2) + field_line(
        "    Gran:   0x".spec_bytes(),
        e.granularity as u32,
        2,
    )
}

fn push_field_line(buf: &mut Vec<u8>, label: &str, value: u32, n: usize)
    requires
        1 <= n <= 8,
    ensures
        final(buf)@ == old(buf)@ + field_line(label.spec_bytes(), value, n as nat),
{
    push_str(buf, label);
    push_hex(buf, value, n);
    push_str(buf, "\n");
    assert(buf@ =~= old(buf)@ + field_line(label.spec_bytes(), value, n as nat));
}

fn push_entry_title(buf: &mut Vec<u8>, i: usize)
    requires
        i < GDT_ENTRIES,
    ensures
        final(buf)@ == old(buf)@ + entry_title(i as int),
{
    push_str(buf, "[");
    buf.push(0x30 + i as u8);
    push_str(buf, "] ");
    push_entry_name(buf, i);
    push_str(buf, " (offset 0x");
    push_hex(buf, (i * 8) as u32, 2);
    push_str(buf, "):\n");
    assert(buf@ =~= old(buf)@ + entry_title(i as int));
}

/// Report lines of the first `n` entries.
pub open spec fn entries_report(es: Seq<GdtEntry>, n: nat) -> Seq<u8>
    decreases n,
{
    if n == 0 {
        Seq::empty()
    } else {
        entries_report(es, (n - 1) as nat) + entry_report(n - 1, es[n - 1])
    }
}

/// The full table report for a table stored at `address`.
pub open spec fn gdt_report(es: Seq<GdtEntry>, address: u32) -> Seq<u8> {
    "=== Global Descriptor Table ===\n".spec_bytes() + "GDT Address: 0x".spec_bytes()
        + hex_digits(address, 8) + "\n".spec_bytes() + "GDT Size: 48 bytes\n".spec_bytes()
        + "\n".spec_bytes() + entries_report(es, GDT_ENTRIES as nat)
}

fn push_entry_report(buf: &mut Vec<u8>, i: usize, e: &GdtEntry)
    requires
        i < GDT_ENTRIES,
    ensures
        final(buf)@ == old(buf)@ + entry_report(i as int, *e),
{
    push_entry_title(buf, i);
    push_field_line(buf, "    Base:  0x", e.base(), 8);
    push_field_line(buf, "    Limit: 0x", e.limit(), 5);
    push_field_line(buf, "    Access: 0x", e.access as u32, 2);
    push_field_line(buf, "    Gran:   0x", e.granularity as u32, 2);
    assert(buf@ =~= old(buf)@ + entry_report(i as int, *e));
}

/// The table report as text.
pub fn gdt_report_text(gdt: &Gdt, address: u32) -> (r: Vec<u8>)
    ensures
        r@ == gdt_report(gdt@, address),
{
    let mut buf: Vec<u8> = Vec::new();
    push_str(&mut buf, "=== Global Descriptor Table ===\n");
    push_str(&mut buf, "GDT Address: 0x");
    push_hex(&mut buf, address, 8);
    push_str(&mut buf, "\n");
    push_str(&mut buf, "GDT Size: 48 bytes\n");
    push_str(&mut buf, "\n");
    let ghost head = buf@;
    let mut i: usize = 0;
    while i < GDT_ENTRIES
        invariant
            i <= GDT_ENTRIES,
            gdt@.len() == GDT_ENTRIES,
            buf@ == head + entries_report(gdt@, i as nat),
        decreases GDT_ENTRIES - i,
    {
        let e = gdt.entry(i);
        push_entry_report(&mut buf, i, &e);
        i = i + 1;
        assert(buf@ =~= head + entries_report(gdt@, i as nat));
    }
    assert(buf@ =~= gdt_report(gdt@, address));
    buf
}

/// Writes the table report for a table stored at `address`.
pub fn print_gdt(out: &mut Writer, gdt: &Gdt, address: u32)
    requires
        old(out).wf(),
    ensures
        final(out).wf(),
        final(out)@ == put_text(old(out)@, gdt_report(gdt@, address)),
{
    let text = gdt_report_text(gdt, address);
    out.write_text(text.as_slice());
}

/// Number of stack words shown by the stack report.
pub const STACK_WORDS: usize = 16;

/// Stack and base pointer and the words at the top of the stack, as read
/// from the CPU.
#[derive(Clone, Copy, Debug)]
pub struct StackSnapshot {
    pub esp: u32,
    pub ebp: u32,
    pub words: [u32; 16],
}

/// Address of stack word `i` (wrapping at 2^32).
pub open spec fn stack_word_address(esp: u32, i: int) -> u32 {
    ((esp as int + 4 * i) % 0x1_0000_0000) as u32
}

pub open spec fn stack_lines(s: StackSnapshot, n: nat) -> Seq<u8>
    decreases n,
{
    if n == 0 {
        Seq::empty()
    } else {
        stack_lines(s, (n - 1) as nat) + "  0x".spec_bytes() + hex_digits(
            stack_word_address(s.esp, n - 1),
            8,
        ) + ": 0x".spec_bytes() + hex_digits(s.words@[n - 1], 8) + "\n".spec_bytes()
    }
}

/// The stack report.
pub open spec fn stack_report(s: StackSnapshot) -> Seq<u8> {
    "=== Kernel Stack Information ===\n".spec_bytes() + "Stack Pointer (ESP): 0x".spec_bytes()
        + hex_digits(s.esp, 8) + "\n".spec_bytes() + "Base Pointer  (EBP): 0x".spec_bytes()
        + hex_digits(s.ebp, 8) + "\n".spec_bytes() + "\n".spec_bytes()
        + "Stack contents (top 16 dwords):\n".spec_bytes() + stack_lines(s, STACK_WORDS as nat)
        + "\n".spec_bytes()
}

/// The stack report as text.
pub fn stack_report_text(s: &StackSnapshot) -> (r: Vec<u8>)
    ensures
        r@ == stack_report(*s),
{
    let mut buf: Vec<u8> = Vec::new();
    push_str(&mut buf, "=== Kernel Stack Information ===\n");
    push_str(&mut buf, "Stack Pointer (ESP): 0x");
    push_hex(&mut buf, s.esp, 8);
    push_str(&mut buf, "\n");
    push_str(&mut buf, "Base Pointer  (EBP): 0x");
    push_hex(&mut buf, s.ebp, 8);
    push_str(&mut buf, "\n");
    push_str(&mut buf, "\n");
    push_str(&mut buf, "Stack contents (top 16 dwords):\n");
    let ghost head = buf@;
    let mut i: usize = 0;
    while i < STACK_WORDS
        invariant
            i <= STACK_WORDS,
            buf@ == head + stack_lines(*s, i as nat),
        decreases STACK_WORDS - i,
    {
        let addr: u32 = ((s.esp as u64 + 4 * i as u64) % 0x1_0000_0000) as u32;
        push_str(&mut buf, "  0x");
        push_hex(&mut buf, addr, 8);
        push_str(&mut buf, ": 0x");
        push_hex(&mut buf, s.words[i], 8);
        push_str(&mut buf, "\n");
        i = i + 1;
        assert(buf@ =~= head + stack_lines(*s, i as nat));
    }
    push_str(&mut buf, "\n");
    assert(buf@ =~= stack_report(*s));
    buf
}

/// Writes the stack report for `snapshot`.
pub fn print_stack(out: &mut Writer, snapshot: &StackSnapshot)
    requires
        old(out).wf(),
    ensures
        final(out).wf(),
        final(out)@ == put_text(old(out)@, stack_report(*snapshot)),
{
    let text = stack_report_text(snapshot);
    out.write_text(text.as_slice());
}

} // verus!
