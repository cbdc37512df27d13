use kfs::gdt::{
    descriptor_pointer, gdt_report_text, selector, stack_report_text, Gdt, GdtEntry,
    StackSnapshot,
};
use kfs::idt::{init, Handlers, Idt, IdtEntry};
use kfs::vga::Writer;

fn handlers() -> Handlers {
    Handlers {
        divide_by_zero: 0x0010_1000,
        invalid_opcode: 0x0010_1006,
        double_fault: 0x0010_1008,
        general_protection_fault: 0x0010_100D,
        page_fault: 0x0010_100E,
        keyboard: 0x0010_2021,
        default: 0x0010_3000,
    }
}

#[test]
fn gdt_entry_fields_follow_layout() {
    let e = GdtEntry::new(0, 0xFFFFF, 0x9A, 0xC0);
    assert_eq!(e.limit_low, 0xFFFF);
    assert_eq!(e.base_low, 0);
    assert_eq!(e.base_middle, 0);
    assert_eq!(e.access, 0x9A);
    assert_eq!(e.granularity, 0xCF);
    assert_eq!(e.base_high, 0);
}

#[test]
fn gdt_entry_round_trips_base_and_limit() {
    let e = GdtEntry::new(0x1234_5678, 0xABCDE, 0x92, 0x4F);
    assert_eq!(e.base_low, 0x5678);
    assert_eq!(e.base_middle, 0x34);
    assert_eq!(e.base_high, 0x12);
    assert_eq!(e.limit_low, 0xBCDE);
    assert_eq!(e.granularity, 0x4A);
    assert_eq!(e.base(), 0x1234_5678);
    assert_eq!(e.limit(), 0xABCDE);
    let b = e.to_bytes();
    assert_eq!(b, [0xDE, 0xBC, 0x78, 0x56, 0x34, 0x92, 0x4A, 0x12]);
}

#[test]
fn gdt_null_entry_is_zero() {
    assert_eq!(GdtEntry::null().to_bytes(), [0u8; 8]);
}

#[test]
fn gdt_table_has_six_fixed_entries() {
    let g = Gdt::new();
    assert_eq!(g.entry(0), GdtEntry::null());
    assert_eq!(g.entry(1).access, 0x9A);
    assert_eq!(g.entry(2).access, 0x92);
    assert_eq!(g.entry(3).access, 0xFA);
    assert_eq!(g.entry(4).access, 0xF2);
    assert_eq!(g.entry(5), GdtEntry::null());
    let bytes = g.to_bytes();
    assert_eq!(bytes.len(), 48);
    assert_eq!(&bytes[8..16], &[0xFF, 0xFF, 0, 0, 0, 0x9A, 0xCF, 0]);
    assert_eq!(&bytes[0..8], &[0u8; 8]);
}

#[test]
fn selectors_are_index_times_eight() {
    assert_eq!(selector(1), 0x08);
    assert_eq!(selector(2), 0x10);
    assert_eq!(selector(5), 0x28);
}

#[test]
fn descriptor_pointer_limit_is_size_minus_one() {
    let p = descriptor_pointer(48, 0x800);
    assert_eq!(p.limit, 47);
    assert_eq!(p.base, 0x800);
}

#[test]
fn gdt_report_lists_decoded_entries() {
    let g = Gdt::new();
    let text = String::from_utf8(gdt_report_text(&g, 0x800)).unwrap();
    let lines: Vec<&str> = text.lines().collect();
    assert_eq!(lines[0], "=== Global Descriptor Table ===");
    assert_eq!(lines[1], "GDT Address: 0x00000800");
    assert_eq!(lines[2], "GDT Size: 48 bytes");
    assert_eq!(lines[3], "");
    assert_eq!(lines[4], "[0] Null Descriptor (offset 0x00):");
    assert_eq!(lines[9], "[1] Kernel Code (offset 0x08):");
    assert_eq!(lines[10], "    Base:  0x00000000");
    assert_eq!(lines[11], "    Limit: 0xfffff");
    assert_eq!(lines[12], "    Access: 0x9a");
    assert_eq!(lines[13], "    Gran:   0xcf");
    assert_eq!(lines[29], "[5] TSS (offset 0x28):");
    assert_eq!(lines.len(), 34);
}

#[test]
fn stack_report_lists_sixteen_words() {
    let mut words = [0u32; 16];
    for (i, w) in words.iter_mut().enumerate() {
        *w = 0xdead_0000 + i as u32;
    }
    let s = StackSnapshot { esp: 0x0008_fff0, ebp: 0x0009_0000, words };
    let text = String::from_utf8(stack_report_text(&s)).unwrap();
    let lines: Vec<&str> = text.lines().collect();
    assert_eq!(lines[0], "=== Kernel Stack Information ===");
    assert_eq!(lines[1], "Stack Pointer (ESP): 0x0008fff0");
    assert_eq!(lines[2], "Base Pointer  (EBP): 0x00090000");
    assert_eq!(lines[3], "");
    assert_eq!(lines[4], "Stack contents (top 16 dwords):");
    assert_eq!(lines[5], "  0x0008fff0: 0xdead0000");
    assert_eq!(lines[20], "  0x0009002c: 0xdead000f");
    assert_eq!(lines.len(), 22);
    assert!(text.ends_with("\n\n"));
}

#[test]
fn stack_report_addresses_wrap() {
    let s = StackSnapshot { esp: 0xffff_fff8, ebp: 0, words: [7u32; 16] };
    let text = String::from_utf8(stack_report_text(&s)).unwrap();
    assert!(text.contains("  0xfffffffc: 0x00000007\n  0x00000000: 0x00000007\n"));
}

#[test]
fn idt_gate_encodes_handler_address() {
    let mut e = IdtEntry::new();
    assert_eq!(e.type_attr, 0);
    e.set_handler(0x0010_1234);
    assert_eq!(e.offset_low, 0x1234);
    assert_eq!(e.offset_high, 0x0010);
    assert_eq!(e.selector, 0x08);
    assert_eq!(e.zero, 0);
    assert_eq!(e.type_attr, 0x8E);
    assert_eq!(e.address(), 0x0010_1234);
}

#[test]
fn idt_new_has_no_present_gate() {
    let idt = Idt::new();
    for v in 0..256 {
        assert_eq!(idt.entry(v), IdtEntry::new());
    }
}

#[test]
fn idt_init_populates_every_vector() {
    let mut out = Writer::new();
    let h = handlers();
    let (idt, ptr) = init(&mut out, &h, 0x0020_0000);
    assert_eq!(ptr.limit, 2047);
    assert_eq!(ptr.base, 0x0020_0000);
    for v in 0..256usize {
        let e = idt.entry(v);
        assert_ne!(e.address(), 0);
        assert_eq!(e.type_attr, 0x8E);
        assert_eq!(e.selector, 0x08);
        let want = match v {
            0 => h.divide_by_zero,
            6 => h.invalid_opcode,
            8 => h.double_fault,
            13 => h.general_protection_fault,
            14 => h.page_fault,
            33 => h.keyboard,
            _ => h.default,
        };
        assert_eq!(e.address(), want);
    }
    assert_eq!(idt.to_bytes().len(), 2048);
    assert_eq!(&idt.to_bytes()[33 * 8..34 * 8], &[0x21, 0x20, 0x08, 0, 0, 0x8E, 0x10, 0]);
}

#[test]
fn idt_init_reports_progress() {
    let mut out = Writer::new();
    let _ = init(&mut out, &handlers(), 0);
    assert_eq!(out.char_at(0, 0), b'[');
    assert_eq!(out.attr_at(0, 0), 0x0E);
    assert_eq!(out.char_at(1, 6), b'I');
    assert_eq!(out.attr_at(1, 6), 0x02);
    assert_eq!(out.color(), 0x0F);
    assert_eq!(out.get_cursor_position(), (3, 0));
}

#[test]
fn gdt_build_keeps_null_first_and_encodes_tuples() {
    let g = Gdt::build([
        (0x0000_1000, 0x00FFF, 0x9A, 0x40),
        (0x0040_0000, 0xFFFFF, 0x92, 0xC0),
        (0, 0, 0, 0),
        (0xFF00_0000, 0x12345, 0xF2, 0x80),
        (0, 0x67, 0x89, 0x00),
    ]);
    assert_eq!(g.entry(0), GdtEntry::null());
    assert_eq!(g.entry(1), GdtEntry::new(0x0000_1000, 0x00FFF, 0x9A, 0x40));
    assert_eq!(g.entry(2).base(), 0x0040_0000);
    assert_eq!(g.entry(4).base(), 0xFF00_0000);
    assert_eq!(g.entry(4).limit(), 0x12345);
    assert_eq!(g.entry(4).granularity, 0x81);
    assert_eq!(g.entry(5).limit(), 0x67);
    assert_eq!(g.entry(5).access, 0x89);
}
