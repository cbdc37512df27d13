//! Fatal CPU faults: each handler puts a fixed message on the console and
//! halts the CPU for good, interrupts off.

use vstd::prelude::*;
use vstd::string::StringSliceAdditionalSpecFns;
use crate::idt::Cpu;
use crate::vga::{written_at, Writer};

verus! {

/// Console row of fault messages.
pub const ERROR_ROW: usize = 10;

/// White on red.
pub const ERROR_COLOR: u8 = 0x4F;

/// The faults with a handler of their own, and the catch-all.
#[derive(Clone, Copy, Debug, PartialEq, Eq, Structural)]
pub enum Fault {
    DivideByZero,
    InvalidOpcode,
    DoubleFault,
    GeneralProtection,
    PageFault,
    Unhandled,
}

pub open spec fn fault_message(f: Fault) -> Seq<u8> {
    match f {
        Fault::DivideByZero => "EXCEPTION #0: DIVIDE BY ZERO".spec_bytes(),
        Fault::InvalidOpcode => "EXCEPTION #6: INVALID OPCODE".spec_bytes(),
        Fault::DoubleFault => "EXCEPTION #8: DOUBLE FAULT (STACK OVERFLOW?)".spec_bytes(),
        Fault::GeneralProtection => "EXCEPTION #13: GENERAL PROTECTION FAULT".spec_bytes(),
        Fault::PageFault => "EXCEPTION #14: PAGE FAULT".spec_bytes(),
        Fault::Unhandled => "UNHANDLED INTERRUPT!".spec_bytes(),
    }
}

impl Fault {
    pub fn message(self) -> (r: &'static str)
        ensures
            r.spec_bytes() == fault_message(self),
    {
        match self {
            Fault::DivideByZero => "EXCEPTION #0: DIVIDE BY ZERO",
            Fault::InvalidOpcode => "EXCEPTION #6: INVALID OPCODE",
            Fault::DoubleFault => "EXCEPTION #8: DOUBLE FAULT (STACK OVERFLOW?)",
            Fault::GeneralProtection => "EXCEPTION #13: GENERAL PROTECTION FAULT",
            Fault::PageFault => "EXCEPTION #14: PAGE FAULT",
            Fault::Unhandled => "UNHANDLED INTERRUPT!",
        }
    }
}

/// Writes `msg` at the start of `row` in `color`, straight into text memory.
pub fn write_error(out: &mut Writer, row: usize, msg: &str, color: u8)
    requires
        old(out).wf(),
        row < crate::vga::VGA_HEIGHT,
    ensures
        final(out).wf(),
        final(out)@ == written_at(old(out)@, row as int, msg.spec_bytes(), color),
{
    out.write_at(row, msg.as_bytes(), color);
}

/// Puts the message of `f` on the error row in the error color, then halts
/// with interrupts off.
pub fn report_fault(out: &mut Writer, cpu: &mut Cpu, f: Fault)
    requires
        old(out).wf(),
    ensures
        final(out).wf(),
        final(out)@ == written_at(old(out)@, ERROR_ROW as int, fault_message(f), ERROR_COLOR),
        *final(cpu) == (Cpu { interrupts_enabled: false, halted: true }),
{
    write_error(out, ERROR_ROW, f.message(), ERROR_COLOR);
    cpu.halt();
}

/// Vector 0.
pub fn rust_divide_by_zero(out: &mut Writer, cpu: &mut Cpu)
    requires
        old(out).wf(),
    ensures
        final(out).wf(),
        *final(cpu) == (Cpu { interrupts_enabled: false, halted: true }),
        final(out)@ == written_at(
            old(out)@,
            ERROR_ROW as int,
            fault_message(Fault::DivideByZero),
            ERROR_COLOR,
        ),
{
    report_fault(out, cpu, Fault::DivideByZero);
}

/// Vector 6.
pub fn rust_invalid_opcode(out: &mut Writer, cpu: &mut Cpu)
    requires
        old(out).wf(),
    ensures
        final(out).wf(),
        *final(cpu) == (Cpu { interrupts_enabled: false, halted: true }),
        final(out)@ == written_at(
            old(out)@,
            ERROR_ROW as int,
            fault_message(Fault::InvalidOpcode),
            ERROR_COLOR,
        ),
{
    report_fault(out, cpu, Fault::InvalidOpcode);
}

/// Vector 8.
pub fn rust_double_fault(out: &mut Writer, cpu: &mut Cpu)
    requires
        old(out).wf(),
    ensures
        final(out).wf(),
        *final(cpu) == (Cpu { interrupts_enabled: false, halted: true }),
        final(out)@ == written_at(
            old(out)@,
            ERROR_ROW as int,
            fault_message(Fault::DoubleFault),
            ERROR_COLOR,
        ),
{
    report_fault(out, cpu, Fault::DoubleFault);
}

/// Vector 13.
pub fn rust_general_protection_fault(out: &mut Writer, cpu: &mut Cpu)
    requires
        old(out).wf(),
    ensures
        final(out).wf(),
        *final(cpu) == (Cpu { interrupts_enabled: false, halted: true }),
        final(out)@ == written_at(
            old(out)@,
            ERROR_ROW as int,
            fault_message(Fault::GeneralProtection),
            ERROR_COLOR,
        ),
{
    report_fault(out, cpu, Fault::GeneralProtection);
}

/// Vector 14.
pub fn rust_page_fault(out: &mut Writer, cpu: &mut Cpu)
    requires
        old(out).wf(),
    ensures
        final(out).wf(),
        *final(cpu) == (Cpu { interrupts_enabled: false, halted: true }),
        final(out)@ == written_at(
            old(out)@,
            ERROR_ROW as int,
            fault_message(Fault::PageFault),
            ERROR_COLOR,
        ),
{
    report_fault(out, cpu, Fault::PageFault);
}

/// Every other vector.
pub fn rust_default_interrupt(out: &mut Writer, cpu: &mut Cpu)
    requires
        old(out).wf(),
    ensures
        final(out).wf(),
        *final(cpu) == (Cpu { interrupts_enabled: false, halted: true }),
        final(out)@ == written_at(
            old(out)@,
            ERROR_ROW as int,
            fault_message(Fault::Unhandled),
            ERROR_COLOR,
        ),
{
    report_fault(out, cpu, Fault::Unhandled);
}

} // verus!
