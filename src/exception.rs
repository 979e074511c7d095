//! The processor exceptions: which vectors exist and push an error code, the
//! table that boot code registers their handlers in, and the diagnostic
//! report that each handler writes.

use vstd::prelude::*;
use vstd::string::StringSliceAdditionalSpecFns;
use crate::idt::{current_code_selector, empty_entry, registered_entry, InterruptDescriptorTable, IDT_ENTRIES};
use crate::page_fault::{page_fault_of, PageFault, PageFaultBuilder};
use crate::print::{put_text, Writer};
use crate::registers::StackFrame;
use crate::text::{bool_text, hex_min, decimal, quoted, push_all, push_bool, push_decimal, push_hex, push_quoted, push_str};

verus! {

/// The exception vectors that have a handler: every architecturally defined
/// exception below 32 but the reserved ones.
pub open spec fn is_handled_vector(v: nat) -> bool {
    v <= 8 || (10 <= v && v <= 14) || v == 16 || v == 17 || v == 19 || v == 20 || v == 30
}

/// The vectors for which the processor pushes an error code.
pub open spec fn vector_has_error_code(v: nat) -> bool {
    v == 8 || (10 <= v && v <= 14) || v == 17 || v == 30
}

/// The reserved vectors, which must not be registered.
pub open spec fn is_reserved_vector(v: nat) -> bool {
    v == 9 || v == 15 || v == 18 || (21 <= v && v <= 29)
}

/// Whether `vector` has a handler.
pub fn is_handled(vector: u8) -> (r: bool)
    ensures
        r == is_handled_vector(vector as nat),
{
    vector <= 8 || (10 <= vector && vector <= 14) || vector == 16 || vector == 17 || vector == 19
        || vector == 20 || vector == 30
}

/// Whether the processor pushes an error code for `vector`, which selects the
/// entry stub that takes one.
pub fn has_error_code(vector: u8) -> (r: bool)
    ensures
        r == vector_has_error_code(vector as nat),
{
    vector == 8 || (10 <= vector && vector <= 14) || vector == 17 || vector == 30
}

/// Whether `vector` is reserved.
pub fn is_reserved(vector: u8) -> (r: bool)
    ensures
        r == is_reserved_vector(vector as nat),
{
    vector == 9 || vector == 15 || vector == 18 || (21 <= vector && vector <= 29)
}

/// The table after boot registration: each handled vector is a present
/// ring-0 interrupt gate to its entry stub, every other slot is empty.
pub open spec fn exception_table_spec(selector: u16, handlers: Seq<u64>) -> Seq<crate::idt::Entry> {
    Seq::new(
        IDT_ENTRIES as nat,
        |v: int|
            if is_handled_vector(v as nat) {
                registered_entry(selector, handlers[v])
            } else {
                empty_entry()
            },
    )
}

/// Builds the exception table with the given code selector. `handlers[v]` is
/// the address of the entry stub for vector `v`; those of vectors without a
/// handler are not used.
pub fn build_exception_table(selector: u16, handlers: &[u64]) -> (r: InterruptDescriptorTable)
    requires
        handlers@.len() == IDT_ENTRIES,
    ensures
        r@ == exception_table_spec(selector, handlers@),
{
    let mut idt = InterruptDescriptorTable::new();
    let mut v: usize = 0;
    while v < IDT_ENTRIES
        invariant
            v <= IDT_ENTRIES,
            handlers@.len() == IDT_ENTRIES,
            idt@.len() == IDT_ENTRIES,
            forall|k: int|
                0 <= k < v ==> #[trigger] idt@[k] == exception_table_spec(selector, handlers@)[k],
            forall|k: int| v <= k < IDT_ENTRIES ==> #[trigger] idt@[k] == empty_entry(),
        decreases IDT_ENTRIES - v,
    {
        if is_handled(v as u8) {
            idt.register_handler_with_selector(v, selector, handlers[v]);
        }
        v = v + 1;
    }
    proof {
        assert(idt@ =~= exception_table_spec(selector, handlers@));
    }
    idt
}

/// Builds the exception table with the code selector that the processor runs
/// under now.
pub fn init_exception_table(handlers: &[u64]) -> (r: InterruptDescriptorTable)
    requires
        handlers@.len() == IDT_ENTRIES,
    ensures
        exists|selector: u16| r@ == exception_table_spec(selector, handlers@),
{
    let selector = current_code_selector();
    build_exception_table(selector, handlers)
}

/// The heading that precedes every register dump.
pub open spec fn dump_heading() -> Seq<u8> {
    "Register dump: \n".spec_bytes()
}

/// A report: its heading, the dump heading, and the register dump.
pub open spec fn report_text(heading: Seq<u8>, frame: StackFrame) -> Seq<u8> {
    heading + dump_heading() + frame.spec_text()
}

/// The heading of a report that gives an error code in decimal.
pub open spec fn coded_heading(prefix: &str, error_code: usize) -> Seq<u8> {
    prefix.spec_bytes() + decimal(error_code as nat) + "\n\n".spec_bytes()
}

/// The heading of a breakpoint report, which gives the instruction pointer.
pub open spec fn breakpoint_heading(rip: u64) -> Seq<u8> {
    "\nEXCEPTION: BREAKPOINT at 0x".spec_bytes() + hex_min(rip as nat) + "\n\n".spec_bytes()
}

/// The heading of a page-fault report: the faulting address, the cause, the
/// access mode, the reserved-bit flag and, for an instruction fetch, a line
/// saying so.
pub open spec fn page_fault_heading(f: PageFault) -> Seq<u8> {
    "\nEXCEPTION: PAGE FAULT while accessing 0x".spec_bytes() + hex_min(f.addr as nat)
        + " with error ".spec_bytes() + quoted(f.error_code_description.spec_name().spec_bytes())
        + "\nAccess mode: ".spec_bytes() + f.access_mode.spec_name().spec_bytes()
        + "\nReserved mode: ".spec_bytes() + bool_text(f.reserved) + "\n\n".spec_bytes() + (
    if f.caused_by_instruction_fetch {
        "Caused by instruction fetch\n".spec_bytes()
    } else {
        Seq::empty()
    })
}

/// Writes `heading`, the dump heading and the register dump.
fn report(writer: &mut Writer, heading: Vec<u8>, stack_frame: &StackFrame)
    requires
        old(writer).wf(),
    ensures
        final(writer).wf(),
        final(writer)@ == put_text(old(writer)@, report_text(heading@, *stack_frame)),
{
    let mut out = heading;
    push_str(&mut out, "Register dump: \n");
    let dump = stack_frame.text();
    push_all(&mut out, dump.as_slice());
    proof {
        assert(out@ =~= report_text(heading@, *stack_frame));
    }
    writer.write_bytes(out.as_slice());
}

fn str_bytes(s: &str) -> (r: Vec<u8>)
    ensures
        r@ == s.spec_bytes(),
{
    let mut out: Vec<u8> = Vec::new();
    push_str(&mut out, s);
    proof {
        assert(out@ =~= s.spec_bytes());
    }
    out
}

fn coded(prefix: &str, error_code: usize) -> (r: Vec<u8>)
    ensures
        r@ == coded_heading(prefix, error_code),
{
    let mut out = str_bytes(prefix);
    push_decimal(&mut out, error_code as u64);
    push_str(&mut out, "\n\n");
    proof {
        assert(out@ =~= coded_heading(prefix, error_code));
    }
    out
}

/// Reports a divide-by-zero fault and dumps the registers.
pub fn divide_by_zero(stack_frame: &StackFrame, writer: &mut Writer)
    requires
        old(writer).wf(),
    ensures
        final(writer).wf(),
        final(writer)@ == put_text(
            old(writer)@,
            "\nEXCEPTION: DIVIDE BY ZERO\n\n\nRegister dump:\n".spec_bytes() + stack_frame.spec_text(),
        ),
{
    let mut out = str_bytes("\nEXCEPTION: DIVIDE BY ZERO\n\n\nRegister dump:\n");
    let dump = stack_frame.text();
    push_all(&mut out, dump.as_slice());
    writer.write_bytes(out.as_slice());
}

/// Reports a breakpoint with the instruction pointer it was hit at and dumps
/// the registers.
pub fn breakpoint(stack_frame: &StackFrame, writer: &mut Writer)
    requires
        old(writer).wf(),
    ensures
        final(writer).wf(),
        final(writer)@ == put_text(
            old(writer)@,
            report_text(breakpoint_heading(stack_frame.iret.rip), *stack_frame),
        ),
{
    let mut heading = str_bytes("\nEXCEPTION: BREAKPOINT at 0x");
    push_hex(&mut heading, stack_frame.iret.rip);
    push_str(&mut heading, "\n\n");
    proof {
        assert(heading@ =~= breakpoint_heading(stack_frame.iret.rip));
    }
    report(writer, heading, stack_frame);
}

/// The heading of the report of the page fault `fault`.
pub fn page_fault_heading_text(fault: &PageFault) -> (r: Vec<u8>)
    ensures
        r@ == page_fault_heading(*fault),
{
    let mut heading = str_bytes("\nEXCEPTION: PAGE FAULT while accessing 0x");
    push_hex(&mut heading, fault.addr as u64);
    push_str(&mut heading, " with error ");
    push_quoted(&mut heading, fault.error_code_description.name());
    push_str(&mut heading, "\nAccess mode: ");
    push_str(&mut heading, fault.access_mode.name());
    push_str(&mut heading, "\nReserved mode: ");
    push_bool(&mut heading, fault.reserved);
    push_str(&mut heading, "\n\n");
    if fault.caused_by_instruction_fetch {
        push_str(&mut heading, "Caused by instruction fetch\n");
    }
    proof {
        assert(heading@ =~= page_fault_heading(*fault));
    }
    heading
}

/// Reports a page fault described by `fault` and dumps the registers.
pub fn report_page_fault(fault: &PageFault, stack_frame: &StackFrame, writer: &mut Writer)
    requires
        old(writer).wf(),
    ensures
        final(writer).wf(),
        final(writer)@ == put_text(old(writer)@, report_text(page_fault_heading(*fault), *stack_frame)),
{
    let heading = page_fault_heading_text(fault);
    report(writer, heading, stack_frame);
}

/// Decodes the page fault that `error_code` describes, with the faulting
/// address read from the processor, reports it and dumps the registers.
pub fn page_fault(stack_frame: &StackFrame, error_code: usize, writer: &mut Writer)
    requires
        old(writer).wf(),
    ensures
        final(writer).wf(),
        exists|addr: usize|
            final(writer)@ == put_text(
                old(writer)@,
                report_text(page_fault_heading(page_fault_of(error_code, addr)), *stack_frame),
            ),
{
    let fault = PageFaultBuilder::build(error_code);
    report_page_fault(&fault, stack_frame, writer);
}

/// Reports a non-maskable interrupt and dumps the registers.
pub fn non_maskable_interrupt(stack_frame: &StackFrame, writer: &mut Writer)
    requires
        old(writer).wf(),
    ensures
        final(writer).wf(),
        final(writer)@ == put_text(old(writer)@, report_text("Non-maskable Interrupt!\n\n".spec_bytes(), *stack_frame)),
{
    report(writer, str_bytes("Non-maskable Interrupt!\n\n"), stack_frame);
}

/// Reports an overflow exception and dumps the registers.
pub fn overflow(stack_frame: &StackFrame, writer: &mut Writer)
    requires
        old(writer).wf(),
    ensures
        final(writer).wf(),
        final(writer)@ == put_text(old(writer)@, report_text("overflow exception!\n\n".spec_bytes(), *stack_frame)),
{
    report(writer, str_bytes("overflow exception!\n\n"), stack_frame);
}

/// Reports a bound-range-exceeded exception and dumps the registers.
pub fn bound_range_exceeded(stack_frame: &StackFrame, writer: &mut Writer)
    requires
        old(writer).wf(),
    ensures
        final(writer).wf(),
        final(writer)@ == put_text(old(writer)@, report_text("Bound range exceeded!\n\n".spec_bytes(), *stack_frame)),
{
    report(writer, str_bytes("Bound range exceeded!\n\n"), stack_frame);
}

/// Reports an invalid-opcode exception and dumps the registers.
pub fn invalid_opcode(stack_frame: &StackFrame, writer: &mut Writer)
    requires
        old(writer).wf(),
    ensures
        final(writer).wf(),
        final(writer)@ == put_text(old(writer)@, report_text("Invalid opcode exception!\n\n".spec_bytes(), *stack_frame)),
{
    report(writer, str_bytes("Invalid opcode exception!\n\n"), stack_frame);
}

/// Reports a device-not-available exception and dumps the registers.
pub fn device_not_available(stack_frame: &StackFrame, writer: &mut Writer)
    requires
        old(writer).wf(),
    ensures
        final(writer).wf(),
        final(writer)@ == put_text(old(writer)@, report_text("Device not available exception!\n\n".spec_bytes(), *stack_frame)),
{
    report(writer, str_bytes("Device not available exception!\n\n"), stack_frame);
}

/// Reports an invalid-TSS fault and dumps the registers.
pub fn invalid_tss(stack_frame: &StackFrame, writer: &mut Writer)
    requires
        old(writer).wf(),
    ensures
        final(writer).wf(),
        final(writer)@ == put_text(old(writer)@, report_text("Invalid TSS fault\n\n".spec_bytes(), *stack_frame)),
{
    report(writer, str_bytes("Invalid TSS fault\n\n"), stack_frame);
}

/// Reports an x87 floating-point exception and dumps the registers.
pub fn x87_floating_point_exception(stack_frame: &StackFrame, writer: &mut Writer)
    requires
        old(writer).wf(),
    ensures
        final(writer).wf(),
        final(writer)@ == put_text(old(writer)@, report_text("x87 Floating-Point Exception!\n".spec_bytes(), *stack_frame)),
{
    report(writer, str_bytes("x87 Floating-Point Exception!\n"), stack_frame);
}

/// Reports an alignment-check exception and dumps the registers.
pub fn alignment_check(stack_frame: &StackFrame, writer: &mut Writer)
    requires
        old(writer).wf(),
    ensures
        final(writer).wf(),
        final(writer)@ == put_text(old(writer)@, report_text("Alignment Check Exception!\n".spec_bytes(), *stack_frame)),
{
    report(writer, str_bytes("Alignment Check Exception!\n"), stack_frame);
}

/// Reports a SIMD floating-point exception and dumps the registers.
pub fn simd_floating_point_exception(stack_frame: &StackFrame, writer: &mut Writer)
    requires
        old(writer).wf(),
    ensures
        final(writer).wf(),
        final(writer)@ == put_text(old(writer)@, report_text("SIMD Floating-Point Exception!\n".spec_bytes(), *stack_frame)),
{
    report(writer, str_bytes("SIMD Floating-Point Exception!\n"), stack_frame);
}

/// Reports a virtualization exception and dumps the registers.
pub fn virtualization_exception(stack_frame: &StackFrame, writer: &mut Writer)
    requires
        old(writer).wf(),
    ensures
        final(writer).wf(),
        final(writer)@ == put_text(old(writer)@, report_text("Virtualization Exception!\n".spec_bytes(), *stack_frame)),
{
    report(writer, str_bytes("Virtualization Exception!\n"), stack_frame);
}

/// Reports a security exception and dumps the registers.
pub fn security_exception(stack_frame: &StackFrame, writer: &mut Writer)
    requires
        old(writer).wf(),
    ensures
        final(writer).wf(),
        final(writer)@ == put_text(old(writer)@, report_text("Security Exception!\n".spec_bytes(), *stack_frame)),
{
    report(writer, str_bytes("Security Exception!\n"), stack_frame);
}

/// Reports a double fault, whose error code is always zero, and dumps the registers.
pub fn double_fault(stack_frame: &StackFrame, error_code: usize, writer: &mut Writer)
    requires
        old(writer).wf(),
    ensures
        final(writer).wf(),
        final(writer)@ == put_text(
            old(writer)@,
            report_text(coded_heading("Double fault occurred! with error code: ", error_code), *stack_frame),
        ),
{
    report(writer, coded("Double fault occurred! with error code: ", error_code), stack_frame);
}

/// Reports a segment-not-present exception and dumps the registers.
pub fn segment_not_present(stack_frame: &StackFrame, error_code: usize, writer: &mut Writer)
    requires
        old(writer).wf(),
    ensures
        final(writer).wf(),
        final(writer)@ == put_text(
            old(writer)@,
            report_text(coded_heading("Segment not present exception with error code: ", error_code), *stack_frame),
        ),
{
    report(writer, coded("Segment not present exception with error code: ", error_code), stack_frame);
}

/// Reports a stack-segment fault and dumps the registers.
pub fn stack_segment_fault(stack_frame: &StackFrame, error_code: usize, writer: &mut Writer)
    requires
        old(writer).wf(),
    ensures
        final(writer).wf(),
        final(writer)@ == put_text(
            old(writer)@,
            report_text(coded_heading("stack segment fault with error code: ", error_code), *stack_frame),
        ),
{
    report(writer, coded("stack segment fault with error code: ", error_code), stack_frame);
}

/// Reports a general-protection fault and dumps the registers.
pub fn general_protection_fault(stack_frame: &StackFrame, error_code: usize, writer: &mut Writer)
    requires
        old(writer).wf(),
    ensures
        final(writer).wf(),
        final(writer)@ == put_text(
            old(writer)@,
            report_text(coded_heading("general protection fault with error code: ", error_code), *stack_frame),
        ),
{
    report(writer, coded("general protection fault with error code: ", error_code), stack_frame);
}

/// Debug exceptions are not reported: the writer is left as it is.
pub fn debug(_stack_frame: &StackFrame, writer: &mut Writer)
    ensures
        *final(writer) == *old(writer),
{
}

/// Control-protection exceptions are not reported: the writer is left as it is.
pub fn control_protection_exception(_stack_frame: &StackFrame, writer: &mut Writer)
    ensures
        *final(writer) == *old(writer),
{
}

/// Hypervisor-injection exceptions are not reported: the writer is left as it is.
pub fn hypervisor_injection_exception(_stack_frame: &StackFrame, writer: &mut Writer)
    ensures
        *final(writer) == *old(writer),
{
}

/// VMM-communication exceptions are not reported: the writer is left as it is.
pub fn vmm_communication_exception(_stack_frame: &StackFrame, writer: &mut Writer)
    ensures
        *final(writer) == *old(writer),
{
}

/// The text that the handler of `vector` writes for a trap with the given
/// error code and saved registers, `addr` being the faulting address of a
/// page fault. Vectors without a report give no text.
pub open spec fn exception_report_text(vector: u8, error_code: usize, frame: StackFrame, addr: usize) -> Seq<u8> {
    if vector == 0 {
        "\nEXCEPTION: DIVIDE BY ZERO\n\n\nRegister dump:\n".spec_bytes() + frame.spec_text()
    } else if vector == 3 {
        report_text(breakpoint_heading(frame.iret.rip), frame)
    } else if vector == 14 {
        report_text(page_fault_heading(page_fault_of(error_code, addr)), frame)
    } else if vector == 2 {
        report_text("Non-maskable Interrupt!\n\n".spec_bytes(), frame)
    } else if vector == 4 {
        report_text("overflow exception!\n\n".spec_bytes(), frame)
    } else if vector == 5 {
        report_text("Bound range exceeded!\n\n".spec_bytes(), frame)
    } else if vector == 6 {
        report_text("Invalid opcode exception!\n\n".spec_bytes(), frame)
    } else if vector == 7 {
        report_text("Device not available exception!\n\n".spec_bytes(), frame)
    } else if vector == 10 {
        report_text("Invalid TSS fault\n\n".spec_bytes(), frame)
    } else if vector == 16 {
        report_text("x87 Floating-Point Exception!\n".spec_bytes(), frame)
    } else if vector == 17 {
        report_text("Alignment Check Exception!\n".spec_bytes(), frame)
    } else if vector == 19 {
        report_text("SIMD Floating-Point Exception!\n".spec_bytes(), frame)
    } else if vector == 20 {
        report_text("Virtualization Exception!\n".spec_bytes(), frame)
    } else if vector == 30 {
        report_text("Security Exception!\n".spec_bytes(), frame)
    } else if vector == 8 {
        report_text(coded_heading("Double fault occurred! with error code: ", error_code), frame)
    } else if vector == 11 {
        report_text(coded_heading("Segment not present exception with error code: ", error_code), frame)
    } else if vector == 12 {
        report_text(coded_heading("stack segment fault with error code: ", error_code), frame)
    } else if vector == 13 {
        report_text(coded_heading("general protection fault with error code: ", error_code), frame)
    } else {
        Seq::empty()
    }
}

/// Writes the report of the exception `vector`: the report of its handler
/// for a handled vector, nothing otherwise. Only a page fault reads the
/// faulting address from the processor.
pub fn report_exception(vector: u8, error_code: usize, stack_frame: &StackFrame, writer: &mut Writer)
    requires
        old(writer).wf(),
    ensures
        final(writer).wf(),
        vector == 14 ==> exists|addr: usize|
            final(writer)@ == put_text(
                old(writer)@,
                exception_report_text(vector, error_code, *stack_frame, addr),
            ),
        vector != 14 ==> final(writer)@ == put_text(
            old(writer)@,
            exception_report_text(vector, error_code, *stack_frame, 0),
        ),
        !is_handled_vector(vector as nat) || vector == 1 ==> *final(writer) == *old(writer),
{
    if vector == 0 {
        divide_by_zero(stack_frame, writer);
        proof {
            assert(final(writer)@ == put_text(old(writer)@, exception_report_text(vector, error_code, *stack_frame, 0)));
        }
    } else if vector == 1 {
        debug(stack_frame, writer);
        proof {
            assert(exception_report_text(vector, error_code, *stack_frame, 0) =~= Seq::<u8>::empty());
        }
    } else if vector == 3 {
        breakpoint(stack_frame, writer);
        proof {
            assert(final(writer)@ == put_text(old(writer)@, exception_report_text(vector, error_code, *stack_frame, 0)));
        }
    } else if vector == 14 {
        page_fault(stack_frame, error_code, writer);
        proof {
            let a = choose|addr: usize|
                final(writer)@ == put_text(
                    old(writer)@,
                    report_text(page_fault_heading(page_fault_of(error_code, addr)), *stack_frame),
                );
            assert(final(writer)@ == put_text(old(writer)@, exception_report_text(vector, error_code, *stack_frame, a)));
        }
    } else if vector == 2 {
        non_maskable_interrupt(stack_frame, writer);
        proof {
            assert(final(writer)@ == put_text(old(writer)@, exception_report_text(vector, error_code, *stack_frame, 0)));
        }
    } else if vector == 4 {
        overflow(stack_frame, writer);
        proof {
            assert(final(writer)@ == put_text(old(writer)@, exception_report_text(vector, error_code, *stack_frame, 0)));
        }
    } else if vector == 5 {
        bound_range_exceeded(stack_frame, writer);
        proof {
            assert(final(writer)@ == put_text(old(writer)@, exception_report_text(vector, error_code, *stack_frame, 0)));
        }
    } else if vector == 6 {
        invalid_opcode(stack_frame, writer);
        proof {
            assert(final(writer)@ == put_text(old(writer)@, exception_report_text(vector, error_code, *stack_frame, 0)));
        }
    } else if vector == 7 {
        device_not_available(stack_frame, writer);
        proof {
            assert(final(writer)@ == put_text(old(writer)@, exception_report_text(vector, error_code, *stack_frame, 0)));
        }
    } else if vector == 10 {
        invalid_tss(stack_frame, writer);
        proof {
            assert(final(writer)@ == put_text(old(writer)@, exception_report_text(vector, error_code, *stack_frame, 0)));
        }
    } else if vector == 16 {
        x87_floating_point_exception(stack_frame, writer);
        proof {
            assert(final(writer)@ == put_text(old(writer)@, exception_report_text(vector, error_code, *stack_frame, 0)));
        }
    } else if vector == 17 {
        alignment_check(stack_frame, writer);
        proof {
            assert(final(writer)@ == put_text(old(writer)@, exception_report_text(vector, error_code, *stack_frame, 0)));
        }
    } else if vector == 19 {
        simd_floating_point_exception(stack_frame, writer);
        proof {
            assert(final(writer)@ == put_text(old(writer)@, exception_report_text(vector, error_code, *stack_frame, 0)));
        }
    } else if vector == 20 {
        virtualization_exception(stack_frame, writer);
        proof {
            assert(final(writer)@ == put_text(old(writer)@, exception_report_text(vector, error_code, *stack_frame, 0)));
        }
    } else if vector == 30 {
        security_exception(stack_frame, writer);
        proof {
            assert(final(writer)@ == put_text(old(writer)@, exception_report_text(vector, error_code, *stack_frame, 0)));
        }
    } else if vector == 8 {
        double_fault(stack_frame, error_code, writer);
        proof {
            assert(final(writer)@ == put_text(old(writer)@, exception_report_text(vector, error_code, *stack_frame, 0)));
        }
    } else if vector == 11 {
        segment_not_present(stack_frame, error_code, writer);
        proof {
            assert(final(writer)@ == put_text(old(writer)@, exception_report_text(vector, error_code, *stack_frame, 0)));
        }
    } else if vector == 12 {
        stack_segment_fault(stack_frame, error_code, writer);
        proof {
            assert(final(writer)@ == put_text(old(writer)@, exception_report_text(vector, error_code, *stack_frame, 0)));
        }
    } else if vector == 13 {
        general_protection_fault(stack_frame, error_code, writer);
        proof {
            assert(final(writer)@ == put_text(old(writer)@, exception_report_text(vector, error_code, *stack_frame, 0)));
        }
    } else {
        proof {
            assert(exception_report_text(vector, error_code, *stack_frame, 0) =~= Seq::<u8>::empty());
        }
    }
}

} // verus!
