use kernel_interrupts::exception::{
    breakpoint, build_exception_table, debug, divide_by_zero, double_fault, has_error_code,
    init_exception_table, is_handled, is_reserved, page_fault_heading_text, report_exception,
    report_page_fault,
};
use kernel_interrupts::idt::{
    Attributes, Entry, GateType, InterruptDescriptorTable, PrivilegeLevel, ENTRY_SIZE, IDT_ENTRIES,
};
use kernel_interrupts::page_fault::{AccessMode, PageFault, PageFaultBuilder, PageFaultErrorCode};
use kernel_interrupts::print::{
    Color, ColorCode, Writer, BUFFER_HEIGHT, BUFFER_WIDTH, PLACEHOLDER,
};
use kernel_interrupts::registers::{IretRegisters, ScratchRegisters, StackFrame};
use kernel_interrupts::trampoline::{
    call_padding, error_code_offset, frame_len_words, restored_registers, return_frame_offset_words,
    saved_registers, saved_word_of, Register,
};

fn row_text(w: &Writer, row: usize) -> String {
    let mut s = String::new();
    for col in 0..BUFFER_WIDTH {
        s.push(w.cell(row, col).ascii_character as char);
    }
    s.trim_end().to_string()
}

fn writer() -> Writer {
    Writer::new(ColorCode::new(Color::Yellow, Color::Black))
}

#[test]
fn page_fault_write_supervisor_not_present() {
    let f = PageFaultBuilder::build_with_address(0x2, 0xdead_beaf);
    assert_eq!(f.error_code_description, PageFaultErrorCode::NonPresentWrite);
    assert_eq!(f.access_mode, AccessMode::Supervisor);
    assert!(!f.reserved);
    assert!(!f.caused_by_instruction_fetch);
    assert_eq!(f.addr, 0xdead_beaf);
}

#[test]
fn page_fault_cause_bits() {
    let cases = [
        (0x0usize, PageFaultErrorCode::NonPresentRead),
        (0x1, PageFaultErrorCode::ProtectionViolationRead),
        (0x2, PageFaultErrorCode::NonPresentWrite),
        (0x3, PageFaultErrorCode::ProtectionViolationWrite),
    ];
    for (code, cause) in cases {
        assert_eq!(PageFaultBuilder::build_with_address(code, 0).error_code_description, cause);
    }
    let user = PageFaultBuilder::build_with_address(0x4, 0);
    assert_eq!(user.access_mode, AccessMode::User);
    assert_eq!(user.error_code_description, PageFaultErrorCode::NonPresentRead);
    let reserved = PageFaultBuilder::build_with_address(0x8, 0);
    assert!(reserved.reserved);
    assert!(!reserved.caused_by_instruction_fetch);
    let fetch = PageFaultBuilder::build_with_address(0x11, 0);
    assert!(fetch.caused_by_instruction_fetch);
    assert!(!fetch.reserved);
    assert_eq!(fetch.error_code_description, PageFaultErrorCode::ProtectionViolationRead);
}

#[test]
fn page_fault_decode_is_total_and_deterministic() {
    for code in [usize::MAX, 0x20, 0x8000, 0xffff_0000, 0x1f, 0x7] {
        let a = PageFaultBuilder::build_with_address(code, 7);
        let b = PageFaultBuilder::build_with_address(code, 7);
        assert_eq!(a, b);
        assert_ne!(a.error_code_description, PageFaultErrorCode::Unknown);
        assert_ne!(a.access_mode, AccessMode::Unknown);
    }
    let all = PageFaultBuilder::build_with_address(usize::MAX, 0);
    assert_eq!(all.error_code_description, PageFaultErrorCode::ProtectionViolationWrite);
    assert_eq!(all.access_mode, AccessMode::User);
    assert!(all.reserved);
    assert!(all.caused_by_instruction_fetch);
    let high = PageFaultBuilder::build_with_address(0x20, 0);
    assert_eq!(high.error_code_description, PageFaultErrorCode::NonPresentRead);
    assert!(!high.reserved && !high.caused_by_instruction_fetch);
}

#[test]
fn page_fault_names() {
    assert_eq!(PageFaultErrorCode::ProtectionViolationWrite.name(), "ProtectionViolationWrite");
    assert_eq!(PageFaultErrorCode::Unknown.name(), "Unknown");
    assert_eq!(AccessMode::Supervisor.name(), "Supervisor");
    assert_eq!(AccessMode::User.name(), "User");
}

#[test]
fn encode_round_trips_the_address() {
    for address in [0u64, 1, 0xffff, 0x1_0000, 0xffff_8000_1234_5678, u64::MAX, 0x0000_7fff_dead_beef] {
        let e = Entry::encode(0x08, address, 3, GateType::Trap, PrivilegeLevel::Ring3, false);
        assert_eq!(e.address(), address);
        assert_eq!(e.address_low, address as u16);
        assert_eq!(e.address_middle, (address >> 16) as u16);
        assert_eq!(e.address_high, (address >> 32) as u32);
        assert_eq!(e.selector, 0x08);
        assert_eq!(e.ist, 3);
        assert_eq!(e.reserved, 0);
    }
}

#[test]
fn encode_is_idempotent() {
    let a = Entry::encode(0x10, 0x1234_5678_9abc_def0, 1, GateType::Interrupt, PrivilegeLevel::Ring0, true);
    let b = Entry::encode(0x10, 0x1234_5678_9abc_def0, 1, GateType::Interrupt, PrivilegeLevel::Ring0, true);
    assert_eq!(a, b);
    assert_eq!(a.to_bytes(), b.to_bytes());
}

#[test]
fn attribute_byte_packing() {
    let enc = |p: bool, r: PrivilegeLevel, g: GateType| Entry::encode(0, 0, 0, g, r, p).attributes;
    assert_eq!(enc(true, PrivilegeLevel::Ring0, GateType::Interrupt), 0x8E);
    assert_eq!(enc(false, PrivilegeLevel::Ring0, GateType::Interrupt), 0x0E);
    assert_eq!(enc(true, PrivilegeLevel::Ring3, GateType::Trap), 0xEF);
    assert_eq!(enc(false, PrivilegeLevel::Ring2, GateType::Trap), 0x4F);
    assert_eq!(enc(true, PrivilegeLevel::Ring1, GateType::Interrupt), 0xAE);
    for r in [PrivilegeLevel::Ring0, PrivilegeLevel::Ring1, PrivilegeLevel::Ring2, PrivilegeLevel::Ring3] {
        for g in [GateType::Interrupt, GateType::Trap] {
            let on = enc(true, r, g);
            let off = enc(false, r, g);
            assert_eq!(on & 0x7F, off & 0x7F);
            assert_eq!(on >> 7, 1);
            assert_eq!(off >> 7, 0);
            assert_eq!((on >> 5) & 3, r.value());
            assert_eq!(on & 0xF, g.value());
            assert_eq!(on & 0x10, 0);
        }
    }
}

#[test]
fn set_attributes_clears_reserved_bits() {
    let mut e = Entry::new();
    e.attributes = 0x10;
    e.set_attributes(Attributes::new());
    assert_eq!(e.attributes, 0x8E);
    e.attributes = 0xFF;
    e.set_attributes(Attributes { gate_type: GateType::Trap, privilege_level: PrivilegeLevel::Ring2, present: false });
    assert_eq!(e.attributes, 0x4F);
}

#[test]
fn set_interrupt_stack_table_writes_low_bits_only() {
    let mut e = Entry::new();
    e.ist = 0xF8;
    e.set_interrupt_stack_table(5);
    assert_eq!(e.ist, 0xFD);
    e.set_interrupt_stack_table(0);
    assert_eq!(e.ist, 0xF8);
    e.ist = 0x00;
    e.set_interrupt_stack_table(0xFB);
    assert_eq!(e.ist, 0x03);
}

#[test]
fn set_handler_splits_the_address() {
    let mut e = Entry::new();
    e.set_handler(0x33, 0xaabb_ccdd_eeff_1122);
    assert_eq!(e.address_low, 0x1122);
    assert_eq!(e.address_middle, 0xeeff);
    assert_eq!(e.address_high, 0xaabb_ccdd);
    assert_eq!(e.selector, 0x33);
    assert_eq!(e.attributes, 0);
}

#[test]
fn page_fault_vector_registers_as_present_ring0_interrupt_gate() {
    let mut idt = InterruptDescriptorTable::new();
    idt.register_handler_with_selector(14, 0x08, 0xffff_8000_0010_2030);
    let bytes = idt.entry_bytes(14);
    assert_eq!(bytes.len(), 16);
    assert_eq!(bytes[5], 0x8E);
    assert_eq!(
        bytes,
        vec![0x30, 0x20, 0x08, 0x00, 0x00, 0x8E, 0x10, 0x00, 0x00, 0x80, 0xff, 0xff, 0, 0, 0, 0]
    );
    let all = idt.to_bytes();
    assert_eq!(all.len(), IDT_ENTRIES * ENTRY_SIZE);
    assert_eq!(&all[14 * 16..15 * 16], &bytes[..]);
    assert!(all[..14 * 16].iter().all(|b| *b == 0));
    assert_eq!(idt.entry(13), Entry::new());
}

#[test]
fn register_handler_uses_current_code_selector() {
    let mut idt = InterruptDescriptorTable::new();
    idt.register_handler(3, 0x4000_1000);
    let e = idt.entry(3);
    assert_eq!(e.address(), 0x4000_1000);
    assert_eq!(e.attributes, 0x8E);
    assert_eq!(e.ist, 0);
}

#[test]
fn enable_disable_change_only_the_gate_type() {
    let mut idt = InterruptDescriptorTable::new();
    idt.register_handler_with_selector(8, 0x08, 0x1234);
    idt.disable_interrupts(8);
    assert_eq!(idt.entry(8).attributes, 0x8F);
    idt.enable_interrupts(8);
    assert_eq!(idt.entry(8).attributes, 0x8E);
    idt.set_presentation(8, false);
    assert_eq!(idt.entry(8).attributes, 0x0E);
    idt.disable_interrupts(8);
    assert_eq!(idt.entry(8).attributes, 0x0F);
    idt.set_presentation(8, true);
    assert_eq!(idt.entry(8).attributes, 0x8F);
    assert_eq!(idt.entry(8).address(), 0x1234);
    assert_eq!(idt.entry(8).selector, 0x08);
    assert_eq!(idt.entry(7), Entry::new());
}

#[test]
fn table_limit_for_thirty_two_entries() {
    assert_eq!(InterruptDescriptorTable::limit(), 511);
    let p = InterruptDescriptorTable::pointer(0xffff_8000_0000_1000);
    assert_eq!(p.limit, 511);
    assert_eq!(p.base_addr, 0xffff_8000_0000_1000);
}

#[test]
fn exception_vector_map() {
    for v in [8u8, 10, 11, 12, 13, 14, 17, 30] {
        assert!(has_error_code(v));
        assert!(is_handled(v));
    }
    for v in [0u8, 1, 2, 3, 4, 5, 6, 7, 16, 19, 20] {
        assert!(!has_error_code(v));
        assert!(is_handled(v));
    }
    for v in [9u8, 15, 18, 21, 25, 29] {
        assert!(is_reserved(v));
        assert!(!is_handled(v));
    }
    assert!(!is_reserved(14));
}

#[test]
fn exception_table_registers_handled_vectors_only() {
    let handlers: Vec<u64> = (0..32u64).map(|v| 0x1000 + v * 0x10).collect();
    let idt = build_exception_table(0x08, &handlers);
    for v in 0..32usize {
        let e = idt.entry(v);
        if is_handled(v as u8) {
            assert_eq!(e.address(), 0x1000 + v as u64 * 0x10);
            assert_eq!(e.attributes, 0x8E);
            assert_eq!(e.selector, 0x08);
        } else {
            assert_eq!(e, Entry::new());
        }
    }
    let idt = init_exception_table(&handlers);
    assert_eq!(idt.entry(14).address(), 0x1000 + 14 * 0x10);
    assert_eq!(idt.entry(9), Entry::new());
}

#[test]
fn trampoline_save_and_restore_order() {
    let saved = saved_registers();
    assert_eq!(saved.len(), 15);
    assert_eq!(saved[0], Register::Rax);
    assert_eq!(saved[8], Register::R11);
    assert_eq!(saved[9], Register::Rbx);
    assert_eq!(saved[14], Register::R15);
    let mut reversed = saved.clone();
    reversed.reverse();
    assert_eq!(restored_registers(), reversed);
    assert_eq!(saved_word_of(Register::R15), 0);
    assert_eq!(saved_word_of(Register::Rax), 14);
    assert_eq!(saved_word_of(Register::R11), 6);
}

#[test]
fn trampoline_offsets_and_alignment() {
    assert_eq!(error_code_offset(), 15 * 8);
    assert_eq!(return_frame_offset_words(false), 15);
    assert_eq!(return_frame_offset_words(true), 16);
    assert_eq!(frame_len_words(false), 20);
    assert_eq!(frame_len_words(true), 21);
    assert_eq!(call_padding(false), 0);
    assert_eq!(call_padding(true), 8);
}

fn synthetic_frame_bytes(words: usize) -> Vec<u8> {
    let mut bytes = Vec::new();
    for i in 0..words as u64 {
        bytes.extend_from_slice(&(0x1000_0000_0000_0000u64 + i).to_le_bytes());
    }
    bytes
}

#[test]
fn stack_frame_reads_registers_at_their_offsets() {
    let bytes = synthetic_frame_bytes(20);
    let f = StackFrame::from_bytes(&bytes, false);
    let w = |i: u64| 0x1000_0000_0000_0000u64 + i;
    assert_eq!(f.preserved.r15, w(0));
    assert_eq!(f.preserved.r14, w(1));
    assert_eq!(f.preserved.r13, w(2));
    assert_eq!(f.preserved.r12, w(3));
    assert_eq!(f.preserved.rbp, w(4));
    assert_eq!(f.preserved.rbx, w(5));
    assert_eq!(f.scratch.r11, w(6));
    assert_eq!(f.scratch.r10, w(7));
    assert_eq!(f.scratch.r9, w(8));
    assert_eq!(f.scratch.r8, w(9));
    assert_eq!(f.scratch.rsi, w(10));
    assert_eq!(f.scratch.rdi, w(11));
    assert_eq!(f.scratch.rdx, w(12));
    assert_eq!(f.scratch.rcx, w(13));
    assert_eq!(f.scratch.rax, w(14));
    assert_eq!(f.iret.rip, w(15));
    assert_eq!(f.iret.cs, w(16));
    assert_eq!(f.iret.rflags, w(17));
    assert_eq!(f.iret.rsp, w(18));
    assert_eq!(f.iret.ss, w(19));
    for reg in saved_registers() {
        assert_eq!(f.register(reg), w(saved_word_of(reg) as u64));
    }
}

#[test]
fn stack_frame_with_error_code_skips_it() {
    let bytes = synthetic_frame_bytes(21);
    let f = StackFrame::from_bytes(&bytes, true);
    let w = |i: u64| 0x1000_0000_0000_0000u64 + i;
    assert_eq!(f.scratch.rax, w(14));
    assert_eq!(f.iret.rip, w(16));
    assert_eq!(f.iret.ss, w(20));
    let words: Vec<u64> = (0..21).map(w).collect();
    assert_eq!(StackFrame::from_words(&words, true), f);
}

#[test]
fn register_dump_lines() {
    let s = ScratchRegisters { rax: 0x2a, ..Default::default() };
    let text = String::from_utf8(s.text()).unwrap();
    assert!(text.starts_with("RAX = 0x000000000000002a \nRCX = 0x0000000000000000 \n"));
    assert_eq!(text.lines().count(), 9);
    let i = IretRegisters { rip: 0xffff_8000_dead_beef, cs: 8, rflags: 0x202, rsp: 0, ss: 0x10 };
    assert_eq!(
        String::from_utf8(i.text()).unwrap(),
        "RFLAG = 0x0000000000000202 \nCS    = 0x0000000000000008 \nRIP   = 0xffff8000deadbeef \nRSP   = 0x0000000000000000 \nSS    = 0x0000000000000010 \n"
    );
    let f = StackFrame { iret: i, scratch: s, ..Default::default() };
    let all = String::from_utf8(f.text()).unwrap();
    assert_eq!(all.lines().count(), 20);
    assert!(all.lines().nth(9).unwrap().starts_with("RBX = 0x"));
    assert!(all.ends_with("SS    = 0x0000000000000010 \n"));
}

#[test]
fn writer_writes_on_bottom_row_and_scrolls() {
    let mut w = writer();
    w.write_str("hello");
    assert_eq!(row_text(&w, BUFFER_HEIGHT - 1), "hello");
    assert_eq!(w.column_position(), 5);
    w.write_str("\nworld");
    assert_eq!(row_text(&w, BUFFER_HEIGHT - 2), "hello");
    assert_eq!(row_text(&w, BUFFER_HEIGHT - 1), "world");
    assert_eq!(w.cell(BUFFER_HEIGHT - 1, 0).color_code, ColorCode(0x0e));
}

#[test]
fn writer_replaces_unprintable_bytes() {
    let mut w = writer();
    w.write_str("a\u{e9}b");
    assert_eq!(w.cell(BUFFER_HEIGHT - 1, 0).ascii_character, b'a');
    assert_eq!(w.cell(BUFFER_HEIGHT - 1, 1).ascii_character, PLACEHOLDER);
    assert_eq!(w.cell(BUFFER_HEIGHT - 1, 2).ascii_character, PLACEHOLDER);
    assert_eq!(w.cell(BUFFER_HEIGHT - 1, 3).ascii_character, b'b');
    w.write_byte(0x01);
    assert_eq!(w.cell(BUFFER_HEIGHT - 1, 4).ascii_character, 0x01);
}

#[test]
fn writer_wraps_a_full_row() {
    let mut w = writer();
    let line: String = std::iter::repeat('x').take(BUFFER_WIDTH).collect();
    w.write_str(&line);
    assert_eq!(w.column_position(), BUFFER_WIDTH);
    w.write_str("y");
    assert_eq!(row_text(&w, BUFFER_HEIGHT - 2), line);
    assert_eq!(row_text(&w, BUFFER_HEIGHT - 1), "y");
    assert_eq!(w.column_position(), 1);
}

#[test]
fn color_code_packs_background_high() {
    assert_eq!(ColorCode::new(Color::Yellow, Color::Black), ColorCode(0x0e));
    assert_eq!(ColorCode::new(Color::White, Color::Blue), ColorCode(0x1f));
}

fn sample_frame() -> StackFrame {
    let mut f = StackFrame::default();
    f.iret.rip = 0x20_1234;
    f.iret.ss = 0x10;
    f
}

#[test]
fn divide_by_zero_reports_and_dumps() {
    let mut w = writer();
    divide_by_zero(&sample_frame(), &mut w);
    assert_eq!(row_text(&w, BUFFER_HEIGHT - 1), "");
    assert_eq!(row_text(&w, BUFFER_HEIGHT - 2), "SS    = 0x0000000000000010");
    assert_eq!(row_text(&w, BUFFER_HEIGHT - 21), "RAX = 0x0000000000000000");
    assert_eq!(row_text(&w, BUFFER_HEIGHT - 22), "Register dump:");
    assert_eq!(row_text(&w, BUFFER_HEIGHT - 23), "");
    assert_eq!(row_text(&w, BUFFER_HEIGHT - 24), "");
    assert_eq!(row_text(&w, BUFFER_HEIGHT - 25), "EXCEPTION: DIVIDE BY ZERO");
}

#[test]
fn breakpoint_reports_instruction_pointer() {
    let mut w = writer();
    breakpoint(&sample_frame(), &mut w);
    assert_eq!(row_text(&w, BUFFER_HEIGHT - 22), "Register dump:");
    assert_eq!(row_text(&w, BUFFER_HEIGHT - 24), "EXCEPTION: BREAKPOINT at 0x201234");
}

#[test]
fn double_fault_reports_error_code_in_decimal() {
    let mut w = writer();
    double_fault(&sample_frame(), 1234, &mut w);
    assert_eq!(row_text(&w, BUFFER_HEIGHT - 24), "Double fault occurred! with error code: 1234");
}

#[test]
fn page_fault_report_lines() {
    let mut w = writer();
    let fault = PageFault {
        addr: 0xdeadbeaf,
        error_code_description: PageFaultErrorCode::NonPresentWrite,
        access_mode: AccessMode::User,
        caused_by_instruction_fetch: true,
        reserved: false,
    };
    let mut f = sample_frame();
    f.scratch.rax = 1;
    report_page_fault(&fault, &f, &mut w);
    assert_eq!(row_text(&w, 0), "Reserved mode: false");
    assert_eq!(row_text(&w, 1), "");
    assert_eq!(row_text(&w, 2), "Caused by instruction fetch");
    assert_eq!(row_text(&w, 3), "Register dump:");
    assert_eq!(row_text(&w, 4), "RAX = 0x0000000000000001");
    assert_eq!(row_text(&w, 24), "");
    let heading = String::from_utf8(page_fault_heading_text(&fault)).unwrap();
    assert_eq!(
        heading,
        "\nEXCEPTION: PAGE FAULT while accessing 0xdeadbeaf with error \"NonPresentWrite\"\nAccess mode: User\nReserved mode: false\n\nCaused by instruction fetch\n"
    );
    let plain = PageFaultBuilder::build_with_address(0x9, 0x0);
    assert_eq!(
        String::from_utf8(page_fault_heading_text(&plain)).unwrap(),
        "\nEXCEPTION: PAGE FAULT while accessing 0x0 with error \"ProtectionViolationRead\"\nAccess mode: Supervisor\nReserved mode: true\n\n"
    );
}

#[test]
fn debug_writes_nothing() {
    let mut w = writer();
    w.write_str("x");
    debug(&sample_frame(), &mut w);
    assert_eq!(row_text(&w, BUFFER_HEIGHT - 1), "x");
    assert_eq!(w.column_position(), 1);
}

#[test]
fn report_exception_dispatches_by_vector() {
    let mut w = writer();
    report_exception(13, 7, &sample_frame(), &mut w);
    assert_eq!(row_text(&w, BUFFER_HEIGHT - 24), "general protection fault with error code: 7");
    let mut w = writer();
    report_exception(6, 0, &sample_frame(), &mut w);
    assert_eq!(row_text(&w, BUFFER_HEIGHT - 24), "Invalid opcode exception!");
    for v in [1u8, 9, 15, 31] {
        let mut w = writer();
        w.write_str("x");
        report_exception(v, 0, &sample_frame(), &mut w);
        assert_eq!(row_text(&w, BUFFER_HEIGHT - 1), "x");
        assert_eq!(w.column_position(), 1);
    }
}
