use rustos::gdt::{self, SegmentDescriptor, DOUBLE_FAULT_IST_INDEX, IST_ENTRIES, STACK_SIZE};
use rustos::interrupts::{
    self, FaultEvent, FaultOutcome, HandlerKind, StackFrameRecord, BREAKPOINT_VECTOR,
    DOUBLE_FAULT_VECTOR, VECTOR_COUNT,
};
use rustos::vga_buffer::{Colour, ColourCode, Writer, BUF_HEIGHT};
use rustos::QemuExitCode;

fn frame() -> StackFrameRecord {
    StackFrameRecord { instruction_pointer: 0x40_1234, stack_pointer: 0x7f_0000, cpu_flags: 0x202 }
}

#[test]
fn build_reserves_one_alternate_stack() {
    let g = gdt::build(0x1000);
    assert_eq!(STACK_SIZE, 4096);
    assert_eq!(g.stack_top_at(DOUBLE_FAULT_IST_INDEX), 0x1000 + 4096);
    for i in 0..IST_ENTRIES as u16 {
        if i != DOUBLE_FAULT_IST_INDEX {
            assert_eq!(g.stack_top_at(i), 0);
        }
    }
    assert_ne!(g.code_selector_index(), g.tss_selector_index());
    assert!(!g.is_loaded());
}

#[test]
fn init_loads_the_tables_in_order() {
    let mut g = gdt::build(0x1000);
    gdt::init(&mut g);
    assert!(g.is_loaded());

    let mut idt = interrupts::build();
    assert!(!idt.is_loaded());
    interrupts::init_idt(&mut idt, &g);
    assert!(idt.is_loaded());
}

#[test]
fn built_vector_table_populates_exactly_two_entries() {
    let idt = interrupts::build();
    let bp = idt.entry_at(BREAKPOINT_VECTOR).unwrap();
    assert_eq!(bp.handler, HandlerKind::Resumable);
    assert_eq!(bp.stack_index, None);
    let df = idt.entry_at(DOUBLE_FAULT_VECTOR).unwrap();
    assert_eq!(df.handler, HandlerKind::Fatal);
    assert_eq!(df.stack_index, Some(DOUBLE_FAULT_IST_INDEX));
    for v in 0..VECTOR_COUNT {
        if v != BREAKPOINT_VECTOR && v != DOUBLE_FAULT_VECTOR {
            assert!(idt.entry_at(v).is_none());
        }
    }
}

#[test]
fn double_fault_is_handled_on_the_alternate_stack() {
    // The fatal-fault scenario: stack growth has exhausted the normal stack
    // before the fault is served. After the boot sequence the fatal handler
    // still runs — on the reserved alternate stack — and the fault is
    // reported exactly once, never escalating to a reset.
    let mut g = gdt::build(0x1000);
    gdt::init(&mut g);
    let mut idt = interrupts::build();
    interrupts::init_idt(&mut idt, &g);

    let ev = FaultEvent::DoubleFault {
        frame: frame(),
        error_code: 0,
        normal_stack_exhausted: true,
    };
    let mut reports = 0;
    let outcome = interrupts::deliver(&idt, &g, &ev);
    match outcome {
        FaultOutcome::Halted { diagnostic, stack_top } => {
            reports += 1;
            assert_eq!(stack_top, g.stack_top_at(DOUBLE_FAULT_IST_INDEX));
            assert_eq!(diagnostic.instruction_pointer, frame().instruction_pointer);
            assert_eq!(diagnostic.error_code, Some(0));
        }
        FaultOutcome::Resumed { .. } => panic!("a double fault must not resume"),
        FaultOutcome::Reset => panic!("a double fault must not escalate to a reset"),
    }
    assert_eq!(reports, 1);
}

#[test]
fn double_fault_never_resumes_whatever_the_stack_state() {
    // Whether or not the normal stack is exhausted, the bound alternate
    // stack serves the fatal handler and the outcome is a halt, never a
    // resume and never a reset.
    let mut g = gdt::build(0x1000);
    gdt::init(&mut g);
    let mut idt = interrupts::build();
    interrupts::init_idt(&mut idt, &g);
    for exhausted in [false, true] {
        let ev = FaultEvent::DoubleFault {
            frame: frame(),
            error_code: 7,
            normal_stack_exhausted: exhausted,
        };
        let outcome = interrupts::deliver(&idt, &g, &ev);
        match outcome {
            FaultOutcome::Halted { diagnostic, stack_top } => {
                assert_eq!(stack_top, 0x1000 + 4096);
                assert_eq!(diagnostic.error_code, Some(7));
            }
            _ => panic!("a double fault must halt"),
        }
    }
    assert_eq!(
        idt.entry_at(DOUBLE_FAULT_VECTOR).unwrap().stack_index,
        Some(DOUBLE_FAULT_IST_INDEX)
    );
}

#[test]
fn breakpoint_resumes_at_the_following_instruction() {
    // The resumable-fault scenario: the handler runs once, and the flow
    // continues at the saved instruction pointer — the instruction after the
    // trap — confirmed by one subsequent console write landing exactly once.
    let mut g = gdt::build(0x2000);
    gdt::init(&mut g);
    let mut idt = interrupts::build();
    interrupts::init_idt(&mut idt, &g);

    let ev = FaultEvent::Breakpoint { frame: frame() };
    let mut runs = 0;
    let outcome = interrupts::deliver(&idt, &g, &ev);
    match outcome {
        FaultOutcome::Resumed { diagnostic, resume_at } => {
            runs += 1;
            assert_eq!(resume_at, frame().instruction_pointer);
            assert_eq!(diagnostic.instruction_pointer, frame().instruction_pointer);
            assert_eq!(diagnostic.cpu_flags, frame().cpu_flags);
            assert_eq!(diagnostic.error_code, None);
        }
        _ => panic!("a breakpoint trap must resume"),
    }
    assert_eq!(runs, 1);

    // Execution resumed: the next deterministic side effect happens exactly
    // once — one cell written, one column advanced.
    let mut w = Writer::new(ColourCode::new(Colour::Green, Colour::Black));
    w.write_byte(b'R');
    assert_eq!(w.cell_at(BUF_HEIGHT - 1, 0).ascii_char, b'R');
    assert_eq!(w.cell_at(BUF_HEIGHT - 1, 1).ascii_char, 0x20);
    assert_eq!(w.get_column_pos(), 1);
}

#[test]
fn selectors_pair_with_the_table_built() {
    let g = gdt::build(0x3000);
    // Both descriptors sit in the table, at the positions the selectors name.
    assert_eq!(g.table_len(), 2);
    assert_eq!(g.code_selector_index(), 0);
    assert_eq!(g.tss_selector_index(), 1);
    assert_eq!(g.descriptor_at(0), SegmentDescriptor::KernelCode);
    assert_eq!(g.descriptor_at(1), SegmentDescriptor::TaskState);
}

#[test]
fn exit_codes_match_the_exit_device_protocol() {
    assert_eq!(QemuExitCode::Success.code(), 0x10);
    assert_eq!(QemuExitCode::Failure.code(), 0x11);
    assert_ne!(QemuExitCode::Success, QemuExitCode::Failure);
}
