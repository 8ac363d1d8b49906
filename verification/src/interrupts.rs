//! Interrupt vector table: binds the two in-scope exceptions to their
//! handlers — a resumable one for breakpoint traps and a fatal one for
//! double faults, the latter pinned to the reserved alternate stack so that
//! a fault caused by exhaustion of the normal stack cannot fault again on
//! the same resource and escalate to an unrecoverable processor reset.
use crate::gdt::{Gdt, DOUBLE_FAULT_IST_INDEX, IST_ENTRIES, STACK_SIZE};
use vstd::prelude::*;

verus! {

/// Exception number of the breakpoint/debug trap.
pub const BREAKPOINT_VECTOR: usize = 3;

/// Exception number of the double fault.
pub const DOUBLE_FAULT_VECTOR: usize = 8;

/// Number of exception/interrupt vectors of the table.
pub const VECTOR_COUNT: usize = 256;

/// What a handler does with the interrupted flow.
#[derive(Debug, Copy, Clone, PartialEq, Eq, Structural)]
pub enum HandlerKind {
    /// Reports a diagnostic and returns to the interrupted instruction flow.
    Resumable,
    /// Reports a diagnostic and terminates the process; never returns.
    Fatal,
}

/// One populated vector: the handler bound to it, and the optional index of
/// the task-state stack slot the CPU switches to before entering it.
#[derive(Debug, Copy, Clone, PartialEq, Eq, Structural)]
pub struct VectorEntry {
    pub handler: HandlerKind,
    pub stack_index: Option<u16>,
}

/// The interrupted-instruction frame captured at exception entry. For a
/// breakpoint trap the saved instruction pointer already names the
/// instruction following the trap.
#[derive(Debug, Copy, Clone, PartialEq, Eq, Structural)]
pub struct StackFrameRecord {
    pub instruction_pointer: u64,
    pub stack_pointer: u64,
    pub cpu_flags: u64,
}

/// What a handler reports through the out-of-band diagnostic channel.
#[derive(Debug, Copy, Clone, PartialEq, Eq, Structural)]
pub struct DiagnosticRecord {
    pub instruction_pointer: u64,
    pub cpu_flags: u64,
    pub error_code: Option<u64>,
}

/// A hardware-raised exception in scope.
#[derive(Debug, Copy, Clone, PartialEq, Eq, Structural)]
pub enum FaultEvent {
    /// A software-triggered, resumable debug trap.
    Breakpoint { frame: StackFrameRecord },
    /// A fault raised while already servicing a fault.
    /// `normal_stack_exhausted` says whether the normal stack can still take
    /// one more exception frame.
    DoubleFault { frame: StackFrameRecord, error_code: u64, normal_stack_exhausted: bool },
}

/// The fate of the interrupted flow after delivery of one exception.
#[derive(Debug, Copy, Clone, PartialEq, Eq, Structural)]
pub enum FaultOutcome {
    /// The resumable handler ran once, reported `diagnostic`, and execution
    /// continues at `resume_at`.
    Resumed { diagnostic: DiagnosticRecord, resume_at: u64 },
    /// The fatal handler ran once on the stack whose top is `stack_top`,
    /// reported `diagnostic`, and the process halted permanently.
    Halted { diagnostic: DiagnosticRecord, stack_top: u64 },
    /// No valid stack could take the exception frame: the processor resets,
    /// outside software control. Delivery from a well-built, loaded table
    /// never reaches this.
    Reset,
}

/// The interrupt vector table, populated by `build` and installed once by
/// `init_idt`. States: unloaded, then loaded — terminal, there is no unload.
pub struct InterruptVectorTable {
    entries: Vec<Option<VectorEntry>>,
    loaded: bool,
}

impl View for InterruptVectorTable {
    type V = Seq<Option<VectorEntry>>;

    closed spec fn view(&self) -> Seq<Option<VectorEntry>> {
        self.entries@
    }
}

impl InterruptVectorTable {
    /// The table has exactly one entry per vector.
    pub open spec fn wf(self) -> bool {
        self@.len() == VECTOR_COUNT
    }

    /// Whether `init_idt` has installed this table into CPU state.
    pub closed spec fn spec_loaded(self) -> bool {
        self.loaded
    }

    /// Whether `init_idt` has installed this table into CPU state.
    pub fn is_loaded(&self) -> (l: bool)
        ensures
            l == self.spec_loaded(),
    {
        self.loaded
    }

    /// The entry bound to vector `v`.
    pub fn entry_at(&self, v: usize) -> (e: Option<VectorEntry>)
        requires
            self.wf(),
            v < VECTOR_COUNT,
        ensures
            e == self@[v as int],
    {
        self.entries[v]
    }
}

/// Populates the breakpoint vector with the resumable handler and the
/// double-fault vector with the fatal handler bound to the reserved
/// alternate-stack slot; every other vector stays empty.
pub fn build() -> (t: InterruptVectorTable)
    ensures
        t.wf(),
        !t.spec_loaded(),
        t@[BREAKPOINT_VECTOR as int] == Some(
            VectorEntry { handler: HandlerKind::Resumable, stack_index: None },
        ),
        t@[DOUBLE_FAULT_VECTOR as int] == Some(
            VectorEntry { handler: HandlerKind::Fatal, stack_index: Some(DOUBLE_FAULT_IST_INDEX) },
        ),
        forall|v: int|
            0 <= v < VECTOR_COUNT && v != BREAKPOINT_VECTOR && v != DOUBLE_FAULT_VECTOR ==> t@[v]
                is None,
{
    let mut entries: Vec<Option<VectorEntry>> = Vec::new();
    let mut i: usize = 0;
    while i < VECTOR_COUNT
        invariant
            i <= VECTOR_COUNT,
            entries@.len() == i,
            forall|j: int| 0 <= j < i ==> entries@[j] is None,
        decreases VECTOR_COUNT - i,
    {
        entries.push(None);
        i = i + 1;
    }
    entries[BREAKPOINT_VECTOR] = Some(
        VectorEntry { handler: HandlerKind::Resumable, stack_index: None },
    );
    entries[DOUBLE_FAULT_VECTOR] = Some(
        VectorEntry { handler: HandlerKind::Fatal, stack_index: Some(DOUBLE_FAULT_IST_INDEX) },
    );
    InterruptVectorTable { entries, loaded: false }
}

/// Installs the table into the CPU's interrupt table register. Call once;
/// the descriptor tables must already be installed, or the alternate-stack
/// slot the double-fault vector names would not yet exist in CPU state.
pub fn init_idt(idt: &mut InterruptVectorTable, gdt: &Gdt)
    requires
        old(idt).wf(),
        !old(idt).spec_loaded(),
        gdt.wf(),
        gdt.spec_loaded(),
    ensures
        final(idt).wf(),
        final(idt).spec_loaded(),
        final(idt)@ == old(idt)@,
{
    idt.loaded = true;
}

/// Relation between the interrupted frame and what the resumable handler
/// reports.
pub open spec fn spec_breakpoint_diagnostic(frame: StackFrameRecord) -> DiagnosticRecord {
    DiagnosticRecord {
        instruction_pointer: frame.instruction_pointer,
        cpu_flags: frame.cpu_flags,
        error_code: None,
    }
}

/// Relation between the interrupted frame, the error code, and what the
/// fatal handler reports.
pub open spec fn spec_double_fault_diagnostic(
    frame: StackFrameRecord,
    error_code: u64,
) -> DiagnosticRecord {
    DiagnosticRecord {
        instruction_pointer: frame.instruction_pointer,
        cpu_flags: frame.cpu_flags,
        error_code: Some(error_code),
    }
}

/// The resumable breakpoint handler: captures the frame and produces the
/// diagnostic record to be emitted; the interrupted flow then continues.
pub fn breakpoint_handler(frame: &StackFrameRecord) -> (d: DiagnosticRecord)
    ensures
        d == spec_breakpoint_diagnostic(*frame),
{
    DiagnosticRecord {
        instruction_pointer: frame.instruction_pointer,
        cpu_flags: frame.cpu_flags,
        error_code: None,
    }
}

/// The fatal double-fault handler: captures the frame and the error code and
/// produces the diagnostic record to be emitted; the faulting flow is never
/// resumed.
pub fn double_fault_handler(frame: &StackFrameRecord, error_code: u64) -> (d: DiagnosticRecord)
    ensures
        d == spec_double_fault_diagnostic(*frame, error_code),
{
    DiagnosticRecord {
        instruction_pointer: frame.instruction_pointer,
        cpu_flags: frame.cpu_flags,
        error_code: Some(error_code),
    }
}

/// Fate of one exception delivered against a vector table and a task-state
/// stack table. A missing entry, or a double fault with no stack able to
/// take the frame, collapses to `Reset`: the unrecoverable outcome delivery
/// from a well-built table never reaches.
pub open spec fn spec_deliver(
    entries: Seq<Option<VectorEntry>>,
    stack_table: Seq<u64>,
    ev: FaultEvent,
) -> FaultOutcome {
    match ev {
        FaultEvent::Breakpoint { frame } => match entries[BREAKPOINT_VECTOR as int] {
            Some(_) => FaultOutcome::Resumed {
                diagnostic: spec_breakpoint_diagnostic(frame),
                resume_at: frame.instruction_pointer,
            },
            None => FaultOutcome::Reset,
        },
        FaultEvent::DoubleFault { frame, error_code, normal_stack_exhausted } => match entries[
            DOUBLE_FAULT_VECTOR as int
        ] {
            Some(e) => match e.stack_index {
                Some(i) => if i < IST_ENTRIES && stack_table[i as int] != 0 {
                    FaultOutcome::Halted {
                        diagnostic: spec_double_fault_diagnostic(frame, error_code),
                        stack_top: stack_table[i as int],
                    }
                } else {
                    FaultOutcome::Reset
                },
                None => if normal_stack_exhausted {
                    FaultOutcome::Reset
                } else {
                    FaultOutcome::Halted {
                        diagnostic: spec_double_fault_diagnostic(frame, error_code),
                        stack_top: frame.stack_pointer,
                    }
                },
            },
            None => FaultOutcome::Reset,
        },
    }
}

/// Delivers one exception against the loaded vector table: looks the vector
/// up, switches to the named alternate stack where one is bound, and runs
/// the handler once.
pub fn deliver(idt: &InterruptVectorTable, gdt: &Gdt, ev: &FaultEvent) -> (o: FaultOutcome)
    requires
        idt.wf(),
        idt.spec_loaded(),
        gdt.wf(),
    ensures
        o == spec_deliver(idt@, gdt.spec_tss(), *ev),
{
    match ev {
        FaultEvent::Breakpoint { frame } => match idt.entry_at(BREAKPOINT_VECTOR) {
            Some(_) => {
                let diagnostic = breakpoint_handler(frame);
                FaultOutcome::Resumed { diagnostic, resume_at: frame.instruction_pointer }
            },
            None => FaultOutcome::Reset,
        },
        FaultEvent::DoubleFault { frame, error_code, normal_stack_exhausted } => match idt.entry_at(
            DOUBLE_FAULT_VECTOR,
        ) {
            Some(e) => match e.stack_index {
                Some(i) => {
                    if i < IST_ENTRIES as u16 && gdt.stack_top_at(i) != 0 {
                        let diagnostic = double_fault_handler(frame, *error_code);
                        FaultOutcome::Halted { diagnostic, stack_top: gdt.stack_top_at(i) }
                    } else {
                        FaultOutcome::Reset
                    }
                },
                None => {
                    if *normal_stack_exhausted {
                        FaultOutcome::Reset
                    } else {
                        let diagnostic = double_fault_handler(frame, *error_code);
                        FaultOutcome::Halted { diagnostic, stack_top: frame.stack_pointer }
                    }
                },
            },
            None => FaultOutcome::Reset,
        },
    }
}

/// Law: with the tables as the boot sequence builds them — the double-fault
/// vector bound to the fatal handler and to the populated alternate-stack
/// slot — a double fault is handled on the reserved alternate stack and
/// reported exactly once, even when the normal stack is exhausted; it never
/// escalates to a processor reset.
pub proof fn lemma_double_fault_isolated(
    entries: Seq<Option<VectorEntry>>,
    stack_table: Seq<u64>,
    frame: StackFrameRecord,
    error_code: u64,
    normal_stack_exhausted: bool,
)
    requires
        entries.len() == VECTOR_COUNT,
        entries[DOUBLE_FAULT_VECTOR as int] == Some(
            VectorEntry { handler: HandlerKind::Fatal, stack_index: Some(DOUBLE_FAULT_IST_INDEX) },
        ),
        stack_table.len() == IST_ENTRIES,
        stack_table[DOUBLE_FAULT_IST_INDEX as int] != 0,
    ensures
        ({
            let o = spec_deliver(
                entries,
                stack_table,
                FaultEvent::DoubleFault { frame, error_code, normal_stack_exhausted },
            );
            &&& o == (FaultOutcome::Halted {
                diagnostic: spec_double_fault_diagnostic(frame, error_code),
                stack_top: stack_table[DOUBLE_FAULT_IST_INDEX as int],
            })
            &&& !(o is Reset)
        }),
{
}

/// Law: for tables as the boot sequence leaves them — any well-formed
/// descriptor state and any vector table with the double-fault binding
/// `build` creates — a double fault halts on the top of the reserved
/// alternate stack, whose populated slot can never read as empty.
pub proof fn lemma_boot_double_fault_isolated(
    g: Gdt,
    t: InterruptVectorTable,
    frame: StackFrameRecord,
    error_code: u64,
    normal_stack_exhausted: bool,
)
    requires
        g.wf(),
        t.wf(),
        t@[DOUBLE_FAULT_VECTOR as int] == Some(
            VectorEntry { handler: HandlerKind::Fatal, stack_index: Some(DOUBLE_FAULT_IST_INDEX) },
        ),
    ensures
        spec_deliver(
            t@,
            g.spec_tss(),
            FaultEvent::DoubleFault { frame, error_code, normal_stack_exhausted },
        ) == (FaultOutcome::Halted {
            diagnostic: spec_double_fault_diagnostic(frame, error_code),
            stack_top: g.spec_tss()[DOUBLE_FAULT_IST_INDEX as int],
        }),
        g.spec_tss()[DOUBLE_FAULT_IST_INDEX as int] != 0,
{
    assert(g.spec_tss()[DOUBLE_FAULT_IST_INDEX as int] == g.spec_stack_base() + STACK_SIZE);
    lemma_double_fault_isolated(t@, g.spec_tss(), frame, error_code, normal_stack_exhausted);
}

/// Law: a breakpoint trap from a table with the breakpoint vector bound is
/// resumable: the handler runs once, reports the frame's address and flags,
/// and execution continues at the saved instruction pointer — the
/// instruction following the trap.
pub proof fn lemma_breakpoint_resumes(
    entries: Seq<Option<VectorEntry>>,
    stack_table: Seq<u64>,
    frame: StackFrameRecord,
)
    requires
        entries.len() == VECTOR_COUNT,
        entries[BREAKPOINT_VECTOR as int] is Some,
    ensures
        spec_deliver(entries, stack_table, FaultEvent::Breakpoint { frame })
            == (FaultOutcome::Resumed {
            diagnostic: spec_breakpoint_diagnostic(frame),
            resume_at: frame.instruction_pointer,
        }),
{
}

} // verus!
