//! Descriptor tables: a minimal CPU descriptor table granting code-execution
//! privilege, and a task-state record carrying one reserved alternate stack
//! for the double-fault handler.
//!
//! `build` is pure construction; `init` marks the one-time installation into
//! CPU state, which the unverified shell performs through the privileged
//! load instructions with exactly the selectors built here.
use vstd::prelude::*;

verus! {

/// Slot of the task-state record's stack table reserved for the
/// double-fault handler's alternate stack.
pub const DOUBLE_FAULT_IST_INDEX: u16 = 0;

/// Number of slots in the task-state record's stack table.
pub const IST_ENTRIES: usize = 7;

/// Size in bytes of the reserved alternate stack.
pub const STACK_SIZE: usize = 4 * 1024;

/// Most entries a descriptor table can hold.
pub const MAX_TABLE_ENTRIES: usize = 8;

/// The statically reserved byte region used only while servicing a double
/// fault. Its size is fixed at build time and its base address is stable for
/// the process lifetime; the shell owns the actual bytes.
pub struct AlternateStack {
    base: u64,
}

impl AlternateStack {
    /// Lowest address of the region.
    pub closed spec fn spec_base(self) -> u64 {
        self.base
    }

    /// Address one past the region. Stacks grow downward, so this is the
    /// stack pointer the handler starts from.
    pub open spec fn spec_top(self) -> int {
        self.spec_base() + STACK_SIZE
    }

    /// The whole region lies inside the address space.
    pub open spec fn wf(self) -> bool {
        self.spec_base() + STACK_SIZE <= u64::MAX
    }

    /// Reserves the fixed-size region starting at `base`.
    pub fn new(base: u64) -> (st: AlternateStack)
        requires
            base + STACK_SIZE <= u64::MAX,
        ensures
            st.wf(),
            st.spec_base() == base,
    {
        AlternateStack { base }
    }

    /// Address one past the region.
    pub fn top(&self) -> (t: u64)
        requires
            self.wf(),
        ensures
            t == self.spec_top(),
    {
        self.base + (STACK_SIZE as u64)
    }
}

/// CPU task-state record: a table mapping small stack indices to alternate
/// stack-top addresses. Zero marks an unpopulated slot.
pub struct TaskStateRecord {
    interrupt_stack_table: Vec<u64>,
}

impl View for TaskStateRecord {
    type V = Seq<u64>;

    closed spec fn view(&self) -> Seq<u64> {
        self.interrupt_stack_table@
    }
}

impl TaskStateRecord {
    /// The table has exactly one slot per stack index.
    pub open spec fn wf(self) -> bool {
        self@.len() == IST_ENTRIES
    }

    /// A record with every slot unpopulated.
    pub fn new() -> (t: TaskStateRecord)
        ensures
            t.wf(),
            forall|i: int| 0 <= i < IST_ENTRIES ==> t@[i] == 0,
    {
        let mut interrupt_stack_table: Vec<u64> = Vec::new();
        let mut i: usize = 0;
        while i < IST_ENTRIES
            invariant
                i <= IST_ENTRIES,
                interrupt_stack_table@.len() == i,
                forall|j: int| 0 <= j < i ==> interrupt_stack_table@[j] == 0,
            decreases IST_ENTRIES - i,
        {
            interrupt_stack_table.push(0);
            i = i + 1;
        }
        TaskStateRecord { interrupt_stack_table }
    }

    /// Populates slot `index` with a stack-top address.
    pub fn set_stack_top(&mut self, index: u16, top: u64)
        requires
            old(self).wf(),
            index < IST_ENTRIES,
        ensures
            final(self).wf(),
            final(self)@ == old(self)@.update(index as int, top),
    {
        self.interrupt_stack_table[index as usize] = top;
    }

    /// The stack-top address held in slot `index`.
    pub fn stack_top(&self, index: u16) -> (t: u64)
        requires
            self.wf(),
            index < IST_ENTRIES,
        ensures
            t == self@[index as int],
    {
        self.interrupt_stack_table[index as usize]
    }
}

/// A descriptor of an execution-privilege region: the flat kernel code
/// segment, or the entry pointing at the task-state record. Immutable after
/// construction.
#[derive(Debug, Copy, Clone, PartialEq, Eq, Structural)]
pub enum SegmentDescriptor {
    KernelCode,
    TaskState,
}

/// Names one descriptor of the table it was produced by. Selectors are only
/// ever produced paired with that table, so supplying a stale or mismatched
/// one is prevented by construction, not by runtime checks.
#[derive(Debug, Copy, Clone, PartialEq, Eq, Structural)]
pub struct SegmentSelector {
    index: u16,
}

impl SegmentSelector {
    /// Position of the named descriptor in its table.
    pub closed spec fn spec_index(self) -> int {
        self.index as int
    }

    /// Position of the named descriptor in its table.
    pub fn index(&self) -> (i: u16)
        ensures
            i as int == self.spec_index(),
    {
        self.index
    }
}

/// The descriptor table under construction.
pub struct DescriptorTable {
    entries: Vec<SegmentDescriptor>,
}

impl View for DescriptorTable {
    type V = Seq<SegmentDescriptor>;

    closed spec fn view(&self) -> Seq<SegmentDescriptor> {
        self.entries@
    }
}

impl DescriptorTable {
    /// The table never outgrows the CPU's limit.
    pub open spec fn wf(self) -> bool {
        self@.len() <= MAX_TABLE_ENTRIES
    }

    /// An empty table.
    pub fn new() -> (t: DescriptorTable)
        ensures
            t.wf(),
            t@ == Seq::<SegmentDescriptor>::empty(),
    {
        DescriptorTable { entries: Vec::new() }
    }

    /// Number of descriptors in the table.
    pub fn len(&self) -> (n: usize)
        ensures
            n == self@.len(),
    {
        self.entries.len()
    }

    /// The descriptor at position `i`.
    pub fn descriptor_at(&self, i: usize) -> (d: SegmentDescriptor)
        requires
            i < self@.len(),
        ensures
            d == self@[i as int],
    {
        self.entries[i]
    }

    /// Appends a descriptor and returns the selector naming it in this
    /// table.
    pub fn add_entry(&mut self, d: SegmentDescriptor) -> (s: SegmentSelector)
        requires
            old(self).wf(),
            old(self)@.len() < MAX_TABLE_ENTRIES,
        ensures
            final(self).wf(),
            final(self)@ == old(self)@.push(d),
            s.spec_index() == old(self)@.len(),
    {
        let index = self.entries.len() as u16;
        self.entries.push(d);
        SegmentSelector { index }
    }
}

/// Everything `build` produces, kept together so the selectors can never be
/// separated from the table they index: the descriptor table, the code and
/// task-state selectors, the task-state record with its one populated slot,
/// the reserved alternate stack, and whether `init` has run.
pub struct Gdt {
    table: DescriptorTable,
    code_selector: SegmentSelector,
    tss_selector: SegmentSelector,
    tss: TaskStateRecord,
    alternate_stack: AlternateStack,
    loaded: bool,
}

impl Gdt {
    /// Whether `init` has installed this table into CPU state.
    pub closed spec fn spec_loaded(self) -> bool {
        self.loaded
    }

    /// The descriptors of the table.
    pub closed spec fn spec_table(self) -> Seq<SegmentDescriptor> {
        self.table@
    }

    /// The task-state record's stack table.
    pub closed spec fn spec_tss(self) -> Seq<u64> {
        self.tss@
    }

    /// Index of the code-segment descriptor.
    pub closed spec fn spec_code_selector(self) -> int {
        self.code_selector.spec_index()
    }

    /// Index of the task-state descriptor.
    pub closed spec fn spec_tss_selector(self) -> int {
        self.tss_selector.spec_index()
    }

    /// Base address of the reserved alternate stack.
    pub closed spec fn spec_stack_base(self) -> u64 {
        self.alternate_stack.spec_base()
    }

    /// Invariant established by `build` and kept for the process lifetime:
    /// the selectors name a code descriptor and a task-state descriptor of
    /// this very table, and exactly one stack slot — the double-fault one —
    /// is populated, with the top of the reserved region.
    pub open spec fn wf(self) -> bool {
        &&& self.spec_table().len() <= MAX_TABLE_ENTRIES
        &&& 0 <= self.spec_code_selector() < self.spec_table().len()
        &&& 0 <= self.spec_tss_selector() < self.spec_table().len()
        &&& self.spec_code_selector() != self.spec_tss_selector()
        &&& self.spec_table()[self.spec_code_selector()] == SegmentDescriptor::KernelCode
        &&& self.spec_table()[self.spec_tss_selector()] == SegmentDescriptor::TaskState
        &&& self.spec_tss().len() == IST_ENTRIES
        &&& self.spec_stack_base() + STACK_SIZE <= u64::MAX
        &&& self.spec_tss()[DOUBLE_FAULT_IST_INDEX as int] == self.spec_stack_base() + STACK_SIZE
        &&& forall|i: int|
            0 <= i < IST_ENTRIES && i != DOUBLE_FAULT_IST_INDEX ==> self.spec_tss()[i] == 0
    }

    /// The stack-top address held in stack slot `index`.
    pub fn stack_top_at(&self, index: u16) -> (t: u64)
        requires
            self.wf(),
            index < IST_ENTRIES,
        ensures
            t == self.spec_tss()[index as int],
    {
        self.tss.stack_top(index)
    }

    /// Number of descriptors in the table.
    pub fn table_len(&self) -> (n: usize)
        ensures
            n == self.spec_table().len(),
    {
        self.table.len()
    }

    /// The descriptor at position `i` of the table.
    pub fn descriptor_at(&self, i: usize) -> (d: SegmentDescriptor)
        requires
            i < self.spec_table().len(),
        ensures
            d == self.spec_table()[i as int],
    {
        self.table.descriptor_at(i)
    }

    /// Index of the code-segment descriptor.
    pub fn code_selector_index(&self) -> (i: u16)
        ensures
            i as int == self.spec_code_selector(),
    {
        self.code_selector.index()
    }

    /// Index of the task-state descriptor.
    pub fn tss_selector_index(&self) -> (i: u16)
        ensures
            i as int == self.spec_tss_selector(),
    {
        self.tss_selector.index()
    }

    /// Whether `init` has installed this table into CPU state.
    pub fn is_loaded(&self) -> (l: bool)
        ensures
            l == self.spec_loaded(),
    {
        self.loaded
    }
}

/// Pure construction: reserves the fixed-size alternate stack at `stack_base`,
/// computes its top into the double-fault slot of the task-state record, and
/// lays out a table with the flat code descriptor and the task-state
/// descriptor, returning the selectors paired with it.
pub fn build(stack_base: u64) -> (g: Gdt)
    requires
        stack_base + STACK_SIZE <= u64::MAX,
    ensures
        g.wf(),
        !g.spec_loaded(),
        g.spec_stack_base() == stack_base,
        g.spec_tss()[DOUBLE_FAULT_IST_INDEX as int] == stack_base + STACK_SIZE,
        g.spec_table() == seq![SegmentDescriptor::KernelCode, SegmentDescriptor::TaskState],
        g.spec_code_selector() == 0,
        g.spec_tss_selector() == 1,
{
    let alternate_stack = AlternateStack::new(stack_base);
    let mut tss = TaskStateRecord::new();
    tss.set_stack_top(DOUBLE_FAULT_IST_INDEX, alternate_stack.top());
    let mut table = DescriptorTable::new();
    let code_selector = table.add_entry(SegmentDescriptor::KernelCode);
    let tss_selector = table.add_entry(SegmentDescriptor::TaskState);
    Gdt { table, code_selector, tss_selector, tss, alternate_stack, loaded: false }
}

/// Installs the built table into processor state. Must run exactly once,
/// before any exception can reach the double-fault vector — in particular
/// strictly before the interrupt vector table is loaded. The shell performs
/// the privileged loads (table pointer, code-segment register, task
/// register) with the selectors this value pairs with its table.
pub fn init(gdt: &mut Gdt)
    requires
        old(gdt).wf(),
        !old(gdt).spec_loaded(),
    ensures
        final(gdt).wf(),
        final(gdt).spec_loaded(),
        final(gdt).spec_table() == old(gdt).spec_table(),
        final(gdt).spec_tss() == old(gdt).spec_tss(),
        final(gdt).spec_code_selector() == old(gdt).spec_code_selector(),
        final(gdt).spec_tss_selector() == old(gdt).spec_tss_selector(),
        final(gdt).spec_stack_base() == old(gdt).spec_stack_base(),
{
    gdt.loaded = true;
}

} // verus!
