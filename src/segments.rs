//! The global descriptor table, the task state segment with its
//! double-fault stack, and the selectors that index the table.
use vstd::prelude::*;
use x86_64::structures::gdt::{Descriptor, GlobalDescriptorTable};
use x86_64::structures::tss::TaskStateSegment;
use x86_64::VirtAddr;

verus! {

/// `x86_64::structures::gdt::GlobalDescriptorTable`, carried as an opaque value.
#[verifier::external_type_specification]
#[verifier::external_body]
pub struct ExGlobalDescriptorTable(GlobalDescriptorTable);

/// `x86_64::structures::gdt::Descriptor`, whose two public variants hold
/// the descriptor's 64-bit words.
#[verifier::external_type_specification]
pub struct ExDescriptor(Descriptor);

/// `x86_64::structures::tss::TaskStateSegment`, carried as an opaque value.
#[verifier::external_type_specification]
#[verifier::external_body]
pub struct ExTaskStateSegment(TaskStateSegment);

/// The 64-bit slots of a descriptor table in use, the null slot included,
/// as `GlobalDescriptorTable::as_raw_slice` shows them.
pub uninterp spec fn gdt_slots(t: GlobalDescriptorTable) -> Seq<u64>;

/// The `interrupt_stack_table` field of a task state segment, as addresses.
pub uninterp spec fn tss_interrupt_stacks(t: TaskStateSegment) -> Seq<u64>;

/// Number of slots of the table kept by `GlobalDescriptorTable`.
pub const GDT_CAPACITY: usize = 8;

/// Size in bytes of the stack reserved for the double-fault handler.
pub const FAULT_STACK_SIZE: u64 = 20480;

/// Interrupt stack table slot that holds the double-fault stack.
pub const DOUBLE_FAULT_IST_INDEX: u16 = 0;

/// The descriptor words of the four flat segments, as `x86_64` builds them.
pub const KERNEL_CODE_WORD: u64 = 0x00af9b000000ffff;
pub const KERNEL_DATA_WORD: u64 = 0x00cf93000000ffff;
pub const USER_DATA_WORD: u64 = 0x00cff3000000ffff;
pub const USER_CODE_WORD: u64 = 0x00affb000000ffff;

/// Requested-privilege bits of a selector for ring 3.
pub const RING3: u16 = 3;

/// The 64-bit slots a descriptor takes in the table.
pub open spec fn descriptor_words(d: Descriptor) -> Seq<u64> {
    match d {
        Descriptor::UserSegment(w) => seq![w],
        Descriptor::SystemSegment(lo, hi) => seq![lo, hi],
    }
}

/// The privilege level (0 to 3) written in a descriptor's first word.
pub open spec fn descriptor_dpl(d: Descriptor) -> u16 {
    let lo = match d {
        Descriptor::UserSegment(w) => w,
        Descriptor::SystemSegment(lo, _) => lo,
    };
    ((lo >> 45u64) & 3u64) as u16
}

/// Size in bytes of `TaskStateSegment`, less one: the limit of its descriptor.
pub const TSS_LIMIT: u64 = 0x67;

/// Access byte (bits 40 to 47) of a TSS descriptor: present, privilege
/// level 0, system segment, type "available 64-bit TSS".
pub const TSS_ACCESS: u64 = 0x89;

/// The first word of a descriptor for a task state segment.
pub open spec fn tss_descriptor_low(lo: u64) -> bool {
    &&& lo & 0xffffu64 == TSS_LIMIT
    &&& (lo >> 40u64) & 0xffu64 == TSS_ACCESS
}

/// Clears the requested-privilege bits of a selector.
pub open spec fn untagged(sel: u16) -> u16 {
    sel & !RING3
}

/// A selector: table index in the upper bits, requested privilege in the low two.
pub open spec fn selector(index: u16, rpl: u16) -> u16 {
    ((index << 3u16) | rpl) as u16
}

/// An address in canonical form, kept unchanged by `VirtAddr::new`.
pub open spec fn canonical(a: u64) -> bool {
    a < 0x0000_8000_0000_0000u64 || a >= 0xffff_8000_0000_0000u64
}

/// Relies on `GlobalDescriptorTable::new`: a table holding only the null slot.
pub assume_specification[ GlobalDescriptorTable::new ]() -> (r: GlobalDescriptorTable)
    ensures
        gdt_slots(r) == seq![0u64],
;

/// Relies on `Descriptor::kernel_code_segment`: the flags `KERNEL_CODE64`.
pub assume_specification[ Descriptor::kernel_code_segment ]() -> (r: Descriptor)
    ensures
        r == Descriptor::UserSegment(KERNEL_CODE_WORD),
;

/// Relies on `Descriptor::kernel_data_segment`: the flags `KERNEL_DATA`.
pub assume_specification[ Descriptor::kernel_data_segment ]() -> (r: Descriptor)
    ensures
        r == Descriptor::UserSegment(KERNEL_DATA_WORD),
;

/// Relies on `Descriptor::user_data_segment`: the flags `USER_DATA`
/// (kernel data with privilege level 3).
pub assume_specification[ Descriptor::user_data_segment ]() -> (r: Descriptor)
    ensures
        r == Descriptor::UserSegment(USER_DATA_WORD),
;

/// Relies on `Descriptor::user_code_segment`: the flags `USER_CODE64`
/// (64-bit kernel code with privilege level 3).
pub assume_specification[ Descriptor::user_code_segment ]() -> (r: Descriptor)
    ensures
        r == Descriptor::UserSegment(USER_CODE_WORD),
;

/// Relies on `Descriptor::tss_segment`: a two-slot system descriptor whose
/// first word holds the limit `size_of::<TaskStateSegment>() - 1` and the
/// access byte of a present, available 64-bit TSS at privilege level 0.
pub assume_specification[ Descriptor::tss_segment ](tss: &'static TaskStateSegment) -> (r: Descriptor)
    ensures
        descriptor_words(r).len() == 2,
        tss_descriptor_low(descriptor_words(r)[0]),
;

/// Relies on `TaskStateSegment::new`: every interrupt stack entry is zero.
pub assume_specification[ TaskStateSegment::new ]() -> (r: TaskStateSegment)
    ensures
        tss_interrupt_stacks(r) == seq![0u64, 0u64, 0u64, 0u64, 0u64, 0u64, 0u64],
;

/// Relies on `GlobalDescriptorTable::add_entry`: the descriptor's words go
/// to the next free slots, and the selector is built from the first slot's
/// index and the descriptor's privilege level. It panics when the words do
/// not fit.
#[verifier::external_body]
fn add_entry(gdt: &mut GlobalDescriptorTable, d: Descriptor) -> (r: u16)
    requires
        gdt_slots(*old(gdt)).len() + descriptor_words(d).len() <= GDT_CAPACITY,
    ensures
        gdt_slots(*final(gdt)) == gdt_slots(*old(gdt)) + descriptor_words(d),
        r == selector(gdt_slots(*old(gdt)).len() as u16, descriptor_dpl(d)),
{
    gdt.add_entry(d).0
}

/// Relies on `VirtAddr::new`, which keeps a canonical address as it is, and
/// on the public `interrupt_stack_table` field of `TaskStateSegment`.
#[verifier::external_body]
fn set_interrupt_stack(tss: &mut TaskStateSegment, index: usize, top: u64)
    requires
        index < 7,
        canonical(top),
    ensures
        tss_interrupt_stacks(*final(tss)) == tss_interrupt_stacks(*old(tss)).update(
            index as int,
            top,
        ),
{
    tss.interrupt_stack_table[index] = VirtAddr::new(top);
}

/// Builds the task state segment whose double-fault entry points at the top
/// of the stack region that starts at `stack_start`.
pub fn fault_tss(stack_start: u64) -> (r: TaskStateSegment)
    requires
        stack_start + FAULT_STACK_SIZE <= u64::MAX,
        canonical((stack_start + FAULT_STACK_SIZE) as u64),
    ensures
        tss_interrupt_stacks(r)[DOUBLE_FAULT_IST_INDEX as int] == stack_start + FAULT_STACK_SIZE,
        tss_interrupt_stacks(r).len() == 7,
        forall|i: int|
            0 <= i < 7 && i != DOUBLE_FAULT_IST_INDEX as int ==> tss_interrupt_stacks(r)[i] == 0,
{
    let mut tss = TaskStateSegment::new();
    set_interrupt_stack(&mut tss, DOUBLE_FAULT_IST_INDEX as usize, stack_start + FAULT_STACK_SIZE);
    tss
}

/// The five selectors of the descriptor table.
#[derive(Clone, Copy, Debug, PartialEq, Eq, Structural)]
pub struct Selectors {
    pub code_selector: u16,
    pub data_selector: u16,
    pub tss_selector: u16,
    pub user_data_selector: u16,
    pub user_code_selector: u16,
}

/// The selectors of the table laid out as kernel code, kernel data, task
/// state segment (two slots), user data, user code, after the null slot,
/// all with privilege bits clear.
pub open spec fn standard_selectors() -> Selectors {
    Selectors {
        code_selector: selector(1, 0),
        data_selector: selector(2, 0),
        tss_selector: selector(3, 0),
        user_data_selector: selector(5, 0),
        user_code_selector: selector(6, 0),
    }
}

/// The descriptor table together with the selectors of its entries.
pub struct SegmentTable {
    gdt: GlobalDescriptorTable,
    selectors: Selectors,
}

impl SegmentTable {
    /// The raw slots of the table.
    pub closed spec fn slots(&self) -> Seq<u64> {
        gdt_slots(self.gdt)
    }

    pub closed spec fn selectors_spec(&self) -> Selectors {
        self.selectors
    }

    /// The table holds, after the null slot, kernel code, kernel data, the
    /// two slots of the task state segment, user data and user code. The
    /// stored user selectors carry no privilege bits.
    pub open spec fn wf(&self) -> bool {
        &&& self.slots().len() == 7
        &&& self.slots()[0] == 0
        &&& self.slots()[1] == KERNEL_CODE_WORD
        &&& self.slots()[2] == KERNEL_DATA_WORD
        &&& tss_descriptor_low(self.slots()[3])
        &&& self.slots()[5] == USER_DATA_WORD
        &&& self.slots()[6] == USER_CODE_WORD
        &&& self.selectors_spec() == standard_selectors()
    }

    /// Builds the table in its fixed order, with the task state segment `tss`.
    pub fn new(tss: &'static TaskStateSegment) -> (r: SegmentTable)
        ensures
            r.wf(),
    {
        let mut gdt = GlobalDescriptorTable::new();
        proof {
            assert(((KERNEL_CODE_WORD >> 45u64) & 3u64) as u16 == 0) by (bit_vector);
            assert(((KERNEL_DATA_WORD >> 45u64) & 3u64) as u16 == 0) by (bit_vector);
            assert(((USER_DATA_WORD >> 45u64) & 3u64) as u16 == 3) by (bit_vector);
            assert(((USER_CODE_WORD >> 45u64) & 3u64) as u16 == 3) by (bit_vector);
            assert(((5u16 << 3u16) | 3u16) as u16 & !3u16 == ((5u16 << 3u16) | 0u16) as u16)
                by (bit_vector);
            assert(((6u16 << 3u16) | 3u16) as u16 & !3u16 == ((6u16 << 3u16) | 0u16) as u16)
                by (bit_vector);
            assert(forall|lo: u64|
                (lo >> 40u64) & 0xffu64 == 0x89u64 ==> ((lo >> 45u64) & 3u64) as u16 == 0)
                by (bit_vector);
        }
        let code_selector = add_entry(&mut gdt, Descriptor::kernel_code_segment());
        let data_selector = add_entry(&mut gdt, Descriptor::kernel_data_segment());
        let tss_selector = add_entry(&mut gdt, Descriptor::tss_segment(tss));
        // The user descriptors are at ring 3, so `add_entry` tags their
        // selectors; they are kept untagged until the switch to user mode.
        let user_data_selector = add_entry(&mut gdt, Descriptor::user_data_segment()) & !RING3;
        let user_code_selector = add_entry(&mut gdt, Descriptor::user_code_segment()) & !RING3;
        let selectors = Selectors {
            code_selector,
            data_selector,
            tss_selector,
            user_data_selector,
            user_code_selector,
        };
        SegmentTable { gdt, selectors }
    }

    /// The selectors of the table.
    pub fn selectors(&self) -> (r: Selectors)
        ensures
            r == self.selectors_spec(),
    {
        self.selectors
    }

    /// The table, to be loaded into the CPU.
    pub fn table(&self) -> (r: &GlobalDescriptorTable)
        ensures
            gdt_slots(*r) == self.slots(),
    {
        &self.gdt
    }
}

/// Builds the table into `slot` unless one is there already. Returns whether
/// it built one; a later call finds the table and leaves it as it is.
pub fn init(slot: &mut Option<SegmentTable>, tss: &'static TaskStateSegment) -> (built: bool)
    requires
        *old(slot) matches Some(t) ==> t.wf(),
    ensures
        built == (*old(slot) is None),
        *old(slot) is Some ==> *final(slot) == *old(slot),
        *final(slot) matches Some(t) && t.wf(),
{
    if slot.is_some() {
        return false;
    }
    *slot = Some(SegmentTable::new(tss));
    true
}

/// A selector with its requested-privilege bits set to ring 3.
pub open spec fn ring3(sel: u16) -> u16 {
    sel | RING3
}

/// The (code, data) selectors for user mode, tagged with ring 3.
pub fn usermode_selectors(sel: &Selectors) -> (r: (u16, u16))
    ensures
        r == (ring3(sel.user_code_selector), ring3(sel.user_data_selector)),
{
    (sel.user_code_selector | RING3, sel.user_data_selector | RING3)
}

/// The selectors of a built table: kernel code 8, kernel data 16, task state
/// segment 24, user data 40 and user code 48; tagged with ring 3, the user
/// ones become 43 and 51.
pub proof fn lemma_standard_selector_values()
    ensures
        standard_selectors().code_selector == 8,
        standard_selectors().data_selector == 16,
        standard_selectors().tss_selector == 24,
        standard_selectors().user_data_selector == 40,
        standard_selectors().user_code_selector == 48,
        ring3(standard_selectors().user_data_selector) == 43,
        ring3(standard_selectors().user_code_selector) == 51,
{
    assert(((1u16 << 3u16) | 0u16) as u16 == 8) by (bit_vector);
    assert(((2u16 << 3u16) | 0u16) as u16 == 16) by (bit_vector);
    assert(((3u16 << 3u16) | 0u16) as u16 == 24) by (bit_vector);
    assert(((5u16 << 3u16) | 0u16) as u16 == 40) by (bit_vector);
    assert(((6u16 << 3u16) | 0u16) as u16 == 48) by (bit_vector);
    assert(40u16 | 3u16 == 43 && 48u16 | 3u16 == 51) by (bit_vector);
}

/// The five selectors of a built table are pairwise distinct and carry no
/// privilege bits; tagging the user ones with ring 3 gives selectors that
/// differ from the stored ones and from each other.
pub proof fn lemma_selectors_distinct(t: &SegmentTable)
    requires
        t.wf(),
    ensures
        ({
            let s = t.selectors_spec();
            &&& s.code_selector != s.data_selector
            &&& s.code_selector != s.tss_selector
            &&& s.code_selector != s.user_data_selector
            &&& s.code_selector != s.user_code_selector
            &&& s.data_selector != s.tss_selector
            &&& s.data_selector != s.user_data_selector
            &&& s.data_selector != s.user_code_selector
            &&& s.tss_selector != s.user_data_selector
            &&& s.tss_selector != s.user_code_selector
            &&& s.user_data_selector != s.user_code_selector
            &&& s.code_selector & RING3 == 0
            &&& s.data_selector & RING3 == 0
            &&& s.tss_selector & RING3 == 0
            &&& s.user_data_selector & RING3 == 0
            &&& s.user_code_selector & RING3 == 0
            &&& ring3(s.user_code_selector) != s.user_code_selector
            &&& ring3(s.user_data_selector) != s.user_data_selector
            &&& ring3(s.user_code_selector) != ring3(s.user_data_selector)
        }),
{
    lemma_standard_selector_values();
    assert(8u16 & 3u16 == 0 && 16u16 & 3u16 == 0 && 24u16 & 3u16 == 0) by (bit_vector);
    assert(40u16 & 3u16 == 0 && 48u16 & 3u16 == 0) by (bit_vector);
}

} // verus!
