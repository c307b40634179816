//! The vector table: one entry per CPU vector, built once at boot, checked
//! for completeness, loaded, and immutable thereafter.
//!
//! An entry carries a tag naming the handler, whether the hardware pushes an
//! error code for that vector, and the dedicated-stack index for the one
//! fault that must never reuse a possibly corrupted stack.

use vstd::prelude::*;

verus! {

/// Base vector the primary interrupt controller is remapped to,
/// conventionally just above the reserved exception range.
pub const PIC_1_OFFSET: u8 = 32;

/// Base vector of the secondary controller: always 8 above the primary.
pub const PIC_2_OFFSET: u8 = PIC_1_OFFSET + 8;

/// Number of slots in the vector table.
pub const IDT_ENTRIES: usize = 256;

/// Index of the dedicated known-good stack the double-fault handler
/// switches to before it runs.
pub const DOUBLE_FAULT_IST_INDEX: u8 = 0;

/// Snapshot of the machine state the CPU pushes when delivering a vector,
/// and restores on resume.
#[derive(Clone, Copy, PartialEq, Eq, Structural, Debug)]
pub struct StackFrame {
    pub instruction_pointer: u64,
    pub code_segment: u64,
    pub cpu_flags: u64,
    pub stack_pointer: u64,
    pub stack_segment: u64,
}

/// The two hardware interrupts in use, at their remapped vectors.
#[derive(Clone, Copy, PartialEq, Eq, Structural, Debug)]
pub enum InterruptIndex {
    Timer,
    Keyboard,
}

impl InterruptIndex {
    /// The vector this interrupt surfaces at.
    pub open spec fn spec_as_u8(self) -> u8 {
        match self {
            InterruptIndex::Timer => PIC_1_OFFSET,
            InterruptIndex::Keyboard => (PIC_1_OFFSET + 1) as u8,
        }
    }

    /// The vector this interrupt surfaces at.
    pub fn as_u8(self) -> (r: u8)
        ensures
            r == self.spec_as_u8(),
    {
        match self {
            InterruptIndex::Timer => PIC_1_OFFSET,
            InterruptIndex::Keyboard => PIC_1_OFFSET + 1,
        }
    }

    /// The vector as a table index.
    pub fn as_usize(self) -> (r: usize)
        ensures
            r == self.spec_as_u8() as usize,
    {
        self.as_u8() as usize
    }
}

/// The handler a table slot points at, one tag per defined vector.
#[derive(Clone, Copy, PartialEq, Eq, Structural, Debug)]
pub enum HandlerKind {
    DivideError,
    Debug,
    NonMaskableInterrupt,
    Breakpoint,
    Overflow,
    BoundRangeExceeded,
    InvalidOpcode,
    DeviceNotAvailable,
    DoubleFault,
    InvalidTss,
    SegmentNotPresent,
    StackSegmentFault,
    GeneralProtectionFault,
    PageFault,
    X87FloatingPoint,
    AlignmentCheck,
    MachineCheck,
    SimdFloatingPoint,
    Virtualization,
    CpProtectionException,
    HvInjectionException,
    VmmCommunicationException,
    SecurityException,
    Timer,
    Keyboard,
}

/// The policy class a handler falls under.
#[derive(Clone, Copy, PartialEq, Eq, Structural, Debug)]
pub enum HandlerClass {
    /// Record a diagnostic and resume the interrupted context unchanged.
    Diagnostic,
    /// Record a diagnostic and halt: continuing risks acting on corrupted
    /// machine state.
    Fatal,
    /// Decode the fault's context, log it, and — with no demand paging in
    /// this core — escalate to a halted, interrupt-disabled idle state.
    Contextual,
    /// Do the minimal time-bounded work, then acknowledge the controller.
    HardwareIrq,
}

/// The class each handler falls under.
pub open spec fn spec_classify(k: HandlerKind) -> HandlerClass {
    match k {
        HandlerKind::DoubleFault => HandlerClass::Fatal,
        HandlerKind::MachineCheck => HandlerClass::Fatal,
        HandlerKind::PageFault => HandlerClass::Contextual,
        HandlerKind::Timer => HandlerClass::HardwareIrq,
        HandlerKind::Keyboard => HandlerClass::HardwareIrq,
        _ => HandlerClass::Diagnostic,
    }
}

/// The class each handler falls under.
pub fn classify(k: HandlerKind) -> (r: HandlerClass)
    ensures
        r == spec_classify(k),
{
    match k {
        HandlerKind::DoubleFault => HandlerClass::Fatal,
        HandlerKind::MachineCheck => HandlerClass::Fatal,
        HandlerKind::PageFault => HandlerClass::Contextual,
        HandlerKind::Timer => HandlerClass::HardwareIrq,
        HandlerKind::Keyboard => HandlerClass::HardwareIrq,
        _ => HandlerClass::Diagnostic,
    }
}

/// Whether the hardware pushes an error code when delivering this vector.
pub open spec fn spec_vector_pushes_error_code(vector: int) -> bool {
    vector == 8 || vector == 10 || vector == 11 || vector == 12 || vector == 13 || vector == 14
        || vector == 17 || vector == 21 || vector == 29 || vector == 30
}

/// Whether the hardware pushes an error code when delivering this vector.
pub fn vector_pushes_error_code(vector: u8) -> (r: bool)
    ensures
        r == spec_vector_pushes_error_code(vector as int),
{
    vector == 8 || vector == 10 || vector == 11 || vector == 12 || vector == 13 || vector == 14
        || vector == 17 || vector == 21 || vector == 29 || vector == 30
}

/// One slot of the vector table.
#[derive(Clone, Copy, PartialEq, Eq, Structural, Debug)]
pub struct IdtEntry {
    /// The handler dispatched for this vector.
    pub handler: HandlerKind,
    /// Whether the handler's signature accepts a hardware-pushed error code.
    pub has_error_code: bool,
    /// The dedicated-stack index to switch to first, if any.
    pub stack_index: Option<u8>,
}

/// Mathematical model of the vector table.
#[verifier::ext_equal]
pub struct IdtModel {
    /// One slot per vector; `None` where no handler is defined.
    pub entries: Seq<Option<IdtEntry>>,
    /// Whether the table has been activated on the CPU.
    pub loaded: bool,
}

impl IdtModel {
    /// Well-formedness: full size, and every defined slot's error-code flag
    /// matches what the hardware pushes for that vector.
    pub open spec fn inv(self) -> bool {
        &&& self.entries.len() == 256
        &&& forall|v: int|
            0 <= v < 256 ==> (#[trigger] self.entries[v] matches Some(e) ==> e.has_error_code
                == spec_vector_pushes_error_code(v))
    }

    /// Every vector that can occur on the running machine has an entry;
    /// activating a table for which this fails is a boot configuration
    /// error, caught before interrupts are enabled.
    pub open spec fn covers_machine(self) -> bool {
        forall|v: int| 0 <= v < 256 && spec_standard_handler(v) is Some ==> (
        #[trigger] self.entries[v]) is Some
    }
}

/// The handler the boot-built table assigns to each vector.
pub open spec fn spec_standard_handler(v: int) -> Option<HandlerKind> {
    if v == 0 {
        Some(HandlerKind::DivideError)
    } else if v == 1 {
        Some(HandlerKind::Debug)
    } else if v == 2 {
        Some(HandlerKind::NonMaskableInterrupt)
    } else if v == 3 {
        Some(HandlerKind::Breakpoint)
    } else if v == 4 {
        Some(HandlerKind::Overflow)
    } else if v == 5 {
        Some(HandlerKind::BoundRangeExceeded)
    } else if v == 6 {
        Some(HandlerKind::InvalidOpcode)
    } else if v == 7 {
        Some(HandlerKind::DeviceNotAvailable)
    } else if v == 8 {
        Some(HandlerKind::DoubleFault)
    } else if v == 10 {
        Some(HandlerKind::InvalidTss)
    } else if v == 11 {
        Some(HandlerKind::SegmentNotPresent)
    } else if v == 12 {
        Some(HandlerKind::StackSegmentFault)
    } else if v == 13 {
        Some(HandlerKind::GeneralProtectionFault)
    } else if v == 14 {
        Some(HandlerKind::PageFault)
    } else if v == 16 {
        Some(HandlerKind::X87FloatingPoint)
    } else if v == 17 {
        Some(HandlerKind::AlignmentCheck)
    } else if v == 18 {
        Some(HandlerKind::MachineCheck)
    } else if v == 19 {
        Some(HandlerKind::SimdFloatingPoint)
    } else if v == 20 {
        Some(HandlerKind::Virtualization)
    } else if v == 21 {
        Some(HandlerKind::CpProtectionException)
    } else if v == 28 {
        Some(HandlerKind::HvInjectionException)
    } else if v == 29 {
        Some(HandlerKind::VmmCommunicationException)
    } else if v == 30 {
        Some(HandlerKind::SecurityException)
    } else if v == PIC_1_OFFSET {
        Some(HandlerKind::Timer)
    } else if v == PIC_1_OFFSET + 1 {
        Some(HandlerKind::Keyboard)
    } else {
        None
    }
}

/// The slot the boot-built table holds for each vector: the standard
/// handler, the architecturally correct error-code flag, and the dedicated
/// stack for the double fault alone.
pub open spec fn spec_standard_entry(v: int) -> Option<IdtEntry> {
    match spec_standard_handler(v) {
        Some(k) => Some(
            IdtEntry {
                handler: k,
                has_error_code: spec_vector_pushes_error_code(v),
                stack_index: if v == 8 {
                    Some(DOUBLE_FAULT_IST_INDEX)
                } else {
                    None
                },
            },
        ),
        None => None,
    }
}

/// The table built at boot holds exactly the standard slots.
pub open spec fn is_standard_table(m: IdtModel) -> bool {
    m.entries.len() == 256 && forall|v: int| 0 <= v < 256 ==> #[trigger] m.entries[v]
        == spec_standard_entry(v)
}

/// The vector table.
pub struct Idt {
    entries: Vec<Option<IdtEntry>>,
    loaded: bool,
}

impl View for Idt {
    type V = IdtModel;

    closed spec fn view(&self) -> IdtModel {
        IdtModel { entries: self.entries@, loaded: self.loaded }
    }
}

impl Idt {
    /// Well-formedness of the running table.
    pub open spec fn wf(&self) -> bool {
        self@.inv()
    }

    /// A full-size table with no handler defined anywhere, not loaded.
    pub fn new() -> (idt: Idt)
        ensures
            idt.wf(),
            !idt@.loaded,
            idt@.entries.len() == 256,
            forall|v: int| 0 <= v < 256 ==> (#[trigger] idt@.entries[v]) is None,
    {
        let mut entries: Vec<Option<IdtEntry>> = Vec::new();
        let mut i: usize = 0;
        while i < IDT_ENTRIES
            invariant
                i <= 256,
                entries@.len() == i,
                forall|v: int| 0 <= v < i ==> (#[trigger] entries@[v]) is None,
            decreases 256 - i,
        {
            entries.push(None);
            i = i + 1;
        }
        Idt { entries: entries, loaded: false }
    }

    /// Points a vector's slot at a handler, with the error-code flag the
    /// hardware mandates for that vector and no dedicated stack.
    pub fn set_handler(&mut self, vector: u8, handler: HandlerKind)
        requires
            old(self).wf(),
            !old(self)@.loaded,
        ensures
            final(self).wf(),
            !final(self)@.loaded,
            final(self)@.entries == old(self)@.entries.update(
                vector as int,
                Some(
                    IdtEntry {
                        handler: handler,
                        has_error_code: spec_vector_pushes_error_code(vector as int),
                        stack_index: None,
                    },
                ),
            ),
    {
        let e = IdtEntry {
            handler: handler,
            has_error_code: vector_pushes_error_code(vector),
            stack_index: None,
        };
        self.entries[vector as usize] = Some(e);
    }

    /// Points a vector's slot at a handler that first switches to the given
    /// dedicated stack.
    pub fn set_handler_with_stack(&mut self, vector: u8, handler: HandlerKind, stack_index: u8)
        requires
            old(self).wf(),
            !old(self)@.loaded,
        ensures
            final(self).wf(),
            !final(self)@.loaded,
            final(self)@.entries == old(self)@.entries.update(
                vector as int,
                Some(
                    IdtEntry {
                        handler: handler,
                        has_error_code: spec_vector_pushes_error_code(vector as int),
                        stack_index: Some(stack_index),
                    },
                ),
            ),
    {
        let e = IdtEntry {
            handler: handler,
            has_error_code: vector_pushes_error_code(vector),
            stack_index: Some(stack_index),
        };
        self.entries[vector as usize] = Some(e);
    }

    /// The boot-time completeness check: every vector the machine can raise
    /// has an entry.
    pub fn covers(&self) -> (r: bool)
        requires
            self@.entries.len() == 256,
        ensures
            r == self@.covers_machine(),
    {
        let mut i: usize = 0;
        while i < IDT_ENTRIES
            invariant
                i <= 256,
                self@.entries.len() == 256,
                forall|v: int|
                    0 <= v < i && spec_standard_handler(v) is Some ==> (
                    #[trigger] self@.entries[v]) is Some,
            decreases 256 - i,
        {
            let needed = Self::standard_handler_exists(i as u8);
            if needed && self.entries[i].is_none() {
                return false;
            }
            i = i + 1;
        }
        true
    }

    /// Whether the boot-built table defines a handler for this vector.
    fn standard_handler_exists(vector: u8) -> (r: bool)
        ensures
            r == (spec_standard_handler(vector as int) is Some),
    {
        let v = vector;
        (v <= 8) || (10 <= v && v <= 14) || (16 <= v && v <= 21) || (28 <= v && v <= 30) || v
            == PIC_1_OFFSET || v == PIC_1_OFFSET + 1
    }

    /// Activates the table on the CPU. Must run after the controllers are
    /// remapped and before interrupts are unmasked; a table that leaves a
    /// raisable vector unhandled is a boot configuration error and is ruled
    /// out here.
    pub fn load(&mut self)
        requires
            old(self).wf(),
            old(self)@.covers_machine(),
        ensures
            final(self).wf(),
            final(self)@.entries == old(self)@.entries,
            final(self)@.loaded,
    {
        self.loaded = true;
    }

    /// Whether the table has been activated.
    pub fn is_loaded(&self) -> (r: bool)
        ensures
            r == self@.loaded,
    {
        self.loaded
    }

    /// The slot defined for a vector.
    pub fn entry_at(&self, vector: u8) -> (r: Option<IdtEntry>)
        requires
            self@.entries.len() == 256,
        ensures
            r == self@.entries[vector as int],
    {
        self.entries[vector as usize]
    }
}

/// Builds the table the kernel boots with: one handler per defined
/// exception vector, the two hardware interrupts at their remapped vectors,
/// and the double fault on its dedicated stack. The result is complete and
/// ready to load.
pub fn init_idt() -> (idt: Idt)
    ensures
        idt.wf(),
        !idt@.loaded,
        is_standard_table(idt@),
        idt@.covers_machine(),
{
    let mut idt = Idt::new();
    idt.set_handler(3, HandlerKind::Breakpoint);
    idt.set_handler_with_stack(8, HandlerKind::DoubleFault, DOUBLE_FAULT_IST_INDEX);
    idt.set_handler(InterruptIndex::Timer.as_u8(), HandlerKind::Timer);
    idt.set_handler(InterruptIndex::Keyboard.as_u8(), HandlerKind::Keyboard);
    idt.set_handler(14, HandlerKind::PageFault);
    idt.set_handler(0, HandlerKind::DivideError);
    idt.set_handler(1, HandlerKind::Debug);
    idt.set_handler(2, HandlerKind::NonMaskableInterrupt);
    idt.set_handler(4, HandlerKind::Overflow);
    idt.set_handler(5, HandlerKind::BoundRangeExceeded);
    idt.set_handler(6, HandlerKind::InvalidOpcode);
    idt.set_handler(7, HandlerKind::DeviceNotAvailable);
    idt.set_handler(10, HandlerKind::InvalidTss);
    idt.set_handler(11, HandlerKind::SegmentNotPresent);
    idt.set_handler(12, HandlerKind::StackSegmentFault);
    idt.set_handler(13, HandlerKind::GeneralProtectionFault);
    idt.set_handler(16, HandlerKind::X87FloatingPoint);
    idt.set_handler(17, HandlerKind::AlignmentCheck);
    idt.set_handler(18, HandlerKind::MachineCheck);
    idt.set_handler(19, HandlerKind::SimdFloatingPoint);
    idt.set_handler(20, HandlerKind::Virtualization);
    idt.set_handler(21, HandlerKind::CpProtectionException);
    idt.set_handler(28, HandlerKind::HvInjectionException);
    idt.set_handler(29, HandlerKind::VmmCommunicationException);
    idt.set_handler(30, HandlerKind::SecurityException);
    proof {
        assert forall|v: int| 0 <= v < 256 implies #[trigger] idt@.entries[v]
            == spec_standard_entry(v) by {}
    }
    idt
}

} // verus!
