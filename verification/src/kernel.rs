//! The kernel core: every process-wide singleton — controllers, vector
//! table, scancode queue, executor, log sink — held together behind narrow
//! methods, with the dispatch layer that turns a delivered vector into the
//! defined handler's action.
//!
//! Boot order is enforced: remap the controllers, load the table, only then
//! unmask interrupts. Handlers follow the policy their class dictates:
//! diagnostic vectors record a trace and resume the interrupted context
//! unchanged; fatal ones record and halt; the page fault decodes its
//! context, logs it, and escalates to a halt; hardware interrupts do their
//! bounded work and acknowledge the controller as their last step.

use vstd::prelude::*;

use crate::executor::Executor;
use crate::executor::ExecutorModel;
use crate::executor::all_counting;
use crate::executor::all_ready;
use crate::executor::completion_of;
use crate::executor::drainer_waker;
use crate::executor::exec_work;
use crate::executor::extends;
use crate::executor::lemma_wake_marks_ready;
use crate::executor::owns;
use crate::executor::ready_drainer;
use crate::executor::spec_wake;
use crate::executor::task_from;
use crate::framebuffer::FrameBufferInfo;
use crate::interrupts::HandlerClass;
use crate::interrupts::HandlerKind;
use crate::interrupts::Idt;
use crate::interrupts::InterruptIndex;
use crate::interrupts::PIC_1_OFFSET;
use crate::interrupts::PIC_2_OFFSET;
use crate::interrupts::StackFrame;
use crate::interrupts::classify;
use crate::interrupts::init_idt;
use crate::interrupts::spec_classify;
use crate::interrupts::spec_vector_pushes_error_code;
use crate::level::LevelFilter;
use crate::level::level_enabled;
use crate::logger::FaultContext;
use crate::logger::LockedLogger;
use crate::logger::RecordData;
use crate::logger::init_logger;
use crate::logger::initialized_sink;
use crate::pic::ChainedPics;
use crate::pic::PicsModel;
use crate::queue::QueueModel;
use crate::queue::SCANCODE_QUEUE_CAPACITY;
use crate::queue::ScancodeQueue;
use crate::queue::lemma_wake_registered_before_push_fires;
use crate::queue::sat_inc;
use crate::queue::spec_poll;
use crate::queue::spec_push;
use crate::queue::spec_push_woken;
use crate::task::TaskId;

verus! {

/// What the hardware exposes to a running handler beyond the frame: the
/// faulting-address register and the keyboard data port, read once.
#[derive(Clone, Copy, PartialEq, Eq, Structural, Debug)]
pub struct MachineInputs {
    pub faulting_address: u64,
    pub keyboard_port: u8,
}

/// How dispatch leaves the machine: resume the interrupted context with the
/// given frame, or enter the terminal halted state.
#[derive(Clone, Copy, PartialEq, Eq, Structural, Debug)]
pub enum Resolution {
    Resume(StackFrame),
    Halt,
}

/// The process-wide state of the kernel core.
pub struct Kernel {
    pub pics: ChainedPics,
    pub idt: Idt,
    pub queue: ScancodeQueue,
    pub executor: Executor,
    pub logger: LockedLogger,
    /// Bytes the queue-draining task has consumed, in order.
    pub keypresses: Vec<u8>,
    /// Liveness marker the timer handler advances.
    pub timer_ticks: u64,
    /// Whether hardware interrupts are unmasked.
    pub interrupts_enabled: bool,
}

/// Machine state a merely-diagnostic handler may not disturb: everything
/// observable after resume but the log sink.
pub open spec fn same_machine_state(a: Kernel, b: Kernel) -> bool {
    &&& b.pics@ == a.pics@
    &&& b.idt@ == a.idt@
    &&& b.queue@ == a.queue@
    &&& b.executor@ == a.executor@
    &&& b.keypresses@ == a.keypresses@
    &&& b.timer_ticks == a.timer_ticks
    &&& b.interrupts_enabled == a.interrupts_enabled
}

/// The controllers after exactly one end-of-interrupt for `vector`, and
/// nothing else.
pub open spec fn pics_acked(a: PicsModel, b: PicsModel, vector: u8) -> bool {
    &&& b.offset1 == a.offset1
    &&& b.offset2 == a.offset2
    &&& b.initialized == a.initialized
    &&& if a.handles_vector(vector) {
        b.acks == a.acks.push(vector)
    } else {
        b.acks == a.acks
    }
}

/// The sinks after exactly `n` records of severity `level` were written, or
/// after nothing when the ceiling filters that severity.
pub open spec fn records_logged(
    before: LockedLogger,
    after: LockedLogger,
    level: LevelFilter,
    n: nat,
) -> bool {
    &&& after.has_framebuffer() == before.has_framebuffer()
    &&& !after.fb_locked()
    &&& after.console_info() == before.console_info()
    &&& after.spec_max_level() == before.spec_max_level()
    &&& if level_enabled(level, before.spec_max_level()) {
        &&& after.serial_lines().len() == before.serial_lines().len() + n
        &&& extends(after.serial_lines(), before.serial_lines())
        &&& forall|i: int|
            before.serial_lines().len() <= i < after.serial_lines().len() ==> (
            #[trigger] after.serial_lines()[i]).level == Some(level)
        &&& before.has_framebuffer() ==> after.console_lines().len()
            == before.console_lines().len() + n && extends(
            after.console_lines(),
            before.console_lines(),
        )
        &&& !before.has_framebuffer() ==> after.console_lines() == before.console_lines()
    } else {
        &&& after.serial_lines() == before.serial_lines()
        &&& after.console_lines() == before.console_lines()
    }
}

/// One diagnostic record of this severity on both sinks.
pub open spec fn diagnostic_logged(
    before: LockedLogger,
    after: LockedLogger,
    level: LevelFilter,
) -> bool {
    records_logged(before, after, level, 1)
}

/// One diagnostic record of this severity whose serial side carries the
/// captured machine context — the stack-frame snapshot with the error code
/// and faulting address the vector supplied.
pub open spec fn fault_logged(
    before: LockedLogger,
    after: LockedLogger,
    level: LevelFilter,
    context: FaultContext,
) -> bool {
    &&& records_logged(before, after, level, 1)
    &&& level_enabled(level, before.spec_max_level()) ==> after.serial_lines().last().data
        == Some(RecordData::Fault(context))
}

/// Machine state after a fatal escalation: everything preserved but the
/// interrupt mask, which is left disabled — the terminal halted state is
/// entered with interrupts off and is reachable only by external reset.
pub open spec fn halted_machine_state(a: Kernel, b: Kernel) -> bool {
    &&& b.pics@ == a.pics@
    &&& b.idt@ == a.idt@
    &&& b.queue@ == a.queue@
    &&& b.executor@ == a.executor@
    &&& b.keypresses@ == a.keypresses@
    &&& b.timer_ticks == a.timer_ticks
    &&& !b.interrupts_enabled
}

/// The whole keyboard-interrupt transition over the models: the byte is
/// pushed (or dropped on overflow), the registered interest — if the push
/// succeeded — is woken on the executor, and the keyboard vector gets its
/// one acknowledgment.
pub open spec fn keyboard_transition(a: Kernel, b: Kernel, scancode: u8) -> bool {
    &&& b.queue@ == spec_push(a.queue@, scancode)
    &&& b.executor@ == (match spec_push_woken(a.queue@) {
        Some(id) => spec_wake(a.executor@, id),
        None => a.executor@,
    })
    &&& pics_acked(a.pics@, b.pics@, (PIC_1_OFFSET + 1) as u8)
    &&& b.idt@ == a.idt@
    &&& b.keypresses@ == a.keypresses@
    &&& b.timer_ticks == a.timer_ticks
    &&& b.interrupts_enabled == a.interrupts_enabled
}

/// The timer-interrupt transition: the liveness marker advances and the
/// timer vector gets its one acknowledgment; nothing else moves.
pub open spec fn timer_transition(a: Kernel, b: Kernel) -> bool {
    &&& b.queue@ == a.queue@
    &&& b.executor@ == a.executor@
    &&& b.timer_ticks as nat == sat_inc(a.timer_ticks as nat)
    &&& pics_acked(a.pics@, b.pics@, PIC_1_OFFSET)
    &&& b.idt@ == a.idt@
    &&& b.keypresses@ == a.keypresses@
    &&& b.interrupts_enabled == a.interrupts_enabled
}

impl Kernel {
    /// Well-formedness of the whole core. Interrupts are unmasked only once
    /// the controllers are remapped and the table is active, and no flow
    /// leaves the console lock held.
    pub open spec fn wf(&self) -> bool {
        &&& self.pics.wf()
        &&& self.idt.wf()
        &&& self.queue.wf()
        &&& self.executor.wf()
        &&& !self.logger.fb_locked()
        &&& self.interrupts_enabled ==> self.idt@.loaded && self.pics@.initialized
    }

    /// Assembles the core as the bootloader hand-off leaves it: sink over
    /// the supplied framebuffer at the configured verbosity, controllers
    /// created for the conventional offsets but not yet remapped, the
    /// standard table built but not yet active, queue and executor empty,
    /// interrupts still masked.
    pub fn new(info: FrameBufferInfo, log_level: LevelFilter) -> (k: Kernel)
        ensures
            k.wf(),
            !k.pics@.initialized,
            k.pics@.offset1 == PIC_1_OFFSET,
            k.pics@.offset2 == PIC_2_OFFSET,
            k.pics@.acks.len() == 0,
            !k.idt@.loaded,
            crate::interrupts::is_standard_table(k.idt@),
            k.queue@ == crate::queue::empty_queue(SCANCODE_QUEUE_CAPACITY as nat),
            k.executor@ == crate::executor::empty_executor(),
            initialized_sink(k.logger, info, log_level),
            k.keypresses@.len() == 0,
            k.timer_ticks == 0,
            !k.interrupts_enabled,
    {
        Kernel {
            pics: ChainedPics::new(PIC_1_OFFSET, PIC_2_OFFSET),
            idt: init_idt(),
            queue: ScancodeQueue::new(SCANCODE_QUEUE_CAPACITY),
            executor: Executor::new(),
            logger: init_logger(info, log_level),
            keypresses: Vec::new(),
            timer_ticks: 0,
            interrupts_enabled: false,
        }
    }

    /// The one-time boot initialization, in the required order: remap the
    /// controllers, activate the complete table, then unmask interrupts.
    pub fn init(&mut self)
        requires
            old(self).wf(),
            !old(self).pics@.initialized,
            !old(self).idt@.loaded,
            old(self).idt@.covers_machine(),
            !old(self).interrupts_enabled,
        ensures
            final(self).wf(),
            final(self).pics@ == (PicsModel { initialized: true, ..old(self).pics@ }),
            final(self).idt@.entries == old(self).idt@.entries,
            final(self).idt@.loaded,
            final(self).interrupts_enabled,
            final(self).queue@ == old(self).queue@,
            final(self).executor@ == old(self).executor@,
            final(self).logger == old(self).logger,
            final(self).keypresses@ == old(self).keypresses@,
            final(self).timer_ticks == old(self).timer_ticks,
    {
        self.pics.initialize();
        self.idt.load();
        self.interrupts_enabled = true;
    }

    /// Writes one diagnostic record at the given severity to both sinks,
    /// leaving every other part of the machine as it is.
    fn log_record(&mut self, level: LevelFilter, message: String)
        requires
            old(self).wf(),
        ensures
            final(self).wf(),
            same_machine_state(*old(self), *final(self)),
            diagnostic_logged(old(self).logger, final(self).logger, level),
    {
        let ghost before = self.logger;
        // the critical section over the shared sink runs with interrupts
        // masked, and the interrupted state is restored afterwards
        let saved = self.interrupts_enabled;
        self.interrupts_enabled = false;
        self.logger.log(level, message);
        self.interrupts_enabled = saved;
        proof {
            if level_enabled(level, before.spec_max_level()) {
                assert(self.logger.serial_lines()[before.serial_lines().len() as int].level
                    == Some(level));
            }
        }
    }

    /// Writes one diagnostic record that carries the captured machine
    /// context, leaving every other part of the machine as it is.
    fn log_fault_record(&mut self, level: LevelFilter, message: String, context: FaultContext)
        requires
            old(self).wf(),
        ensures
            final(self).wf(),
            same_machine_state(*old(self), *final(self)),
            fault_logged(old(self).logger, final(self).logger, level, context),
    {
        let ghost before = self.logger;
        // the critical section over the shared sink runs with interrupts
        // masked, and the interrupted state is restored afterwards
        let saved = self.interrupts_enabled;
        self.interrupts_enabled = false;
        self.logger.log_with(level, message, RecordData::Fault(context));
        self.interrupts_enabled = saved;
        proof {
            if level_enabled(level, before.spec_max_level()) {
                assert(self.logger.serial_lines()[before.serial_lines().len() as int].level
                    == Some(level));
                assert(self.logger.serial_lines().last() == self.logger.serial_lines()[
                    before.serial_lines().len() as int]);
            }
        }
    }

    /// The breakpoint trap: a deliberate, recoverable event. Records a
    /// trace carrying the captured stack-frame snapshot and resumes the
    /// interrupted context unchanged — nothing the resumed flow can observe
    /// but the log has moved.
    pub fn breakpoint_handler(&mut self, frame: StackFrame) -> (r: Resolution)
        requires
            old(self).wf(),
        ensures
            final(self).wf(),
            r == Resolution::Resume(frame),
            same_machine_state(*old(self), *final(self)),
            fault_logged(
                old(self).logger,
                final(self).logger,
                LevelFilter::Trace,
                (FaultContext { frame: frame, error_code: None, faulting_address: None }),
            ),
    {
        self.log_fault_record(
            LevelFilter::Trace,
            "EXCEPTION: BREAKPOINT".to_owned(),
            FaultContext { frame: frame, error_code: None, faulting_address: None },
        );
        Resolution::Resume(frame)
    }

    /// The general-protection fault is diagnostic-only in this core: record
    /// its trace with the hardware-pushed error code and the captured
    /// stack-frame snapshot, and resume.
    pub fn general_protection_fault_handler(&mut self, frame: StackFrame, error_code: u64) -> (r:
        Resolution)
        requires
            old(self).wf(),
        ensures
            final(self).wf(),
            r == Resolution::Resume(frame),
            same_machine_state(*old(self), *final(self)),
            fault_logged(
                old(self).logger,
                final(self).logger,
                LevelFilter::Trace,
                (FaultContext {
                    frame: frame,
                    error_code: Some(error_code),
                    faulting_address: None,
                }),
            ),
    {
        self.log_fault_record(
            LevelFilter::Trace,
            "INTERRUPT: general_protection_fault".to_owned(),
            FaultContext { frame: frame, error_code: Some(error_code), faulting_address: None },
        );
        Resolution::Resume(frame)
    }

    /// The double fault is unrecoverable: it frequently follows a stack
    /// overflow and ran on its dedicated stack, and the machine must not
    /// continue. Records the error code and the captured frame, then enters
    /// the terminal halted state with interrupts disabled.
    pub fn double_fault_handler(&mut self, frame: StackFrame, error_code: u64) -> (r: Resolution)
        requires
            old(self).wf(),
        ensures
            final(self).wf(),
            r is Halt,
            halted_machine_state(*old(self), *final(self)),
            fault_logged(
                old(self).logger,
                final(self).logger,
                LevelFilter::Error,
                (FaultContext {
                    frame: frame,
                    error_code: Some(error_code),
                    faulting_address: None,
                }),
            ),
    {
        self.log_fault_record(
            LevelFilter::Error,
            "EXCEPTION: DOUBLE FAULT".to_owned(),
            FaultContext { frame: frame, error_code: Some(error_code), faulting_address: None },
        );
        self.interrupts_enabled = false;
        Resolution::Halt
    }

    /// The machine-check exception reports corrupted hardware state:
    /// records the captured frame, then enters the terminal halted state
    /// with interrupts disabled.
    pub fn machine_check_handler(&mut self, frame: StackFrame) -> (r: Resolution)
        requires
            old(self).wf(),
        ensures
            final(self).wf(),
            r is Halt,
            halted_machine_state(*old(self), *final(self)),
            fault_logged(
                old(self).logger,
                final(self).logger,
                LevelFilter::Error,
                (FaultContext { frame: frame, error_code: None, faulting_address: None }),
            ),
    {
        self.log_fault_record(
            LevelFilter::Error,
            "INTERRUPT: machine_check".to_owned(),
            FaultContext { frame: frame, error_code: None, faulting_address: None },
        );
        self.interrupts_enabled = false;
        Resolution::Halt
    }

    /// The page fault: record the faulting address, the access-type error
    /// code and the captured stack frame — the maximal available context —
    /// and, since this core implements no demand paging, escalate to the
    /// terminal halted state with interrupts disabled.
    pub fn page_fault_handler(
        &mut self,
        frame: StackFrame,
        error_code: u64,
        faulting_address: u64,
    ) -> (r: Resolution)
        requires
            old(self).wf(),
        ensures
            final(self).wf(),
            r is Halt,
            halted_machine_state(*old(self), *final(self)),
            fault_logged(
                old(self).logger,
                final(self).logger,
                LevelFilter::Error,
                (FaultContext {
                    frame: frame,
                    error_code: Some(error_code),
                    faulting_address: Some(faulting_address),
                }),
            ),
    {
        self.log_fault_record(
            LevelFilter::Error,
            "EXCEPTION: PAGE FAULT".to_owned(),
            FaultContext {
                frame: frame,
                error_code: Some(error_code),
                faulting_address: Some(faulting_address),
            },
        );
        self.interrupts_enabled = false;
        Resolution::Halt
    }

    /// The timer tick: advance the liveness marker, then acknowledge the
    /// timer vector as the last step.
    pub fn timer_interrupt_handler(&mut self, frame: StackFrame) -> (r: Resolution)
        requires
            old(self).wf(),
        ensures
            final(self).wf(),
            r == Resolution::Resume(frame),
            timer_transition(*old(self), *final(self)),
            diagnostic_logged(old(self).logger, final(self).logger, LevelFilter::Info),
    {
        self.log_record(LevelFilter::Info, ".".to_owned());
        if self.timer_ticks < u64::MAX {
            self.timer_ticks = self.timer_ticks + 1;
        }
        self.pics.notify_end_of_interrupt(InterruptIndex::Timer.as_u8());
        Resolution::Resume(frame)
    }

    /// The keyboard interrupt: push the byte read from the data port onto
    /// the scancode queue without blocking, fire the registered consumer
    /// interest if the push succeeded, then acknowledge the keyboard vector
    /// as the last step.
    pub fn keyboard_interrupt_handler(&mut self, frame: StackFrame, scancode: u8) -> (r:
        Resolution)
        requires
            old(self).wf(),
        ensures
            final(self).wf(),
            r == Resolution::Resume(frame),
            keyboard_transition(*old(self), *final(self), scancode),
            records_logged(old(self).logger, final(self).logger, LevelFilter::Info, 3),
    {
        let ghost l0 = self.logger;
        self.log_record(LevelFilter::Info, "keyboard_interrupt_handler".to_owned());
        let ghost l1 = self.logger;
        let (_accepted, woken) = self.queue.push(scancode);
        self.log_record(LevelFilter::Info, "keyboard_interrupt_handler: add new scancode".to_owned());
        let ghost l2 = self.logger;
        match woken {
            Some(id) => self.executor.wake(id),
            None => {},
        }
        self.log_record(
            LevelFilter::Info,
            "keyboard_interrupt_handler: notify end of interrupt".to_owned(),
        );
        self.pics.notify_end_of_interrupt(InterruptIndex::Keyboard.as_u8());
        proof {
            if level_enabled(LevelFilter::Info, l0.spec_max_level()) {
                assert forall|i: int|
                    l0.serial_lines().len() <= i < self.logger.serial_lines().len() implies (
                #[trigger] self.logger.serial_lines()[i]).level == Some(LevelFilter::Info) by {
                    if i < l1.serial_lines().len() {
                        assert(self.logger.serial_lines()[i] == l1.serial_lines()[i]);
                    } else if i < l2.serial_lines().len() {
                        assert(self.logger.serial_lines()[i] == l2.serial_lines()[i]);
                    }
                }
            }
        }
        Resolution::Resume(frame)
    }

    /// The dispatch the loaded table drives: hardware delivered `vector`
    /// while the machine state was `frame`, with an error code exactly when
    /// the architecture pushes one for that vector, and with the fault
    /// register and keyboard data port of `inputs` observable. Runs the
    /// defined handler under its class's policy; a vector without an entry
    /// is a fatal configuration failure, recorded and escalated to a halt.
    pub fn handle_interrupt(
        &mut self,
        vector: u8,
        frame: StackFrame,
        error_code: Option<u64>,
        inputs: MachineInputs,
    ) -> (r: Resolution)
        requires
            old(self).wf(),
            old(self).idt@.loaded,
            error_code is Some <==> spec_vector_pushes_error_code(vector as int),
        ensures
            final(self).wf(),
            old(self).idt@.entries[vector as int] is None ==> r is Halt && halted_machine_state(
                *old(self),
                *final(self),
            ) && fault_logged(
                old(self).logger,
                final(self).logger,
                LevelFilter::Error,
                (FaultContext { frame: frame, error_code: error_code, faulting_address: None }),
            ),
            (old(self).idt@.entries[vector as int] matches Some(e) && spec_classify(e.handler)
                == HandlerClass::Diagnostic) ==> r == Resolution::Resume(frame)
                && same_machine_state(*old(self), *final(self)) && fault_logged(
                old(self).logger,
                final(self).logger,
                LevelFilter::Trace,
                (FaultContext { frame: frame, error_code: error_code, faulting_address: None }),
            ),
            (old(self).idt@.entries[vector as int] matches Some(e) && e.handler
                == HandlerKind::DoubleFault) ==> r is Halt && halted_machine_state(
                *old(self),
                *final(self),
            ) && fault_logged(
                old(self).logger,
                final(self).logger,
                LevelFilter::Error,
                (FaultContext {
                    frame: frame,
                    error_code: Some(
                        (match error_code {
                            Some(c) => c,
                            None => 0,
                        }),
                    ),
                    faulting_address: None,
                }),
            ),
            (old(self).idt@.entries[vector as int] matches Some(e) && e.handler
                == HandlerKind::MachineCheck) ==> r is Halt && halted_machine_state(
                *old(self),
                *final(self),
            ) && fault_logged(
                old(self).logger,
                final(self).logger,
                LevelFilter::Error,
                (FaultContext { frame: frame, error_code: None, faulting_address: None }),
            ),
            (old(self).idt@.entries[vector as int] matches Some(e) && spec_classify(e.handler)
                == HandlerClass::Contextual) ==> r is Halt && halted_machine_state(
                *old(self),
                *final(self),
            ) && fault_logged(
                old(self).logger,
                final(self).logger,
                LevelFilter::Error,
                (FaultContext {
                    frame: frame,
                    error_code: Some(
                        (match error_code {
                            Some(c) => c,
                            None => 0,
                        }),
                    ),
                    faulting_address: Some(inputs.faulting_address),
                }),
            ),
            (old(self).idt@.entries[vector as int] matches Some(e) && e.handler
                == HandlerKind::Timer) ==> r == Resolution::Resume(frame) && timer_transition(
                *old(self),
                *final(self),
            ) && diagnostic_logged(old(self).logger, final(self).logger, LevelFilter::Info),
            (old(self).idt@.entries[vector as int] matches Some(e) && e.handler
                == HandlerKind::Keyboard) ==> r == Resolution::Resume(frame)
                && keyboard_transition(*old(self), *final(self), inputs.keyboard_port)
                && records_logged(old(self).logger, final(self).logger, LevelFilter::Info, 3),
    {
        let entry = self.idt.entry_at(vector);
        match entry {
            None => {
                self.log_fault_record(
                    LevelFilter::Error,
                    "unhandled interrupt vector".to_owned(),
                    FaultContext { frame: frame, error_code: error_code, faulting_address: None },
                );
                self.interrupts_enabled = false;
                Resolution::Halt
            },
            Some(e) => match classify(e.handler) {
                HandlerClass::Diagnostic => {
                    self.log_fault_record(
                        LevelFilter::Trace,
                        diagnostic_message(e.handler),
                        FaultContext {
                            frame: frame,
                            error_code: error_code,
                            faulting_address: None,
                        },
                    );
                    Resolution::Resume(frame)
                },
                HandlerClass::Fatal => {
                    if e.handler == HandlerKind::DoubleFault {
                        let code = match error_code {
                            Some(c) => c,
                            None => 0,
                        };
                        self.double_fault_handler(frame, code)
                    } else {
                        self.machine_check_handler(frame)
                    }
                },
                HandlerClass::Contextual => {
                    let code = match error_code {
                        Some(c) => c,
                        None => 0,
                    };
                    self.page_fault_handler(frame, code, inputs.faulting_address)
                },
                HandlerClass::HardwareIrq => {
                    if e.handler == HandlerKind::Keyboard {
                        self.keyboard_interrupt_handler(frame, inputs.keyboard_port)
                    } else {
                        self.timer_interrupt_handler(frame)
                    }
                },
            },
        }
    }

    /// One full pass of the scheduling loop over this kernel's queue and
    /// keypress sink: runs every ready task until none is ready.
    pub fn run_ready_tasks(&mut self) -> (polls: u64)
        requires
            old(self).wf(),
            exec_work(old(self).executor@.tasks) + old(self).executor@.ready.len() <= u64::MAX,
        ensures
            final(self).wf(),
            final(self).executor@.ready.len() == 0,
            final(self).executor@.next_id == old(self).executor@.next_id,
            final(self).queue@.capacity == old(self).queue@.capacity,
            final(self).queue@.dropped == old(self).queue@.dropped,
            extends(final(self).executor@.finished, old(self).executor@.finished),
            extends(final(self).keypresses@, old(self).keypresses@),
            forall|j: int|
                0 <= j < final(self).executor@.tasks.len() ==> task_from(
                    old(self).executor@.tasks,
                    #[trigger] final(self).executor@.tasks[j],
                ),
            forall|j: int|
                0 <= j < old(self).executor@.tasks.len() && (
                #[trigger] old(self).executor@.tasks[j]).kind is CountYields ==> owns(
                    final(self).executor@.tasks,
                    old(self).executor@.tasks[j].id,
                ) || final(self).executor@.finished.contains(
                    (old(self).executor@.tasks[j].id, old(self).executor@.tasks[j].kind->value),
                ),
            polls <= exec_work(old(self).executor@.tasks) + old(self).executor@.ready.len(),
            forall|i: int|
                old(self).executor@.finished.len() <= i < final(self).executor@.finished.len()
                    ==> completion_of(
                    old(self).executor@.tasks,
                    #[trigger] final(self).executor@.finished[i],
                ) && !owns(final(self).executor@.tasks, final(self).executor@.finished[i].0),
            ready_drainer(old(self).executor@) ==> final(self).queue@.scancodes.len() == 0
                && final(self).keypresses@ == old(self).keypresses@ + old(self).queue@.scancodes
                && drainer_waker(final(self).executor@, final(self).queue@.waker),
            all_counting(old(self).executor@.tasks) && all_ready(old(self).executor@)
                ==> final(self).executor@.tasks.len() == 0 && polls == exec_work(
                old(self).executor@.tasks,
            ) && final(self).queue@ == old(self).queue@ && final(self).keypresses@
                == old(self).keypresses@,
            final(self).pics@ == old(self).pics@,
            final(self).idt@ == old(self).idt@,
            final(self).logger == old(self).logger,
            final(self).timer_ticks == old(self).timer_ticks,
            final(self).interrupts_enabled == old(self).interrupts_enabled,
    {
        self.executor.run_until_idle(&mut self.queue, &mut self.keypresses)
    }

    /// The idle step's first half, taken when a scheduling pass left
    /// nothing ready: disable interrupts, then check once more whether
    /// anything became ready — with interrupts masked no wake can slip in
    /// between this check and the wait-for-interrupt instruction. Returns
    /// whether the kernel should now wait.
    pub fn prepare_idle(&mut self) -> (idle: bool)
        requires
            old(self).wf(),
        ensures
            final(self).wf(),
            !final(self).interrupts_enabled,
            idle == (old(self).executor@.ready.len() == 0),
            final(self).pics@ == old(self).pics@,
            final(self).idt@ == old(self).idt@,
            final(self).queue@ == old(self).queue@,
            final(self).executor@ == old(self).executor@,
            final(self).logger == old(self).logger,
            final(self).keypresses@ == old(self).keypresses@,
            final(self).timer_ticks == old(self).timer_ticks,
    {
        self.interrupts_enabled = false;
        let n = self.executor.ready_count();
        n == 0
    }

    /// Unmasks hardware interrupts. The table must be active and the
    /// controllers remapped first, so no vector can arrive unrouted.
    pub fn enable_interrupts(&mut self)
        requires
            old(self).wf(),
            old(self).idt@.loaded,
            old(self).pics@.initialized,
        ensures
            final(self).wf(),
            final(self).interrupts_enabled,
            final(self).pics@ == old(self).pics@,
            final(self).idt@ == old(self).idt@,
            final(self).queue@ == old(self).queue@,
            final(self).executor@ == old(self).executor@,
            final(self).logger == old(self).logger,
            final(self).keypresses@ == old(self).keypresses@,
            final(self).timer_ticks == old(self).timer_ticks,
    {
        self.interrupts_enabled = true;
    }
}

/// The diagnostic trace for each merely-diagnostic vector.
fn diagnostic_message(kind: HandlerKind) -> String {
    match kind {
        HandlerKind::DivideError => "INTERRUPT: divide_error".to_owned(),
        HandlerKind::Debug => "INTERRUPT: debug".to_owned(),
        HandlerKind::NonMaskableInterrupt => "INTERRUPT: non_maskable_interrupt".to_owned(),
        HandlerKind::Breakpoint => "EXCEPTION: BREAKPOINT".to_owned(),
        HandlerKind::Overflow => "INTERRUPT: overflow".to_owned(),
        HandlerKind::BoundRangeExceeded => "INTERRUPT: bound_range_exceeded".to_owned(),
        HandlerKind::InvalidOpcode => "INTERRUPT: invalid_opcode".to_owned(),
        HandlerKind::DeviceNotAvailable => "INTERRUPT: device_not_available".to_owned(),
        HandlerKind::DoubleFault => "EXCEPTION: DOUBLE FAULT".to_owned(),
        HandlerKind::InvalidTss => "INTERRUPT: invalid_tss".to_owned(),
        HandlerKind::SegmentNotPresent => "INTERRUPT: segment_not_present".to_owned(),
        HandlerKind::StackSegmentFault => "INTERRUPT: stack_segment_fault".to_owned(),
        HandlerKind::GeneralProtectionFault => "INTERRUPT: general_protection_fault".to_owned(),
        HandlerKind::PageFault => "EXCEPTION: PAGE FAULT".to_owned(),
        HandlerKind::X87FloatingPoint => "INTERRUPT: x87_floating_point".to_owned(),
        HandlerKind::AlignmentCheck => "INTERRUPT: alignment_check".to_owned(),
        HandlerKind::MachineCheck => "INTERRUPT: machine_check".to_owned(),
        HandlerKind::SimdFloatingPoint => "INTERRUPT: simd_floating_point".to_owned(),
        HandlerKind::Virtualization => "INTERRUPT: virtualization".to_owned(),
        HandlerKind::CpProtectionException => "INTERRUPT: cp_protection_exception".to_owned(),
        HandlerKind::HvInjectionException => "INTERRUPT: hv_injection_exception".to_owned(),
        HandlerKind::VmmCommunicationException => "INTERRUPT: vmm_communication_exception".to_owned(),
        HandlerKind::SecurityException => "INTERRUPT: security_exception".to_owned(),
        HandlerKind::Timer => "INTERRUPT: timer".to_owned(),
        HandlerKind::Keyboard => "INTERRUPT: keyboard".to_owned(),
    }
}

/// Law: no missed wakeup, end to end. Interest registered while the queue
/// was empty is fired by the very next keyboard push: the push takes the
/// interest, the wake puts that identity on the ready queue, and the woken
/// consumer's next poll observes exactly the pushed byte.
pub proof fn lemma_keyboard_wake_not_missed(
    q: QueueModel,
    e: ExecutorModel,
    id: TaskId,
    scancode: u8,
)
    requires
        q.inv(),
        e.inv(),
        q.scancodes.len() == 0,
        q.waker == Some(id),
        owns(e.tasks, id),
    ensures
        spec_push_woken(q) == Some(id),
        spec_wake(e, id).ready.contains(id),
        spec_poll(spec_push(q, scancode), id).0 == Some(scancode),
{
    lemma_wake_registered_before_push_fires(q, id, scancode);
    lemma_wake_marks_ready(e, id);
}

} // verus!
