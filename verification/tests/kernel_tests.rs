use amarui::framebuffer::FrameBufferInfo;
use amarui::interrupts::HandlerKind;
use amarui::interrupts::StackFrame;
use amarui::kernel::Kernel;
use amarui::kernel::MachineInputs;
use amarui::kernel::Resolution;
use amarui::level::LevelFilter;
use amarui::logger::FaultContext;
use amarui::logger::RecordData;
use amarui::task::TaskKind;

fn info() -> FrameBufferInfo {
    FrameBufferInfo { width: 640, height: 480, stride: 640, bytes_per_pixel: 4 }
}

fn boot_kernel(level: LevelFilter) -> Kernel {
    let mut k = Kernel::new(info(), level);
    k.init();
    k
}

fn frame() -> StackFrame {
    StackFrame {
        instruction_pointer: 0x1000,
        code_segment: 8,
        cpu_flags: 0x202,
        stack_pointer: 0x8000,
        stack_segment: 16,
    }
}

fn no_inputs() -> MachineInputs {
    MachineInputs { faulting_address: 0, keyboard_port: 0 }
}

#[test]
fn boot_runs_in_the_required_order() {
    let mut k = Kernel::new(info(), LevelFilter::Trace);
    assert!(!k.pics.is_initialized());
    assert!(!k.idt.is_loaded());
    assert!(!k.interrupts_enabled);
    assert!(k.idt.covers());
    k.init();
    assert!(k.pics.is_initialized());
    assert!(k.idt.is_loaded());
    assert!(k.interrupts_enabled);
    assert_eq!(k.pics.offsets(), (32, 40));
    assert_eq!(k.logger.console_geometry(), Some(info()));
    // the one boot announcement carries the framebuffer geometry
    assert_eq!(k.logger.serial_records().len(), 1);
    assert_eq!(k.logger.serial_records()[0].level, Some(LevelFilter::Info));
    assert_eq!(k.logger.serial_records()[0].data, Some(RecordData::Framebuffer(info())));
}

#[test]
fn end_to_end_keyboard_interrupt_queues_byte_and_acknowledges_once() {
    // initialize the controllers with offsets (32, 40) and load the table,
    // which routes the keyboard handler at vector 33
    let mut k = boot_kernel(LevelFilter::Error);
    let inputs = MachineInputs { faulting_address: 0, keyboard_port: 0x1E };
    let r = k.handle_interrupt(33, frame(), None, inputs);
    assert_eq!(r, Resolution::Resume(frame()));
    // exactly one queued entry, the 'a' make-code
    assert_eq!(k.queue.contents().as_slice(), &[0x1E]);
    // exactly one acknowledgment, for vector 33
    assert_eq!(k.pics.acks().as_slice(), &[33]);
}

#[test]
fn breakpoint_trap_leaves_observable_machine_state_unchanged() {
    let mut k = boot_kernel(LevelFilter::Trace);
    k.executor.spawn(TaskKind::CountYields { remaining: 1, value: 9 });
    k.queue.push(0x55);
    let queue_before: Vec<u8> = k.queue.contents().clone();
    let acks_before: Vec<u8> = k.pics.acks().clone();
    let tasks_before = k.executor.task_count();
    let ready_before = k.executor.ready_count();
    let ticks_before = k.timer_ticks;
    let serial_before = k.logger.serial_records().len();

    let r = k.handle_interrupt(3, frame(), None, no_inputs());

    // the interrupted context resumes with the very same frame
    assert_eq!(r, Resolution::Resume(frame()));
    // nothing observable after resume has moved
    assert_eq!(k.queue.contents(), &queue_before);
    assert_eq!(k.pics.acks(), &acks_before);
    assert_eq!(k.executor.task_count(), tasks_before);
    assert_eq!(k.executor.ready_count(), ready_before);
    assert_eq!(k.timer_ticks, ticks_before);
    assert!(k.interrupts_enabled);
    // except the diagnostic trace, which carries the captured frame
    assert_eq!(k.logger.serial_records().len(), serial_before + 1);
    let last = &k.logger.serial_records()[serial_before];
    assert_eq!(last.level, Some(LevelFilter::Trace));
    assert_eq!(last.message, "EXCEPTION: BREAKPOINT");
    assert_eq!(
        last.data,
        Some(RecordData::Fault(FaultContext {
            frame: frame(),
            error_code: None,
            faulting_address: None,
        }))
    );
}

#[test]
fn timer_interrupt_ticks_and_acknowledges_vector_32() {
    let mut k = boot_kernel(LevelFilter::Error);
    let r = k.handle_interrupt(32, frame(), None, no_inputs());
    assert_eq!(r, Resolution::Resume(frame()));
    assert_eq!(k.timer_ticks, 1);
    assert_eq!(k.pics.acks().as_slice(), &[32]);
    assert_eq!(k.queue.len(), 0);
}

#[test]
fn page_fault_logs_full_context_and_halts_with_interrupts_masked() {
    let mut k = boot_kernel(LevelFilter::Trace);
    let inputs = MachineInputs { faulting_address: 0xdead_beef, keyboard_port: 0 };
    let before = k.logger.serial_records().len();
    let r = k.handle_interrupt(14, frame(), Some(0x2), inputs);
    assert_eq!(r, Resolution::Halt);
    // the terminal state is entered with interrupts disabled
    assert!(!k.interrupts_enabled);
    // the record carries the maximal available context: faulting address,
    // error code and the captured stack frame
    assert_eq!(k.logger.serial_records().len(), before + 1);
    let record = &k.logger.serial_records()[before];
    assert_eq!(record.level, Some(LevelFilter::Error));
    assert_eq!(record.message, "EXCEPTION: PAGE FAULT");
    assert_eq!(
        record.data,
        Some(RecordData::Fault(FaultContext {
            frame: frame(),
            error_code: Some(0x2),
            faulting_address: Some(0xdead_beef),
        }))
    );
    // a fault never acknowledges the controllers
    assert!(k.pics.acks().is_empty());
}

#[test]
fn double_fault_and_machine_check_are_fatal_with_context() {
    let mut k = boot_kernel(LevelFilter::Error);
    let r = k.handle_interrupt(8, frame(), Some(5), no_inputs());
    assert_eq!(r, Resolution::Halt);
    assert!(!k.interrupts_enabled);
    let df = &k.logger.serial_records()[0];
    assert_eq!(df.level, Some(LevelFilter::Error));
    assert_eq!(
        df.data,
        Some(RecordData::Fault(FaultContext {
            frame: frame(),
            error_code: Some(5),
            faulting_address: None,
        }))
    );
    let r2 = k.handle_interrupt(18, frame(), None, no_inputs());
    assert_eq!(r2, Resolution::Halt);
    let mc = &k.logger.serial_records()[1];
    assert_eq!(
        mc.data,
        Some(RecordData::Fault(FaultContext {
            frame: frame(),
            error_code: None,
            faulting_address: None,
        }))
    );
}

#[test]
fn general_protection_fault_logs_code_and_frame() {
    let mut k = boot_kernel(LevelFilter::Trace);
    let before = k.logger.serial_records().len();
    let r = k.handle_interrupt(13, frame(), Some(0x18), no_inputs());
    assert_eq!(r, Resolution::Resume(frame()));
    let record = &k.logger.serial_records()[before];
    assert_eq!(record.level, Some(LevelFilter::Trace));
    assert_eq!(record.message, "INTERRUPT: general_protection_fault");
    assert_eq!(
        record.data,
        Some(RecordData::Fault(FaultContext {
            frame: frame(),
            error_code: Some(0x18),
            faulting_address: None,
        }))
    );
}

#[test]
fn named_handlers_match_the_dispatched_behaviour() {
    let mut k = boot_kernel(LevelFilter::Trace);
    let start = k.logger.serial_records().len();
    assert_eq!(k.breakpoint_handler(frame()), Resolution::Resume(frame()));
    assert_eq!(
        k.general_protection_fault_handler(frame(), 0x18),
        Resolution::Resume(frame())
    );
    assert_eq!(k.timer_interrupt_handler(frame()), Resolution::Resume(frame()));
    assert_eq!(k.keyboard_interrupt_handler(frame(), 0x1E), Resolution::Resume(frame()));
    assert_eq!(k.queue.contents().as_slice(), &[0x1E]);
    assert_eq!(k.pics.acks().as_slice(), &[32, 33]);
    assert_eq!(
        k.logger.serial_records()[start].data,
        Some(RecordData::Fault(FaultContext {
            frame: frame(),
            error_code: None,
            faulting_address: None,
        }))
    );
    assert_eq!(
        k.logger.serial_records()[start + 1].data,
        Some(RecordData::Fault(FaultContext {
            frame: frame(),
            error_code: Some(0x18),
            faulting_address: None,
        }))
    );
    // the fatal named handlers enter the masked terminal state
    assert_eq!(k.machine_check_handler(frame()), Resolution::Halt);
    assert!(!k.interrupts_enabled);
    let mut k2 = boot_kernel(LevelFilter::Trace);
    assert_eq!(k2.double_fault_handler(frame(), 7), Resolution::Halt);
    assert!(!k2.interrupts_enabled);
    assert_eq!(k2.page_fault_handler(frame(), 2, 0x1000), Resolution::Halt);
    assert!(!k2.interrupts_enabled);
}

#[test]
fn vector_without_entry_is_a_fatal_configuration_failure() {
    let mut k = boot_kernel(LevelFilter::Error);
    let r = k.handle_interrupt(99, frame(), None, no_inputs());
    assert_eq!(r, Resolution::Halt);
    assert!(!k.interrupts_enabled);
}

#[test]
fn diagnostic_vectors_resume_unchanged() {
    let mut k = boot_kernel(LevelFilter::Trace);
    for vector in [0u8, 1, 2, 4, 5, 6, 7, 16, 19, 20, 28] {
        let r = k.handle_interrupt(vector, frame(), None, no_inputs());
        assert_eq!(r, Resolution::Resume(frame()));
    }
    for vector in [10u8, 11, 12, 13, 17, 21, 29, 30] {
        let r = k.handle_interrupt(vector, frame(), Some(0), no_inputs());
        assert_eq!(r, Resolution::Resume(frame()));
    }
    assert!(k.pics.acks().is_empty());
    assert_eq!(k.queue.len(), 0);
}

#[test]
fn table_is_complete_with_correct_error_code_flags_and_stacks() {
    let k = boot_kernel(LevelFilter::Error);
    let bp = k.idt.entry_at(3).unwrap();
    assert_eq!(bp.handler, HandlerKind::Breakpoint);
    assert!(!bp.has_error_code);
    assert_eq!(bp.stack_index, None);
    let df = k.idt.entry_at(8).unwrap();
    assert_eq!(df.handler, HandlerKind::DoubleFault);
    assert!(df.has_error_code);
    assert_eq!(df.stack_index, Some(0));
    let pf = k.idt.entry_at(14).unwrap();
    assert_eq!(pf.handler, HandlerKind::PageFault);
    assert!(pf.has_error_code);
    let timer = k.idt.entry_at(32).unwrap();
    assert_eq!(timer.handler, HandlerKind::Timer);
    let kb = k.idt.entry_at(33).unwrap();
    assert_eq!(kb.handler, HandlerKind::Keyboard);
    // the two reserved holes in the exception range stay empty
    assert!(k.idt.entry_at(9).is_none());
    assert!(k.idt.entry_at(15).is_none());
    assert!(k.idt.entry_at(34).is_none());
}

#[test]
fn keypress_travels_from_interrupt_to_task() {
    let mut k = boot_kernel(LevelFilter::Error);
    k.executor.spawn(TaskKind::DrainQueue);
    // first pass: the drainer finds nothing and registers interest
    let polls = k.run_ready_tasks();
    assert_eq!(polls, 1);
    assert!(k.keypresses.is_empty());
    // a keyboard interrupt arrives; its wake re-queues the drainer
    k.handle_interrupt(33, frame(), None, MachineInputs { faulting_address: 0, keyboard_port: 0x1E });
    assert_eq!(k.executor.ready_count(), 1);
    // the next pass delivers the byte to the task
    k.run_ready_tasks();
    assert_eq!(k.keypresses, vec![0x1E]);
    assert_eq!(k.queue.len(), 0);
}

#[test]
fn scancodes_reach_the_task_in_push_order() {
    let mut k = boot_kernel(LevelFilter::Error);
    k.executor.spawn(TaskKind::DrainQueue);
    k.run_ready_tasks();
    for b in [0x1Eu8, 0x30, 0x2E] {
        k.handle_interrupt(
            33,
            frame(),
            None,
            MachineInputs { faulting_address: 0, keyboard_port: b },
        );
    }
    k.run_ready_tasks();
    assert_eq!(k.keypresses, vec![0x1E, 0x30, 0x2E]);
    assert_eq!(k.pics.acks().as_slice(), &[33, 33, 33]);
}

#[test]
fn idle_decision_is_taken_with_interrupts_masked() {
    let mut k = boot_kernel(LevelFilter::Error);
    let idle = k.prepare_idle();
    assert!(idle);
    assert!(!k.interrupts_enabled);
    k.enable_interrupts();
    assert!(k.interrupts_enabled);
    k.executor.spawn(TaskKind::CountYields { remaining: 0, value: 0 });
    let idle2 = k.prepare_idle();
    assert!(!idle2);
}
