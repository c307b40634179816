use amarui::framebuffer::FrameBufferInfo;
use amarui::framebuffer::FrameBufferWriter;
use amarui::interrupts::InterruptIndex;
use amarui::level::LevelFilter;
use amarui::level::convert_level;
use amarui::logger::LockedLogger;
use amarui::logger::RecordData;
use amarui::logger::init_logger;
use amarui::mutex::IrqMutex;

fn info() -> FrameBufferInfo {
    FrameBufferInfo { width: 640, height: 480, stride: 640, bytes_per_pixel: 4 }
}

#[test]
fn convert_level_gives_each_rank_exactly() {
    assert_eq!(convert_level(LevelFilter::Off), 0);
    assert_eq!(convert_level(LevelFilter::Error), 1);
    assert_eq!(convert_level(LevelFilter::Warn), 2);
    assert_eq!(convert_level(LevelFilter::Info), 3);
    assert_eq!(convert_level(LevelFilter::Debug), 4);
    assert_eq!(convert_level(LevelFilter::Trace), 5);
}

#[test]
fn interrupt_index_maps_to_remapped_vectors() {
    assert_eq!(InterruptIndex::Timer.as_u8(), 32);
    assert_eq!(InterruptIndex::Keyboard.as_u8(), 33);
    assert_eq!(InterruptIndex::Timer.as_usize(), 32);
    assert_eq!(InterruptIndex::Keyboard.as_usize(), 33);
}

#[test]
fn initialization_announces_the_framebuffer_geometry_once() {
    let mut l = init_logger(info(), LevelFilter::Info);
    assert_eq!(l.serial_records().len(), 1);
    assert_eq!(l.serial_records()[0].level, Some(LevelFilter::Info));
    assert_eq!(l.serial_records()[0].data, Some(RecordData::Framebuffer(info())));
    assert_eq!(l.console_line_count(), 1);
    assert_eq!(l.console_geometry(), Some(info()));
    // below the ceiling the announcement is filtered like any record
    let quiet = init_logger(info(), LevelFilter::Error);
    assert_eq!(quiet.serial_records().len(), 0);
}

#[test]
fn log_fans_out_to_both_sinks() {
    let mut l = init_logger(info(), LevelFilter::Trace);
    let start = l.serial_records().len();
    l.log(LevelFilter::Info, "hello".to_owned());
    assert_eq!(l.serial_records().len(), start + 1);
    assert_eq!(l.serial_records()[start].level, Some(LevelFilter::Info));
    assert_eq!(l.serial_records()[start].message, "hello");
    assert_eq!(l.serial_records()[start].data, None);
    assert_eq!(l.console_line_count(), start + 1);
    assert_eq!(l.console_line_at(start), Some("hello".to_owned()));
}

#[test]
fn ceiling_filters_more_verbose_records() {
    let mut l = init_logger(info(), LevelFilter::Warn);
    l.log(LevelFilter::Info, "quiet".to_owned());
    l.log(LevelFilter::Trace, "quieter".to_owned());
    assert_eq!(l.serial_records().len(), 0);
    assert_eq!(l.console_line_count(), 0);
    l.log(LevelFilter::Warn, "heard".to_owned());
    l.log(LevelFilter::Error, "heard too".to_owned());
    assert_eq!(l.serial_records().len(), 2);
    assert_eq!(l.console_line_count(), 2);
}

#[test]
fn off_silences_everything_but_print() {
    let mut l = init_logger(info(), LevelFilter::Off);
    l.log(LevelFilter::Error, "dropped".to_owned());
    assert_eq!(l.serial_records().len(), 0);
    // the raw print path ignores the ceiling
    l.print("printed".to_owned());
    assert_eq!(l.serial_records().len(), 1);
    assert_eq!(l.serial_records()[0].level, None);
    assert_eq!(l.serial_records()[0].message, "printed");
    assert_eq!(l.console_line_at(0), Some("printed".to_owned()));
}

#[test]
fn force_unlock_recovers_and_keeps_content() {
    let mut l = LockedLogger::new(info());
    l.print("one".to_owned());
    l.force_unlock();
    l.print("two".to_owned());
    assert_eq!(l.console_line_count(), 2);
    assert_eq!(l.console_line_at(0), Some("one".to_owned()));
    assert_eq!(l.console_line_at(1), Some("two".to_owned()));
    assert_eq!(l.console_line_at(2), None);
}

#[test]
fn mutex_gives_exclusive_access_and_back() {
    let mut m = IrqMutex::new(5u64);
    m.acquire();
    assert_eq!(*m.borrow(), 5);
    let old = m.replace(7);
    assert_eq!(old, 5);
    assert_eq!(*m.borrow(), 7);
    m.release();
    m.force_unlock();
    m.acquire();
    assert_eq!(*m.borrow(), 7);
}

#[test]
fn framebuffer_writer_keeps_lines_in_order() {
    let mut w = FrameBufferWriter::new(info());
    assert_eq!(w.info, info());
    w.write_line("a".to_owned());
    w.write_line("b".to_owned());
    assert_eq!(w.lines, vec!["a".to_owned(), "b".to_owned()]);
}
