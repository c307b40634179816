//! The interrupt-safe fan-out log sink: every record goes to both the pixel
//! console and the serial line, order-independent, required destinations.
//!
//! A record can carry captured machine data — a fault's context, the boot
//! framebuffer geometry — as plain values on the serial side, the channel an
//! external capture reads; the console shows the rendered label text.
//!
//! The console's shared state is guarded by the interrupt-safe lock; a
//! caller that may also log from a handler must run the write with
//! interrupts disabled for its duration (the kernel's wrapper does exactly
//! that). The panic path may `force_unlock` a wedged lock, since the kernel
//! is then already terminating.

use vstd::prelude::*;

use crate::framebuffer::FrameBufferInfo;
use crate::framebuffer::FrameBufferWriter;
use crate::interrupts::StackFrame;
use crate::level::LevelFilter;
use crate::level::convert_level;
use crate::level::level_enabled;
use crate::mutex::IrqMutex;

verus! {

/// The machine context captured with a fault diagnostic: the stack-frame
/// snapshot, and the hardware error code and faulting address where the
/// vector supplies them.
#[derive(Clone, Copy, PartialEq, Eq, Structural, Debug)]
pub struct FaultContext {
    pub frame: StackFrame,
    pub error_code: Option<u64>,
    pub faulting_address: Option<u64>,
}

/// Machine data a record can carry beside its text.
#[derive(Clone, Copy, PartialEq, Eq, Structural, Debug)]
pub enum RecordData {
    /// The context captured with a fault diagnostic.
    Fault(FaultContext),
    /// The boot-supplied framebuffer geometry, announced once at startup.
    Framebuffer(FrameBufferInfo),
}

/// One record on the serial line: the severity (none for the raw print
/// path), the message, and the captured machine data it carries, if any.
pub struct LogLine {
    pub level: Option<LevelFilter>,
    pub message: String,
    pub data: Option<RecordData>,
}

/// The log sink, its console state behind the interrupt-safe lock.
pub struct LockedLogger {
    framebuffer: Option<IrqMutex<FrameBufferWriter>>,
    serial: Vec<LogLine>,
    max_level: LevelFilter,
}

impl LockedLogger {
    /// Whether a framebuffer console was supplied at boot.
    pub closed spec fn has_framebuffer(&self) -> bool {
        self.framebuffer is Some
    }

    /// Whether the console lock is held.
    pub closed spec fn fb_locked(&self) -> bool {
        match self.framebuffer {
            Some(m) => m.is_locked(),
            None => false,
        }
    }

    /// The lines on the pixel console, in order.
    pub closed spec fn console_lines(&self) -> Seq<String> {
        match self.framebuffer {
            Some(m) => m.inner().lines@,
            None => Seq::<String>::empty(),
        }
    }

    /// The geometry the console draws into, fixed at boot.
    pub closed spec fn console_info(&self) -> Option<FrameBufferInfo> {
        match self.framebuffer {
            Some(m) => Some(m.inner().info),
            None => None,
        }
    }

    /// The records on the serial line, in order.
    pub closed spec fn serial_lines(&self) -> Seq<LogLine> {
        self.serial@
    }

    /// The verbosity ceiling.
    pub closed spec fn spec_max_level(&self) -> LevelFilter {
        self.max_level
    }

    /// Creates the sink over the boot-supplied framebuffer, admitting every
    /// record until a ceiling is configured.
    pub fn new(info: FrameBufferInfo) -> (l: LockedLogger)
        ensures
            l.has_framebuffer(),
            !l.fb_locked(),
            l.console_info() == Some(info),
            l.console_lines() == Seq::<String>::empty(),
            l.serial_lines() == Seq::<LogLine>::empty(),
            l.spec_max_level() == LevelFilter::Trace,
    {
        let writer = FrameBufferWriter::new(info);
        let l = LockedLogger {
            framebuffer: Some(IrqMutex::new(writer)),
            serial: Vec::new(),
            max_level: LevelFilter::Trace,
        };
        proof {
            assert(l.console_lines() =~= Seq::<String>::empty());
            assert(l.serial_lines() =~= Seq::<LogLine>::empty());
        }
        l
    }

    /// Sets the verbosity ceiling, supplied once at startup.
    pub fn set_max_level(&mut self, level: LevelFilter)
        ensures
            final(self).spec_max_level() == level,
            final(self).has_framebuffer() == old(self).has_framebuffer(),
            final(self).fb_locked() == old(self).fb_locked(),
            final(self).console_info() == old(self).console_info(),
            final(self).console_lines() == old(self).console_lines(),
            final(self).serial_lines() == old(self).serial_lines(),
    {
        self.max_level = level;
    }

    /// Whether a record at this severity passes the ceiling.
    pub fn enabled(&self, level: LevelFilter) -> (r: bool)
        ensures
            r == level_enabled(level, self.spec_max_level()),
    {
        let rank = convert_level(level);
        let ceiling = convert_level(self.max_level);
        proof {
            if rank == 0 {
                assert(level == LevelFilter::Off);
            }
        }
        rank != 0 && rank <= ceiling
    }

    /// Writes one record to both sinks inside one critical section. The
    /// console lock must be free — the masking discipline keeps it so when
    /// handlers share the sink. A record above the ceiling is dropped.
    pub fn log(&mut self, level: LevelFilter, message: String)
        requires
            !old(self).fb_locked(),
        ensures
            !final(self).fb_locked(),
            final(self).has_framebuffer() == old(self).has_framebuffer(),
            final(self).console_info() == old(self).console_info(),
            final(self).spec_max_level() == old(self).spec_max_level(),
            level_enabled(level, old(self).spec_max_level()) ==> {
                &&& old(self).has_framebuffer() ==> final(self).console_lines() == old(
                    self,
                ).console_lines().push(message)
                &&& !old(self).has_framebuffer() ==> final(self).console_lines() == old(
                    self,
                ).console_lines()
                &&& final(self).serial_lines() == old(self).serial_lines().push(
                    (LogLine { level: Some(level), message: message, data: None }),
                )
            },
            !level_enabled(level, old(self).spec_max_level()) ==> {
                &&& final(self).console_lines() == old(self).console_lines()
                &&& final(self).serial_lines() == old(self).serial_lines()
            },
    {
        self.write_record(level, message, None);
    }

    /// Writes one record that carries captured machine data: the serial
    /// record holds the values themselves, the console shows the label.
    pub fn log_with(&mut self, level: LevelFilter, message: String, data: RecordData)
        requires
            !old(self).fb_locked(),
        ensures
            !final(self).fb_locked(),
            final(self).has_framebuffer() == old(self).has_framebuffer(),
            final(self).console_info() == old(self).console_info(),
            final(self).spec_max_level() == old(self).spec_max_level(),
            level_enabled(level, old(self).spec_max_level()) ==> {
                &&& old(self).has_framebuffer() ==> final(self).console_lines() == old(
                    self,
                ).console_lines().push(message)
                &&& !old(self).has_framebuffer() ==> final(self).console_lines() == old(
                    self,
                ).console_lines()
                &&& final(self).serial_lines() == old(self).serial_lines().push(
                    (LogLine { level: Some(level), message: message, data: Some(data) }),
                )
            },
            !level_enabled(level, old(self).spec_max_level()) ==> {
                &&& final(self).console_lines() == old(self).console_lines()
                &&& final(self).serial_lines() == old(self).serial_lines()
            },
    {
        self.write_record(level, message, Some(data));
    }

    /// The shared leveled write path.
    fn write_record(&mut self, level: LevelFilter, message: String, data: Option<RecordData>)
        requires
            !old(self).fb_locked(),
        ensures
            !final(self).fb_locked(),
            final(self).has_framebuffer() == old(self).has_framebuffer(),
            final(self).console_info() == old(self).console_info(),
            final(self).spec_max_level() == old(self).spec_max_level(),
            level_enabled(level, old(self).spec_max_level()) ==> {
                &&& old(self).has_framebuffer() ==> final(self).console_lines() == old(
                    self,
                ).console_lines().push(message)
                &&& !old(self).has_framebuffer() ==> final(self).console_lines() == old(
                    self,
                ).console_lines()
                &&& final(self).serial_lines() == old(self).serial_lines().push(
                    (LogLine { level: Some(level), message: message, data: data }),
                )
            },
            !level_enabled(level, old(self).spec_max_level()) ==> {
                &&& final(self).console_lines() == old(self).console_lines()
                &&& final(self).serial_lines() == old(self).serial_lines()
            },
    {
        if !self.enabled(level) {
            return ;
        }
        let console_copy = message.clone();
        match &mut self.framebuffer {
            Some(m) => {
                m.acquire();
                m.write_line(console_copy);
                m.release();
            },
            None => {},
        }
        self.serial.push(LogLine { level: Some(level), message: message, data: data });
    }

    /// The raw print path: writes one line to both sinks unconditionally,
    /// inside one critical section.
    pub fn print(&mut self, message: String)
        requires
            !old(self).fb_locked(),
        ensures
            !final(self).fb_locked(),
            final(self).has_framebuffer() == old(self).has_framebuffer(),
            final(self).console_info() == old(self).console_info(),
            final(self).spec_max_level() == old(self).spec_max_level(),
            old(self).has_framebuffer() ==> final(self).console_lines() == old(
                self,
            ).console_lines().push(message),
            !old(self).has_framebuffer() ==> final(self).console_lines() == old(
                self,
            ).console_lines(),
            final(self).serial_lines() == old(self).serial_lines().push(
                (LogLine { level: None, message: message, data: None }),
            ),
    {
        let console_copy = message.clone();
        match &mut self.framebuffer {
            Some(m) => {
                m.acquire();
                m.write_line(console_copy);
                m.release();
            },
            None => {},
        }
        self.serial.push(LogLine { level: None, message: message, data: None });
    }

    /// Frees the console lock whatever its state: the panic path's escape.
    pub fn force_unlock(&mut self)
        ensures
            !final(self).fb_locked(),
            final(self).has_framebuffer() == old(self).has_framebuffer(),
            final(self).console_info() == old(self).console_info(),
            final(self).spec_max_level() == old(self).spec_max_level(),
            final(self).console_lines() == old(self).console_lines(),
            final(self).serial_lines() == old(self).serial_lines(),
    {
        match &mut self.framebuffer {
            Some(m) => m.force_unlock(),
            None => {},
        }
    }

    /// How many lines the pixel console holds, read under the lock.
    pub fn console_line_count(&mut self) -> (r: usize)
        requires
            !old(self).fb_locked(),
        ensures
            !final(self).fb_locked(),
            final(self).has_framebuffer() == old(self).has_framebuffer(),
            final(self).console_info() == old(self).console_info(),
            final(self).spec_max_level() == old(self).spec_max_level(),
            final(self).console_lines() == old(self).console_lines(),
            final(self).serial_lines() == old(self).serial_lines(),
            r == old(self).console_lines().len(),
    {
        match &mut self.framebuffer {
            Some(m) => {
                m.acquire();
                let n = m.borrow().lines.len();
                m.release();
                n
            },
            None => 0,
        }
    }

    /// One line of the pixel console, read under the lock.
    pub fn console_line_at(&mut self, i: usize) -> (r: Option<String>)
        requires
            !old(self).fb_locked(),
        ensures
            !final(self).fb_locked(),
            final(self).has_framebuffer() == old(self).has_framebuffer(),
            final(self).console_info() == old(self).console_info(),
            final(self).spec_max_level() == old(self).spec_max_level(),
            final(self).console_lines() == old(self).console_lines(),
            final(self).serial_lines() == old(self).serial_lines(),
            r == if i < old(self).console_lines().len() {
                Some(old(self).console_lines()[i as int])
            } else {
                Option::<String>::None
            },
    {
        match &mut self.framebuffer {
            Some(m) => {
                m.acquire();
                let line = {
                    let w = m.borrow();
                    if i < w.lines.len() {
                        Some(w.lines[i].clone())
                    } else {
                        None
                    }
                };
                m.release();
                line
            },
            None => None,
        }
    }

    /// The console geometry, as supplied at boot.
    pub fn console_geometry(&self) -> (r: Option<FrameBufferInfo>)
        ensures
            r == self.console_info(),
    {
        match &self.framebuffer {
            Some(m) => Some(m.borrow_info()),
            None => None,
        }
    }

    /// Whether the console lock is held right now. Every library path
    /// releases it before returning; the check exists for outside callers
    /// that must not enter a critical section blindly.
    pub fn is_console_locked(&self) -> (r: bool)
        ensures
            r == self.fb_locked(),
    {
        match &self.framebuffer {
            Some(m) => m.is_locked_now(),
            None => false,
        }
    }

    /// The records on the serial line, in order.
    pub fn serial_records(&self) -> (r: &Vec<LogLine>)
        ensures
            r@ == self.serial_lines(),
    {
        &self.serial
    }
}

/// The sink as the one-time boot initialization leaves it: the ceiling set,
/// and the one announcement record carrying the framebuffer geometry —
/// filtered by the ceiling like any other record.
pub open spec fn initialized_sink(
    l: LockedLogger,
    info: FrameBufferInfo,
    log_level: LevelFilter,
) -> bool {
    &&& l.has_framebuffer()
    &&& !l.fb_locked()
    &&& l.console_info() == Some(info)
    &&& l.spec_max_level() == log_level
    &&& if level_enabled(LevelFilter::Info, log_level) {
        &&& l.serial_lines().len() == 1
        &&& l.serial_lines()[0].level == Some(LevelFilter::Info)
        &&& l.serial_lines()[0].data == Some(RecordData::Framebuffer(info))
        &&& l.console_lines().len() == 1
    } else {
        &&& l.serial_lines() == Seq::<LogLine>::empty()
        &&& l.console_lines() == Seq::<String>::empty()
    }
}

/// Initializes the text logger over the boot-supplied framebuffer at the
/// configured verbosity, and announces the framebuffer geometry with one
/// record. Runs once at startup; the caller keeps the one instance for the
/// kernel's lifetime.
pub fn init_logger(info: FrameBufferInfo, log_level: LevelFilter) -> (l: LockedLogger)
    ensures
        initialized_sink(l, info, log_level),
{
    let mut l = LockedLogger::new(info);
    l.set_max_level(log_level);
    l.log_with(
        LevelFilter::Info,
        "framebuffer info".to_owned(),
        RecordData::Framebuffer(info),
    );
    l
}

} // verus!
