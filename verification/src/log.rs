//! A bounded log buffer: the control loop pushes messages during a tick
//! and flushes them at the tick boundary. The buffer is a handle the loop
//! owns and passes around; printing or persisting what a flush returns is
//! the caller's business.

use vstd::prelude::*;

verus! {

/// How many messages the buffer holds before it refuses more.
pub const LOG_BUFFER_SIZE: usize = 32;

/// How important a log message is.
#[derive(Clone, Copy, Debug, PartialEq, Eq, Structural)]
pub enum Level {
    /// Diagnostic chatter.
    Debug,
    /// Ordinary progress reports.
    Info,
    /// Something went wrong but the loop carries on.
    Warning,
}

/// The numeric severity of a level, for threshold comparisons.
pub open spec fn severity_of(level: Level) -> int {
    match level {
        Level::Debug => 0,
        Level::Info => 1,
        Level::Warning => 2,
    }
}

impl Level {
    /// Whether this level is at least as severe as a threshold.
    pub fn at_least(self, min: Level) -> (r: bool)
        ensures
            r == (severity_of(self) >= severity_of(min)),
    {
        let s = match self {
            Level::Debug => 0u8,
            Level::Info => 1,
            Level::Warning => 2,
        };
        let m = match min {
            Level::Debug => 0u8,
            Level::Info => 1,
            Level::Warning => 2,
        };
        s >= m
    }
}

/// One buffered log message.
pub struct LogEntry {
    /// How important it is.
    pub level: Level,
    /// The message.
    pub msg: String,
}

/// The bounded log buffer.
pub struct Logger {
    buffer: Vec<LogEntry>,
}

impl Logger {
    /// Never more than the buffer's capacity of messages.
    pub closed spec fn wf(self) -> bool {
        self.buffer@.len() <= 32
    }

    /// The buffered messages, oldest first.
    pub closed spec fn entries(self) -> Seq<LogEntry> {
        self.buffer@
    }

    /// A fresh, empty buffer.
    pub fn new() -> (r: Logger)
        ensures
            r.wf(),
            r.entries() == Seq::<LogEntry>::empty(),
    {
        let r = Logger { buffer: Vec::new() };
        proof {
            assert(r.entries() =~= Seq::<LogEntry>::empty());
        }
        r
    }

    /// Buffers one message, or hands it back when the buffer is full.
    pub fn log(&mut self, entry: LogEntry) -> (r: Result<(), LogEntry>)
        requires
            old(self).wf(),
        ensures
            final(self).wf(),
            match r {
                Ok(()) => old(self).entries().len() < 32 && final(self).entries() == old(
                    self,
                ).entries().push(entry),
                Err(back) => old(self).entries().len() == 32 && final(self).entries() == old(
                    self,
                ).entries() && back == entry,
            },
    {
        if self.buffer.len() == LOG_BUFFER_SIZE {
            return Err(entry);
        }
        self.buffer.push(entry);
        Ok(())
    }

    /// Empties the buffer and returns everything it held, oldest first.
    pub fn flush(&mut self) -> (r: Vec<LogEntry>)
        requires
            old(self).wf(),
        ensures
            final(self).wf(),
            final(self).entries() == Seq::<LogEntry>::empty(),
            r@ == old(self).entries(),
    {
        let mut drained: Vec<LogEntry> = Vec::new();
        core::mem::swap(&mut drained, &mut self.buffer);
        proof {
            assert(self.buffer@ =~= Seq::<LogEntry>::empty());
        }
        drained
    }
}

} // verus!
