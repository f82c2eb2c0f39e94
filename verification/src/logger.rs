//! The run logger's byte buffer.
//!
//! The harness accumulates leveled log lines into a buffer whose final
//! contents are uploaded as a run artifact.  The line format is pinned down
//! here; the clock reading and the adapter that feeds lines in from the host's
//! logging facade live in the application layer.

use vstd::prelude::*;
use crate::text::utf8_to_string;

verus! {

use vstd::string::StringSliceAdditionalSpecFns;
use vstd::string::StringExecFns;
use vstd::utf8::{decode_utf8, valid_utf8};

/// A log line's severity, most severe first.
#[derive(Clone, Copy, PartialEq, Eq, Structural, Debug)]
pub enum LogLevel {
    Error,
    Warn,
    Info,
    Debug,
    Trace,
}

impl LogLevel {
    /// The level's label, padded to the five columns the line format uses.
    pub open spec fn spec_label(self) -> Seq<char> {
        match self {
            LogLevel::Error => "ERROR"@,
            LogLevel::Warn => "WARN "@,
            LogLevel::Info => "INFO "@,
            LogLevel::Debug => "DEBUG"@,
            LogLevel::Trace => "TRACE"@,
        }
    }

    pub fn label(&self) -> (r: &'static str)
        ensures
            r@ == self.spec_label(),
    {
        match self {
            LogLevel::Error => "ERROR",
            LogLevel::Warn => "WARN ",
            LogLevel::Info => "INFO ",
            LogLevel::Debug => "DEBUG",
            LogLevel::Trace => "TRACE",
        }
    }
}

/// One formatted log line: `[timestamp][LEVEL]: message` and a line feed.
pub open spec fn log_line_bytes(timestamp: Seq<u8>, level: LogLevel, message: Seq<u8>) -> Seq<u8> {
    "[".spec_bytes() + timestamp + "][".spec_bytes() + vstd::utf8::encode_utf8(level.spec_label())
        + "]: ".spec_bytes() + message + "\n".spec_bytes()
}

/// The buffer that accumulates a run's log lines.
pub struct ExperimentLogger {
    pub log: Vec<u8>,
}

impl ExperimentLogger {
    /// A logger with an empty buffer.
    pub fn build() -> (r: ExperimentLogger)
        ensures
            r.log@ == Seq::<u8>::empty(),
    {
        ExperimentLogger { log: Vec::new() }
    }

    /// Appends one formatted line to the buffer.
    pub fn log_line(&mut self, timestamp: &str, level: LogLevel, message: &str)
        ensures
            final(self).log@ == old(self).log@ + log_line_bytes(
                timestamp.spec_bytes(),
                level,
                message.spec_bytes(),
            ),
    {
        crate::request::append_str(&mut self.log, "[");
        crate::request::append_str(&mut self.log, timestamp);
        crate::request::append_str(&mut self.log, "][");
        crate::request::append_str(&mut self.log, level.label());
        crate::request::append_str(&mut self.log, "]: ");
        crate::request::append_str(&mut self.log, message);
        crate::request::append_str(&mut self.log, "\n");
        assert(self.log@ =~= old(self).log@ + log_line_bytes(
            timestamp.spec_bytes(),
            level,
            message.spec_bytes(),
        ));
    }

    /// The accumulated bytes.
    pub fn contents(&self) -> (r: &Vec<u8>)
        ensures
            r@ == self.log@,
    {
        &self.log
    }

    /// An owned copy of the accumulated bytes.
    pub fn contents_vec(&self) -> (r: Vec<u8>)
        ensures
            r@ == self.log@,
    {
        let mut out: Vec<u8> = Vec::new();
        crate::request::append_bytes(&mut out, self.log.as_slice());
        out
    }

    /// The buffer as text; the buffer only ever holds UTF-8 lines, but a
    /// defect is reported in-band rather than by panicking.
    pub fn to_string(&self) -> (r: String)
        ensures
            valid_utf8(self.log@) ==> r@ == decode_utf8(self.log@),
            !valid_utf8(self.log@) ==> r@ == "Error: could not convert Vec<u8> to String"@,
    {
        let copy = self.contents_vec();
        match utf8_to_string(copy) {
            Some(s) => s,
            None => String::from_str("Error: could not convert Vec<u8> to String"),
        }
    }
}

} // verus!
