//! The capture engine's control core: the pause/resume/stop state machine
//! and the aggregation window it guards. The worker threads that block on a
//! device read or a timer live outside the crate; they drive this core with
//! one call per packet and one call per flush tick, under one lock, so every
//! guarantee below holds of each such step.

use vstd::prelude::*;
use crate::capture::parse_packet;
use crate::capture::spec_frame_dns_failure;
use crate::capture::spec_packet_post;
use crate::errors::PacketSnifferError;
use crate::table::empty_report;
use crate::table::spec_section_text;
use crate::table::table_well_formed;
use crate::table::KeyView;
use crate::table::ReportTable;
use crate::report::ReportView;

verus! {

/// Where the engine stands: freshly built, capturing, paused, or stopped for
/// good.
#[derive(Clone, Copy, Debug, PartialEq, Eq, Structural)]
pub enum CapturePhase {
    Created,
    Capturing,
    Paused,
    Stopped,
}

/// The verified core of the capture engine: the control phase and the
/// current aggregation window.
pub struct CaptureEngine {
    phase: CapturePhase,
    report_table: ReportTable,
}

impl CaptureEngine {
    /// The engine's control phase.
    pub closed spec fn phase(&self) -> CapturePhase {
        self.phase
    }

    /// The current window's entries.
    pub closed spec fn table(&self) -> Seq<(KeyView, ReportView)> {
        self.report_table@
    }

    /// The window's invariant holds.
    pub open spec fn well_formed(&self) -> bool {
        table_well_formed(self.table())
    }

    /// A fresh engine: not yet started, with an empty window.
    pub fn new() -> (r: CaptureEngine)
        ensures
            r.phase() == CapturePhase::Created,
            r.table() == Seq::<(KeyView, ReportView)>::empty(),
            r.well_formed(),
    {
        CaptureEngine { phase: CapturePhase::Created, report_table: ReportTable::new() }
    }

    /// The engine's control phase, for callers outside the proof.
    pub fn current_phase(&self) -> (r: CapturePhase)
        ensures
            r == self.phase(),
    {
        self.phase
    }

    /// Validates a capture request and starts the engine. A flush interval
    /// below 100 ms is rejected with the invalid-interval error, and nothing
    /// changes — in particular, a caller that opens a device and spawns the
    /// worker threads only after an `Ok` spawns nothing on that path. The
    /// device name, output file and filter are the caller's to act on; their
    /// own failures are reported by the caller as the matching error values.
    /// A stopped engine is terminal and cannot be started again; the caller
    /// checks the phase first.
    pub fn capture(
        &mut self,
        device_name: String,
        filename: String,
        interval: u64,
        filter: Option<String>,
    ) -> (r: Result<(), PacketSnifferError>)
        requires
            old(self).phase() != CapturePhase::Stopped,
        ensures
            final(self).table() == old(self).table(),
            interval < 100 ==> r == Result::<(), PacketSnifferError>::Err(
                PacketSnifferError::InvalidInterval(interval),
            ) && final(self).phase() == old(self).phase(),
            interval >= 100 ==> r == Result::<(), PacketSnifferError>::Ok(())
                && final(self).phase() == CapturePhase::Capturing,
    {
        let _ = device_name;
        let _ = filename;
        let _ = filter;
        if interval < 100 {
            return Err(PacketSnifferError::InvalidInterval(interval));
        }
        self.phase = CapturePhase::Capturing;
        Ok(())
    }

    /// Pauses (`true`) or resumes (`false`) a running engine. Resuming a
    /// paused engine puts it straight back into `Capturing` — no new
    /// `capture` call is needed. Before a start, or after a stop, the call
    /// has no effect.
    pub fn switch(&mut self, val: bool)
        ensures
            final(self).table() == old(self).table(),
            old(self).phase() == CapturePhase::Capturing || old(self).phase()
                == CapturePhase::Paused ==> final(self).phase() == (if val {
                CapturePhase::Paused
            } else {
                CapturePhase::Capturing
            }),
            old(self).phase() == CapturePhase::Created || old(self).phase()
                == CapturePhase::Stopped ==> final(self).phase() == old(self).phase(),
    {
        if self.phase == CapturePhase::Capturing || self.phase == CapturePhase::Paused {
            self.phase = if val {
                CapturePhase::Paused
            } else {
                CapturePhase::Capturing
            };
        }
    }

    /// Stops a running or paused engine for good; the phase is terminal.
    pub fn stop_capture(&mut self)
        ensures
            final(self).table() == old(self).table(),
            old(self).phase() == CapturePhase::Capturing || old(self).phase()
                == CapturePhase::Paused ==> final(self).phase() == CapturePhase::Stopped,
            old(self).phase() == CapturePhase::Created || old(self).phase()
                == CapturePhase::Stopped ==> final(self).phase() == old(self).phase(),
    {
        if self.phase == CapturePhase::Capturing || self.phase == CapturePhase::Paused {
            self.phase = CapturePhase::Stopped;
        }
    }

    /// One captured frame, as the capture worker hands it over. While the
    /// engine is capturing, the frame is decoded and folded into the window;
    /// in every other phase — paused in particular — the window does not
    /// change and no DNS decoding is attempted. Returns the diagnostic text
    /// of a failed DNS parse for the caller's diagnostic hook.
    pub fn on_packet(&mut self, data: &Vec<u8>, ts: u64, bytes: u32) -> (r: Option<String>)
        requires
            old(self).well_formed(),
        ensures
            final(self).well_formed(),
            final(self).phase() == old(self).phase(),
            old(self).phase() != CapturePhase::Capturing ==> final(self).table()
                == old(self).table() && r is None,
            old(self).phase() == CapturePhase::Capturing ==> spec_packet_post(
                old(self).table(),
                final(self).table(),
                data@,
                ts,
                bytes,
            ) && (match spec_frame_dns_failure(data@) {
                Some(m) => r matches Some(s) && s@ == m,
                None => r is None,
            }),
    {
        if self.phase == CapturePhase::Capturing {
            parse_packet(data, ts, bytes, &mut self.report_table)
        } else {
            None
        }
    }

    /// One flush tick, as the flush worker hands it over. While the engine
    /// is capturing, the window is rendered as one report section and
    /// emptied, and the text to append comes back; in every other phase —
    /// paused in particular — no flush happens and the window is untouched.
    pub fn on_flush_tick(&mut self) -> (r: Option<String>)
        requires
            old(self).well_formed(),
        ensures
            final(self).well_formed(),
            final(self).phase() == old(self).phase(),
            old(self).phase() != CapturePhase::Capturing ==> final(self).table()
                == old(self).table() && r is None,
            old(self).phase() == CapturePhase::Capturing ==> final(self).table().len() == 0 && (
            r matches Some(s) && exists|now: Seq<char>|
                s@ == spec_section_text(now, old(self).table())),
    {
        if self.phase == CapturePhase::Capturing {
            Some(empty_report(&mut self.report_table))
        } else {
            None
        }
    }
}

} // verus!
