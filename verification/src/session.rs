//! Per-connection command dispatch and the capture-and-stream cycle.
//!
//! One client is served at a time.  Each request frame resolves to a
//! command; a capture cycle is a reset followed by a combined
//! start-and-trigger pulse, a wait for the hardware to clear the run
//! bit, and the extraction and framing of the captured window.  The
//! caller performs the transport reads and writes and the status polls,
//! handing the observed values back to the session.

use vstd::prelude::*;

use crate::acquire::AcquireRegsAPI;
use crate::event::EventRegsAPI;
use crate::la::LogicAnalyzer;
use crate::la_mask::LaMaskRegsAPI;
use crate::la_rle::LaRleRegsAPI;
use crate::la_trigger::LaTriggerRegsAPI;
use crate::protocol::{
    parse_command, spec_chunk_end, spec_parse_command, spec_truncated, spec_widened, chunk_payload,
    truncate_samples, widen_samples, Command, MAX_PAYLOAD,
};
use crate::window::{extract_window, spec_window, WindowError};

verus! {

/// What the caller must do next with the transport after a request
/// frame has been parsed.
#[derive(Clone, Copy, Debug, PartialEq, Eq, Structural)]
pub enum SessionAction {
    /// Answer with the identification line.
    SendHwId,
    /// Answer with the current capture configuration.
    SendConfig,
    /// Read and apply a capture configuration.
    ApplyConfig,
    /// Enter the capture-and-stream loop.
    StartStreaming,
    /// End an in-progress stream.
    StopStreaming,
    /// Send nothing and await the next frame; the connection stays
    /// open.
    AwaitNext,
}

/// The action each command calls for.  Unknown commands and failed
/// reads are deliberately ignored rather than closing the connection.
pub open spec fn spec_dispatch(c: Command) -> SessionAction {
    match c {
        Command::HwId => SessionAction::SendHwId,
        Command::ConfigGet => SessionAction::SendConfig,
        Command::ConfigSet => SessionAction::ApplyConfig,
        Command::AcquisitionStart => SessionAction::StartStreaming,
        Command::AcquisitionStop => SessionAction::StopStreaming,
        Command::Unknown => SessionAction::AwaitNext,
        Command::Error => SessionAction::AwaitNext,
    }
}

/// Map a parsed command to the action it calls for.
pub fn dispatch(c: Command) -> (a: SessionAction)
    ensures
        a == spec_dispatch(c),
{
    match c {
        Command::HwId => SessionAction::SendHwId,
        Command::ConfigGet => SessionAction::SendConfig,
        Command::ConfigSet => SessionAction::ApplyConfig,
        Command::AcquisitionStart => SessionAction::StartStreaming,
        Command::AcquisitionStop => SessionAction::StopStreaming,
        Command::Unknown => SessionAction::AwaitNext,
        Command::Error => SessionAction::AwaitNext,
    }
}

/// The bytes one capture puts on the wire: the time-ordered window,
/// narrowed to low bytes or encoded in full width.
pub open spec fn spec_stream_bytes(buffer: Seq<u16>, count: int, full_width: bool) -> Seq<u8> {
    if full_width {
        spec_widened(spec_window(buffer, count))
    } else {
        spec_truncated(spec_window(buffer, count))
    }
}

/// One client connection being served: the command parser and the
/// driver of the capture-and-stream cycle over the register model.
#[derive(Debug)]
pub struct StreamingSession {
    /// Model of the capture engine this session drives.
    pub la: LogicAnalyzer,
}

impl StreamingSession {
    /// Start serving a connection on the given capture engine.
    pub fn new(la: LogicAnalyzer) -> (r: StreamingSession)
        ensures
            r.la == la,
    {
        StreamingSession { la }
    }

    /// Resolve the bytes read for one request frame to the action the
    /// caller must take.
    pub fn handle_request(&self, frame: &Vec<u8>) -> (a: SessionAction)
        ensures
            a == spec_dispatch(spec_parse_command(frame@)),
    {
        let c = parse_command(frame);
        dispatch(c)
    }

    /// Begin one capture: a single reset pulse to resynchronise the
    /// counters, then the combined start-and-trigger pulse.  The engine
    /// runs until the hardware clears the run bit; the caller polls
    /// [`EventRegsAPI::is_running`] (or waits for the interrupt) and
    /// records what it observed.
    pub fn begin_capture(&mut self)
        ensures
            final(self).la.event_state() == old(
                self,
            ).la.event_state().after_reset().after_start_trigger(),
            final(self).la.event_state().running,
            final(self).la.acquire_state() == old(self).la.acquire_state(),
            final(self).la.trigger_state() == old(self).la.trigger_state(),
            final(self).la.rle_state() == old(self).la.rle_state(),
            final(self).la.mask_state() == old(self).la.mask_state(),
    {
        self.la.regs.event.reset();
        self.la.regs.event.start_trigger();
    }

    /// Turn the raw capture buffer into the exact sequence of transport
    /// writes for the window the status counters describe: every chunk
    /// is at most [`MAX_PAYLOAD`] bytes, all but the last are full, and
    /// in order they spell the encoded window.  A window beyond the
    /// buffer capacity is reported, not clipped.
    pub fn stream_chunks(&self, buffer: &Vec<u16>, full_width: bool) -> (r: Result<
        Vec<Vec<u8>>,
        WindowError,
    >)
        requires
            buffer@.len() == crate::BUFFER_SIZE,
        ensures
            r is Ok <==> self.la.acquire_state().status_pre + self.la.acquire_state().status_post
                <= crate::BUFFER_SIZE,
            r matches Ok(chunks) ==> ({
                let bytes = spec_stream_bytes(
                    buffer@,
                    self.la.acquire_state().status_pre + self.la.acquire_state().status_post,
                    full_width,
                );
                &&& (bytes.len() == 0 ==> chunks@.len() == 0)
                &&& (bytes.len() > 0 ==> (chunks@.len() - 1) * MAX_PAYLOAD < bytes.len()
                    <= chunks@.len() * MAX_PAYLOAD)
                &&& forall|i: int|
                    0 <= i < chunks@.len() ==> chunks@[i]@ == bytes.subrange(
                        i * MAX_PAYLOAD,
                        spec_chunk_end(bytes.len() as int, MAX_PAYLOAD as int, i),
                    )
            }),
    {
        let pre = self.la.trigger_pre_status();
        let post = self.la.trigger_post_status();
        let rle = self.la.regs.rle.cfg_rle;
        let window = match extract_window(buffer, pre, post, rle) {
            Ok(w) => w,
            Err(e) => {
                return Err(e);
            },
        };
        let bytes = if full_width {
            widen_samples(&window.samples)
        } else {
            truncate_samples(&window.samples)
        };
        Ok(chunk_payload(&bytes, MAX_PAYLOAD))
    }
}

} // verus!
