//! Event (run/trigger) control registers and the acquisition state machine.
//!
//! The hardware exposes one control/status word with pulse bits for reset,
//! start, stop and software trigger, plus two configuration words selecting
//! the synchronisation source (a single selector value) and the hardware
//! trigger sources (a bit mask).  The software-visible state is modelled by
//! [`EventRegs`]; the acquisition phase is classified from the two
//! independent status bits by [`AcquisitionState`].

use vstd::prelude::*;

verus! {

/// Synchronisation source selector: exactly one source drives the
/// state machine clocking.
#[derive(Clone, Copy, Debug, PartialEq, Eq, Structural)]
pub enum SyncSource {
    Gen0,
    Gen1,
    Osc0,
    Osc1,
    Lg,
    La,
}

/// Error returned when a stored selector word decodes to no known
/// synchronisation source.
#[derive(Debug, Copy, Clone)]
pub struct TryFromSyncSourceError(());

impl SyncSource {
    /// Hardware encoding of the selector: consecutive small integers.
    pub open spec fn spec_code(self) -> u32 {
        match self {
            SyncSource::Gen0 => 0,
            SyncSource::Gen1 => 1,
            SyncSource::Osc0 => 2,
            SyncSource::Osc1 => 3,
            SyncSource::Lg => 4,
            SyncSource::La => 5,
        }
    }

    /// Encode the selector as the hardware register value.
    pub fn code(self) -> (r: u32)
        ensures
            r == self.spec_code(),
    {
        match self {
            SyncSource::Gen0 => 0,
            SyncSource::Gen1 => 1,
            SyncSource::Osc0 => 2,
            SyncSource::Osc1 => 3,
            SyncSource::Lg => 4,
            SyncSource::La => 5,
        }
    }

    /// Decode a stored selector word.  An out-of-range value is an error,
    /// never a default fallback.
    pub fn try_from(value: u32) -> (r: Result<SyncSource, TryFromSyncSourceError>)
        ensures
            r is Ok <==> value <= 5,
            r matches Ok(s) ==> s.spec_code() == value,
    {
        match value {
            0 => Ok(SyncSource::Gen0),
            1 => Ok(SyncSource::Gen1),
            2 => Ok(SyncSource::Osc0),
            3 => Ok(SyncSource::Osc1),
            4 => Ok(SyncSource::Lg),
            5 => Ok(SyncSource::La),
            _ => Err(TryFromSyncSourceError(())),
        }
    }
}

/// Round trip: every selector decodes back from its own encoding.
pub proof fn lemma_sync_source_round_trip(s: SyncSource)
    ensures
        s.spec_code() <= 5,
        forall|t: SyncSource| t.spec_code() == s.spec_code() ==> t == s,
{
}

/// Hardware trigger source: each source is one bit of the trigger
/// configuration mask.
#[derive(Clone, Copy, Debug, PartialEq, Eq, Structural)]
pub enum TriggerSource {
    Gen0,
    Gen1,
    Osc0,
    Osc1,
    Lg,
    La,
}

/// Error returned when a stored trigger word is not the encoding of a
/// single trigger source.
#[derive(Debug, Copy, Clone)]
pub struct TryFromTriggerSourceError(());

impl TriggerSource {
    /// Hardware encoding of the source: a one-hot bit mask.
    pub open spec fn spec_code(self) -> u32 {
        match self {
            TriggerSource::Gen0 => 0x01,
            TriggerSource::Gen1 => 0x02,
            TriggerSource::Osc0 => 0x04,
            TriggerSource::Osc1 => 0x08,
            TriggerSource::Lg => 0x10,
            TriggerSource::La => 0x20,
        }
    }

    /// Encode the source as the hardware register value.
    pub fn code(self) -> (r: u32)
        ensures
            r == self.spec_code(),
    {
        match self {
            TriggerSource::Gen0 => 0x01,
            TriggerSource::Gen1 => 0x02,
            TriggerSource::Osc0 => 0x04,
            TriggerSource::Osc1 => 0x08,
            TriggerSource::Lg => 0x10,
            TriggerSource::La => 0x20,
        }
    }

    /// True of the words that encode exactly one trigger source.
    pub open spec fn is_code(value: u32) -> bool {
        value == 0x01 || value == 0x02 || value == 0x04 || value == 0x08 || value == 0x10
            || value == 0x20
    }

    /// Decode a stored trigger word that holds exactly one source bit.
    /// Anything else (zero, several bits, high bits) is an error.
    pub fn try_from(value: u32) -> (r: Result<TriggerSource, TryFromTriggerSourceError>)
        ensures
            r is Ok <==> TriggerSource::is_code(value),
            r matches Ok(t) ==> t.spec_code() == value,
    {
        match value {
            0x01 => Ok(TriggerSource::Gen0),
            0x02 => Ok(TriggerSource::Gen1),
            0x04 => Ok(TriggerSource::Osc0),
            0x08 => Ok(TriggerSource::Osc1),
            0x10 => Ok(TriggerSource::Lg),
            0x20 => Ok(TriggerSource::La),
            _ => Err(TryFromTriggerSourceError(())),
        }
    }
}

/// Round trip: every trigger source decodes back from its own encoding.
pub proof fn lemma_trigger_source_round_trip(t: TriggerSource)
    ensures
        forall|u: TriggerSource| u.spec_code() == t.spec_code() ==> u == t,
{
}

/// Acquisition phase, derived from the two independent status bits.
/// There is no single hardware field holding it: `running` is set by a
/// start pulse and cleared by the hardware when the post-trigger window
/// completes (or by a stop pulse); `triggered` is set when a trigger is
/// accepted and stays set until the next reset.
#[derive(Clone, Copy, Debug, PartialEq, Eq, Structural)]
pub enum AcquisitionState {
    /// Not running, no trigger recorded: nothing captured since reset.
    Idle,
    /// Running, waiting for a trigger.
    Armed,
    /// Running and triggered: filling the post-trigger window.
    Triggered,
    /// Not running but a trigger was recorded: capture complete.
    Stopped,
}

/// Classification of the two status bits into an acquisition phase.
pub open spec fn spec_state_of(running: bool, triggered: bool) -> AcquisitionState {
    if running {
        if triggered {
            AcquisitionState::Triggered
        } else {
            AcquisitionState::Armed
        }
    } else {
        if triggered {
            AcquisitionState::Stopped
        } else {
            AcquisitionState::Idle
        }
    }
}

/// Classify the two status bits into an acquisition phase.
pub fn state_of(running: bool, triggered: bool) -> (r: AcquisitionState)
    ensures
        r == spec_state_of(running, triggered),
{
    if running {
        if triggered {
            AcquisitionState::Triggered
        } else {
            AcquisitionState::Armed
        }
    } else {
        if triggered {
            AcquisitionState::Stopped
        } else {
            AcquisitionState::Idle
        }
    }
}

/// Software model of the event register block: the run/trigger status
/// bits and the two event configuration words.
#[derive(Clone, Copy, Debug, PartialEq, Eq, Structural)]
pub struct EventRegs {
    /// Run status: the capture engine is filling the buffer.
    pub running: bool,
    /// Trigger status: a trigger was accepted since the last reset.
    pub triggered: bool,
    /// Synchronisation source selector word.
    pub cfg_event: u32,
    /// Trigger source bit mask word.
    pub cfg_trigger: u32,
}

impl EventRegs {
    /// State after a reset pulse: status cleared, configuration kept.
    pub open spec fn after_reset(self) -> EventRegs {
        EventRegs { running: false, triggered: false, ..self }
    }

    /// State after a start pulse: the engine runs, awaiting a trigger.
    pub open spec fn after_start(self) -> EventRegs {
        EventRegs { running: true, ..self }
    }

    /// State after a stop pulse: the engine halts.
    pub open spec fn after_stop(self) -> EventRegs {
        EventRegs { running: false, ..self }
    }

    /// State after a software trigger pulse: a trigger is accepted only
    /// while the engine is running.
    pub open spec fn after_trigger(self) -> EventRegs {
        if self.running {
            EventRegs { triggered: true, ..self }
        } else {
            self
        }
    }

    /// State after a combined start-and-trigger pulse.
    pub open spec fn after_start_trigger(self) -> EventRegs {
        EventRegs { running: true, triggered: true, ..self }
    }

    /// The acquisition phase this register state classifies as.
    pub open spec fn spec_state(self) -> AcquisitionState {
        spec_state_of(self.running, self.triggered)
    }
}

/// Operations of the event register block.  Implementors keep a
/// software-visible model of the block; the implementor's `event_state`
/// view says what each operation does to it.
pub trait EventRegsAPI {
    /// Model of the event register block.
    spec fn event_state(&self) -> EventRegs;

    /// Pulse the reset bit: clears the run and trigger status and
    /// resynchronises the always-running counters.  Required before
    /// each new capture.
    fn reset(&mut self)
        ensures
            final(self).event_state() == old(self).event_state().after_reset(),
    ;

    /// Pulse the start bit: arm the capture engine.
    fn start(&mut self)
        ensures
            final(self).event_state() == old(self).event_state().after_start(),
    ;

    /// Pulse the stop bit: abort a running capture.
    fn stop(&mut self)
        ensures
            final(self).event_state() == old(self).event_state().after_stop(),
    ;

    /// Pulse the software trigger bit.
    fn trigger(&mut self)
        ensures
            final(self).event_state() == old(self).event_state().after_trigger(),
    ;

    /// Pulse start and software trigger together: the common path for
    /// software-sourced captures.
    fn start_trigger(&mut self)
        ensures
            final(self).event_state() == old(self).event_state().after_start_trigger(),
    ;

    /// Run status bit.
    fn is_running(&self) -> (r: bool)
        ensures
            r == self.event_state().running,
    ;

    /// Trigger status bit.
    fn is_triggered(&self) -> (r: bool)
        ensures
            r == self.event_state().triggered,
    ;

    /// Decode the stored synchronisation source selector.
    fn sync_source(&self) -> (r: Result<SyncSource, TryFromSyncSourceError>)
        ensures
            r is Ok <==> self.event_state().cfg_event <= 5,
            r matches Ok(s) ==> s.spec_code() == self.event_state().cfg_event,
    ;

    /// Select the synchronisation source.
    fn set_sync_source(&mut self, event: SyncSource)
        ensures
            final(self).event_state() == (EventRegs {
                cfg_event: event.spec_code(),
                ..old(self).event_state()
            }),
    ;

    /// Decode the stored trigger source word, expected to hold exactly
    /// one source bit.
    fn trigger_source(&self) -> (r: Result<TriggerSource, TryFromTriggerSourceError>)
        ensures
            r is Ok <==> TriggerSource::is_code(self.event_state().cfg_trigger),
            r matches Ok(t) ==> t.spec_code() == self.event_state().cfg_trigger,
    ;

    /// Select a single hardware trigger source.
    fn set_trigger_source(&mut self, trigger: TriggerSource)
        ensures
            final(self).event_state() == (EventRegs {
                cfg_trigger: trigger.spec_code(),
                ..old(self).event_state()
            }),
    ;
}

impl EventRegs {
    /// Power-up state: nothing running, nothing triggered, both
    /// configuration words zero.
    pub fn new() -> (r: EventRegs)
        ensures
            r == (EventRegs { running: false, triggered: false, cfg_event: 0, cfg_trigger: 0 }),
    {
        EventRegs { running: false, triggered: false, cfg_event: 0, cfg_trigger: 0 }
    }

    /// Write the trigger source configuration word as a raw bit mask
    /// (several sources may be OR-ed together).
    pub fn set_trigger_source_mask(&mut self, mask: u32)
        ensures
            final(self).event_state() == (EventRegs { cfg_trigger: mask, ..old(self).event_state() }),
    {
        self.cfg_trigger = mask;
    }

    /// Record the status bits observed on the hardware.  The hardware
    /// never starts on its own, and a recorded trigger stays set until
    /// the next reset, so an observation can only clear `running` and
    /// only set `triggered`.
    pub fn observe_status(&mut self, running: bool, triggered: bool)
        requires
            running ==> old(self).event_state().running,
            old(self).event_state().triggered ==> triggered,
        ensures
            final(self).event_state() == (EventRegs {
                running,
                triggered,
                ..old(self).event_state()
            }),
    {
        self.running = running;
        self.triggered = triggered;
    }
}

impl EventRegsAPI for EventRegs {
    open spec fn event_state(&self) -> EventRegs {
        *self
    }

    fn reset(&mut self) {
        self.running = false;
        self.triggered = false;
    }

    fn start(&mut self) {
        self.running = true;
    }

    fn stop(&mut self) {
        self.running = false;
    }

    fn trigger(&mut self) {
        if self.running {
            self.triggered = true;
        }
    }

    fn start_trigger(&mut self) {
        self.running = true;
        self.triggered = true;
    }

    fn is_running(&self) -> (r: bool) {
        self.running
    }

    fn is_triggered(&self) -> (r: bool) {
        self.triggered
    }

    fn sync_source(&self) -> (r: Result<SyncSource, TryFromSyncSourceError>) {
        SyncSource::try_from(self.cfg_event)
    }

    fn set_sync_source(&mut self, event: SyncSource) {
        self.cfg_event = event.code();
    }

    fn trigger_source(&self) -> (r: Result<TriggerSource, TryFromTriggerSourceError>) {
        TriggerSource::try_from(self.cfg_trigger)
    }

    fn set_trigger_source(&mut self, trigger: TriggerSource) {
        self.cfg_trigger = trigger.code();
    }
}

/// Resetting is idempotent: a second reset pulse changes nothing, and a
/// freshly reset engine is idle with no spurious trigger recorded.
pub proof fn lemma_reset_idempotent(s: EventRegs)
    ensures
        s.after_reset().after_reset() == s.after_reset(),
        s.after_reset().spec_state() == AcquisitionState::Idle,
        !s.after_reset().after_reset().triggered,
{
}

/// Arming with a software trigger puts the engine in the running,
/// triggered phase, and it stays running under further trigger pulses:
/// only a stop pulse, a reset, or the hardware completing the capture
/// clears the run bit.
pub proof fn lemma_start_trigger_runs(s: EventRegs)
    ensures
        s.after_start_trigger().running,
        s.after_start_trigger().spec_state() == AcquisitionState::Triggered,
        s.after_start_trigger().after_trigger() == s.after_start_trigger(),
        s.after_reset().after_start().spec_state() == AcquisitionState::Armed,
        s.after_reset().after_start().after_trigger().spec_state()
            == AcquisitionState::Triggered,
{
}

/// Once the engine has stopped, the classification reflects exactly
/// whether a trigger was accepted during the cycle.
pub proof fn lemma_completion_reflects_trigger(s: EventRegs)
    requires
        !s.running,
    ensures
        s.spec_state() == AcquisitionState::Stopped <==> s.triggered,
        s.spec_state() == AcquisitionState::Idle <==> !s.triggered,
{
}

} // verus!
