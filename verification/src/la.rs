//! The logic analyzer: event, acquire, trigger, RLE and mask register
//! blocks behind one software model.
//!
//! [`LogicAnalyzer`] mirrors the register file of the capture engine.
//! Configuration methods update the model exactly as the corresponding
//! register writes change the hardware; the observation methods record
//! what the hardware reported, so the model is the single place the rest
//! of the library reasons about.

use vstd::prelude::*;

use crate::acquire::{AcquireRegs, AcquireRegsAPI};
use crate::config::{AcquisitionConfig, ConfigError};
use crate::event::{
    AcquisitionState, EventRegs, EventRegsAPI, SyncSource, TriggerSource, TryFromSyncSourceError,
    TryFromTriggerSourceError,
};
use crate::la_mask::{spec_decode_decimation, spec_encode_decimation, LaMaskRegs, LaMaskRegsAPI};
use crate::la_rle::{LaRleRegs, LaRleRegsAPI};
use crate::la_trigger::{LaTriggerRegs, LaTriggerRegsAPI};

verus! {

/// The whole register file of the logic analyzer.
#[derive(Clone, Copy, Debug, PartialEq, Eq, Structural)]
pub struct LaRegs {
    /// Run/trigger control and event configuration.
    pub event: EventRegs,
    /// Pre/post-trigger depths and counters.
    pub acquire: AcquireRegs,
    /// Trigger comparator and edge detection.
    pub trigger: LaTriggerRegs,
    /// Run-length-encoding mode and stream counters.
    pub rle: LaRleRegs,
    /// Input mask, polarity and decimation.
    pub mask: LaMaskRegs,
}

impl LaRegs {
    /// Power-up state of every block.
    pub fn new() -> (r: LaRegs)
        ensures
            r.event == (EventRegs { running: false, triggered: false, cfg_event: 0, cfg_trigger: 0 }),
            r.acquire == (AcquireRegs { cfg_pre: 0, cfg_post: 0, status_pre: 0, status_post: 0 }),
            r.trigger == (LaTriggerRegs {
                cfg_cmp_mask: 0,
                cfg_cmp_value: 0,
                cfg_edge_pos: 0,
                cfg_edge_neg: 0,
            }),
            r.rle == (LaRleRegs { cfg_rle: false, status_current: 0, status_last: 0 }),
            r.mask == (LaMaskRegs { cfg_mask: 0, cfg_pol: 0, cfg_dec: 0 }),
    {
        LaRegs {
            event: EventRegs::new(),
            acquire: AcquireRegs::new(),
            trigger: LaTriggerRegs::new(),
            rle: LaRleRegs::new(),
            mask: LaMaskRegs::new(),
        }
    }
}

/// Software model of the capture engine's register file.
#[derive(Clone, Copy, Debug, PartialEq, Eq, Structural)]
pub struct LogicAnalyzer {
    /// The register file.
    pub regs: LaRegs,
}

impl LogicAnalyzer {
    /// A model in the hardware's power-up state.
    pub fn new() -> (r: LogicAnalyzer)
        ensures
            r.regs.event == (EventRegs { running: false, triggered: false, cfg_event: 0, cfg_trigger: 0 }),
            r.regs.acquire == (AcquireRegs {
                cfg_pre: 0,
                cfg_post: 0,
                status_pre: 0,
                status_post: 0,
            }),
            r.regs.trigger == (LaTriggerRegs {
                cfg_cmp_mask: 0,
                cfg_cmp_value: 0,
                cfg_edge_pos: 0,
                cfg_edge_neg: 0,
            }),
            r.regs.rle == (LaRleRegs { cfg_rle: false, status_current: 0, status_last: 0 }),
            r.regs.mask == (LaMaskRegs { cfg_mask: 0, cfg_pol: 0, cfg_dec: 0 }),
    {
        LogicAnalyzer { regs: LaRegs::new() }
    }

    /// Write all configuration registers back to their power-up values.
    /// The read-only status fields keep whatever the hardware last
    /// reported.
    pub fn set_defaults(&mut self)
        ensures
            final(self).event_state() == (EventRegs {
                cfg_event: 0,
                cfg_trigger: 0,
                ..old(self).event_state()
            }),
            final(self).acquire_state() == (AcquireRegs {
                cfg_pre: 0,
                cfg_post: 0,
                ..old(self).acquire_state()
            }),
            final(self).trigger_state() == (LaTriggerRegs {
                cfg_cmp_mask: 0,
                cfg_cmp_value: 0,
                cfg_edge_pos: 0,
                cfg_edge_neg: 0,
            }),
            final(self).rle_state() == (LaRleRegs { cfg_rle: false, ..old(self).rle_state() }),
            final(self).mask_state() == (LaMaskRegs { cfg_mask: 0, cfg_pol: 0, cfg_dec: 0 }),
    {
        self.regs.event.cfg_event = 0;
        self.regs.event.cfg_trigger = 0;
        self.regs.acquire.cfg_pre = 0;
        self.regs.acquire.cfg_post = 0;
        self.regs.trigger = LaTriggerRegs::new();
        self.regs.rle.cfg_rle = false;
        self.regs.mask = LaMaskRegs::new();
    }

    /// Apply a whole capture configuration, rejecting it before any
    /// register is touched when it has no unambiguous hardware encoding.
    pub fn configure(&mut self, cfg: &AcquisitionConfig) -> (r: Result<(), ConfigError>)
        ensures
            r is Ok <==> cfg.wf(),
            r is Err ==> *final(self) == *old(self),
            r is Ok ==> final(self).mask_state() == (LaMaskRegs {
                cfg_mask: cfg.input_mask,
                cfg_pol: cfg.input_polarity,
                cfg_dec: spec_encode_decimation(cfg.decimation),
            }),
            r is Ok ==> final(self).trigger_state() == (LaTriggerRegs {
                cfg_cmp_mask: cfg.trigger_compare_mask,
                cfg_cmp_value: cfg.trigger_compare_value,
                cfg_edge_pos: cfg.pos_edge_mask,
                cfg_edge_neg: cfg.neg_edge_mask,
            }),
            r is Ok ==> final(self).acquire_state() == (AcquireRegs {
                cfg_pre: cfg.pre_trigger_depth,
                cfg_post: cfg.post_trigger_depth,
                ..old(self).acquire_state()
            }),
            r is Ok ==> final(self).event_state() == (EventRegs {
                cfg_event: cfg.sync_source.spec_code(),
                cfg_trigger: cfg.trigger_source_mask,
                ..old(self).event_state()
            }),
            r is Ok ==> final(self).rle_state() == old(self).rle_state(),
    {
        let valid = cfg.validate();
        match valid {
            Err(e) => Err(e),
            Ok(()) => {
                self.regs.mask.set_input_mask(cfg.input_mask);
                self.regs.mask.set_input_polarity(cfg.input_polarity);
                self.regs.mask.set_decimation(cfg.decimation);
                self.regs.trigger.set_trigger_mask(cfg.trigger_compare_mask);
                self.regs.trigger.set_trigger_value(cfg.trigger_compare_value);
                self.regs.trigger.set_pos_edge_trigger_mask(cfg.pos_edge_mask);
                self.regs.trigger.set_neg_edge_trigger_mask(cfg.neg_edge_mask);
                self.regs.acquire.set_trigger_pre(cfg.pre_trigger_depth);
                self.regs.acquire.set_trigger_post(cfg.post_trigger_depth);
                self.regs.event.set_sync_source(cfg.sync_source);
                self.regs.event.set_trigger_source_mask(cfg.trigger_source_mask);
                Ok(())
            },
        }
    }

    /// Read the capture configuration back out of the registers.  The
    /// stored synchronisation selector is decoded fallibly: an
    /// out-of-range word is an error, not a default.  On a register
    /// file that [`Self::configure`] wrote, this returns exactly the
    /// configuration that was applied.
    pub fn read_config(&self) -> (r: Result<AcquisitionConfig, TryFromSyncSourceError>)
        requires
            self.mask_state().wf(),
        ensures
            r is Ok <==> self.event_state().cfg_event <= 5,
            r matches Ok(c) ==> {
                &&& c.decimation == spec_decode_decimation(self.mask_state().cfg_dec)
                &&& c.input_mask == self.mask_state().cfg_mask
                &&& c.input_polarity == self.mask_state().cfg_pol
                &&& c.trigger_compare_mask == self.trigger_state().cfg_cmp_mask
                &&& c.trigger_compare_value == self.trigger_state().cfg_cmp_value
                &&& c.pos_edge_mask == self.trigger_state().cfg_edge_pos
                &&& c.neg_edge_mask == self.trigger_state().cfg_edge_neg
                &&& c.pre_trigger_depth == self.acquire_state().cfg_pre
                &&& c.post_trigger_depth == self.acquire_state().cfg_post
                &&& c.sync_source.spec_code() == self.event_state().cfg_event
                &&& c.trigger_source_mask == self.event_state().cfg_trigger
            },
    {
        let sync = match self.regs.event.sync_source() {
            Ok(s) => s,
            Err(e) => {
                return Err(e);
            },
        };
        Ok(
            AcquisitionConfig {
                decimation: self.regs.mask.decimation(),
                input_mask: self.regs.mask.input_mask(),
                input_polarity: self.regs.mask.input_polarity(),
                trigger_compare_mask: self.regs.trigger.trigger_mask(),
                trigger_compare_value: self.regs.trigger.trigger_value(),
                pos_edge_mask: self.regs.trigger.pos_edge_trigger_mask(),
                neg_edge_mask: self.regs.trigger.neg_edge_trigger_mask(),
                pre_trigger_depth: self.regs.acquire.trigger_pre(),
                post_trigger_depth: self.regs.acquire.trigger_post(),
                sync_source: sync,
                trigger_source_mask: self.regs.event.cfg_trigger,
            },
        )
    }

    /// The acquisition phase the current status bits classify as.
    pub fn acquisition_state(&self) -> (r: AcquisitionState)
        ensures
            r == self.event_state().spec_state(),
    {
        crate::event::state_of(self.regs.event.running, self.regs.event.triggered)
    }

    /// Record the run/trigger status bits observed on the hardware.
    pub fn update_status(&mut self, running: bool, triggered: bool)
        requires
            running ==> old(self).event_state().running,
            old(self).event_state().triggered ==> triggered,
        ensures
            final(self).event_state() == (EventRegs {
                running,
                triggered,
                ..old(self).event_state()
            }),
            final(self).acquire_state() == old(self).acquire_state(),
            final(self).trigger_state() == old(self).trigger_state(),
            final(self).rle_state() == old(self).rle_state(),
            final(self).mask_state() == old(self).mask_state(),
    {
        self.regs.event.observe_status(running, triggered);
    }

    /// Record the pre/post-trigger status counters observed on the
    /// hardware after a capture cycle.
    pub fn record_status(&mut self, pre: u32, post: u32)
        ensures
            final(self).acquire_state() == (AcquireRegs {
                status_pre: pre,
                status_post: post,
                ..old(self).acquire_state()
            }),
            final(self).event_state() == old(self).event_state(),
            final(self).trigger_state() == old(self).trigger_state(),
            final(self).rle_state() == old(self).rle_state(),
            final(self).mask_state() == old(self).mask_state(),
    {
        self.regs.acquire.record_status(pre, post);
    }

    /// Record the RLE stream length counters observed on the hardware.
    pub fn record_counters(&mut self, current: u32, last: u32)
        ensures
            final(self).rle_state() == (LaRleRegs {
                status_current: current,
                status_last: last,
                ..old(self).rle_state()
            }),
            final(self).event_state() == old(self).event_state(),
            final(self).acquire_state() == old(self).acquire_state(),
            final(self).trigger_state() == old(self).trigger_state(),
            final(self).mask_state() == old(self).mask_state(),
    {
        self.regs.rle.record_counters(current, last);
    }

    /// Write the trigger source configuration word as a raw bit mask.
    pub fn set_trigger_source_mask(&mut self, mask: u32)
        ensures
            final(self).event_state() == (EventRegs {
                cfg_trigger: mask,
                ..old(self).event_state()
            }),
    {
        self.regs.event.set_trigger_source_mask(mask);
    }
}

impl EventRegsAPI for LogicAnalyzer {
    open spec fn event_state(&self) -> EventRegs {
        self.regs.event
    }

    fn reset(&mut self) {
        self.regs.event.reset();
    }

    fn start(&mut self) {
        self.regs.event.start();
    }

    fn stop(&mut self) {
        self.regs.event.stop();
    }

    fn trigger(&mut self) {
        self.regs.event.trigger();
    }

    fn start_trigger(&mut self) {
        self.regs.event.start_trigger();
    }

    fn is_running(&self) -> (r: bool) {
        self.regs.event.is_running()
    }

    fn is_triggered(&self) -> (r: bool) {
        self.regs.event.is_triggered()
    }

    fn sync_source(&self) -> (r: Result<SyncSource, TryFromSyncSourceError>) {
        self.regs.event.sync_source()
    }

    fn set_sync_source(&mut self, event: SyncSource) {
        self.regs.event.set_sync_source(event);
    }

    fn trigger_source(&self) -> (r: Result<TriggerSource, TryFromTriggerSourceError>) {
        self.regs.event.trigger_source()
    }

    fn set_trigger_source(&mut self, trigger: TriggerSource) {
        self.regs.event.set_trigger_source(trigger);
    }
}

impl AcquireRegsAPI for LogicAnalyzer {
    open spec fn acquire_state(&self) -> AcquireRegs {
        self.regs.acquire
    }

    fn trigger_pre(&self) -> (r: u32) {
        self.regs.acquire.trigger_pre()
    }

    fn set_trigger_pre(&mut self, delay: u32) {
        self.regs.acquire.set_trigger_pre(delay);
    }

    fn trigger_post(&self) -> (r: u32) {
        self.regs.acquire.trigger_post()
    }

    fn set_trigger_post(&mut self, delay: u32) {
        self.regs.acquire.set_trigger_post(delay);
    }

    fn trigger_pre_status(&self) -> (r: u32) {
        self.regs.acquire.trigger_pre_status()
    }

    fn trigger_post_status(&self) -> (r: u32) {
        self.regs.acquire.trigger_post_status()
    }
}

impl LaMaskRegsAPI for LogicAnalyzer {
    open spec fn mask_state(&self) -> LaMaskRegs {
        self.regs.mask
    }

    fn input_mask(&self) -> (r: u32) {
        self.regs.mask.input_mask()
    }

    fn set_input_mask(&mut self, mask: u32) {
        self.regs.mask.set_input_mask(mask);
    }

    fn input_polarity(&self) -> (r: u32) {
        self.regs.mask.input_polarity()
    }

    fn set_input_polarity(&mut self, pol: u32) {
        self.regs.mask.set_input_polarity(pol);
    }

    fn decimation(&self) -> (r: u32) {
        self.regs.mask.decimation()
    }

    fn set_decimation(&mut self, dec: u32) {
        self.regs.mask.set_decimation(dec);
    }
}

impl LaRleRegsAPI for LogicAnalyzer {
    open spec fn rle_state(&self) -> LaRleRegs {
        self.regs.rle
    }

    fn rle(&self) -> (r: bool) {
        self.regs.rle.rle()
    }

    fn set_rle(&mut self, rle: bool) {
        self.regs.rle.set_rle(rle);
    }

    fn counter_current(&self) -> (r: u32) {
        self.regs.rle.counter_current()
    }

    fn counter_last(&self) -> (r: u32) {
        self.regs.rle.counter_last()
    }
}

impl LaTriggerRegsAPI for LogicAnalyzer {
    open spec fn trigger_state(&self) -> LaTriggerRegs {
        self.regs.trigger
    }

    fn trigger_mask(&self) -> (r: u32) {
        self.regs.trigger.trigger_mask()
    }

    fn set_trigger_mask(&mut self, mask: u32) {
        self.regs.trigger.set_trigger_mask(mask);
    }

    fn trigger_value(&self) -> (r: u32) {
        self.regs.trigger.trigger_value()
    }

    fn set_trigger_value(&mut self, value: u32) {
        self.regs.trigger.set_trigger_value(value);
    }

    fn pos_edge_trigger_mask(&self) -> (r: u32) {
        self.regs.trigger.pos_edge_trigger_mask()
    }

    fn set_pos_edge_trigger_mask(&mut self, mask: u32) {
        self.regs.trigger.set_pos_edge_trigger_mask(mask);
    }

    fn neg_edge_trigger_mask(&self) -> (r: u32) {
        self.regs.trigger.neg_edge_trigger_mask()
    }

    fn set_neg_edge_trigger_mask(&mut self, mask: u32) {
        self.regs.trigger.set_neg_edge_trigger_mask(mask);
    }
}

} // verus!
