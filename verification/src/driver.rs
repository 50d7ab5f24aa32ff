//! The touch controller driver: what it remembers between an interrupt and
//! the main loop's next poll.
//!
//! The driver owns the two lines to the controller but never drives them,
//! and it never talks on the bus. Its host does both: it carries out the
//! [`Sequence`] that `reset` and `begin` hand out, and it makes the bus
//! reads that `version_request` and `touch_request` describe and hands the
//! replies to `read_version` and `handle_interrupt`.

use vstd::prelude::*;
use crate::codec::{
    decode_touch_sample, decode_version, touch_sample_of, version_of, DecodeError, TouchData,
    TouchMode, VersionInfo,
};
use crate::sequence::{
    begin_plan, reset_plan, Action, Sequence, CST816_ADDRESS, REG_TOUCH, REG_VERSION,
};

verus! {

/// A write-then-read bus transaction: the register selector is written to
/// the device at `address`, then `len` bytes are read back.
#[derive(Debug, Clone, Copy, PartialEq, Eq, Structural)]
pub struct ReadRequest {
    pub address: u8,
    pub register: u8,
    pub len: usize,
}

/// The transaction that reads the version registers.
pub fn version_request() -> (request: ReadRequest)
    ensures
        request == (ReadRequest { address: 0x15, register: 0xA7, len: 4 }),
{
    ReadRequest { address: CST816_ADDRESS, register: REG_VERSION, len: 4 }
}

/// The transaction that reads a touch frame.
pub fn touch_request() -> (request: ReadRequest)
    ensures
        request == (ReadRequest { address: 0x15, register: 0x01, len: 6 }),
{
    ReadRequest { address: CST816_ADDRESS, register: REG_TOUCH, len: 6 }
}

/// Why an interrupt left the stored sample as it was.
#[derive(Debug, Clone, Copy, PartialEq, Eq, Structural)]
pub enum Fault {
    /// The bus read of the touch frame failed.
    Bus,
    /// The frame was read but does not decode.
    Decode(DecodeError),
}

/// What one interrupt yields: the sample that its frame stands for, or the
/// reason why there is none.
pub open spec fn capture_of<E>(reply: Result<[u8; 6], E>) -> Result<TouchData, Fault> {
    match reply {
        Err(_) => Err(Fault::Bus),
        Ok(frame) => match touch_sample_of(frame@) {
            Ok(sample) => Ok(sample),
            Err(e) => Err(Fault::Decode(e)),
        },
    }
}

/// What the driver remembers, apart from the two lines it owns.
pub struct DriverState {
    /// A sample was captured and has not been polled yet.
    pub pending: bool,
    /// The sample captured last; the initial sample before the first.
    pub sample: TouchData,
    /// The mode the driver was made with.
    pub mode: TouchMode,
    /// The last fault that has not been taken yet.
    pub fault: Option<Fault>,
}

impl DriverState {
    /// The state of a new driver.
    pub open spec fn initial(mode: TouchMode) -> DriverState {
        DriverState { pending: false, sample: TouchData::initial(), mode, fault: None }
    }

    /// The state after an interrupt that yielded `capture`. A sample
    /// replaces the stored one and is pending. A fault is recorded, and
    /// the stored sample and the pending flag stay as they were.
    pub open spec fn after_interrupt(self, capture: Result<TouchData, Fault>) -> DriverState {
        match capture {
            Ok(sample) => DriverState { pending: true, sample, ..self },
            Err(fault) => DriverState { fault: Some(fault), ..self },
        }
    }

    /// What a poll returns: the stored sample when one is pending.
    pub open spec fn polled(self) -> Option<TouchData> {
        if self.pending {
            Some(self.sample)
        } else {
            None
        }
    }

    /// The state after a poll: nothing is pending.
    pub open spec fn after_poll(self) -> DriverState {
        DriverState { pending: false, ..self }
    }

    /// The state after the fault was taken.
    pub open spec fn after_take_fault(self) -> DriverState {
        DriverState { fault: None, ..self }
    }
}

/// The handoff between the interrupt handler and the main loop: the
/// sample captured last, whether it waits to be polled, and the fault
/// recorded last.
struct Latch {
    has_event: bool,
    data: TouchData,
    fault: Option<Fault>,
}

impl Latch {
    /// The stored sample is always one that a frame can stand for.
    #[verifier::type_invariant]
    spec fn well_formed(self) -> bool {
        self.data.in_range()
    }

    fn new() -> (latch: Latch)
        ensures
            !latch.has_event,
            latch.data == TouchData::initial(),
            latch.fault is None,
    {
        Latch { has_event: false, data: TouchData::default(), fault: None }
    }

    fn take_sample(&mut self) -> (sample: Option<TouchData>)
        ensures
            sample == if old(self).has_event {
                Some(old(self).data)
            } else {
                None
            },
            sample matches Some(data) ==> data.in_range(),
            !final(self).has_event,
            final(self).data == old(self).data,
            final(self).fault == old(self).fault,
    {
        proof {
            use_type_invariant(&*self);
        }
        if self.has_event {
            self.has_event = false;
            Some(self.data)
        } else {
            None
        }
    }

    fn store(&mut self, sample: TouchData)
        requires
            sample.in_range(),
        ensures
            final(self).has_event,
            final(self).data == sample,
            final(self).fault == old(self).fault,
    {
        proof {
            use_type_invariant(&*self);
        }
        self.has_event = true;
        self.data = sample;
    }

    fn record(&mut self, fault: Fault)
        ensures
            final(self).has_event == old(self).has_event,
            final(self).data == old(self).data,
            final(self).fault == Some(fault),
    {
        proof {
            use_type_invariant(&*self);
        }
        self.fault = Some(fault);
    }

    fn take_fault(&mut self) -> (fault: Option<Fault>)
        ensures
            fault == old(self).fault,
            final(self).has_event == old(self).has_event,
            final(self).data == old(self).data,
            final(self).fault is None,
    {
        proof {
            use_type_invariant(&*self);
        }
        let fault = self.fault;
        self.fault = None;
        fault
    }
}

/// Driver for a CST816 touch controller. `R` is the reset line and `I` the
/// interrupt line; the driver owns both and lends them to its host on
/// request.
pub struct Cst816<R, I> {
    interrupt: I,
    reset: R,
    latch: Latch,
    mode: TouchMode,
}

impl<R, I> View for Cst816<R, I> {
    type V = DriverState;

    closed spec fn view(&self) -> DriverState {
        DriverState {
            pending: self.latch.has_event,
            sample: self.latch.data,
            mode: self.mode,
            fault: self.latch.fault,
        }
    }
}

impl<R, I> Cst816<R, I> {
    /// The reset line that the driver owns.
    pub closed spec fn reset_line(&self) -> R {
        self.reset
    }

    /// The interrupt line that the driver owns.
    pub closed spec fn interrupt_line(&self) -> I {
        self.interrupt
    }

    /// Makes a driver that owns the two lines. Touches no hardware.
    pub fn new(reset: R, interrupt: I, mode: TouchMode) -> (driver: Self)
        ensures
            driver@ == DriverState::initial(mode),
            driver.reset_line() == reset,
            driver.interrupt_line() == interrupt,
    {
        Cst816 { reset, interrupt, latch: Latch::new(), mode }
    }

    /// Lends the reset line to the host, which drives it as a
    /// [`Sequence`] asks. What the driver remembers is not touched.
    pub fn reset_pin(&mut self) -> (pin: &mut R)
        ensures
            *pin == old(self).reset_line(),
            final(self).reset_line() == *final(pin),
            final(self).interrupt_line() == old(self).interrupt_line(),
            final(self)@ == old(self)@,
    {
        &mut self.reset
    }

    /// Lends the interrupt line to the host, which clears the interrupt
    /// on it after each call of `handle_interrupt`. What the driver
    /// remembers is not touched.
    pub fn interrupt_pin(&mut self) -> (pin: &mut I)
        ensures
            *pin == old(self).interrupt_line(),
            final(self).interrupt_line() == *final(pin),
            final(self).reset_line() == old(self).reset_line(),
            final(self)@ == old(self)@,
    {
        &mut self.interrupt
    }

    /// The mode the driver was made with.
    pub fn mode(&self) -> (mode: TouchMode)
        ensures
            mode == self@.mode,
    {
        self.mode
    }

    /// Hands out the pending sample, if there is one, and marks it as
    /// consumed. For the main loop only.
    pub fn poll(&mut self) -> (sample: Option<TouchData>)
        ensures
            sample == old(self)@.polled(),
            sample matches Some(data) ==> data.in_range(),
            final(self)@ == old(self)@.after_poll(),
            final(self).reset_line() == old(self).reset_line(),
            final(self).interrupt_line() == old(self).interrupt_line(),
    {
        self.latch.take_sample()
    }

    /// Decodes the reply to [`version_request`]. A bus error is handed
    /// back unchanged.
    pub fn read_version<E>(&self, reply: Result<[u8; 4], E>) -> (version: Result<VersionInfo, E>)
        ensures
            match reply {
                Ok(bytes) => version == Ok::<VersionInfo, E>(version_of(bytes@)),
                Err(e) => version == Err::<VersionInfo, E>(e),
            },
    {
        match reply {
            Ok(bytes) => Ok(decode_version(bytes)),
            Err(e) => Err(e),
        }
    }

    /// Takes the reply to [`touch_request`] that the interrupt handler
    /// read. A frame that decodes replaces the stored sample, whether or
    /// not that one was polled, and is pending. A failed read or a frame
    /// that does not decode leaves the stored sample and the pending flag
    /// as they were and is recorded as a fault. Never fails. In every
    /// case the host is told to clear the interrupt, so that the line can
    /// signal the next touch.
    #[must_use]
    pub fn handle_interrupt<E>(&mut self, reply: Result<[u8; 6], E>) -> (next: Action)
        ensures
            next == Action::ClearInterrupt,
            final(self)@ == old(self)@.after_interrupt(capture_of(reply)),
            final(self).reset_line() == old(self).reset_line(),
            final(self).interrupt_line() == old(self).interrupt_line(),
    {
        match reply {
            Err(_) => {
                self.latch.record(Fault::Bus);
            },
            Ok(frame) => match decode_touch_sample(frame) {
                Ok(sample) => {
                    self.latch.store(sample);
                },
                Err(e) => {
                    self.latch.record(Fault::Decode(e));
                },
            },
        }
        Action::ClearInterrupt
    }

    /// Hands out the fault recorded last, if there is one, and forgets it.
    pub fn take_fault(&mut self) -> (fault: Option<Fault>)
        ensures
            fault == old(self)@.fault,
            final(self)@ == old(self)@.after_take_fault(),
            final(self).reset_line() == old(self).reset_line(),
            final(self).interrupt_line() == old(self).interrupt_line(),
    {
        self.latch.take_fault()
    }

    /// The procedure that resets the controller.
    pub fn reset(&self) -> (sequence: Sequence)
        ensures
            sequence@ == reset_plan(),
    {
        Sequence::reset()
    }

    /// The procedure that resets the controller and writes the control
    /// bytes of the driver's mode.
    pub fn begin(&self) -> (sequence: Sequence)
        ensures
            sequence@ == begin_plan(self@.mode),
    {
        Sequence::begin(self.mode)
    }
}

/// One interrupt, one sample: after an interrupt whose frame was read and
/// decodes, the next poll hands out that frame's sample, and the poll
/// after it hands out nothing. This holds whatever the driver held before.
pub proof fn lemma_interrupt_then_poll_once<E>(state: DriverState, frame: [u8; 6])
    requires
        touch_sample_of(frame@) is Ok,
    ensures
        state.after_interrupt(capture_of::<E>(Ok(frame))).polled() == Some(
            touch_sample_of(frame@)->Ok_0,
        ),
        state.after_interrupt(capture_of::<E>(Ok(frame))).after_poll().polled()
            == None::<TouchData>,
{
}

/// Overwrite, not queue: of two interrupts with no poll between them, the
/// second of which read a frame that decodes, only the second sample can
/// be polled, and only once. The first may have yielded anything.
pub proof fn lemma_second_interrupt_overwrites<E>(
    state: DriverState,
    first: Result<[u8; 6], E>,
    second: [u8; 6],
)
    requires
        touch_sample_of(second@) is Ok,
    ensures
        state.after_interrupt(capture_of(first)).after_interrupt(
            capture_of::<E>(Ok(second)),
        ).polled() == Some(touch_sample_of(second@)->Ok_0),
        state.after_interrupt(capture_of(first)).after_interrupt(
            capture_of::<E>(Ok(second)),
        ).after_poll().polled() == None::<TouchData>,
{
}

/// An interrupt whose read failed or whose frame does not decode changes
/// nothing that a poll can see: the pending flag and the stored sample are
/// those from before, and the fault is recorded.
pub proof fn lemma_fault_keeps_sample<E>(state: DriverState, reply: Result<[u8; 6], E>)
    requires
        capture_of(reply) is Err,
    ensures
        state.after_interrupt(capture_of(reply)).polled() == state.polled(),
        state.after_interrupt(capture_of(reply)).sample == state.sample,
        state.after_interrupt(capture_of(reply)).fault == Some(capture_of(reply)->Err_0),
{
}

/// Nothing is pending in a new driver or after a poll, so a sample is
/// pending only if an interrupt captured one since.
pub proof fn lemma_idle_after_poll(state: DriverState, mode: TouchMode)
    ensures
        DriverState::initial(mode).polled() == None::<TouchData>,
        state.after_poll().polled() == None::<TouchData>,
        state.after_poll().after_poll() == state.after_poll(),
        state.after_take_fault().polled() == state.polled(),
{
}

} // verus!
