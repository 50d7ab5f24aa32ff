//! Hardware procedures as data.
//!
//! The driver never touches a pin, a timer or the bus. It hands its host
//! one [`Action`] at a time, and the host reports how each went. What is
//! asked for, and in which order, is fixed by the plans below.

use vstd::prelude::*;
use crate::codec::TouchMode;

verus! {

/// The controller's seven-bit bus address.
pub const CST816_ADDRESS: u8 = 0x15;

/// Register that holds the chip id; the three after it hold the project
/// id, the firmware version and the factory id.
pub const REG_VERSION: u8 = 0xA7;

/// Register that holds the gesture; the five after it hold the rest of a
/// touch frame.
pub const REG_TOUCH: u8 = 0x01;

/// Register that selects what raises an interrupt.
pub const REG_INT_CONTROL: u8 = 0xFA;

/// Register that enables continuous sliding and double click.
pub const REG_MOTION_MASK: u8 = 0xEC;

/// How long the reset line is held low, in milliseconds.
pub const RESET_HOLD_MS: u32 = 20;

/// How long the controller needs after reset before it takes register
/// writes, in milliseconds.
pub const RESET_SETTLE_MS: u32 = 100;

/// One thing that the host does on the driver's behalf.
#[derive(Debug, Clone, Copy, PartialEq, Eq, Structural)]
pub enum Action {
    /// Drive the reset line low.
    ResetLow,
    /// Drive the reset line high.
    ResetHigh,
    /// Wait for at least this many milliseconds.
    DelayMillis(u32),
    /// One bus write transaction of a single byte.
    Write { address: u8, byte: u8 },
    /// Clear the pending interrupt on the interrupt line.
    ClearInterrupt,
}

/// What the host does next.
#[derive(Debug, PartialEq, Eq)]
pub enum Step<E> {
    /// Carry out this action and report how it went.
    Perform(Action),
    /// Every action was carried out.
    Done,
    /// The last action failed with this error; nothing more is asked for.
    Failed(E),
}

/// The actions of a hardware reset: low, hold, high, settle.
pub open spec fn reset_plan() -> Seq<Action> {
    seq![
        Action::ResetLow,
        Action::DelayMillis(20),
        Action::ResetHigh,
        Action::DelayMillis(100),
    ]
}

/// The four bus writes that configure `mode`: the interrupt control
/// register's address, its value, the motion mask register's address, its
/// value.
pub open spec fn mode_writes(mode: TouchMode) -> Seq<Action> {
    seq![
        Action::Write { address: 0x15, byte: 0xFA },
        Action::Write { address: 0x15, byte: mode.spec_int_control_byte() },
        Action::Write { address: 0x15, byte: 0xEC },
        Action::Write { address: 0x15, byte: mode.spec_motion_mask_byte() },
    ]
}

/// The actions of bringing the controller up in `mode`: a reset, then the
/// mode's writes.
pub open spec fn begin_plan(mode: TouchMode) -> Seq<Action> {
    reset_plan() + mode_writes(mode)
}

/// The milliseconds of delay that `plan` asks for in all.
pub open spec fn total_delay(plan: Seq<Action>) -> nat
    decreases plan.len(),
{
    if plan.len() == 0 {
        0
    } else {
        let rest = total_delay(plan.drop_last());
        match plan.last() {
            Action::DelayMillis(ms) => rest + ms as nat,
            _ => rest,
        }
    }
}

/// The address and byte of each bus write in `plan`, in order.
pub open spec fn bus_writes(plan: Seq<Action>) -> Seq<(u8, u8)>
    decreases plan.len(),
{
    if plan.len() == 0 {
        Seq::empty()
    } else {
        let rest = bus_writes(plan.drop_last());
        match plan.last() {
            Action::Write { address, byte } => rest.push((address, byte)),
            _ => rest,
        }
    }
}

/// A procedure in progress: the actions that are still to be handed out.
pub struct Sequence {
    plan: Vec<Action>,
    next: usize,
}

impl View for Sequence {
    type V = Seq<Action>;

    /// The actions that have not been handed out yet, in order.
    closed spec fn view(&self) -> Seq<Action> {
        self.plan@.skip(self.next as int)
    }
}

impl Sequence {
    #[verifier::type_invariant]
    spec fn well_formed(self) -> bool {
        self.next <= self.plan.len()
    }

    /// A reset of the controller.
    pub fn reset() -> (sequence: Sequence)
        ensures
            sequence@ == reset_plan(),
    {
        let mut plan: Vec<Action> = Vec::new();
        plan.push(Action::ResetLow);
        plan.push(Action::DelayMillis(RESET_HOLD_MS));
        plan.push(Action::ResetHigh);
        plan.push(Action::DelayMillis(RESET_SETTLE_MS));
        assert(plan@.skip(0) =~= reset_plan());
        Sequence { plan, next: 0 }
    }

    /// A reset of the controller followed by the writes that put it in
    /// `mode`.
    pub fn begin(mode: TouchMode) -> (sequence: Sequence)
        ensures
            sequence@ == begin_plan(mode),
    {
        let mut plan: Vec<Action> = Vec::new();
        plan.push(Action::ResetLow);
        plan.push(Action::DelayMillis(RESET_HOLD_MS));
        plan.push(Action::ResetHigh);
        plan.push(Action::DelayMillis(RESET_SETTLE_MS));
        plan.push(Action::Write { address: CST816_ADDRESS, byte: REG_INT_CONTROL });
        plan.push(Action::Write { address: CST816_ADDRESS, byte: mode.int_control_byte() });
        plan.push(Action::Write { address: CST816_ADDRESS, byte: REG_MOTION_MASK });
        plan.push(Action::Write { address: CST816_ADDRESS, byte: mode.motion_mask_byte() });
        assert(plan@.skip(0) =~= begin_plan(mode));
        Sequence { plan, next: 0 }
    }

    /// Whether every action has been handed out.
    pub fn is_finished(&self) -> (finished: bool)
        ensures
            finished == (self@.len() == 0),
    {
        proof {
            use_type_invariant(self);
        }
        self.next >= self.plan.len()
    }

    /// Takes the outcome of the action handed out last and says what to
    /// do next. The first call of a sequence, which follows no action,
    /// takes `Ok(())`.
    ///
    /// After `Ok(())` the next action of the plan is handed out, or `Done`
    /// when none is left. After an error the rest of the plan is dropped
    /// and the error is handed back unchanged.
    pub fn advance<E>(&mut self, outcome: Result<(), E>) -> (step: Step<E>)
        ensures
            match outcome {
                Err(e) => step == Step::Failed(e) && final(self)@ == Seq::<Action>::empty(),
                Ok(_) => if old(self)@.len() > 0 {
                    step == Step::<E>::Perform(old(self)@[0]) && final(self)@ == old(self)@.skip(1)
                } else {
                    step == Step::<E>::Done && final(self)@ == old(self)@
                },
            },
    {
        proof {
            use_type_invariant(&*self);
        }
        match outcome {
            Err(e) => {
                self.next = self.plan.len();
                assert(self.plan@.skip(self.next as int) =~= Seq::<Action>::empty());
                Step::Failed(e)
            },
            Ok(_) => {
                if self.next < self.plan.len() {
                    let action = self.plan[self.next];
                    assert(self.plan@.skip(self.next as int).skip(1) =~= self.plan@.skip(
                        self.next as int + 1,
                    ));
                    self.next = self.next + 1;
                    Step::Perform(action)
                } else {
                    Step::Done
                }
            },
        }
    }
}

/// The reset timing: the line goes low first and high third; between the
/// two the plan only waits, for at least 20 ms; after the line is high the
/// plan only waits, for at least 100 ms, and then ends.
pub proof fn lemma_reset_timing()
    ensures
        reset_plan().len() == 4,
        reset_plan()[0] == Action::ResetLow,
        reset_plan()[2] == Action::ResetHigh,
        forall|i: int| 0 < i < 2 ==> reset_plan()[i] is DelayMillis,
        forall|i: int| 2 < i < 4 ==> reset_plan()[i] is DelayMillis,
        total_delay(reset_plan().subrange(1, 2)) >= 20,
        total_delay(reset_plan().subrange(3, 4)) >= 100,
        bus_writes(reset_plan()) == Seq::<(u8, u8)>::empty(),
{
    let plan = reset_plan();
    let hold = plan.subrange(1, 2);
    let settle = plan.subrange(3, 4);
    assert(hold.drop_last() =~= Seq::<Action>::empty());
    assert(settle.drop_last() =~= Seq::<Action>::empty());
    assert(hold.last() == Action::DelayMillis(20));
    assert(settle.last() == Action::DelayMillis(100));
    reveal_with_fuel(total_delay, 3);
    lemma_no_writes_in_reset();
}

/// A reset asks for no bus write.
proof fn lemma_no_writes_in_reset()
    ensures
        bus_writes(reset_plan()) == Seq::<(u8, u8)>::empty(),
{
    let upto4 = reset_plan();
    let upto3 = upto4.drop_last();
    let upto2 = upto3.drop_last();
    let upto1 = upto2.drop_last();
    let upto0 = upto1.drop_last();
    assert(upto0.len() == 0);
    assert(bus_writes(upto0) == Seq::<(u8, u8)>::empty());
    assert(bus_writes(upto1) == bus_writes(upto0));
    assert(bus_writes(upto2) == bus_writes(upto1));
    assert(bus_writes(upto3) == bus_writes(upto2));
    assert(bus_writes(upto4) == bus_writes(upto3));
}

/// Bringing the controller up starts with the whole reset, and asks for
/// exactly four bus writes after it, all to the controller's address: the
/// interrupt control register's address, the mode's interrupt control
/// byte, the motion mask register's address, the mode's motion mask byte.
pub proof fn lemma_begin_writes(mode: TouchMode)
    ensures
        begin_plan(mode).len() == 8,
        begin_plan(mode).subrange(0, 4) == reset_plan(),
        begin_plan(mode).subrange(4, 8) == mode_writes(mode),
        bus_writes(begin_plan(mode)) == seq![
            (0x15u8, 0xFAu8),
            (0x15u8, mode.spec_int_control_byte()),
            (0x15u8, 0xECu8),
            (0x15u8, mode.spec_motion_mask_byte()),
        ],
{
    let upto8 = begin_plan(mode);
    assert(upto8.subrange(0, 4) =~= reset_plan());
    assert(upto8.subrange(4, 8) =~= mode_writes(mode));
    let upto7 = upto8.drop_last();
    let upto6 = upto7.drop_last();
    let upto5 = upto6.drop_last();
    let upto4 = upto5.drop_last();
    assert(upto4 =~= reset_plan());
    lemma_no_writes_in_reset();
    assert(bus_writes(upto5) == bus_writes(upto4).push((0x15u8, 0xFAu8)));
    assert(bus_writes(upto6) == bus_writes(upto5).push((0x15u8, mode.spec_int_control_byte())));
    assert(bus_writes(upto7) == bus_writes(upto6).push((0x15u8, 0xECu8)));
    assert(bus_writes(upto8) == bus_writes(upto7).push((0x15u8, mode.spec_motion_mask_byte())));
    assert(bus_writes(upto8) =~= seq![
        (0x15u8, 0xFAu8),
        (0x15u8, mode.spec_int_control_byte()),
        (0x15u8, 0xECu8),
        (0x15u8, mode.spec_motion_mask_byte()),
    ]);
}

} // verus!
