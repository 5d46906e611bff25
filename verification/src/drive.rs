//! The demonstration drive: what happens in each tick of the scheduler
//! while the vehicle accelerates to 130 kilometres per hour and slows down
//! again, braking and turning on the way.

use crate::component::CarComponent;
use crate::messages::CarMessage;
use crate::safety::{SafetyWarning, all_below_critical, warning_views};
use crate::system::{CarSystem, SystemModel};
use vstd::prelude::*;

verus! {

/// The driver as a mathematical value.
pub struct DriveModel {
    /// Kilometres per hour: a multiple of five, at most 130.
    pub speed: u8,
    pub accelerating: bool,
}

impl DriveModel {
    pub open spec fn valid(self) -> bool {
        self.speed % 5 == 0 && self.speed <= 130
    }

    /// Whether the driver accelerates in the given tick. The driver thinks
    /// again on every 25th tick: at 130 kilometres per hour the driver
    /// begins to slow down, at a standstill to accelerate.
    pub open spec fn accelerates_in(self, tick: u64) -> bool {
        if tick % 25 == 0 {
            if self.accelerating {
                self.speed < 130
            } else {
                self.speed == 0
            }
        } else {
            self.accelerating
        }
    }

    /// The driver after the given tick: five kilometres per hour faster
    /// while accelerating below 130, five slower while slowing down above
    /// a standstill.
    pub open spec fn advanced(self, tick: u64) -> DriveModel {
        let accelerating = self.accelerates_in(tick);
        DriveModel {
            accelerating,
            speed: if accelerating && self.speed < 130 {
                (self.speed + 5) as u8
            } else if !accelerating && self.speed > 0 {
                (self.speed - 5) as u8
            } else {
                self.speed
            },
        }
    }
}

/// The driver of the demonstration: the speed and whether it rises.
pub struct DriveState {
    speed: u8,
    accelerating: bool,
}

impl View for DriveState {
    type V = DriveModel;

    closed spec fn view(&self) -> DriveModel {
        DriveModel { speed: self.speed, accelerating: self.accelerating }
    }
}

impl DriveState {
    #[verifier::type_invariant]
    spec fn well_formed(&self) -> bool {
        self.speed % 5 == 0 && self.speed <= 130
    }

    /// A driver at a standstill, about to accelerate.
    pub fn new() -> (res: Self)
        ensures
            res@ == (DriveModel { speed: 0, accelerating: true }),
    {
        DriveState { speed: 0, accelerating: true }
    }

    pub fn speed(&self) -> (res: u8)
        ensures
            res == self@.speed,
            self@.valid(),
    {
        proof {
            use_type_invariant(self);
        }
        self.speed
    }

    pub fn is_accelerating(&self) -> (res: bool)
        ensures
            res == self@.accelerating,
    {
        self.accelerating
    }

    /// Moves the driver through one tick and returns the new speed.
    pub fn advance(&mut self, tick_num: u64) -> (res: u8)
        ensures
            final(self)@ == old(self)@.advanced(tick_num),
            res == final(self)@.speed,
            final(self)@.valid(),
    {
        proof {
            use_type_invariant(&*self);
        }
        if tick_num % 25 == 0 {
            if self.accelerating {
                if self.speed >= 130 {
                    self.accelerating = false;
                }
            } else {
                if self.speed == 0 {
                    self.accelerating = true;
                }
            }
        }
        if self.accelerating && self.speed < 130 {
            self.speed += 5;
        } else if !self.accelerating && self.speed > 0 {
            self.speed -= 5;
        }
        self.speed
    }
}

/// What a tick of the drive leaves to report.
pub struct TickSummary {
    /// The speed of the tick.
    pub speed: u8,
    /// The events that the dashboard took from its queue.
    pub delivered: Vec<CarMessage>,
    /// Whether the safety monitor was asked in this tick.
    pub checked: bool,
    /// What the monitor found; nothing where it was not asked.
    pub warnings: Vec<SafetyWarning>,
    /// Whether the findings allow the system to go on.
    pub safe: bool,
}

impl CarSystem {
    /// One tick of the drive: the driver sets the speed, brakes and steers,
    /// the system runs a cycle, and on every fifth tick the safety monitor
    /// is asked about the system as the cycle left it.
    pub fn drive_tick(&mut self, drive: &mut DriveState, tick_num: u64) -> (res: Result<
        TickSummary,
        String,
    >)
        ensures
            res is Ok,
            final(drive)@ == old(drive)@.advanced(tick_num),
            final(self)@ == old(self)@.steered(tick_num).cycled(final(drive)@.speed),
            res->Ok_0.speed == final(drive)@.speed,
            res->Ok_0.delivered@ == old(self)@.steered(tick_num).delivered(),
            res->Ok_0.checked == (tick_num % 5 == 0),
            warning_views(res->Ok_0.warnings@) == if tick_num % 5 == 0 {
                final(self)@.findings(final(drive)@.speed)
            } else {
                Seq::empty()
            },
            res->Ok_0.safe == all_below_critical(warning_views(res->Ok_0.warnings@)),
    {
        let speed = drive.advance(tick_num);

        if tick_num % 30 == 0 && tick_num > 0 {
            self.brakes.apply(50)?;
        } else if tick_num % 30 == 10 {
            self.brakes.release();
        }
        if tick_num % 25 == 15 {
            self.steering.turn(30)?;
        } else if tick_num % 25 == 20 {
            self.steering.center();
        }
        assert(self@ == old(self)@.steered(tick_num));

        let delivered = self.process_cycle(speed)?;

        let checked = tick_num % 5 == 0;
        let warnings = if checked {
            self.check_safety(speed)
        } else {
            Vec::new()
        };
        assert(!checked ==> warning_views(warnings@) =~= Seq::empty());
        let safe = self.safety.is_safe(warnings.as_slice());
        Ok(TickSummary { speed, delivered, checked, warnings, safe })
    }
}

/// The speed of the drive stays a multiple of five between a standstill
/// and 130 kilometres per hour.
pub proof fn lemma_drive_stays_valid(drive: DriveModel, tick: u64)
    requires
        drive.valid(),
    ensures
        drive.advanced(tick).valid(),
{
}

} // verus!
