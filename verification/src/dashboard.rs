//! The dashboard: speed, fuel, distance and the warnings shown to the
//! driver. Distances are in tenths of a kilometre.

use crate::component::{CarComponent, ComponentState};
use crate::text::{decimal, decimal_text};
use vstd::prelude::*;
use vstd::string::*;

verus! {

/// The dashboard as a mathematical value.
pub struct DashboardModel {
    pub lifecycle: ComponentState,
    /// Kilometres per hour, at most 200.
    pub speed: u8,
    /// Percent, at most 100.
    pub fuel_level: u8,
    /// The warnings shown, oldest first, none of them twice.
    pub warnings: Seq<Seq<char>>,
    /// Tenths of a kilometre.
    pub odometer: u64,
}

/// The warning for a fuel level that is low.
pub open spec fn low_fuel_text(level: u8) -> Seq<char> {
    "Low fuel ("@ + decimal_text(level as nat) + "%)"@
}

/// The warning for a speed above 120 kilometres per hour.
pub open spec fn high_speed_text() -> Seq<char> {
    "High speed - drive carefully"@
}

impl DashboardModel {
    /// The dashboard as `new` makes it.
    pub open spec fn fresh() -> DashboardModel {
        DashboardModel {
            lifecycle: ComponentState::Offline,
            speed: 0,
            fuel_level: 100,
            warnings: Seq::empty(),
            odometer: 0,
        }
    }

    /// The dashboard showing a speed, capped at 200 kilometres per hour.
    pub open spec fn with_speed(self, speed: u8) -> DashboardModel {
        DashboardModel {
            speed: if speed > 200 {
                200u8
            } else {
                speed
            },
            ..self
        }
    }

    /// The dashboard showing a fuel level, capped at 100 percent.
    pub open spec fn with_fuel_level(self, level: u8) -> DashboardModel {
        DashboardModel {
            fuel_level: if level > 100 {
                100u8
            } else {
                level
            },
            ..self
        }
    }

    /// The dashboard with one more warning, unless it shows that warning
    /// already.
    pub open spec fn with_warning(self, warning: Seq<char>) -> DashboardModel {
        if self.warnings.contains(warning) {
            self
        } else {
            DashboardModel { warnings: self.warnings.push(warning), ..self }
        }
    }

    /// The dashboard after a distance has been added; the odometer stops at
    /// the largest value it can show.
    pub open spec fn with_distance(self, tenths_of_km: u32) -> DashboardModel {
        DashboardModel {
            odometer: if self.odometer + tenths_of_km > u64::MAX {
                u64::MAX
            } else {
                (self.odometer + tenths_of_km) as u64
            },
            ..self
        }
    }

    /// The dashboard after the fuel rule of an update: a level below 20
    /// percent, but above none, is warned of.
    pub open spec fn fuel_checked(self) -> DashboardModel {
        if 0 < self.fuel_level < 20 {
            self.with_warning(low_fuel_text(self.fuel_level))
        } else {
            self
        }
    }

    /// The dashboard after one update: first the fuel rule, then the speed
    /// rule, which warns of a speed above 120 kilometres per hour.
    pub open spec fn processed(self) -> DashboardModel {
        if self.speed > 120 {
            self.fuel_checked().with_warning(high_speed_text())
        } else {
            self.fuel_checked()
        }
    }

    /// Whether no warning is shown twice.
    pub open spec fn warnings_distinct(self) -> bool {
        forall|i: int, j: int|
            0 <= i < j < self.warnings.len() ==> self.warnings[i] != self.warnings[j]
    }
}

pub struct DashboardComponent {
    state: ComponentState,
    speed: u8,
    fuel_level: u8,
    warnings: Vec<String>,
    odometer: u64,
}

impl View for DashboardComponent {
    type V = DashboardModel;

    closed spec fn view(&self) -> DashboardModel {
        DashboardModel {
            lifecycle: self.state,
            speed: self.speed,
            fuel_level: self.fuel_level,
            warnings: self.warnings@.map_values(|w: String| w@),
            odometer: self.odometer,
        }
    }
}

impl DashboardComponent {
    /// A dashboard that is offline, with a full tank and no warnings.
    pub fn new() -> (res: Self)
        ensures
            res@ == DashboardModel::fresh(),
    {
        let res = DashboardComponent {
            state: ComponentState::Offline,
            speed: 0,
            fuel_level: 100,
            warnings: Vec::new(),
            odometer: 0,
        };
        assert(res@.warnings =~= Seq::empty());
        res
    }

    /// Shows a speed, capped at 200 kilometres per hour.
    pub fn set_speed(&mut self, speed: u8)
        ensures
            final(self)@ == old(self)@.with_speed(speed),
    {
        self.speed = if speed > 200 {
            200
        } else {
            speed
        };
    }

    /// Shows a fuel level, capped at 100 percent.
    pub fn set_fuel_level(&mut self, level: u8)
        ensures
            final(self)@ == old(self)@.with_fuel_level(level),
    {
        self.fuel_level = if level > 100 {
            100
        } else {
            level
        };
    }

    /// Shows a warning, unless the same warning is shown already.
    pub fn add_warning(&mut self, warning: String)
        ensures
            final(self)@ == old(self)@.with_warning(warning@),
    {
        let mut i: usize = 0;
        while i < self.warnings.len()
            invariant
                i <= self.warnings@.len(),
                *self == *old(self),
                forall|k: int| 0 <= k < i ==> (#[trigger] self@.warnings[k]) != warning@,
            decreases self.warnings@.len() - i,
        {
            if self.warnings[i] == warning {
                assert(self@.warnings[i as int] == warning@);
                return ;
            }
            assert(self@.warnings[i as int] == self.warnings@[i as int]@);
            i += 1;
        }
        self.warnings.push(warning);
        assert(self@.warnings =~= old(self)@.warnings.push(warning@));
    }

    /// Removes all warnings.
    pub fn clear_warnings(&mut self)
        ensures
            final(self)@ == (DashboardModel { warnings: Seq::empty(), ..old(self)@ }),
    {
        self.warnings.clear();
        assert(self@.warnings =~= Seq::empty());
    }

    pub fn get_speed(&self) -> (res: u8)
        ensures
            res == self@.speed,
    {
        self.speed
    }

    pub fn get_fuel_level(&self) -> (res: u8)
        ensures
            res == self@.fuel_level,
    {
        self.fuel_level
    }

    /// The distance driven, in tenths of a kilometre.
    pub fn get_odometer(&self) -> (res: u64)
        ensures
            res == self@.odometer,
    {
        self.odometer
    }

    /// The number of warnings shown.
    pub fn warning_count(&self) -> (res: usize)
        ensures
            res == self@.warnings.len(),
    {
        self.warnings.len()
    }

    /// The warning at a position, oldest first.
    pub fn warning_at(&self, index: usize) -> (res: Option<&str>)
        ensures
            index < self@.warnings.len() ==> res is Some && res->Some_0@
                == self@.warnings[index as int],
            index >= self@.warnings.len() ==> res is None,
    {
        if index < self.warnings.len() {
            Some(self.warnings[index].as_str())
        } else {
            None
        }
    }

    /// Adds a distance, given in tenths of a kilometre, to the odometer.
    pub fn update_odometer(&mut self, tenths_of_km: u32)
        ensures
            final(self)@ == old(self)@.with_distance(tenths_of_km),
    {
        let step: u64 = tenths_of_km as u64;
        self.odometer = if self.odometer > u64::MAX - step {
            u64::MAX
        } else {
            self.odometer + step
        };
    }
}

impl CarComponent for DashboardComponent {
    open spec fn name_text(&self) -> Seq<char> {
        "Dashboard"@
    }

    open spec fn lifecycle_of(model: DashboardModel) -> ComponentState {
        model.lifecycle
    }

    open spec fn after_update(model: DashboardModel) -> DashboardModel {
        model.processed()
    }

    fn name(&self) -> (res: &str) {
        "Dashboard"
    }

    fn initialize(&mut self) -> (res: Result<(), String>)
        ensures
            res is Ok,
            final(self)@ == (DashboardModel { lifecycle: ComponentState::Online, ..old(self)@ }),
    {
        self.state = ComponentState::Initializing;
        self.state = ComponentState::Online;
        Ok(())
    }

    fn process(&mut self) -> (res: Result<(), String>)
        ensures
            res is Ok,
            final(self)@ == old(self)@.processed(),
    {
        if self.fuel_level < 20 && self.fuel_level > 0 {
            let mut warning = String::from_str("Low fuel (");
            let level = decimal(self.fuel_level as u64);
            warning.append(level.as_str());
            warning.append("%)");
            self.add_warning(warning);
        }
        if self.speed > 120 {
            self.add_warning(String::from_str("High speed - drive carefully"));
        }
        Ok(())
    }

    fn get_state(&self) -> (res: ComponentState)
        ensures
            res == self@.lifecycle,
    {
        self.state.clone()
    }
}

/// A dashboard that shows no warning twice still shows none twice after a
/// warning has been added.
pub proof fn lemma_warnings_stay_distinct(dashboard: DashboardModel, warning: Seq<char>)
    requires
        dashboard.warnings_distinct(),
    ensures
        dashboard.with_warning(warning).warnings_distinct(),
{
    let after = dashboard.with_warning(warning);
    assert forall|i: int, j: int| 0 <= i < j < after.warnings.len() implies after.warnings[i]
        != after.warnings[j] by {
        if !dashboard.warnings.contains(warning) {
            if j == dashboard.warnings.len() {
                assert(dashboard.warnings[i] == after.warnings[i]);
                assert(dashboard.warnings.contains(after.warnings[i]));
            }
        }
    }
}

} // verus!
