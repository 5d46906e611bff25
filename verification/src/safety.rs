//! The safety monitor: a stateless evaluation of the current readings
//! against configured limits, giving zero or more graded warnings.

use crate::text::{decimal, decimal_text, degrees, degrees_text, enclose};
use vstd::prelude::*;
use vstd::string::*;

verus! {

/// How grave a finding is, from the least to the most severe.
#[derive(Debug, Clone, Copy, PartialEq, Eq, PartialOrd, Ord, Structural)]
pub enum SafetySeverity {
    Info,
    Warning,
    Critical,
    Emergency,
}

impl SafetySeverity {
    /// The position of the level in the order Info, Warning, Critical,
    /// Emergency.
    pub open spec fn rank_spec(self) -> int {
        match self {
            SafetySeverity::Info => 0,
            SafetySeverity::Warning => 1,
            SafetySeverity::Critical => 2,
            SafetySeverity::Emergency => 3,
        }
    }

    pub fn rank(&self) -> (res: u8)
        ensures
            res == self.rank_spec(),
    {
        match self {
            SafetySeverity::Info => 0,
            SafetySeverity::Warning => 1,
            SafetySeverity::Critical => 2,
            SafetySeverity::Emergency => 3,
        }
    }

    /// Whether the level is `floor` or a more severe one.
    pub open spec fn at_least_spec(self, floor: SafetySeverity) -> bool {
        self.rank_spec() >= floor.rank_spec()
    }

    pub fn at_least(&self, floor: SafetySeverity) -> (res: bool)
        ensures
            res == self.at_least_spec(floor),
    {
        self.rank() >= floor.rank()
    }
}

/// A finding of the safety monitor: the rule that fired, with the measured
/// value and the limit it was held against. Temperatures are in hundredths
/// of a degree Celsius.
#[derive(Debug, PartialEq)]
#[allow(inconsistent_fields)]
pub enum SafetyWarning {
    SpeedExceeded { current: u8, max: u8 },
    Overheating { current: i32, max: i32 },
    HighRPM { current: u32, max: u32 },
    LowFuel { level: u8 },
    BrakePressureTooHigh { pressure: u8 },
    EngineStateInvalid { state: String },
}

/// A finding as a mathematical value: text is a sequence of characters.
#[allow(inconsistent_fields)]
pub enum WarningModel {
    SpeedExceeded { current: u8, max: u8 },
    Overheating { current: i32, max: i32 },
    HighRPM { current: u32, max: u32 },
    LowFuel { level: u8 },
    BrakePressureTooHigh { pressure: u8 },
    EngineStateInvalid { state: Seq<char> },
}

impl WarningModel {
    /// The severity of a finding, by the bands of its rule: a speed more
    /// than 20 over its limit is critical; a temperature more than ten
    /// degrees over its limit is an emergency, one over it critical; a
    /// rotational speed more than 1000 over its limit is critical; an
    /// inconsistent engine state is always an emergency.
    pub open spec fn severity(self) -> SafetySeverity {
        match self {
            WarningModel::SpeedExceeded { current, max } => if current > max + 20 {
                SafetySeverity::Critical
            } else {
                SafetySeverity::Warning
            },
            WarningModel::Overheating { current, max } => if current > max + 1000 {
                SafetySeverity::Emergency
            } else if current > max {
                SafetySeverity::Critical
            } else {
                SafetySeverity::Warning
            },
            WarningModel::HighRPM { current, max } => if current > max + 1000 {
                SafetySeverity::Critical
            } else {
                SafetySeverity::Warning
            },
            WarningModel::LowFuel { .. } => SafetySeverity::Warning,
            WarningModel::BrakePressureTooHigh { .. } => SafetySeverity::Info,
            WarningModel::EngineStateInvalid { .. } => SafetySeverity::Emergency,
        }
    }
}

impl WarningModel {
    /// The finding as it is shown to the driver.
    pub open spec fn describe(self) -> Seq<char> {
        match self {
            WarningModel::SpeedExceeded { current, max } => "\u{26a0}\u{fe0f} SPEED EXCEEDED: "@
                + decimal_text(current as nat) + " km/h (max: "@ + decimal_text(max as nat)
                + " km/h)"@,
            WarningModel::Overheating { current, max } => "\u{26a0}\u{fe0f} ENGINE OVERHEATING: "@
                + degrees_text(current as int) + "\u{b0}C (max: "@ + degrees_text(max as int)
                + "\u{b0}C)"@,
            WarningModel::HighRPM { current, max } => "\u{26a0}\u{fe0f} HIGH RPM: "@
                + decimal_text(current as nat) + " (max: "@ + decimal_text(max as nat) + ")"@,
            WarningModel::LowFuel { level } => "\u{26a0}\u{fe0f} LOW FUEL: "@ + decimal_text(
                level as nat,
            ) + "%"@,
            WarningModel::BrakePressureTooHigh { pressure } =>
                "\u{26a0}\u{fe0f} BRAKE PRESSURE TOO HIGH: "@ + decimal_text(pressure as nat)
                    + "%"@,
            WarningModel::EngineStateInvalid { state } => "\u{26a0}\u{fe0f} ENGINE STATE INVALID: "@
                + state,
        }
    }
}

impl View for SafetyWarning {
    type V = WarningModel;

    open spec fn view(&self) -> WarningModel {
        match *self {
            SafetyWarning::SpeedExceeded { current, max } => WarningModel::SpeedExceeded {
                current,
                max,
            },
            SafetyWarning::Overheating { current, max } => WarningModel::Overheating {
                current,
                max,
            },
            SafetyWarning::HighRPM { current, max } => WarningModel::HighRPM { current, max },
            SafetyWarning::LowFuel { level } => WarningModel::LowFuel { level },
            SafetyWarning::BrakePressureTooHigh { pressure } => WarningModel::BrakePressureTooHigh {
                pressure,
            },
            SafetyWarning::EngineStateInvalid { state } => WarningModel::EngineStateInvalid {
                state: state@,
            },
        }
    }
}

impl Clone for SafetyWarning {
    fn clone(&self) -> (res: Self)
        ensures
            res == *self,
    {
        match self {
            SafetyWarning::SpeedExceeded { current, max } => SafetyWarning::SpeedExceeded {
                current: *current,
                max: *max,
            },
            SafetyWarning::Overheating { current, max } => SafetyWarning::Overheating {
                current: *current,
                max: *max,
            },
            SafetyWarning::HighRPM { current, max } => SafetyWarning::HighRPM {
                current: *current,
                max: *max,
            },
            SafetyWarning::LowFuel { level } => SafetyWarning::LowFuel { level: *level },
            SafetyWarning::BrakePressureTooHigh { pressure } => SafetyWarning::BrakePressureTooHigh {
                pressure: *pressure,
            },
            SafetyWarning::EngineStateInvalid { state } => SafetyWarning::EngineStateInvalid {
                state: state.clone(),
            },
        }
    }
}

impl SafetyWarning {
    /// Writes the finding as it is shown to the driver.
    pub fn describe(&self) -> (res: String)
        ensures
            res@ == self@.describe(),
    {
        match self {
            SafetyWarning::SpeedExceeded { current, max } => {
                let mut text = enclose(
                    "\u{26a0}\u{fe0f} SPEED EXCEEDED: ",
                    decimal(*current as u64).as_str(),
                    " km/h (max: ",
                );
                text.append(decimal(*max as u64).as_str());
                text.append(" km/h)");
                text
            },
            SafetyWarning::Overheating { current, max } => {
                let mut text = enclose(
                    "\u{26a0}\u{fe0f} ENGINE OVERHEATING: ",
                    degrees(*current).as_str(),
                    "\u{b0}C (max: ",
                );
                text.append(degrees(*max).as_str());
                text.append("\u{b0}C)");
                text
            },
            SafetyWarning::HighRPM { current, max } => {
                let mut text = enclose(
                    "\u{26a0}\u{fe0f} HIGH RPM: ",
                    decimal(*current as u64).as_str(),
                    " (max: ",
                );
                text.append(decimal(*max as u64).as_str());
                text.append(")");
                text
            },
            SafetyWarning::LowFuel { level } => enclose(
                "\u{26a0}\u{fe0f} LOW FUEL: ",
                decimal(*level as u64).as_str(),
                "%",
            ),
            SafetyWarning::BrakePressureTooHigh { pressure } => enclose(
                "\u{26a0}\u{fe0f} BRAKE PRESSURE TOO HIGH: ",
                decimal(*pressure as u64).as_str(),
                "%",
            ),
            SafetyWarning::EngineStateInvalid { state } => {
                let mut text = String::from_str("\u{26a0}\u{fe0f} ENGINE STATE INVALID: ");
                text.append(state.as_str());
                text
            },
        }
    }

    /// The severity of the finding.
    pub fn severity(&self) -> (res: SafetySeverity)
        ensures
            res == self@.severity(),
    {
        match self {
            SafetyWarning::SpeedExceeded { current, max } => {
                if *current > *max && *current - *max > 20 {
                    SafetySeverity::Critical
                } else {
                    SafetySeverity::Warning
                }
            },
            SafetyWarning::Overheating { current, max } => {
                let measured: i64 = *current as i64;
                let limit: i64 = *max as i64;
                if measured > limit + 1000 {
                    SafetySeverity::Emergency
                } else if measured > limit {
                    SafetySeverity::Critical
                } else {
                    SafetySeverity::Warning
                }
            },
            SafetyWarning::HighRPM { current, max } => {
                if *current > *max && *current - *max > 1000 {
                    SafetySeverity::Critical
                } else {
                    SafetySeverity::Warning
                }
            },
            SafetyWarning::LowFuel { .. } => SafetySeverity::Warning,
            SafetyWarning::BrakePressureTooHigh { .. } => SafetySeverity::Info,
            SafetyWarning::EngineStateInvalid { .. } => SafetySeverity::Emergency,
        }
    }
}

/// The views of a series of findings, in the same order.
pub open spec fn warning_views(warnings: Seq<SafetyWarning>) -> Seq<WarningModel> {
    warnings.map_values(|w: SafetyWarning| w@)
}

/// The text of the finding that the vehicle moves while its engine is off.
pub open spec fn moving_while_off_text() -> Seq<char> {
    "Engine off but car moving"@
}

/// Whether no finding of the series is critical or worse.
pub open spec fn all_below_critical(warnings: Seq<WarningModel>) -> bool {
    forall|i: int|
        0 <= i < warnings.len() ==> !(#[trigger] warnings[i]).severity().at_least_spec(
            SafetySeverity::Critical,
        )
}

/// The limits that the safety monitor enforces. It keeps nothing else.
pub struct SafetyMonitor {
    pub max_speed: u8,
    pub max_temperature: i32,
    pub max_rpm: u32,
    pub min_fuel: u8,
    pub max_brake_pressure: u8,
}

impl SafetyMonitor {
    /// What each rule, taken alone, finds in the readings; the rules are
    /// listed in the order in which their findings are reported.
    pub open spec fn speed_finding(&self, speed: u8) -> Seq<WarningModel> {
        if speed > self.max_speed {
            seq![WarningModel::SpeedExceeded { current: speed, max: self.max_speed }]
        } else {
            Seq::empty()
        }
    }

    pub open spec fn heat_finding(&self, temp: i32) -> Seq<WarningModel> {
        if temp > self.max_temperature {
            seq![WarningModel::Overheating { current: temp, max: self.max_temperature }]
        } else {
            Seq::empty()
        }
    }

    pub open spec fn rpm_finding(&self, rpm: u32) -> Seq<WarningModel> {
        if rpm > self.max_rpm {
            seq![WarningModel::HighRPM { current: rpm, max: self.max_rpm }]
        } else {
            Seq::empty()
        }
    }

    pub open spec fn fuel_finding(&self, fuel: u8) -> Seq<WarningModel> {
        if fuel < self.min_fuel {
            seq![WarningModel::LowFuel { level: fuel }]
        } else {
            Seq::empty()
        }
    }

    pub open spec fn brake_finding(&self, brake_pressure: u8) -> Seq<WarningModel> {
        if brake_pressure > self.max_brake_pressure {
            seq![WarningModel::BrakePressureTooHigh { pressure: brake_pressure }]
        } else {
            Seq::empty()
        }
    }

    pub open spec fn state_finding(speed: u8, engine_running: bool) -> Seq<WarningModel> {
        if !engine_running && speed > 0 {
            seq![WarningModel::EngineStateInvalid { state: moving_while_off_text() }]
        } else {
            Seq::empty()
        }
    }

    /// All findings for one snapshot of readings: every rule is evaluated,
    /// and every rule that fires reports.
    pub open spec fn findings(
        &self,
        speed: u8,
        temp: i32,
        rpm: u32,
        fuel: u8,
        brake_pressure: u8,
        engine_running: bool,
    ) -> Seq<WarningModel> {
        self.speed_finding(speed) + self.heat_finding(temp) + self.rpm_finding(rpm)
            + self.fuel_finding(fuel) + self.brake_finding(brake_pressure) + Self::state_finding(
            speed,
            engine_running,
        )
    }

    /// A monitor with the standard limits: 120 km/h, 95 degrees, 6000
    /// revolutions per minute, 15 percent of fuel, 80 percent of brake
    /// pressure.
    pub fn new() -> (res: Self)
        ensures
            res.max_speed == 120,
            res.max_temperature == 9500,
            res.max_rpm == 6000,
            res.min_fuel == 15,
            res.max_brake_pressure == 80,
    {
        SafetyMonitor {
            max_speed: 120,
            max_temperature: 9500,
            max_rpm: 6000,
            min_fuel: 15,
            max_brake_pressure: 80,
        }
    }

    /// A monitor with its own limits for speed, temperature and rotational
    /// speed, and the standard limits for fuel and brake pressure.
    pub fn with_limits(max_speed: u8, max_temp: i32, max_rpm: u32) -> (res: Self)
        ensures
            res.max_speed == max_speed,
            res.max_temperature == max_temp,
            res.max_rpm == max_rpm,
            res.min_fuel == 15,
            res.max_brake_pressure == 80,
    {
        SafetyMonitor {
            max_speed,
            max_temperature: max_temp,
            max_rpm,
            min_fuel: 15,
            max_brake_pressure: 80,
        }
    }

    /// Evaluates every rule on one snapshot of readings and returns all
    /// findings, in the order speed, temperature, rotational speed, fuel,
    /// brake pressure, engine state.
    pub fn check(
        &self,
        speed: u8,
        temp: i32,
        rpm: u32,
        fuel: u8,
        brake_pressure: u8,
        engine_running: bool,
    ) -> (res: Vec<SafetyWarning>)
        ensures
            warning_views(res@) == self.findings(
                speed,
                temp,
                rpm,
                fuel,
                brake_pressure,
                engine_running,
            ),
    {
        let mut warnings: Vec<SafetyWarning> = Vec::new();
        let ghost mut found: Seq<WarningModel> = Seq::empty();
        assert(warning_views(warnings@) =~= found);

        if speed > self.max_speed {
            warnings.push(SafetyWarning::SpeedExceeded { current: speed, max: self.max_speed });
        }
        proof {
            found = found + self.speed_finding(speed);
            assert(warning_views(warnings@) =~= found);
        }

        if temp > self.max_temperature {
            warnings.push(SafetyWarning::Overheating { current: temp, max: self.max_temperature });
        }
        proof {
            found = found + self.heat_finding(temp);
            assert(warning_views(warnings@) =~= found);
        }

        if rpm > self.max_rpm {
            warnings.push(SafetyWarning::HighRPM { current: rpm, max: self.max_rpm });
        }
        proof {
            found = found + self.rpm_finding(rpm);
            assert(warning_views(warnings@) =~= found);
        }

        if fuel < self.min_fuel {
            warnings.push(SafetyWarning::LowFuel { level: fuel });
        }
        proof {
            found = found + self.fuel_finding(fuel);
            assert(warning_views(warnings@) =~= found);
        }

        if brake_pressure > self.max_brake_pressure {
            warnings.push(SafetyWarning::BrakePressureTooHigh { pressure: brake_pressure });
        }
        proof {
            found = found + self.brake_finding(brake_pressure);
            assert(warning_views(warnings@) =~= found);
        }

        if !engine_running && speed > 0 {
            warnings.push(
                SafetyWarning::EngineStateInvalid {
                    state: String::from_str("Engine off but car moving"),
                },
            );
        }
        proof {
            found = found + Self::state_finding(speed, engine_running);
            assert(warning_views(warnings@) =~= found);
            assert(found =~= self.findings(
                speed,
                temp,
                rpm,
                fuel,
                brake_pressure,
                engine_running,
            ));
        }

        warnings
    }

    /// Whether the system may go on: no finding is critical or worse.
    pub fn is_safe(&self, warnings: &[SafetyWarning]) -> (res: bool)
        ensures
            res == all_below_critical(warning_views(warnings@)),
    {
        let mut i: usize = 0;
        while i < warnings.len()
            invariant
                i <= warnings@.len(),
                forall|k: int|
                    0 <= k < i ==> !(#[trigger] warning_views(
                        warnings@,
                    )[k]).severity().at_least_spec(SafetySeverity::Critical),
            decreases warnings@.len() - i,
        {
            if warnings[i].severity().at_least(SafetySeverity::Critical) {
                assert(warning_views(warnings@)[i as int] == warnings@[i as int]@);
                return false;
            }
            assert(warning_views(warnings@)[i as int] == warnings@[i as int]@);
            i += 1;
        }
        true
    }
}

impl Default for SafetyMonitor {
    fn default() -> (res: Self)
        ensures
            res.max_speed == 120,
            res.max_temperature == 9500,
            res.max_rpm == 6000,
            res.min_fuel == 15,
            res.max_brake_pressure == 80,
    {
        SafetyMonitor::new()
    }
}

/// Every rule fires on its own condition and on nothing else: speed,
/// temperature and rotational speed above their limits, fuel below its
/// limit, brake pressure above its limit, and movement while the engine is
/// off.
pub proof fn lemma_rules_fire_independently(
    monitor: SafetyMonitor,
    speed: u8,
    temp: i32,
    rpm: u32,
    fuel: u8,
    brake_pressure: u8,
    engine_running: bool,
)
    ensures
        ({
            let found = monitor.findings(speed, temp, rpm, fuel, brake_pressure, engine_running);
            &&& found.contains(WarningModel::SpeedExceeded { current: speed, max: monitor.max_speed })
                <==> speed > monitor.max_speed
            &&& found.contains(
                WarningModel::Overheating { current: temp, max: monitor.max_temperature },
            ) <==> temp > monitor.max_temperature
            &&& found.contains(WarningModel::HighRPM { current: rpm, max: monitor.max_rpm })
                <==> rpm > monitor.max_rpm
            &&& found.contains(WarningModel::LowFuel { level: fuel }) <==> fuel < monitor.min_fuel
            &&& found.contains(WarningModel::BrakePressureTooHigh { pressure: brake_pressure })
                <==> brake_pressure > monitor.max_brake_pressure
            &&& found.contains(WarningModel::EngineStateInvalid { state: moving_while_off_text() })
                <==> !engine_running && speed > 0
            &&& forall|i: int|
                0 <= i < found.len() && (#[trigger] found[i]) is EngineStateInvalid
                    ==> !engine_running && speed > 0
        }),
{
    let a = monitor.speed_finding(speed);
    let b = monitor.heat_finding(temp);
    let c = monitor.rpm_finding(rpm);
    let d = monitor.fuel_finding(fuel);
    let e = monitor.brake_finding(brake_pressure);
    let f = SafetyMonitor::state_finding(speed, engine_running);
    let found = monitor.findings(speed, temp, rpm, fuel, brake_pressure, engine_running);
    assert(found == a + b + c + d + e + f);
    if speed > monitor.max_speed {
        assert(found[0] == a[0]);
    }
    if temp > monitor.max_temperature {
        assert(found[a.len() as int] == b[0]);
    }
    if rpm > monitor.max_rpm {
        assert(found[(a.len() + b.len()) as int] == c[0]);
    }
    if fuel < monitor.min_fuel {
        assert(found[(a.len() + b.len() + c.len()) as int] == d[0]);
    }
    if brake_pressure > monitor.max_brake_pressure {
        assert(found[(a.len() + b.len() + c.len() + d.len()) as int] == e[0]);
    }
    if !engine_running && speed > 0 {
        assert(found[(a.len() + b.len() + c.len() + d.len() + e.len()) as int] == f[0]);
    }
}

/// The findings of one evaluation allow the system to go on exactly when
/// the speed is at most 20 over its limit, the temperature is within its
/// limit, the rotational speed is at most 1000 over its limit, and the
/// vehicle does not move with its engine off.
pub proof fn lemma_safe_readings(
    monitor: SafetyMonitor,
    speed: u8,
    temp: i32,
    rpm: u32,
    fuel: u8,
    brake_pressure: u8,
    engine_running: bool,
)
    ensures
        all_below_critical(
            monitor.findings(speed, temp, rpm, fuel, brake_pressure, engine_running),
        ) <==> {
            &&& speed <= monitor.max_speed + 20
            &&& temp <= monitor.max_temperature
            &&& rpm <= monitor.max_rpm + 1000
            &&& (engine_running || speed == 0)
        },
{
    let a = monitor.speed_finding(speed);
    let b = monitor.heat_finding(temp);
    let c = monitor.rpm_finding(rpm);
    let d = monitor.fuel_finding(fuel);
    let e = monitor.brake_finding(brake_pressure);
    let f = SafetyMonitor::state_finding(speed, engine_running);
    let found = monitor.findings(speed, temp, rpm, fuel, brake_pressure, engine_running);
    assert(found == a + b + c + d + e + f);
    if speed > monitor.max_speed + 20 {
        assert(found[0] == a[0]);
        assert(found[0].severity().at_least_spec(SafetySeverity::Critical));
    }
    if temp > monitor.max_temperature {
        assert(found[a.len() as int] == b[0]);
        assert(found[a.len() as int].severity().at_least_spec(SafetySeverity::Critical));
    }
    if rpm > monitor.max_rpm + 1000 {
        assert(found[(a.len() + b.len()) as int] == c[0]);
        assert(found[(a.len() + b.len()) as int].severity().at_least_spec(
            SafetySeverity::Critical,
        ));
    }
    if !engine_running && speed > 0 {
        let k = (a.len() + b.len() + c.len() + d.len() + e.len()) as int;
        assert(found[k] == f[0]);
        assert(found[k].severity().at_least_spec(SafetySeverity::Critical));
    }
}

/// A finding of excessive speed is at least a warning, and critical
/// exactly when the speed is more than 20 over the limit.
pub proof fn lemma_speed_bands(current: u8, max: u8)
    ensures
        (WarningModel::SpeedExceeded { current, max }).severity().at_least_spec(
            SafetySeverity::Warning,
        ),
        (WarningModel::SpeedExceeded { current, max }).severity() == SafetySeverity::Critical
            <==> current > max + 20,
{
}

} // verus!
