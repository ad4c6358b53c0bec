use vstd::prelude::*;

use crate::text::str_eq;

verus! {

/// An affine change of unit with rational coefficients:
/// a value `v` becomes `(v * mul + add) / div`.
#[derive(Clone, Copy, Debug, PartialEq, Eq)]
pub struct Scale {
    pub mul: i64,
    pub add: i64,
    pub div: i64,
}

/// Whether the fractions `a.0 / a.1` and `b.0 / b.1` are equal (denominators nonzero).
pub open spec fn ratio_eq(a: (int, int), b: (int, int)) -> bool {
    a.0 * b.1 == b.0 * a.1
}

impl Scale {
    /// Both coefficients of proportion are positive, so the map is increasing.
    pub open spec fn valid(self) -> bool {
        self.mul > 0 && self.div > 0
    }

    /// The image of the rational `v.0 / v.1` under this scale, as a fraction.
    pub open spec fn apply(self, v: (int, int)) -> (int, int) {
        (v.0 * self.mul + self.add * v.1, v.1 * self.div)
    }

    /// The scale that maps `apply(v)` back to `v`.
    pub open spec fn spec_inverse(self) -> Scale {
        Scale::spec_new(self.div as int, -self.add, self.mul as int)
    }

    pub open spec fn spec_new(mul: int, add: int, div: int) -> Scale {
        Scale { mul: mul as i64, add: add as i64, div: div as i64 }
    }

    /// The scale that leaves every value as it is.
    pub fn identity() -> (r: Scale)
        ensures
            r == Scale::spec_new(1, 0, 1),
    {
        Scale { mul: 1, add: 0, div: 1 }
    }

    /// The scale that undoes this one.
    pub fn inverse(&self) -> (r: Scale)
        requires
            self.add > i64::MIN,
        ensures
            r == self.spec_inverse(),
    {
        Scale { mul: self.div, add: -self.add, div: self.mul }
    }
}

/// The sixteen compass points, clockwise from north.
pub open spec fn compass_points() -> Seq<Seq<char>> {
    seq![
        "N"@, "NNE"@, "NE"@, "ENE"@, "E"@, "ESE"@, "SE"@, "SSE"@,
        "S"@, "SSW"@, "SW"@, "WSW"@, "W"@, "WNW"@, "NW"@, "NNW"@,
    ]
}

/// Index into `compass_points` of a bearing in degrees: `round(d / 22.5) mod 16`,
/// with bearings outside `[0, 360]` taken as `0`.
pub open spec fn bearing_index(d: int) -> int {
    if d < 0 || d > 360 {
        0
    } else {
        ((4 * d + 45) / 90) % 16
    }
}

/// The glyph shown for a condition string from the weather provider.
pub open spec fn condition_glyph(cond: Seq<char>, night: bool) -> char {
    if cond == "clear-day"@ || cond == "clear-night"@ {
        if night { 'A' } else { 'a' }
    } else if cond == "rain"@ {
        if night { 'G' } else { 'g' }
    } else if cond == "snow"@ {
        if night { 'O' } else { 'o' }
    } else if cond == "sleet"@ {
        'x'
    } else if cond == "wind"@ {
        '9'
    } else if cond == "fog"@ {
        '7'
    } else if cond == "cloudy"@ {
        if night { 'f' } else { 'e' }
    } else if cond == "partly-cloudy-day"@ {
        if night { 'C' } else { 'c' }
    } else if cond == "partly-cloudy-night"@ {
        'C'
    } else {
        'c'
    }
}

/// The unit asked for, or the stored preference when none is given.
pub open spec fn chosen_unit(unit: Option<char>, preference: char) -> char {
    match unit {
        Some(u) => u,
        None => preference,
    }
}

/// Celsius to the temperature unit `u` (`'F'`, or Celsius for anything else).
pub open spec fn temperature_scale_for(u: char) -> Scale {
    if u == 'F' {
        Scale::spec_new(9, 160, 5)
    } else {
        Scale::spec_new(1, 0, 1)
    }
}

pub open spec fn temperature_label_for(u: char) -> Seq<char> {
    if u == 'F' {
        "°F"@
    } else {
        "°C"@
    }
}

/// Kilometres to the visibility unit `u` (`'m'` for miles, else kilometres).
pub open spec fn visibility_scale_for(u: char) -> Scale {
    if u == 'm' {
        Scale::spec_new(1000, 0, 1609)
    } else {
        Scale::spec_new(1, 0, 1)
    }
}

pub open spec fn visibility_label_for(u: char) -> Seq<char> {
    if u == 'm' {
        "miles"@
    } else {
        "km"@
    }
}

/// Metres per second to the wind speed unit `u`
/// (`'k'` km/h, `'m'` mph, `'n'` knots, else m/s).
pub open spec fn windspeed_scale_for(u: char) -> Scale {
    if u == 'k' {
        Scale::spec_new(36, 0, 10)
    } else if u == 'm' {
        Scale::spec_new(2237, 0, 1000)
    } else if u == 'n' {
        Scale::spec_new(1944, 0, 1000)
    } else {
        Scale::spec_new(1, 0, 1)
    }
}

pub open spec fn windspeed_label_for(u: char) -> Seq<char> {
    if u == 'k' {
        "km/h"@
    } else if u == 'm' {
        "mph"@
    } else if u == 'n' {
        "knots"@
    } else {
        "m/s"@
    }
}

/// Hectopascal to the pressure unit `u` (`'i'` for inches of mercury, else hPa).
pub open spec fn pressure_scale_for(u: char) -> Scale {
    if u == 'i' {
        Scale::spec_new(1000000000000, 0, 33863886666667)
    } else {
        Scale::spec_new(1, 0, 1)
    }
}

/// Whether a moment lies strictly between sunrise and sunset (epoch seconds); outside
/// that span the night glyphs are shown.
pub fn is_daytime(now: i64, sunrise: i64, sunset: i64) -> (r: bool)
    ensures
        r == (sunrise < now && now < sunset),
{
    now > sunrise && now < sunset
}

/// Unit preferences and run toggles that drive the conversion of raw readings.
#[derive(Clone, Copy, Debug, PartialEq, Eq)]
pub struct DataHandler {
    pub history: bool,
    pub tempunit: char,
    pub cached: bool,
    pub visunit: char,
    pub windunit: char,
    pub pressunit: char,
    pub running: bool,
}

fn compass_point(i: usize) -> (r: &'static str)
    requires
        i < 16,
    ensures
        r@ == compass_points()[i as int],
{
    match i {
        0 => "N",
        1 => "NNE",
        2 => "NE",
        3 => "ENE",
        4 => "E",
        5 => "ESE",
        6 => "SE",
        7 => "SSE",
        8 => "S",
        9 => "SSW",
        10 => "SW",
        11 => "WSW",
        12 => "W",
        13 => "WNW",
        14 => "NW",
        _ => "NNW",
    }
}

impl DataHandler {
    /// The built-in preferences: history on, Celsius, kilometres, mph, hPa, cache only.
    pub open spec fn new_spec() -> DataHandler {
        DataHandler {
            history: true,
            tempunit: 'C',
            cached: true,
            visunit: 'k',
            windunit: 'm',
            pressunit: 'h',
            running: false,
        }
    }

    pub fn new() -> (r: DataHandler)
        ensures
            r == DataHandler::new_spec(),
    {
        DataHandler {
            history: true,
            tempunit: 'C',
            cached: true,
            visunit: 'k',
            windunit: 'm',
            pressunit: 'h',
            running: false,
        }
    }

    /// The compass point nearest to a wind bearing in degrees.
    pub fn deg_to_bearing(&self, wind_direction: i64) -> (r: &'static str)
        ensures
            r@ == compass_points()[bearing_index(wind_direction as int)],
    {
        let d: i64 = if wind_direction < 0 || wind_direction > 360 {
            0
        } else {
            wind_direction
        };
        let i: i64 = ((4 * d + 45) / 90) % 16;
        compass_point(i as usize)
    }

    /// The display glyph for a provider condition string; unknown strings give `'c'`.
    pub fn get_condition(&self, cond: &str, night: bool) -> (r: char)
        ensures
            r == condition_glyph(cond@, night),
    {
        if str_eq(cond, "clear-day") || str_eq(cond, "clear-night") {
            if night { 'A' } else { 'a' }
        } else if str_eq(cond, "rain") {
            if night { 'G' } else { 'g' }
        } else if str_eq(cond, "snow") {
            if night { 'O' } else { 'o' }
        } else if str_eq(cond, "sleet") {
            'x'
        } else if str_eq(cond, "wind") {
            '9'
        } else if str_eq(cond, "fog") {
            '7'
        } else if str_eq(cond, "cloudy") {
            if night { 'f' } else { 'e' }
        } else if str_eq(cond, "partly-cloudy-day") {
            if night { 'C' } else { 'c' }
        } else if str_eq(cond, "partly-cloudy-night") {
            'C'
        } else {
            'c'
        }
    }

    /// How to turn a Celsius reading into the chosen temperature unit, and its label.
    pub fn temperature_scale(&self, unit: Option<char>) -> (r: (Scale, &'static str))
        ensures
            r.0 == temperature_scale_for(chosen_unit(unit, self.tempunit)),
            r.1@ == temperature_label_for(chosen_unit(unit, self.tempunit)),
    {
        let u = match unit {
            Some(u) => u,
            None => self.tempunit,
        };
        if u == 'F' {
            (Scale { mul: 9, add: 160, div: 5 }, "°F")
        } else {
            (Scale::identity(), "°C")
        }
    }

    /// How to turn a visibility in kilometres into the chosen unit, and its label.
    pub fn visibility_scale(&self, unit: Option<char>) -> (r: (Scale, &'static str))
        ensures
            r.0 == visibility_scale_for(chosen_unit(unit, self.visunit)),
            r.1@ == visibility_label_for(chosen_unit(unit, self.visunit)),
    {
        let u = match unit {
            Some(u) => u,
            None => self.visunit,
        };
        if u == 'm' {
            (Scale { mul: 1000, add: 0, div: 1609 }, "miles")
        } else {
            (Scale::identity(), "km")
        }
    }

    /// How to turn a wind speed in metres per second into the chosen unit, and its label.
    pub fn windspeed_scale(&self, unit: Option<char>) -> (r: (Scale, &'static str))
        ensures
            r.0 == windspeed_scale_for(chosen_unit(unit, self.windunit)),
            r.1@ == windspeed_label_for(chosen_unit(unit, self.windunit)),
    {
        let u = match unit {
            Some(u) => u,
            None => self.windunit,
        };
        match u {
            'k' => (Scale { mul: 36, add: 0, div: 10 }, "km/h"),
            'm' => (Scale { mul: 2237, add: 0, div: 1000 }, "mph"),
            'n' => (Scale { mul: 1944, add: 0, div: 1000 }, "knots"),
            _ => (Scale::identity(), "m/s"),
        }
    }

    /// How to turn a pressure in hectopascal into the chosen unit.
    pub fn pressure_scale(&self, unit: Option<char>) -> (r: Scale)
        ensures
            r == pressure_scale_for(chosen_unit(unit, self.pressunit)),
    {
        let u = match unit {
            Some(u) => u,
            None => self.pressunit,
        };
        if u == 'i' {
            Scale { mul: 1000000000000, add: 0, div: 33863886666667 }
        } else {
            Scale::identity()
        }
    }
}

/// Every bearing lands on one of the sixteen compass points.
pub proof fn lemma_bearing_is_compass_point(d: int)
    ensures
        0 <= bearing_index(d) < 16,
{
}

/// A bearing below 0 or above 360 degrees reads as a bearing of 0 degrees.
pub proof fn lemma_bearing_out_of_range(d: int)
    requires
        d < 0 || d > 360,
    ensures
        bearing_index(d) == bearing_index(0),
        compass_points()[bearing_index(d)] == "N"@,
{
}

/// Applying a valid scale and then its inverse gives back the value it started from.
pub proof fn lemma_scale_round_trip(s: Scale, v: (int, int))
    requires
        s.valid(),
        s.add > i64::MIN,
        v.1 > 0,
    ensures
        s.spec_inverse().apply(s.apply(v)).1 > 0,
        ratio_eq(s.spec_inverse().apply(s.apply(v)), v),
{
    let m = s.mul as int;
    let a = s.add as int;
    let d = s.div as int;
    let w = s.apply(v);
    let back = s.spec_inverse().apply(w);
    assert(back.0 == (v.0 * m + a * v.1) * d + (-a) * (v.1 * d));
    assert(back.0 == v.0 * m * d) by (nonlinear_arith)
        requires
            back.0 == (v.0 * m + a * v.1) * d + (-a) * (v.1 * d),
    ;
    assert(back.1 == v.1 * d * m);
    assert(back.1 > 0) by (nonlinear_arith)
        requires
            back.1 == v.1 * d * m,
            v.1 > 0,
            d > 0,
            m > 0,
    ;
    assert(back.0 * v.1 == v.0 * back.1) by (nonlinear_arith)
        requires
            back.0 == v.0 * m * d,
            back.1 == v.1 * d * m,
    ;
}

/// Temperature from Celsius to Fahrenheit and back to Celsius is the identity.
pub proof fn lemma_temperature_round_trip(c: (int, int))
    requires
        c.1 > 0,
    ensures
        ratio_eq(
            temperature_scale_for('F').spec_inverse().apply(temperature_scale_for('F').apply(c)),
            c,
        ),
{
    lemma_scale_round_trip(temperature_scale_for('F'), c);
}

/// Every wind speed unit is a positive multiple of metres per second: zero stays
/// zero, multiples are kept, and order is kept.
pub proof fn lemma_windspeed_linear_monotonic(u: char, a: (int, int), b: (int, int), k: int)
    requires
        a.1 > 0,
        b.1 > 0,
    ensures
        windspeed_scale_for(u).valid(),
        windspeed_scale_for(u).add == 0,
        windspeed_scale_for(u).apply((0, a.1)).0 == 0,
        ratio_eq(
            windspeed_scale_for(u).apply((k * a.0, a.1)),
            (k * windspeed_scale_for(u).apply(a).0, windspeed_scale_for(u).apply(a).1),
        ),
        a.0 * b.1 <= b.0 * a.1 ==> windspeed_scale_for(u).apply(a).0 * windspeed_scale_for(
            u,
        ).apply(b).1 <= windspeed_scale_for(u).apply(b).0 * windspeed_scale_for(u).apply(a).1,
{
    let s = windspeed_scale_for(u);
    let m = s.mul as int;
    let d = s.div as int;
    assert(s.add == 0 && m > 0 && d > 0);
    assert(s.add * a.1 == 0 && s.add * b.1 == 0);
    assert(s.apply(a) == (a.0 * m, a.1 * d));
    assert(s.apply(b) == (b.0 * m, b.1 * d));
    assert(s.apply((k * a.0, a.1)) == ((k * a.0) * m, a.1 * d));
    assert((k * a.0) * m * (a.1 * d) == k * (a.0 * m) * (a.1 * d)) by (nonlinear_arith);
    if a.0 * b.1 <= b.0 * a.1 {
        assert((a.0 * m) * (b.1 * d) <= (b.0 * m) * (a.1 * d)) by (nonlinear_arith)
            requires
                a.0 * b.1 <= b.0 * a.1,
                m > 0,
                d > 0,
        ;
    }
}

} // verus!
