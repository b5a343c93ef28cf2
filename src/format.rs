//! Text shown on the display for sensor and thermostat readings.
use vstd::prelude::*;
use crate::nest::Data;

verus! {

/// A reading of the hygrothermograph, both values in tenths.
#[derive(Clone, Copy, Debug, PartialEq, Eq)]
pub struct Measurement {
    /// Temperature in tenths of a degree Celsius.
    pub temperature: i16,
    /// Relative humidity in tenths of a percent.
    pub humidity: u16,
}

/// The decimal digit for `d`, where `0 <= d < 10`.
pub open spec fn digit_char(d: int) -> char {
    seq!['0', '1', '2', '3', '4', '5', '6', '7', '8', '9'][d]
}

/// Decimal digits of `n`, most significant first, without padding.
pub open spec fn nat_text(n: nat) -> Seq<char>
    decreases n,
{
    if n < 10 {
        seq![digit_char(n as int)]
    } else {
        nat_text(n / 10) + seq![digit_char((n % 10) as int)]
    }
}

/// A value given in tenths, written with exactly one decimal place.
pub open spec fn tenths_text(t: int) -> Seq<char> {
    let u = if t < 0 { -t } else { t };
    let body = nat_text((u / 10) as nat) + seq!['.', digit_char(u % 10)];
    if t < 0 {
        seq!['-'] + body
    } else {
        body
    }
}

/// The first line for a sensor reading, as in `21.5\u{b0}C | 40.0%`.
pub open spec fn measurement_text(m: Measurement) -> Seq<char> {
    tenths_text(m.temperature as int) + "\u{b0}C | "@ + tenths_text(m.humidity as int) + "%"@
}

/// The second line for a thermostat reading.
pub open spec fn data_text(d: Data) -> Seq<char> {
    match d {
        Data::HeatCool { heat_point, temperature, cool_point } => tenths_text(heat_point as int)
            + "  "@ + tenths_text(temperature as int) + "  "@ + tenths_text(cool_point as int),
        Data::Heat { heat_point, temperature } => "H:"@ + tenths_text(heat_point as int) + "\u{b0}C T:"@ + tenths_text(temperature as int) + "\u{b0}C"@,
        Data::Cool { cool_point, temperature } => "C:"@ + tenths_text(cool_point as int) + "\u{b0}C T:"@ + tenths_text(temperature as int) + "\u{b0}C"@,
        Data::Off { temperature } => "Temp: "@ + tenths_text(temperature as int) + "\u{b0}C"@,
    }
}

/// Relies on `u64`'s `ToString` (its `Display`): plain decimal digits, no sign or padding.
#[verifier::external_body]
fn decimal(n: u64) -> (r: String)
    ensures
        r@ == nat_text(n as nat),
{
    n.to_string()
}

/// Appends a value given in tenths, with one decimal place.
pub fn push_tenths(s: &mut String, t: i32)
    ensures
        final(s)@ == old(s)@ + tenths_text(t as int),
{
    let wide: i64 = t as i64;
    let u: u64 = if wide < 0 { (-wide) as u64 } else { wide as u64 };
    let whole = decimal(u / 10);
    let frac = decimal(u % 10);
    let ghost start = s@;
    if wide < 0 {
        s.append("-");
        proof { reveal_strlit("-"); }
    }
    s.append(whole.as_str());
    s.append(".");
    proof { reveal_strlit("."); }
    s.append(frac.as_str());
    assert(frac@ == seq![digit_char((u % 10) as int)]);
    let ghost u_int: int = if (t as int) < 0 { -(t as int) } else { t as int };
    assert(u as int == u_int);
    if wide < 0 {
        assert(s@ =~= start + tenths_text(t as int)) by {
            assert(tenths_text(t as int) =~= seq!['-'] + nat_text((u_int / 10) as nat) + seq!['.', digit_char(u_int % 10)]);
        };
    } else {
        assert(s@ =~= start + tenths_text(t as int));
    }
}


/// The first display line: temperature and humidity of a sensor reading.
pub fn measurement(m: &Measurement) -> (r: String)
    ensures
        r@ == measurement_text(*m),
{
    let mut s = String::new();
    push_tenths(&mut s, m.temperature as i32);
    s.append("\u{b0}C | ");
    push_tenths(&mut s, m.humidity as i32);
    s.append("%");
    assert(s@ =~= measurement_text(*m));
    s
}

/// The second display line: the thermostat's setpoints and temperature.
pub fn nest_data(data: &Data) -> (r: String)
    ensures
        r@ == data_text(*data),
{
    let mut s = String::new();
    match data {
        Data::HeatCool { heat_point, temperature, cool_point } => {
            push_tenths(&mut s, *heat_point);
            s.append("  ");
            push_tenths(&mut s, *temperature);
            s.append("  ");
            push_tenths(&mut s, *cool_point);
        },
        Data::Heat { heat_point, temperature } => {
            s.append("H:");
            push_tenths(&mut s, *heat_point);
            s.append("\u{b0}C T:");
            push_tenths(&mut s, *temperature);
            s.append("\u{b0}C");
        },
        Data::Cool { cool_point, temperature } => {
            s.append("C:");
            push_tenths(&mut s, *cool_point);
            s.append("\u{b0}C T:");
            push_tenths(&mut s, *temperature);
            s.append("\u{b0}C");
        },
        Data::Off { temperature } => {
            s.append("Temp: ");
            push_tenths(&mut s, *temperature);
            s.append("\u{b0}C");
        },
    }
    assert(s@ =~= data_text(*data));
    s
}

} // verus!
