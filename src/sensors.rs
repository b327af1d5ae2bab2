use crate::text::{
    all_digits, chars_of, digits_run, digits_value, fraction_len, opt_view, push_char, split_point,
    tail_from, trim, trimmed, without_point,
};
use vstd::prelude::*;

verus! {

/// The closed set of sensor kinds this agent reports.
#[derive(Debug, Clone, Copy, PartialEq, Eq, Structural)]
pub enum SystemSensorType {
    CpuUsage,
    MemoryUsage,
    DiskUsage,
    MemoryUsed,
    MemoryTotal,
    DiskUsed,
    DiskTotal,
    Temperature,
    Fan,
}

/// Icon hint shown by the hub for each kind.
pub open spec fn icon_of(kind: SystemSensorType) -> Seq<char> {
    match kind {
        SystemSensorType::CpuUsage => "mdi:cpu-64-bit"@,
        SystemSensorType::MemoryUsage | SystemSensorType::MemoryUsed
        | SystemSensorType::MemoryTotal => "mdi:memory"@,
        SystemSensorType::DiskUsage | SystemSensorType::DiskUsed
        | SystemSensorType::DiskTotal => "mdi:harddisk"@,
        SystemSensorType::Temperature => "mdi:thermometer"@,
        SystemSensorType::Fan => "mdi:fan"@,
    }
}

impl SystemSensorType {
    pub fn icon(&self) -> (r: &'static str)
        ensures
            r@ == icon_of(*self),
    {
        match self {
            SystemSensorType::CpuUsage => "mdi:cpu-64-bit",
            SystemSensorType::MemoryUsage
            | SystemSensorType::MemoryUsed
            | SystemSensorType::MemoryTotal => "mdi:memory",
            SystemSensorType::DiskUsage
            | SystemSensorType::DiskUsed
            | SystemSensorType::DiskTotal => "mdi:harddisk",
            SystemSensorType::Temperature => "mdi:thermometer",
            SystemSensorType::Fan => "mdi:fan",
        }
    }
}

/// One sensor as seen in one snapshot.
#[derive(Debug, Clone)]
pub struct SystemSensor {
    pub name: String,
    pub label: Option<String>,
    pub value: Reading,
    pub unit: String,
    pub sensor_type: SystemSensorType,
}

/// What a sensor is, as plain values.
pub ghost struct SensorModel {
    pub name: Seq<char>,
    pub label: Option<Seq<char>>,
    pub value: Reading,
    pub unit: Seq<char>,
    pub kind: SystemSensorType,
}

impl View for SystemSensor {
    type V = SensorModel;

    open spec fn view(&self) -> SensorModel {
        SensorModel {
            name: self.name@,
            label: opt_view(self.label),
            value: self.value,
            unit: self.unit@,
            kind: self.sensor_type,
        }
    }
}

impl SystemSensor {
    /// The sensor's value is within the supported precision.
    pub open spec fn wf(&self) -> bool {
        self.value.wf()
    }
}

/// One snapshot: the temperature sensors, then the machine-wide ones, then the fans.
pub fn get_all_sensors(
    temperatures: Vec<SystemSensor>,
    system: Vec<SystemSensor>,
    fans: Vec<SystemSensor>,
) -> (r: Vec<SystemSensor>)
    ensures
        r@ == temperatures@ + system@ + fans@,
{
    let mut r = temperatures;
    let mut system = system;
    let mut fans = fans;
    r.append(&mut system);
    r.append(&mut fans);
    r
}

/// The largest number of decimals a reading carries.
pub const MAX_DECIMALS: u32 = 18;

/// A sensor value held exactly, as `units / 10^decimals`.
#[derive(Debug, Clone, Copy, PartialEq, Eq, Structural)]
pub struct Reading {
    pub units: i64,
    pub decimals: u32,
}

pub open spec fn pow10(n: nat) -> nat
    decreases n,
{
    if n == 0 {
        1
    } else {
        10 * pow10((n - 1) as nat)
    }
}

pub open spec fn digit_char(d: int) -> char {
    if d == 0 {
        '0'
    } else if d == 1 {
        '1'
    } else if d == 2 {
        '2'
    } else if d == 3 {
        '3'
    } else if d == 4 {
        '4'
    } else if d == 5 {
        '5'
    } else if d == 6 {
        '6'
    } else if d == 7 {
        '7'
    } else if d == 8 {
        '8'
    } else {
        '9'
    }
}

/// Decimal digits of `n`, without leading zeros (`"0"` for zero).
pub open spec fn digits_of(n: nat) -> Seq<char>
    decreases n,
{
    if n < 10 {
        seq![digit_char(n as int)]
    } else {
        digits_of(n / 10).push(digit_char((n % 10) as int))
    }
}

/// The last `width` decimal digits of `n`, zero-padded on the left.
pub open spec fn padded_digits(n: nat, width: nat) -> Seq<char>
    decreases width,
{
    if width == 0 {
        Seq::empty()
    } else {
        padded_digits(n / 10, (width - 1) as nat).push(digit_char((n % 10) as int))
    }
}

pub open spec fn magnitude(x: int) -> nat {
    if x < 0 {
        (-x) as nat
    } else {
        x as nat
    }
}

/// `units / 10^decimals` with trailing zero decimals dropped.
pub open spec fn normal_form(units: int, decimals: nat) -> (int, nat)
    decreases decimals,
{
    if decimals > 0 && units % 10 == 0 {
        normal_form(units / 10, (decimals - 1) as nat)
    } else {
        (units, decimals)
    }
}

/// Fixed-point text with exactly `decimals` fraction digits, at least one.
pub open spec fn fixed_text(units: int, decimals: nat) -> Seq<char> {
    let m = magnitude(units);
    let sign = if units < 0 {
        seq!['-']
    } else {
        Seq::empty()
    };
    let fraction = if decimals == 0 {
        seq!['0']
    } else {
        padded_digits(m % pow10(decimals), decimals)
    };
    sign + digits_of(m / pow10(decimals)) + seq!['.'] + fraction
}

/// JSON number text of a reading: its shortest fixed-point form, keeping one
/// fraction digit for whole values (`42.5`, `8.0`, `-3.25`).
pub open spec fn reading_text(r: Reading) -> Seq<char> {
    let (u, d) = normal_form(r.units as int, r.decimals as nat);
    fixed_text(u, d)
}

fn digit(d: u64) -> (c: char)
    requires
        d < 10,
    ensures
        c == digit_char(d as int),
{
    if d == 0 {
        '0'
    } else if d == 1 {
        '1'
    } else if d == 2 {
        '2'
    } else if d == 3 {
        '3'
    } else if d == 4 {
        '4'
    } else if d == 5 {
        '5'
    } else if d == 6 {
        '6'
    } else if d == 7 {
        '7'
    } else if d == 8 {
        '8'
    } else {
        '9'
    }
}

fn push_digits(out: &mut String, n: u64)
    ensures
        final(out)@ == old(out)@ + digits_of(n as nat),
    decreases n,
{
    if n >= 10 {
        push_digits(out, n / 10);
    }
    push_char(out, digit(n % 10));
}

fn push_padded(out: &mut String, n: u64, width: u32)
    ensures
        final(out)@ == old(out)@ + padded_digits(n as nat, width as nat),
    decreases width,
{
    if width > 0 {
        push_padded(out, n / 10, width - 1);
        push_char(out, digit(n % 10));
    }
}

proof fn lemma_pow10_positive(n: nat)
    ensures
        pow10(n) >= 1,
    decreases n,
{
    if n > 0 {
        lemma_pow10_positive((n - 1) as nat);
    }
}

proof fn lemma_normal_form_bounds(units: int, decimals: nat)
    ensures
        normal_form(units, decimals).1 <= decimals,
        magnitude(normal_form(units, decimals).0) <= magnitude(units),
    decreases decimals,
{
    if decimals > 0 && units % 10 == 0 {
        assert(magnitude(units / 10) <= magnitude(units));
        lemma_normal_form_bounds(units / 10, (decimals - 1) as nat);
    }
}

impl Reading {
    /// Whether the reading is within the supported precision.
    pub open spec fn wf(self) -> bool {
        self.decimals <= MAX_DECIMALS
    }

    /// The reading with trailing zero decimals dropped.
    pub fn normalized(&self) -> (r: Reading)
        ensures
            (r.units as int, r.decimals as nat) == normal_form(self.units as int, self.decimals as nat),
    {
        let mut units = self.units;
        let mut decimals = self.decimals;
        while decimals > 0 && units % 10 == 0
            invariant
                normal_form(units as int, decimals as nat) == normal_form(
                    self.units as int,
                    self.decimals as nat,
                ),
            decreases decimals,
        {
            units = units / 10;
            decimals = decimals - 1;
        }
        Reading { units, decimals }
    }

    /// The JSON number text of the reading.
    pub fn to_json_number(&self) -> (s: String)
        requires
            self.wf(),
        ensures
            s@ == reading_text(*self),
    {
        let n = self.normalized();
        proof {
            lemma_normal_form_bounds(self.units as int, self.decimals as nat);
        }
        let m: u64 = if n.units < 0 {
            (0i128 - n.units as i128) as u64
        } else {
            n.units as u64
        };
        let mut p: u64 = 1;
        let mut k: u32 = 0;
        while k < n.decimals
            invariant
                k <= n.decimals <= MAX_DECIMALS,
                p == pow10(k as nat),
            decreases n.decimals - k,
        {
            assert(p * 10 <= 1_000_000_000_000_000_000u64) by {
                lemma_pow10_le(k as nat);
            }
            p = p * 10;
            k = k + 1;
        }
        proof {
            lemma_pow10_positive(n.decimals as nat);
        }
        let mut out = String::new();
        if n.units < 0 {
            push_char(&mut out, '-');
        }
        push_digits(&mut out, m / p);
        push_char(&mut out, '.');
        if n.decimals == 0 {
            push_char(&mut out, '0');
        } else {
            push_padded(&mut out, m % p, n.decimals);
        }
        assert(m == magnitude(n.units as int));
        assert(out@ =~= fixed_text(n.units as int, n.decimals as nat));
        out
    }
}

proof fn lemma_pow10_le(k: nat)
    requires
        k < MAX_DECIMALS,
    ensures
        pow10(k) * 10 <= 1_000_000_000_000_000_000,
{
    lemma_pow10_monotonic(k + 1, MAX_DECIMALS as nat);
    reveal_with_fuel(pow10, 19);
}

proof fn lemma_pow10_monotonic(a: nat, b: nat)
    requires
        a <= b,
    ensures
        pow10(a) <= pow10(b),
    decreases b,
{
    if a < b {
        lemma_pow10_monotonic(a, (b - 1) as nat);
    }
}

/// The reading a decimal number denotes: an optional sign, then digits with at
/// most one decimal point and at least one digit, with surrounding whitespace
/// allowed. `None` for anything else (exponents, `inf`, `NaN` included), for more
/// than the supported number of decimals, and for values outside 64 bits.
pub open spec fn parsed_reading(s: Seq<char>) -> Option<Reading> {
    let t = trimmed(s);
    let signed = t.len() > 0 && (t[0] == '-' || t[0] == '+');
    let negative = t.len() > 0 && t[0] == '-';
    let b = if signed {
        t.skip(1)
    } else {
        t
    };
    let d = without_point(b);
    let f = fraction_len(b);
    let v = if negative {
        -digits_value(d)
    } else {
        digits_value(d)
    };
    if !all_digits(d) || f > MAX_DECIMALS || !(i64::MIN <= v <= i64::MAX) {
        None
    } else {
        Some(Reading { units: v as i64, decimals: f as u32 })
    }
}

/// The reading a value file holds.
pub fn parse_reading(s: &str) -> (r: Option<Reading>)
    ensures
        r == parsed_reading(s@),
        r matches Some(x) ==> x.wf(),
{
    let t = trim(s);
    let v = chars_of(t.as_str());
    let signed = v.len() > 0 && (v[0] == '-' || v[0] == '+');
    let negative = v.len() > 0 && v[0] == '-';
    let body = if signed {
        tail_from(&v, 1)
    } else {
        tail_from(&v, 0)
    };
    assert(v@.skip(0) =~= v@);
    let (digits, fraction) = split_point(&body);
    if fraction > MAX_DECIMALS as usize {
        return None;
    }
    assert(digits@.skip(0) =~= digits@);
    let x = match digits_run(&digits, 0) {
        Some(x) => x,
        None => return None,
    };
    let units: i64 = if negative {
        if x == 0x8000_0000_0000_0000 {
            i64::MIN
        } else {
            0 - (x as i64)
        }
    } else if x <= 0x7FFF_FFFF_FFFF_FFFF {
        x as i64
    } else {
        return None;
    };
    Some(Reading { units, decimals: fraction as u32 })
}

} // verus!
