use crate::sensors::{Reading, SensorModel, SystemSensor, SystemSensorType};
use crate::text::{concat2, map_char, swap_char, trim_char, trim_end_of, trim_start_of};
use vstd::arithmetic::power2::{
    lemma2_to64, lemma2_to64_rest, lemma_pow2_pos, lemma_pow2_strictly_increases, lemma_pow2_unfold,
    pow2,
};
use vstd::prelude::*;

verus! {

/// Bytes in a gigabyte as the agent reports it (a binary gigabyte).
pub const BYTES_PER_GB: u64 = 1073741824;

/// Counters of one mounted disk.
#[derive(Debug, Clone)]
pub struct DiskStats {
    pub mount_point: String,
    pub total_space: u64,
    pub available_space: u64,
}

/// Machine-wide counters, read from the operating system.
#[derive(Debug, Clone)]
pub struct SystemStats {
    /// Overall CPU usage in percent, as the bit pattern of an IEEE-754 single.
    pub cpu_usage_bits: u32,
    pub total_memory: u64,
    pub used_memory: u64,
    pub disks: Vec<DiskStats>,
}

/// Ten times the value of the IEEE-754 single with bit pattern `bits`, rounded
/// half away from zero; `None` for an infinity or a NaN. The magnitude is
/// `mant * 2^scale`; for a negative scale, `mant * 10 / 2^-scale` rounded half up
/// is `(mant * 20 + 2^-scale) / 2^(1 - scale)`.
pub open spec fn f32_tenths(bits: u32) -> Option<int> {
    let exp = (bits >> 23u32) & 0xFFu32;
    let frac = bits & 0x7F_FFFFu32;
    let negative = (bits >> 31u32) == 1u32;
    let mant: nat = if exp == 0 {
        frac as nat
    } else {
        (frac + 0x80_0000) as nat
    };
    let scale: int = if exp == 0 {
        -149
    } else {
        exp - 150
    };
    if exp == 0xFF {
        None
    } else {
        let q: int = if scale >= 0 {
            (mant * 10 * pow2(scale as nat)) as int
        } else {
            ((mant * 20 + pow2((-scale) as nat)) / pow2((1 - scale) as nat)) as int
        };
        Some(
            if negative {
                -q
            } else {
                q
            },
        )
    }
}

/// The CPU usage reading: the percentage rounded to tenths; `None` when it is not
/// a finite number or does not fit.
pub open spec fn cpu_reading_of(bits: u32) -> Option<Reading> {
    match f32_tenths(bits) {
        Some(q) => if i64::MIN <= q <= i64::MAX {
            Some(Reading { units: q as i64, decimals: 1 })
        } else {
            None
        },
        None => None,
    }
}

/// `2^n`, for `n` up to 64.
fn pow2_u128(n: u32) -> (r: u128)
    requires
        n <= 64,
    ensures
        r == pow2(n as nat),
        r <= 0x1_0000_0000_0000_0000,
{
    proof {
        lemma2_to64();
        lemma2_to64_rest();
    }
    let mut r: u128 = 1;
    let mut k: u32 = 0;
    while k < n
        invariant
            k <= n <= 64,
            r == pow2(k as nat),
            pow2(64) == 0x1_0000_0000_0000_0000,
        decreases n - k,
    {
        proof {
            lemma_pow2_unfold((k + 1) as nat);
            if k + 1 < 64 {
                lemma_pow2_strictly_increases((k + 1) as nat, 64);
            }
        }
        r = r * 2;
        k = k + 1;
    }
    proof {
        if n < 64 {
            lemma_pow2_strictly_increases(n as nat, 64);
        }
    }
    r
}

/// `mant * 10 * 2^up`, for a mantissa of at most 24 bits.
fn scaled_up(mant: u64, up: u32) -> (r: u128)
    requires
        mant <= 0x100_0000,
        up <= 39,
    ensures
        r == mant * 10 * pow2(up as nat),
{
    let p = pow2_u128(up);
    proof {
        lemma2_to64_rest();
        if up < 39 {
            lemma_pow2_strictly_increases(up as nat, 39);
        }
        assert(mant * 10 * p <= 0x100_0000 * 10 * 0x8000000000) by (nonlinear_arith)
            requires
                mant <= 0x100_0000,
                p <= 0x8000000000,
        ;
    }
    mant as u128 * 10 * p
}

/// `mant * 10 / 2^down`, rounded half up, for a mantissa of at most 24 bits.
fn scaled_down(mant: u64, down: u32) -> (r: u128)
    requires
        mant <= 0x100_0000,
    ensures
        r == (mant * 20 + pow2(down as nat)) / (pow2((down + 1) as nat) as int),
{
    proof {
        lemma_pow2_unfold((down + 1) as nat);
        lemma_pow2_pos(down as nat);
    }
    if down >= 64 {
        proof {
            lemma2_to64();
            lemma2_to64_rest();
            if down > 64 {
                lemma_pow2_strictly_increases(64, down as nat);
            }
            let d: int = pow2(down as nat) as int;
            assert((mant * 20 + d) / (2 * d) == 0int) by (nonlinear_arith)
                requires
                    0 <= mant * 20 < d,
            ;
        }
        0
    } else {
        let d = pow2_u128(down);
        let d2 = pow2_u128(down + 1);
        (mant as u128 * 20 + d) / d2
    }
}

/// Ten times the value of an IEEE-754 single, rounded half away from zero, as
/// `(x as f64 * 10.0).round()` computes it: the product is exact in a double.
pub fn f32_bits_to_tenths(bits: u32) -> (r: Option<i64>)
    ensures
        r == (match f32_tenths(bits) {
            Some(q) => if i64::MIN <= q <= i64::MAX {
                Some(q as i64)
            } else {
                None
            },
            None => None,
        }),
{
    let exp = (bits >> 23u32) & 0xFFu32;
    let frac = bits & 0x7F_FFFFu32;
    let negative = (bits >> 31u32) == 1u32;
    assert(exp <= 0xFF) by (bit_vector)
        requires
            exp == (bits >> 23u32) & 0xFFu32,
    ;
    assert(frac < 0x80_0000) by (bit_vector)
        requires
            frac == bits & 0x7F_FFFFu32,
    ;
    if exp == 0xFF {
        return None;
    }
    let mant: u64 = if exp == 0 {
        frac as u64
    } else {
        frac as u64 + 0x80_0000
    };
    let magnitude: u128 = if exp >= 150 {
        let up: u32 = exp - 150;
        if up > 39 {
            proof {
                lemma2_to64_rest();
                lemma_pow2_strictly_increases(39, up as nat);
                assert(mant * 10 * pow2(up as nat) > 0x8000_0000_0000_0000) by (nonlinear_arith)
                    requires
                        mant >= 0x80_0000,
                        pow2(up as nat) > 0x8000000000,
                ;
            }
            return None;
        }
        scaled_up(mant, up)
    } else {
        let down: u32 = if exp == 0 {
            149
        } else {
            150 - exp
        };
        scaled_down(mant, down)
    };
    if magnitude > 0x8000_0000_0000_0000 {
        None
    } else if magnitude == 0x8000_0000_0000_0000 {
        if negative {
            Some(i64::MIN)
        } else {
            None
        }
    } else if negative {
        Some(0 - magnitude as i64)
    } else {
        Some(magnitude as i64)
    }
}

/// The CPU usage reading for the bit pattern of a single-precision percentage.
pub fn cpu_usage_reading(bits: u32) -> (r: Option<Reading>)
    ensures
        r == cpu_reading_of(bits),
{
    match f32_bits_to_tenths(bits) {
        Some(q) => Some(Reading { units: q, decimals: 1 }),
        None => None,
    }
}

/// `bytes` in gigabytes, rounded half up to hundredths.
pub open spec fn gb_hundredths(bytes: nat) -> int {
    (bytes * 100 + BYTES_PER_GB / 2) / (BYTES_PER_GB as int)
}

/// `used` as a percentage of `total`, rounded half up to tenths; zero for an
/// empty total, and never above a hundred percent.
pub open spec fn percent_tenths(used: nat, total: nat) -> int {
    if total == 0 {
        0
    } else {
        let u = if used > total {
            total
        } else {
            used
        };
        ((u * 2000 + total) / (2 * total)) as int
    }
}

/// `bytes` as a reading in gigabytes with two decimals.
pub fn gigabytes(bytes: u64) -> (r: Reading)
    ensures
        r == (Reading { units: gb_hundredths(bytes as nat) as i64, decimals: 2 }),
        0 <= gb_hundredths(bytes as nat) <= i64::MAX,
{
    let scaled: u128 = bytes as u128 * 100 + (BYTES_PER_GB / 2) as u128;
    let hundredths = scaled / (BYTES_PER_GB as u128);
    assert(hundredths <= 2000000000000) by (nonlinear_arith)
        requires
            hundredths == scaled / 1073741824,
            scaled <= 1900000000000000000000,
    {
    }
    Reading { units: hundredths as i64, decimals: 2 }
}

/// `used` as a percentage of `total`, a reading with one decimal.
pub fn usage_percent(used: u64, total: u64) -> (r: Reading)
    ensures
        r == (Reading { units: percent_tenths(used as nat, total as nat) as i64, decimals: 1 }),
        0 <= percent_tenths(used as nat, total as nat) <= 1000,
{
    if total == 0 {
        return Reading { units: 0, decimals: 1 };
    }
    let u: u64 = if used > total {
        total
    } else {
        used
    };
    let num: u128 = u as u128 * 2000 + total as u128;
    let den: u128 = 2 * total as u128;
    let tenths = num / den;
    assert(tenths <= 1000) by (nonlinear_arith)
        requires
            num == u * 2000 + total,
            den == 2 * total,
            u <= total,
            total > 0,
            tenths == num / den,
    {
        assert(num < 1001 * den);
    }
    Reading { units: tenths as i64, decimals: 1 }
}

/// The name suffix of a mount point: `root` for `/`, else the path with `/` and
/// spaces as `_`, without leading or trailing `_`.
pub open spec fn mount_suffix(mount: Seq<char>) -> Seq<char> {
    if mount == "/"@ {
        "root"@
    } else {
        trim_end_of(trim_start_of(swap_char(swap_char(mount, '/', '_'), ' ', '_'), '_'), '_')
    }
}

fn sensor(name: String, value: Reading, unit: &str, kind: SystemSensorType) -> (r: SystemSensor)
    ensures
        r@ == (SensorModel { name: name@, label: None, value, unit: unit@, kind }),
{
    SystemSensor { name, label: None, value, unit: unit.to_owned(), sensor_type: kind }
}

/// The three sensors of a disk, for the given name suffix.
pub open spec fn disk_models(d: DiskStats, suffix: Seq<char>) -> Seq<SensorModel> {
    let used = if d.available_space > d.total_space {
        0nat
    } else {
        (d.total_space - d.available_space) as nat
    };
    seq![
        SensorModel {
            name: "disk_usage_"@ + suffix,
            label: None,
            value: Reading {
                units: percent_tenths(used, d.total_space as nat) as i64,
                decimals: 1,
            },
            unit: "%"@,
            kind: SystemSensorType::DiskUsage,
        },
        SensorModel {
            name: "disk_used_"@ + suffix,
            label: None,
            value: Reading { units: gb_hundredths(used) as i64, decimals: 2 },
            unit: "GB"@,
            kind: SystemSensorType::DiskUsed,
        },
        SensorModel {
            name: "disk_total_"@ + suffix,
            label: None,
            value: Reading { units: gb_hundredths(d.total_space as nat) as i64, decimals: 2 },
            unit: "GB"@,
            kind: SystemSensorType::DiskTotal,
        },
    ]
}

/// The CPU usage sensor, unless the reading is unusable.
pub open spec fn cpu_models(bits: u32) -> Seq<SensorModel> {
    match cpu_reading_of(bits) {
        Some(v) => seq![
            SensorModel {
                name: "cpu_usage"@,
                label: None,
                value: v,
                unit: "%"@,
                kind: SystemSensorType::CpuUsage,
            },
        ],
        None => Seq::empty(),
    }
}

/// The machine-wide sensors: CPU usage when it could be read, then memory usage,
/// memory used and memory total.
pub open spec fn machine_models(s: SystemStats) -> Seq<SensorModel> {
    cpu_models(s.cpu_usage_bits) + seq![
        SensorModel {
            name: "memory_usage"@,
            label: None,
            value: Reading {
                units: percent_tenths(s.used_memory as nat, s.total_memory as nat) as i64,
                decimals: 1,
            },
            unit: "%"@,
            kind: SystemSensorType::MemoryUsage,
        },
        SensorModel {
            name: "memory_used"@,
            label: None,
            value: Reading { units: gb_hundredths(s.used_memory as nat) as i64, decimals: 2 },
            unit: "GB"@,
            kind: SystemSensorType::MemoryUsed,
        },
        SensorModel {
            name: "memory_total"@,
            label: None,
            value: Reading { units: gb_hundredths(s.total_memory as nat) as i64, decimals: 2 },
            unit: "GB"@,
            kind: SystemSensorType::MemoryTotal,
        },
    ]
}

/// The name suffix of a mount point.
pub fn mount_name_suffix(mount: &str) -> (r: String)
    ensures
        r@ == mount_suffix(mount@),
{
    let root = "/".to_owned();
    if root == mount.to_owned() {
        "root".to_owned()
    } else {
        let a = map_char(mount, '/', '_');
        let b = map_char(a.as_str(), ' ', '_');
        trim_char(b.as_str(), '_')
    }
}

/// The sensors of the machine-wide counters and of each disk, in that order.
pub fn collect_system_stats(stats: &SystemStats) -> (r: Vec<SystemSensor>)
    ensures
        r.len() == machine_models(*stats).len() + 3 * stats.disks.len(),
        forall|i: int|
            0 <= i < machine_models(*stats).len() ==> #[trigger] r@[i]@ == machine_models(
                *stats,
            )[i],
        forall|d: int, j: int|
            0 <= d < stats.disks.len() && 0 <= j < 3 ==> #[trigger] r@[machine_models(
                *stats,
            ).len() + 3 * d + j]@ == disk_models(
                stats.disks@[d],
                mount_suffix(stats.disks@[d].mount_point@),
            )[j],
        forall|i: int| 0 <= i < r.len() ==> #[trigger] r@[i].wf(),
{
    let mut r: Vec<SystemSensor> = Vec::new();
    match cpu_usage_reading(stats.cpu_usage_bits) {
        Some(v) => r.push(sensor("cpu_usage".to_owned(), v, "%", SystemSensorType::CpuUsage)),
        None => {},
    }
    r.push(
        sensor(
            "memory_usage".to_owned(),
            usage_percent(stats.used_memory, stats.total_memory),
            "%",
            SystemSensorType::MemoryUsage,
        ),
    );
    r.push(
        sensor(
            "memory_used".to_owned(),
            gigabytes(stats.used_memory),
            "GB",
            SystemSensorType::MemoryUsed,
        ),
    );
    r.push(
        sensor(
            "memory_total".to_owned(),
            gigabytes(stats.total_memory),
            "GB",
            SystemSensorType::MemoryTotal,
        ),
    );
    let ghost base = machine_models(*stats).len() as int;
    assert(r@.map_values(|x: SystemSensor| x@) =~= machine_models(*stats));
    assert forall|i: int| 0 <= i < base implies #[trigger] r@[i]@ == machine_models(*stats)[i] by {
        assert(r@.map_values(|x: SystemSensor| x@)[i] == r@[i]@);
    }
    let mut k: usize = 0;
    while k < stats.disks.len()
        invariant
            base == machine_models(*stats).len(),
            k <= stats.disks.len(),
            r.len() == base + 3 * k,
            forall|i: int| 0 <= i < base ==> #[trigger] r@[i]@ == machine_models(*stats)[i],
            forall|d: int, j: int|
                0 <= d < k && 0 <= j < 3 ==> #[trigger] r@[base + 3 * d + j]@ == disk_models(
                    stats.disks@[d],
                    mount_suffix(stats.disks@[d].mount_point@),
                )[j],
            forall|i: int| 0 <= i < r.len() ==> #[trigger] r@[i].wf(),
        decreases stats.disks.len() - k,
    {
        let disk = &stats.disks[k];
        let suffix = mount_name_suffix(disk.mount_point.as_str());
        let used = if disk.available_space > disk.total_space {
            0
        } else {
            disk.total_space - disk.available_space
        };
        let ghost models = disk_models(*disk, suffix@);
        r.push(
            sensor(
                concat2("disk_usage_", suffix.as_str()),
                usage_percent(used, disk.total_space),
                "%",
                SystemSensorType::DiskUsage,
            ),
        );
        r.push(
            sensor(
                concat2("disk_used_", suffix.as_str()),
                gigabytes(used),
                "GB",
                SystemSensorType::DiskUsed,
            ),
        );
        r.push(
            sensor(
                concat2("disk_total_", suffix.as_str()),
                gigabytes(disk.total_space),
                "GB",
                SystemSensorType::DiskTotal,
            ),
        );
        assert forall|d: int, j: int| 0 <= d < k + 1 && 0 <= j < 3 implies #[trigger] r@[base + 3
            * d + j]@ == disk_models(stats.disks@[d], mount_suffix(stats.disks@[d].mount_point@))[j] by {
            if d == k {
                assert(base + 3 * d + j == base + 3 * k + j);
            } else {
                assert(base + 3 * d + j < base + 3 * k);
            }
        }
        k = k + 1;
    }
    r
}

} // verus!
