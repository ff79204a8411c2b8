//! Rate and percentage computations: converts raw readings (byte counters,
//! used/total pairs, per-core loads) into the derived values a sample holds.
//!
//! Network throughput applies a fixed formula to the cumulative
//! counters as read, truncating in this order: multiply the byte total by 8,
//! divide by the sampling interval, then divide by 1024. The byte total is
//! saturated at `u64::MAX` first; real counter sums stay far below that.

use vstd::prelude::*;
use vstd::arithmetic::div_mod::{lemma_div_is_ordered, lemma_div_nonincreasing};
use crate::reading::{DiskSpace, IfaceCounters, SensorReading};

verus! {

/// used / total as tenths of a percent, defined as 0 when `total` is 0 so
/// that a missing or empty resource never yields an undefined value.
pub open spec fn pct_tenths(used: int, total: int) -> int {
    if total == 0 {
        0
    } else {
        used * 1000 / total
    }
}

/// Clamp to the largest value a `u64` result can carry.
pub open spec fn sat64(x: int) -> int {
    if x > u64::MAX {
        u64::MAX as int
    } else {
        x
    }
}

/// used / total in tenths of a percent; 0 when `total` is 0, and saturating
/// at `u64::MAX` (unreachable when `used <= total`, as for real meters).
pub fn compute_pct_tenths(used: u64, total: u64) -> (r: u64)
    ensures
        r == sat64(pct_tenths(used as int, total as int)),
{
    if total == 0 {
        0
    } else {
        let wide: u128 = (used as u128) * 1000 / (total as u128);
        if wide > u64::MAX as u128 {
            u64::MAX
        } else {
            wide as u64
        }
    }
}

/// Share of memory in use, in tenths of a percent.
pub fn get_ram_use(used_mem: u64, total_mem: u64) -> (r: u64)
    ensures
        r == sat64(pct_tenths(used_mem as int, total_mem as int)),
{
    compute_pct_tenths(used_mem, total_mem)
}

/// Share of swap in use, in tenths of a percent.
pub fn get_swp_use(used_swap: u64, total_swap: u64) -> (r: u64)
    ensures
        r == sat64(pct_tenths(used_swap as int, total_swap as int)),
{
    compute_pct_tenths(used_swap, total_swap)
}

/// Sum of the per-core loads.
pub open spec fn sum_loads(s: Seq<u64>) -> int
    decreases s.len(),
{
    if s.len() == 0 {
        0
    } else {
        sum_loads(s.drop_last()) + s.last()
    }
}

/// Mean core load in tenths of a percent; 0 when no cores were reported, so
/// an empty reading never divides by zero.
pub open spec fn cpu_avg_tenths(s: Seq<u64>) -> int {
    if s.len() == 0 {
        0
    } else {
        sum_loads(s) / s.len() as int
    }
}

/// The average core load across `cpu_loads` (each in tenths of a percent),
/// truncated; 0 when the list is empty.
pub fn get_cpu_use(cpu_loads: &Vec<u64>) -> (r: u64)
    ensures
        r == cpu_avg_tenths(cpu_loads@),
{
    if cpu_loads.len() == 0 {
        return 0;
    }
    let n = cpu_loads.len();
    let mut acc: u128 = 0;
    let mut i: usize = 0;
    while i < n
        invariant
            i <= n,
            n == cpu_loads@.len(),
            acc == sum_loads(cpu_loads@.subrange(0, i as int)),
            acc <= i * u64::MAX,
        decreases n - i,
    {
        proof {
            assert(cpu_loads@.subrange(0, i + 1).drop_last() =~= cpu_loads@.subrange(0, i as int));
            assert(cpu_loads@.subrange(0, i + 1).last() == cpu_loads@[i as int]);
        }
        acc = acc + (cpu_loads[i] as u128);
        i = i + 1;
    }
    proof {
        assert(cpu_loads@.subrange(0, n as int) =~= cpu_loads@);
        assert(acc / (n as u128) <= u64::MAX) by {
            lemma_div_is_ordered(acc as int, n * u64::MAX, n as int);
            assert((n * u64::MAX) / (n as int) == u64::MAX) by {
                vstd::arithmetic::div_mod::lemma_div_multiples_vanish(u64::MAX as int, n as int);
            }
        }
    }
    (acc / (n as u128)) as u64
}

/// Used share of one disk in tenths of a percent: 0 when the reported total
/// is 0 or the reported available space exceeds it (a degenerate reading).
pub open spec fn disk_used_pct_tenths(d: DiskSpace) -> int {
    if d.total_space == 0 || d.available_space > d.total_space {
        0
    } else {
        (d.total_space - d.available_space) * 1000 / (d.total_space as int)
    }
}

/// Used share of the last disk in `disks` mounted at `mount`; 0 when none
/// matches.
pub open spec fn fs_used_pct(disks: Seq<DiskSpace>, mount: Seq<char>) -> int
    decreases disks.len(),
{
    if disks.len() == 0 {
        0
    } else if disks.last().mount_point@ == mount {
        disk_used_pct_tenths(disks.last())
    } else {
        fs_used_pct(disks.drop_last(), mount)
    }
}

proof fn lemma_disk_used_pct_range(d: DiskSpace)
    ensures
        0 <= disk_used_pct_tenths(d) <= 1000,
{
    if d.total_space != 0 && d.available_space <= d.total_space {
        let used = d.total_space - d.available_space;
        assert(used * 1000 <= d.total_space * 1000) by (nonlinear_arith)
            requires
                used <= d.total_space,
        ;
        lemma_div_is_ordered(used * 1000, d.total_space * 1000, d.total_space as int);
        vstd::arithmetic::div_mod::lemma_div_multiples_vanish(1000, d.total_space as int);
        vstd::arithmetic::div_mod::lemma_div_pos_is_pos(used * 1000, d.total_space as int);
    }
}

/// Used share, in tenths of a percent, of the filesystem mounted at
/// `mount_fs`; when several readings carry that mount point the last one
/// wins, and a mount point no reading carries yields 0.
pub fn get_fs_use(disks: &Vec<DiskSpace>, mount_fs: &String) -> (r: u64)
    ensures
        r == fs_used_pct(disks@, mount_fs@),
{
    let mut ret_value: u64 = 0;
    let n = disks.len();
    let mut i: usize = 0;
    while i < n
        invariant
            i <= n,
            n == disks@.len(),
            ret_value == fs_used_pct(disks@.subrange(0, i as int), mount_fs@),
        decreases n - i,
    {
        proof {
            assert(disks@.subrange(0, i + 1).drop_last() =~= disks@.subrange(0, i as int));
            assert(disks@.subrange(0, i + 1).last() == disks@[i as int]);
        }
        let disk = &disks[i];
        if disk.mount_point == *mount_fs {
            if disk.total_space == 0 || disk.available_space > disk.total_space {
                ret_value = 0;
            } else {
                let used: u64 = disk.total_space - disk.available_space;
                let wide: u128 = (used as u128) * 1000 / (disk.total_space as u128);
                proof {
                    lemma_disk_used_pct_range(disks@[i as int]);
                }
                ret_value = wide as u64;
            }
        }
        i = i + 1;
    }
    proof {
        assert(disks@.subrange(0, n as int) =~= disks@);
    }
    ret_value
}

/// Used share of the root filesystem, in tenths of a percent.
pub fn get_root_use(disks: &Vec<DiskSpace>) -> (r: u64)
    ensures
        r == fs_used_pct(disks@, "/"@),
{
    let root = String::from_str("/");
    get_fs_use(disks, &root)
}

/// Total bytes received across all interfaces.
pub open spec fn sum_received(s: Seq<IfaceCounters>) -> int
    decreases s.len(),
{
    if s.len() == 0 {
        0
    } else {
        sum_received(s.drop_last()) + s.last().received
    }
}

/// Total bytes transmitted across all interfaces.
pub open spec fn sum_transmitted(s: Seq<IfaceCounters>) -> int
    decreases s.len(),
{
    if s.len() == 0 {
        0
    } else {
        sum_transmitted(s.drop_last()) + s.last().transmitted
    }
}

/// Total bytes received on the interfaces named `name`.
pub open spec fn sum_received_on(s: Seq<IfaceCounters>, name: Seq<char>) -> int
    decreases s.len(),
{
    if s.len() == 0 {
        0
    } else {
        sum_received_on(s.drop_last(), name) + if s.last().name@ == name {
            s.last().received as int
        } else {
            0
        }
    }
}

/// Total bytes transmitted on the interfaces named `name`.
pub open spec fn sum_transmitted_on(s: Seq<IfaceCounters>, name: Seq<char>) -> int
    decreases s.len(),
{
    if s.len() == 0 {
        0
    } else {
        sum_transmitted_on(s.drop_last(), name) + if s.last().name@ == name {
            s.last().transmitted as int
        } else {
            0
        }
    }
}

/// The throughput formula: bytes times 8, divided by the interval,
/// then by 1024, truncating at each step.
pub open spec fn rate_kbps(total_bytes: int, secs: int) -> int {
    total_bytes * 8 / secs / 1024
}

fn rate_from_total(total: u64, polling_secs: u64) -> (r: u64)
    requires
        polling_secs > 0,
    ensures
        r == rate_kbps(total as int, polling_secs as int),
{
    let bits: u128 = (total as u128) * 8;
    let per_sec: u128 = bits / (polling_secs as u128);
    let r: u128 = per_sec / 1024;
    proof {
        lemma_div_nonincreasing(bits as int, polling_secs as int);
        lemma_div_is_ordered(per_sec as int, u64::MAX * 8, 1024);
    }
    r as u64
}

/// Received-byte throughput summed over every interface, by the rate
/// formula; the byte sum saturates at `u64::MAX`.
pub fn get_tot_ntwk_dwn(networks: &Vec<IfaceCounters>, polling_secs: u64) -> (r: u64)
    requires
        polling_secs > 0,
    ensures
        r == rate_kbps(sat64(sum_received(networks@)), polling_secs as int),
{
    let n = networks.len();
    let mut acc: u128 = 0;
    let mut i: usize = 0;
    while i < n
        invariant
            i <= n,
            n == networks@.len(),
            acc == sum_received(networks@.subrange(0, i as int)),
            acc <= i * u64::MAX,
        decreases n - i,
    {
        proof {
            assert(networks@.subrange(0, i + 1).drop_last() =~= networks@.subrange(0, i as int));
            assert(networks@.subrange(0, i + 1).last() == networks@[i as int]);
        }
        acc = acc + (networks[i].received as u128);
        i = i + 1;
    }
    proof {
        assert(networks@.subrange(0, n as int) =~= networks@);
    }
    let total: u64 = if acc > u64::MAX as u128 {
        u64::MAX
    } else {
        acc as u64
    };
    rate_from_total(total, polling_secs)
}

/// Transmitted-byte throughput summed over every interface, by the rate
/// formula; the byte sum saturates at `u64::MAX`.
pub fn get_tot_ntwk_up(networks: &Vec<IfaceCounters>, polling_secs: u64) -> (r: u64)
    requires
        polling_secs > 0,
    ensures
        r == rate_kbps(sat64(sum_transmitted(networks@)), polling_secs as int),
{
    let n = networks.len();
    let mut acc: u128 = 0;
    let mut i: usize = 0;
    while i < n
        invariant
            i <= n,
            n == networks@.len(),
            acc == sum_transmitted(networks@.subrange(0, i as int)),
            acc <= i * u64::MAX,
        decreases n - i,
    {
        proof {
            assert(networks@.subrange(0, i + 1).drop_last() =~= networks@.subrange(0, i as int));
            assert(networks@.subrange(0, i + 1).last() == networks@[i as int]);
        }
        acc = acc + (networks[i].transmitted as u128);
        i = i + 1;
    }
    proof {
        assert(networks@.subrange(0, n as int) =~= networks@);
    }
    let total: u64 = if acc > u64::MAX as u128 {
        u64::MAX
    } else {
        acc as u64
    };
    rate_from_total(total, polling_secs)
}

/// Received-byte throughput restricted to the interface named `iface`, by
/// the rate formula; the byte sum saturates at `u64::MAX`.
pub fn get_iface_ntwk_dwn(networks: &Vec<IfaceCounters>, polling_secs: u64, iface: &String) -> (r:
    u64)
    requires
        polling_secs > 0,
    ensures
        r == rate_kbps(sat64(sum_received_on(networks@, iface@)), polling_secs as int),
{
    let n = networks.len();
    let mut acc: u128 = 0;
    let mut i: usize = 0;
    while i < n
        invariant
            i <= n,
            n == networks@.len(),
            acc == sum_received_on(networks@.subrange(0, i as int), iface@),
            acc <= i * u64::MAX,
        decreases n - i,
    {
        proof {
            assert(networks@.subrange(0, i + 1).drop_last() =~= networks@.subrange(0, i as int));
            assert(networks@.subrange(0, i + 1).last() == networks@[i as int]);
        }
        if networks[i].name == *iface {
            acc = acc + (networks[i].received as u128);
        }
        i = i + 1;
    }
    proof {
        assert(networks@.subrange(0, n as int) =~= networks@);
    }
    let total: u64 = if acc > u64::MAX as u128 {
        u64::MAX
    } else {
        acc as u64
    };
    rate_from_total(total, polling_secs)
}

/// Transmitted-byte throughput restricted to the interface named `iface`, by
/// the rate formula; the byte sum saturates at `u64::MAX`.
pub fn get_iface_ntwk_up(networks: &Vec<IfaceCounters>, polling_secs: u64, iface: &String) -> (r:
    u64)
    requires
        polling_secs > 0,
    ensures
        r == rate_kbps(sat64(sum_transmitted_on(networks@, iface@)), polling_secs as int),
{
    let n = networks.len();
    let mut acc: u128 = 0;
    let mut i: usize = 0;
    while i < n
        invariant
            i <= n,
            n == networks@.len(),
            acc == sum_transmitted_on(networks@.subrange(0, i as int), iface@),
            acc <= i * u64::MAX,
        decreases n - i,
    {
        proof {
            assert(networks@.subrange(0, i + 1).drop_last() =~= networks@.subrange(0, i as int));
            assert(networks@.subrange(0, i + 1).last() == networks@[i as int]);
        }
        if networks[i].name == *iface {
            acc = acc + (networks[i].transmitted as u128);
        }
        i = i + 1;
    }
    proof {
        assert(networks@.subrange(0, n as int) =~= networks@);
    }
    let total: u64 = if acc > u64::MAX as u128 {
        u64::MAX
    } else {
        acc as u64
    };
    rate_from_total(total, polling_secs)
}

/// Determinism of the throughput computation: two calls over the same
/// counters and the same interval can only return the same rate — no hidden
/// mutable state influences the result.
pub proof fn lemma_net_rate_deterministic(
    networks: &Vec<IfaceCounters>,
    polling_secs: u64,
    r1: u64,
    r2: u64,
)
    requires
        call_ensures(get_tot_ntwk_dwn, (networks, polling_secs), r1),
        call_ensures(get_tot_ntwk_dwn, (networks, polling_secs), r2),
    ensures
        r1 == r2,
{
}

/// The temperature of the last sensor in `s` labelled `label`; -1 when none
/// matches.
pub open spec fn temp_of(s: Seq<SensorReading>, label: Seq<char>) -> int
    decreases s.len(),
{
    if s.len() == 0 {
        -1
    } else if s.last().label@ == label {
        s.last().temperature_c as int
    } else {
        temp_of(s.drop_last(), label)
    }
}

/// The temperature of the sensor labelled `temp_item`, in whole degrees;
/// -1 when no sensor carries that label. When several do, the last wins.
pub fn get_temp(components: &Vec<SensorReading>, temp_item: &String) -> (r: i64)
    ensures
        r == temp_of(components@, temp_item@),
{
    let mut wanted_temp: i64 = -1;
    let n = components.len();
    let mut i: usize = 0;
    while i < n
        invariant
            i <= n,
            n == components@.len(),
            wanted_temp == temp_of(components@.subrange(0, i as int), temp_item@),
        decreases n - i,
    {
        proof {
            assert(components@.subrange(0, i + 1).drop_last() =~= components@.subrange(
                0,
                i as int,
            ));
            assert(components@.subrange(0, i + 1).last() == components@[i as int]);
        }
        if components[i].label == *temp_item {
            wanted_temp = components[i].temperature_c;
        }
        i = i + 1;
    }
    proof {
        assert(components@.subrange(0, n as int) =~= components@);
    }
    wanted_temp
}

} // verus!
