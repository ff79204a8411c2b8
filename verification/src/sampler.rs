//! The sampling engine: from one cycle's raw reading to one sample.
//!
//! The caller owns the timed loop; each cycle it refreshes its probes,
//! builds a `MetricsReading`, and hands it to `Sampler::step`, which derives
//! the sample, applies the throttled-refresh policy for the expensive
//! filesystem usage (stale-carry in between), and advances the cycle count.
//! The caller then appends the sample to the history and sleeps for the
//! interval.

use vstd::prelude::*;
use crate::rates::{
    cpu_avg_tenths, fs_used_pct, get_cpu_use, get_fs_use, get_iface_ntwk_dwn, get_iface_ntwk_up,
    get_ram_use, get_root_use, get_swp_use, get_temp, get_tot_ntwk_dwn, get_tot_ntwk_up,
    pct_tenths, rate_kbps, sat64, sum_received, sum_received_on, sum_transmitted,
    sum_transmitted_on, temp_of,
};
use crate::reading::MetricsReading;
use crate::stats::{BasicStats, FileSystemStats, FileSystemStatsView, KubernetesStatsView, Stats, StatsView};
use crate::throttle::{is_due, refresh_cycles, ThrottledRefresh};

verus! {

/// The always-collected half of a sample, as derived from one reading:
/// average CPU load, memory, swap and root-filesystem shares, network
/// throughput (aggregated over all interfaces when the selector is
/// "total", else restricted to the named one), and the temperature of the
/// configured sensor (0 when no sensor is configured, -1 when the
/// configured one is missing).
pub open spec fn basic_of(
    rd: MetricsReading,
    iface: Seq<char>,
    temp_item: Seq<char>,
    polling_secs: int,
) -> BasicStats {
    BasicStats {
        cpu: cpu_avg_tenths(rd.cpu_loads@) as u64,
        ram: sat64(pct_tenths(rd.used_memory as int, rd.total_memory as int)) as u64,
        root_fs: fs_used_pct(rd.disks@, "/"@) as u64,
        swap_fs: sat64(pct_tenths(rd.used_swap as int, rd.total_swap as int)) as u64,
        net_down_kbps: if iface == "total"@ {
            rate_kbps(sat64(sum_received(rd.networks@)), polling_secs) as u64
        } else {
            rate_kbps(sat64(sum_received_on(rd.networks@, iface)), polling_secs) as u64
        },
        net_up_kbps: if iface == "total"@ {
            rate_kbps(sat64(sum_transmitted(rd.networks@)), polling_secs) as u64
        } else {
            rate_kbps(sat64(sum_transmitted_on(rd.networks@, iface)), polling_secs) as u64
        },
        temperature: if temp_item.len() == 0 {
            0
        } else {
            temp_of(rd.components@, temp_item) as i64
        },
    }
}

/// The filesystem-usage group recomputed from scratch: one entry per
/// configured (label, mount point) target, against the disks of this
/// reading.
pub open spec fn computed_fs(
    targets: Seq<[String; 2]>,
    disks: Seq<crate::reading::DiskSpace>,
) -> Seq<FileSystemStatsView> {
    Seq::new(
        targets.len(),
        |i: int|
            FileSystemStatsView {
                fs_name: targets[i]@[0]@,
                fs_mount_point: targets[i]@[1]@,
                fs_used_pct_tenths: fs_used_pct(disks, targets[i]@[1]@) as u64,
            },
    )
}

/// The filesystem-usage group of one cycle: empty when no target is
/// configured, freshly computed on due cycles, otherwise the previous
/// cycle's values carried forward unchanged (stale-carry).
pub open spec fn fs_group_of(
    targets: Seq<[String; 2]>,
    disks: Seq<crate::reading::DiskSpace>,
    due: bool,
    last: Seq<FileSystemStatsView>,
) -> Seq<FileSystemStatsView> {
    if targets.len() == 0 {
        Seq::empty()
    } else if due {
        computed_fs(targets, disks)
    } else {
        last
    }
}

/// The sampling engine's state: the immutable per-process configuration,
/// the running cycle count, and the last computed filesystem usage for
/// stale-carry.
pub struct Sampler {
    polling_secs: u64,
    iface: String,
    temp_item: String,
    file_systems: Vec<[String; 2]>,
    fs_refresh: ThrottledRefresh,
    kube_refresh: ThrottledRefresh,
    loop_count: u64,
    last_fs_usage: Vec<FileSystemStats>,
}

impl Sampler {
    /// The sampling interval in seconds.
    pub closed spec fn polling_secs_spec(&self) -> int {
        self.polling_secs as int
    }

    /// The network interface selector ("total" aggregates all interfaces).
    pub closed spec fn iface_spec(&self) -> Seq<char> {
        self.iface@
    }

    /// The configured temperature sensor label (empty disables sampling).
    pub closed spec fn temp_item_spec(&self) -> Seq<char> {
        self.temp_item@
    }

    /// The configured (label, mount point) filesystem targets.
    pub closed spec fn targets_spec(&self) -> Seq<[String; 2]> {
        self.file_systems@
    }

    /// The filesystem-usage refresh period, in cycles.
    pub closed spec fn fs_every_spec(&self) -> int {
        self.fs_refresh.every_spec()
    }

    /// The cluster-polling refresh period, in cycles.
    pub closed spec fn kube_every_spec(&self) -> int {
        self.kube_refresh.every_spec()
    }

    /// How many cycles have completed.
    pub closed spec fn loop_count_spec(&self) -> int {
        self.loop_count as int
    }

    /// The filesystem usage carried forward from the last due cycle.
    pub closed spec fn last_fs_spec(&self) -> Seq<FileSystemStatsView> {
        self.last_fs_usage.deep_view()
    }

    pub open spec fn wf(&self) -> bool {
        self.polling_secs_spec() > 0 && self.fs_every_spec() > 0 && self.kube_every_spec() > 0
    }

    /// A fresh engine at cycle 0, with the refresh periods derived from the
    /// configured intervals.
    pub fn new(
        polling_secs: u64,
        file_systems_polling_secs: u64,
        kubernetes_polling_secs: u64,
        iface: String,
        temp_item: String,
        file_systems: Vec<[String; 2]>,
    ) -> (r: Self)
        requires
            polling_secs > 0,
        ensures
            r.wf(),
            r.polling_secs_spec() == polling_secs,
            r.iface_spec() == iface@,
            r.temp_item_spec() == temp_item@,
            r.targets_spec() == file_systems@,
            r.fs_every_spec() == refresh_cycles(
                polling_secs as int,
                file_systems_polling_secs as int,
            ),
            r.kube_every_spec() == refresh_cycles(
                polling_secs as int,
                kubernetes_polling_secs as int,
            ),
            r.loop_count_spec() == 0,
            r.last_fs_spec() == Seq::<FileSystemStatsView>::empty(),
    {
        let fs_refresh = ThrottledRefresh::new(polling_secs, file_systems_polling_secs);
        let kube_refresh = ThrottledRefresh::new(polling_secs, kubernetes_polling_secs);
        let r = Sampler {
            polling_secs,
            iface,
            temp_item,
            file_systems,
            fs_refresh,
            kube_refresh,
            loop_count: 0,
            last_fs_usage: Vec::new(),
        };
        proof {
            assert(r.last_fs_spec() =~= Seq::<FileSystemStatsView>::empty());
        }
        r
    }

    /// The filesystem-usage refresh period, in cycles.
    pub fn fs_refresh_every(&self) -> (r: u64)
        ensures
            r == self.fs_every_spec(),
    {
        self.fs_refresh.every()
    }

    /// The cluster-polling refresh period, in cycles.
    pub fn kube_refresh_every(&self) -> (r: u64)
        ensures
            r == self.kube_every_spec(),
    {
        self.kube_refresh.every()
    }

    /// How many cycles have completed.
    pub fn loop_count(&self) -> (r: u64)
        ensures
            r == self.loop_count_spec(),
    {
        self.loop_count
    }

    /// One sampling cycle: derives the sample for `reading`, refreshing the
    /// filesystem group only when due and carrying it forward otherwise,
    /// then advances the cycle count. Cluster stats are not collected; that
    /// group of the sample stays empty.
    pub fn step(&mut self, reading: &MetricsReading) -> (sample: Stats)
        requires
            old(self).wf(),
            old(self).loop_count_spec() < u64::MAX,
        ensures
            final(self).wf(),
            final(self).polling_secs_spec() == old(self).polling_secs_spec(),
            final(self).iface_spec() == old(self).iface_spec(),
            final(self).temp_item_spec() == old(self).temp_item_spec(),
            final(self).targets_spec() == old(self).targets_spec(),
            final(self).fs_every_spec() == old(self).fs_every_spec(),
            final(self).kube_every_spec() == old(self).kube_every_spec(),
            final(self).loop_count_spec() == old(self).loop_count_spec() + 1,
            sample@.basic_stats == basic_of(
                *reading,
                old(self).iface_spec(),
                old(self).temp_item_spec(),
                old(self).polling_secs_spec(),
            ),
            sample@.file_systems_stats == fs_group_of(
                old(self).targets_spec(),
                reading.disks@,
                is_due(old(self).loop_count_spec(), old(self).fs_every_spec()),
                old(self).last_fs_spec(),
            ),
            sample@.kubernetes_stats == Seq::<KubernetesStatsView>::empty(),
            final(self).last_fs_spec() == if old(self).targets_spec().len() == 0 {
                old(self).last_fs_spec()
            } else {
                sample@.file_systems_stats
            },
    {
        let cpu = get_cpu_use(&reading.cpu_loads);
        let ram = get_ram_use(reading.used_memory, reading.total_memory);
        let root_fs = get_root_use(&reading.disks);
        let swap_fs = get_swp_use(reading.used_swap, reading.total_swap);

        let temperature: i64 = if !self.temp_item.as_str().is_empty() {
            get_temp(&reading.components, &self.temp_item)
        } else {
            0
        };

        let total_selector = String::from_str("total");
        let net_down_kbps: u64;
        let net_up_kbps: u64;
        if self.iface == total_selector {
            net_down_kbps = get_tot_ntwk_dwn(&reading.networks, self.polling_secs);
            net_up_kbps = get_tot_ntwk_up(&reading.networks, self.polling_secs);
        } else {
            net_down_kbps = get_iface_ntwk_dwn(&reading.networks, self.polling_secs, &self.iface);
            net_up_kbps = get_iface_ntwk_up(&reading.networks, self.polling_secs, &self.iface);
        }

        let mut fs_usage: Vec<FileSystemStats> = Vec::new();
        if self.file_systems.len() > 0 {
            if self.fs_refresh.due(self.loop_count) {
                let n = self.file_systems.len();
                let mut i: usize = 0;
                while i < n
                    invariant
                        i <= n,
                        n == self.file_systems@.len(),
                        fs_usage@.len() == i,
                        forall|j: int|
                            0 <= j < i ==> fs_usage@[j]@ == computed_fs(
                                self.file_systems@,
                                reading.disks@,
                            )[j],
                    decreases n - i,
                {
                    let target = &self.file_systems[i];
                    let pct = get_fs_use(&reading.disks, &target[1]);
                    fs_usage.push(
                        FileSystemStats {
                            fs_name: target[0].clone(),
                            fs_mount_point: target[1].clone(),
                            fs_used_pct_tenths: pct,
                        },
                    );
                    i = i + 1;
                }
                proof {
                    assert(fs_usage.deep_view() =~= computed_fs(
                        self.file_systems@,
                        reading.disks@,
                    ));
                }
                self.last_fs_usage = clone_fs_list(&fs_usage);
            } else {
                fs_usage = clone_fs_list(&self.last_fs_usage);
            }
        }

        self.loop_count = self.loop_count + 1;

        let sample = Stats {
            basic_stats: BasicStats {
                cpu,
                ram,
                root_fs,
                swap_fs,
                net_down_kbps,
                net_up_kbps,
                temperature,
            },
            file_systems_stats: fs_usage,
            kubernetes_stats: Vec::new(),
        };
        proof {
            assert(sample.kubernetes_stats.deep_view() =~= Seq::<KubernetesStatsView>::empty());
            if old(self).targets_spec().len() == 0 {
                assert(sample.file_systems_stats.deep_view() =~= Seq::<
                    FileSystemStatsView,
                >::empty());
            }
        }
        sample
    }
}

/// An element-wise copy of a filesystem-usage group.
pub fn clone_fs_list(v: &Vec<FileSystemStats>) -> (r: Vec<FileSystemStats>)
    ensures
        r.deep_view() == v.deep_view(),
{
    let mut r: Vec<FileSystemStats> = Vec::new();
    let n = v.len();
    let mut i: usize = 0;
    while i < n
        invariant
            i <= n,
            n == v@.len(),
            r@.len() == i,
            forall|j: int| 0 <= j < i ==> r@[j]@ == v@[j]@,
        decreases n - i,
    {
        r.push(v[i].clone());
        i = i + 1;
    }
    proof {
        assert(r.deep_view() =~= v.deep_view());
    }
    r
}

} // verus!
