//! The sample record: one snapshot of all tracked metrics at a point in
//! time, immutable once built. Abstract views carry the same data with
//! sequences in place of vectors and strings, so contracts can speak of a
//! sample's content independently of allocation.

use vstd::prelude::*;

verus! {

/// The always-collected metrics of one sample. Percentages are tenths of a
/// percent; the temperature is whole degrees Celsius, -1 when the configured
/// sensor was not found.
#[derive(Clone, Copy, PartialEq, Eq, Structural, Debug)]
pub struct BasicStats {
    pub cpu: u64,
    pub ram: u64,
    pub root_fs: u64,
    pub swap_fs: u64,
    pub net_down_kbps: u64,
    pub net_up_kbps: u64,
    pub temperature: i64,
}

/// Usage of one watched filesystem; recomputed only on throttled-refresh
/// cycles and carried forward unchanged in between.
pub struct FileSystemStats {
    pub fs_name: String,
    pub fs_mount_point: String,
    pub fs_used_pct_tenths: u64,
}

/// Abstract content of a `FileSystemStats`.
pub struct FileSystemStatsView {
    pub fs_name: Seq<char>,
    pub fs_mount_point: Seq<char>,
    pub fs_used_pct_tenths: u64,
}

impl View for FileSystemStats {
    type V = FileSystemStatsView;

    open spec fn view(&self) -> FileSystemStatsView {
        FileSystemStatsView {
            fs_name: self.fs_name@,
            fs_mount_point: self.fs_mount_point@,
            fs_used_pct_tenths: self.fs_used_pct_tenths,
        }
    }
}

impl DeepView for FileSystemStats {
    type V = FileSystemStatsView;

    open spec fn deep_view(&self) -> FileSystemStatsView {
        self@
    }
}

impl Clone for FileSystemStats {
    fn clone(&self) -> (r: Self)
        ensures
            r@ == self@,
    {
        FileSystemStats {
            fs_name: self.fs_name.clone(),
            fs_mount_point: self.fs_mount_point.clone(),
            fs_used_pct_tenths: self.fs_used_pct_tenths,
        }
    }
}

/// Stats of one cluster node, as reported by that node.
pub struct KubernetesNodeStats {
    pub node_role: String,
    pub node_name: String,
    pub node_ip: String,
    pub node_basic_stats: BasicStats,
    pub node_pods: Vec<String>,
    pub node_pods_max: usize,
}

/// Abstract content of a `KubernetesNodeStats`.
pub struct KubernetesNodeStatsView {
    pub node_role: Seq<char>,
    pub node_name: Seq<char>,
    pub node_ip: Seq<char>,
    pub node_basic_stats: BasicStats,
    pub node_pods: Seq<Seq<char>>,
    pub node_pods_max: usize,
}

impl View for KubernetesNodeStats {
    type V = KubernetesNodeStatsView;

    open spec fn view(&self) -> KubernetesNodeStatsView {
        KubernetesNodeStatsView {
            node_role: self.node_role@,
            node_name: self.node_name@,
            node_ip: self.node_ip@,
            node_basic_stats: self.node_basic_stats,
            node_pods: self.node_pods.deep_view(),
            node_pods_max: self.node_pods_max,
        }
    }
}

impl DeepView for KubernetesNodeStats {
    type V = KubernetesNodeStatsView;

    open spec fn deep_view(&self) -> KubernetesNodeStatsView {
        self@
    }
}

impl Clone for KubernetesNodeStats {
    fn clone(&self) -> (r: Self)
        ensures
            r@ == self@,
    {
        let node_pods = self.node_pods.clone();
        proof {
            assert forall|i: int| 0 <= i < self.node_pods@.len() implies node_pods@[i]@
                == self.node_pods@[i]@ by {
                assert(cloned::<String>(self.node_pods@[i], node_pods@[i]));
            }
            assert(node_pods.deep_view() =~= self.node_pods.deep_view());
        }
        KubernetesNodeStats {
            node_role: self.node_role.clone(),
            node_name: self.node_name.clone(),
            node_ip: self.node_ip.clone(),
            node_basic_stats: self.node_basic_stats,
            node_pods,
            node_pods_max: self.node_pods_max,
        }
    }
}

/// Stats of a polled cluster: one entry per node.
pub struct KubernetesStats {
    pub node_stats: Vec<KubernetesNodeStats>,
}

/// Abstract content of a `KubernetesStats`.
pub struct KubernetesStatsView {
    pub node_stats: Seq<KubernetesNodeStatsView>,
}

impl View for KubernetesStats {
    type V = KubernetesStatsView;

    open spec fn view(&self) -> KubernetesStatsView {
        KubernetesStatsView { node_stats: self.node_stats.deep_view() }
    }
}

impl DeepView for KubernetesStats {
    type V = KubernetesStatsView;

    open spec fn deep_view(&self) -> KubernetesStatsView {
        self@
    }
}

impl Clone for KubernetesStats {
    fn clone(&self) -> (r: Self)
        ensures
            r@ == self@,
    {
        let node_stats = self.node_stats.clone();
        proof {
            assert forall|i: int| 0 <= i < self.node_stats@.len() implies node_stats@[i]@
                == self.node_stats@[i]@ by {
                assert(cloned::<KubernetesNodeStats>(self.node_stats@[i], node_stats@[i]));
            }
            assert(node_stats.deep_view() =~= self.node_stats.deep_view());
        }
        KubernetesStats { node_stats }
    }
}

/// One complete sample.
pub struct Stats {
    pub basic_stats: BasicStats,
    pub file_systems_stats: Vec<FileSystemStats>,
    pub kubernetes_stats: Vec<KubernetesStats>,
}

/// Abstract content of a `Stats`.
pub struct StatsView {
    pub basic_stats: BasicStats,
    pub file_systems_stats: Seq<FileSystemStatsView>,
    pub kubernetes_stats: Seq<KubernetesStatsView>,
}

impl View for Stats {
    type V = StatsView;

    open spec fn view(&self) -> StatsView {
        StatsView {
            basic_stats: self.basic_stats,
            file_systems_stats: self.file_systems_stats.deep_view(),
            kubernetes_stats: self.kubernetes_stats.deep_view(),
        }
    }
}

impl DeepView for Stats {
    type V = StatsView;

    open spec fn deep_view(&self) -> StatsView {
        self@
    }
}

impl Clone for Stats {
    fn clone(&self) -> (r: Self)
        ensures
            r@ == self@,
    {
        let file_systems_stats = self.file_systems_stats.clone();
        let kubernetes_stats = self.kubernetes_stats.clone();
        proof {
            assert forall|i: int| 0 <= i < self.file_systems_stats@.len() implies
                file_systems_stats@[i]@ == self.file_systems_stats@[i]@ by {
                assert(cloned::<FileSystemStats>(
                    self.file_systems_stats@[i],
                    file_systems_stats@[i],
                ));
            }
            assert(file_systems_stats.deep_view() =~= self.file_systems_stats.deep_view());
            assert forall|i: int| 0 <= i < self.kubernetes_stats@.len() implies
                kubernetes_stats@[i]@ == self.kubernetes_stats@[i]@ by {
                assert(cloned::<KubernetesStats>(self.kubernetes_stats@[i], kubernetes_stats@[i]));
            }
            assert(kubernetes_stats.deep_view() =~= self.kubernetes_stats.deep_view());
        }
        Stats { basic_stats: self.basic_stats, file_systems_stats, kubernetes_stats }
    }
}

} // verus!
