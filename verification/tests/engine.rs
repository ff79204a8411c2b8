use stats_exporter::config::{APIConfig, CMDNConfig, FileSystemsConfig, KubernetesConfig};
use stats_exporter::fmt::{add_whitespace, format_i64, format_tenths, format_u64};
use stats_exporter::history::HistoryBuffer;
use stats_exporter::rates::{
    get_cpu_use, get_fs_use, get_iface_ntwk_dwn, get_iface_ntwk_up, get_ram_use, get_root_use,
    get_swp_use, get_temp, get_tot_ntwk_dwn, get_tot_ntwk_up,
};
use stats_exporter::reading::{DiskSpace, IfaceCounters, MetricsReading, SensorReading};
use stats_exporter::sampler::Sampler;
use stats_exporter::stats::{BasicStats, FileSystemStats, KubernetesStats, Stats};
use stats_exporter::throttle::ThrottledRefresh;

fn sample_with_cpu(cpu: u64) -> Stats {
    Stats {
        basic_stats: BasicStats {
            cpu,
            ram: 0,
            root_fs: 0,
            swap_fs: 0,
            net_down_kbps: 0,
            net_up_kbps: 0,
            temperature: 0,
        },
        file_systems_stats: Vec::<FileSystemStats>::new(),
        kubernetes_stats: Vec::<KubernetesStats>::new(),
    }
}

#[test]
fn history_window_after_overflow() {
    // depth 3; appending A, B, C, D leaves exactly [B, C, D].
    let mut buffer = HistoryBuffer::new(3);
    for cpu in [10, 20, 30, 40] {
        buffer.append(sample_with_cpu(cpu));
    }
    let snap = buffer.snapshot();
    assert_eq!(snap.len(), 3);
    assert_eq!(snap[0].basic_stats.cpu, 20);
    assert_eq!(snap[1].basic_stats.cpu, 30);
    assert_eq!(snap[2].basic_stats.cpu, 40);
}

#[test]
fn history_window_long_run() {
    // many more appends than the depth: only the last `depth` survive,
    // and the head is the (N - depth + 1)-th appended sample.
    let mut buffer = HistoryBuffer::new(2);
    for cpu in 1..=9 {
        buffer.append(sample_with_cpu(cpu));
    }
    let snap = buffer.snapshot();
    assert_eq!(snap.len(), 2);
    assert_eq!(snap[0].basic_stats.cpu, 8);
    assert_eq!(snap[1].basic_stats.cpu, 9);
}

#[test]
fn history_window_under_capacity() {
    // fewer appends than the depth: everything is kept in append order.
    let mut buffer = HistoryBuffer::new(5);
    for cpu in [7, 8, 9] {
        buffer.append(sample_with_cpu(cpu));
    }
    assert_eq!(buffer.len(), 3);
    assert_eq!(buffer.capacity(), 5);
    let snap = buffer.snapshot();
    assert_eq!(snap.len(), 3);
    assert_eq!(snap[0].basic_stats.cpu, 7);
    assert_eq!(snap[1].basic_stats.cpu, 8);
    assert_eq!(snap[2].basic_stats.cpu, 9);
}

#[test]
fn history_snapshot_is_a_copy() {
    let mut buffer = HistoryBuffer::new(2);
    buffer.append(sample_with_cpu(1));
    let before = buffer.snapshot();
    buffer.append(sample_with_cpu(2));
    buffer.append(sample_with_cpu(3));
    // the earlier snapshot is unaffected by later appends.
    assert_eq!(before.len(), 1);
    assert_eq!(before[0].basic_stats.cpu, 1);
    let after = buffer.snapshot();
    assert_eq!(after.len(), 2);
    assert_eq!(after[0].basic_stats.cpu, 2);
    assert_eq!(after[1].basic_stats.cpu, 3);
}

#[test]
fn cpu_average_of_no_cores_is_zero() {
    let none: Vec<u64> = Vec::new();
    assert_eq!(get_cpu_use(&none), 0);
}

#[test]
fn cpu_average_exact() {
    assert_eq!(get_cpu_use(&vec![100, 200]), 150);
    // truncating mean: (100 + 101) / 2 = 100.
    assert_eq!(get_cpu_use(&vec![100, 101]), 100);
    assert_eq!(get_cpu_use(&vec![250]), 250);
}

#[test]
fn mem_pct_of_zero_total_is_zero() {
    assert_eq!(get_ram_use(0, 0), 0);
    assert_eq!(get_swp_use(0, 0), 0);
    assert_eq!(get_ram_use(5, 0), 0);
}

#[test]
fn mem_pct_exact() {
    // tenths of a percent: 1/2 = 50.0%.
    assert_eq!(get_ram_use(1, 2), 500);
    assert_eq!(get_ram_use(1, 3), 333);
    assert_eq!(get_swp_use(3, 4), 750);
}

#[test]
fn throttle_sixty_second_feature() {
    // interval 1 s, feature interval 60 s: refresh every 60 cycles,
    // due exactly on the multiples of 60.
    let policy = ThrottledRefresh::new(1, 60);
    assert_eq!(policy.every(), 60);
    assert!(policy.due(0));
    assert!(!policy.due(1));
    assert!(!policy.due(59));
    assert!(policy.due(60));
    assert!(policy.due(120));
    assert!(!policy.due(121));
}

#[test]
fn throttle_unset_feature_defaults_to_900() {
    let policy = ThrottledRefresh::new(1, 0);
    assert_eq!(policy.every(), 900);
    let slow = ThrottledRefresh::new(30, 0);
    assert_eq!(slow.every(), 900);
}

#[test]
fn throttle_period_is_at_least_one_cycle() {
    // a feature interval shorter than the sampling interval still yields
    // a period of one cycle, never zero.
    let policy = ThrottledRefresh::new(60, 30);
    assert_eq!(policy.every(), 1);
    let tiny = ThrottledRefresh::new(900, 1);
    assert_eq!(tiny.every(), 1);
}

fn iface(name: &str, received: u64, transmitted: u64) -> IfaceCounters {
    IfaceCounters { name: String::from(name), received, transmitted }
}

#[test]
fn net_rate_total_two_interfaces() {
    // 1024 + 1024 bytes over 1 s: (2048 * 8 / 1) / 1024 = 16 kbps,
    // and the same inputs give the same answer again.
    let nets = vec![iface("eth0", 1024, 512), iface("wlan0", 1024, 512)];
    let first = get_tot_ntwk_dwn(&nets, 1);
    assert_eq!(first, 16);
    let second = get_tot_ntwk_dwn(&nets, 1);
    assert_eq!(first, second);
    assert_eq!(get_tot_ntwk_up(&nets, 1), 8);
}

#[test]
fn net_rate_truncation_order() {
    // (1000 * 8 / 3) / 1024 = 2666 / 1024 = 2: multiply by 8 and divide by
    // the interval before dividing by 1024.
    let nets = vec![iface("eth0", 1000, 0)];
    assert_eq!(get_tot_ntwk_dwn(&nets, 3), 2);
}

#[test]
fn net_rate_named_interface_only() {
    let nets = vec![iface("eth0", 4096, 2048), iface("wlan0", 1 << 30, 1 << 30)];
    let selector = String::from("eth0");
    assert_eq!(get_iface_ntwk_dwn(&nets, 1, &selector), 32);
    assert_eq!(get_iface_ntwk_up(&nets, 1, &selector), 16);
    let missing = String::from("eth9");
    assert_eq!(get_iface_ntwk_dwn(&nets, 1, &missing), 0);
}

fn disk(mount: &str, total: u64, available: u64) -> DiskSpace {
    DiskSpace { mount_point: String::from(mount), total_space: total, available_space: available }
}

#[test]
fn fs_use_exact_and_missing() {
    let disks = vec![disk("/", 100, 25), disk("/data", 1000, 1)];
    assert_eq!(get_root_use(&disks), 750);
    assert_eq!(get_fs_use(&disks, &String::from("/data")), 999);
    assert_eq!(get_fs_use(&disks, &String::from("/nope")), 0);
}

#[test]
fn fs_use_last_match_wins_and_edge_cases() {
    let disks = vec![disk("/m", 100, 50), disk("/m", 100, 10)];
    assert_eq!(get_fs_use(&disks, &String::from("/m")), 900);
    // a zero-total or inconsistent reading yields 0, never a crash.
    let degenerate = vec![disk("/z", 0, 0), disk("/w", 10, 20)];
    assert_eq!(get_fs_use(&degenerate, &String::from("/z")), 0);
    assert_eq!(get_fs_use(&degenerate, &String::from("/w")), 0);
}

#[test]
fn temperature_lookup() {
    let comps = vec![
        SensorReading { label: String::from("acpitz"), temperature_c: 34 },
        SensorReading { label: String::from("coretemp"), temperature_c: 52 },
    ];
    assert_eq!(get_temp(&comps, &String::from("coretemp")), 52);
    assert_eq!(get_temp(&comps, &String::from("gone")), -1);
}

fn reading_for_cycle(data_avail: u64) -> MetricsReading {
    MetricsReading {
        cpu_loads: vec![100, 200],
        used_memory: 1,
        total_memory: 2,
        used_swap: 1,
        total_swap: 4,
        disks: vec![disk("/", 100, 25), disk("/data", 100, data_avail)],
        networks: vec![iface("eth0", 1024, 1024), iface("wlan0", 1024, 1024)],
        components: vec![SensorReading { label: String::from("coretemp"), temperature_c: 47 }],
    }
}

#[test]
fn sampler_step_builds_full_sample() {
    let targets = vec![[String::from("data"), String::from("/data")]];
    let mut sampler = Sampler::new(
        1,
        60,
        0,
        String::from("total"),
        String::from("coretemp"),
        targets,
    );
    assert_eq!(sampler.fs_refresh_every(), 60);
    assert_eq!(sampler.kube_refresh_every(), 900);

    let sample = sampler.step(&reading_for_cycle(40));
    assert_eq!(sample.basic_stats.cpu, 150);
    assert_eq!(sample.basic_stats.ram, 500);
    assert_eq!(sample.basic_stats.swap_fs, 250);
    assert_eq!(sample.basic_stats.root_fs, 750);
    assert_eq!(sample.basic_stats.net_down_kbps, 16);
    assert_eq!(sample.basic_stats.net_up_kbps, 16);
    assert_eq!(sample.basic_stats.temperature, 47);
    assert!(sample.kubernetes_stats.is_empty());
    assert_eq!(sample.file_systems_stats.len(), 1);
    assert_eq!(sample.file_systems_stats[0].fs_name, "data");
    assert_eq!(sample.file_systems_stats[0].fs_mount_point, "/data");
    assert_eq!(sample.file_systems_stats[0].fs_used_pct_tenths, 600);
}

#[test]
fn sampler_carries_filesystem_usage_between_refreshes() {
    let targets = vec![[String::from("data"), String::from("/data")]];
    let mut sampler = Sampler::new(
        1,
        60,
        0,
        String::from("eth0"),
        String::new(),
        targets,
    );

    // cycle 0 is due: usage computed from the reading.
    let first = sampler.step(&reading_for_cycle(40));
    assert_eq!(first.file_systems_stats[0].fs_used_pct_tenths, 600);

    // cycles 1..59 are not due: the value is carried forward unchanged
    // even though the disk reading moved.
    let second = sampler.step(&reading_for_cycle(90));
    assert_eq!(second.file_systems_stats[0].fs_used_pct_tenths, 600);

    for _ in 2..60 {
        let carried = sampler.step(&reading_for_cycle(90));
        assert_eq!(carried.file_systems_stats[0].fs_used_pct_tenths, 600);
    }

    // cycle 60 is due again: the fresh reading shows.
    let refreshed = sampler.step(&reading_for_cycle(90));
    assert_eq!(refreshed.file_systems_stats[0].fs_used_pct_tenths, 100);
}

#[test]
fn sampler_named_interface_and_disabled_temperature() {
    let mut sampler = Sampler::new(
        2,
        0,
        0,
        String::from("eth0"),
        String::new(),
        Vec::new(),
    );
    let sample = sampler.step(&reading_for_cycle(40));
    // only eth0 counts: (1024 * 8 / 2) / 1024 = 4.
    assert_eq!(sample.basic_stats.net_down_kbps, 4);
    assert_eq!(sample.basic_stats.net_up_kbps, 4);
    // no sensor configured: temperature reads 0.
    assert_eq!(sample.basic_stats.temperature, 0);
    assert!(sample.file_systems_stats.is_empty());
}

#[test]
fn sampler_missing_sensor_reads_minus_one() {
    let mut sampler = Sampler::new(
        1,
        0,
        0,
        String::from("total"),
        String::from("nothere"),
        Vec::new(),
    );
    let sample = sampler.step(&reading_for_cycle(40));
    assert_eq!(sample.basic_stats.temperature, -1);
}

#[test]
fn add_whitespace_right_aligns() {
    assert_eq!(add_whitespace(String::from("ab"), 5), "   ab");
    assert_eq!(add_whitespace(String::from("abcde"), 5), "abcde");
    assert_eq!(add_whitespace(String::new(), 3), "   ");
}

#[test]
fn formatting_exact() {
    assert_eq!(format_tenths(573), "57.3");
    assert_eq!(format_tenths(5), "0.5");
    assert_eq!(format_tenths(1000), "100.0");
    assert_eq!(format_u64(0), "0");
    assert_eq!(format_u64(1048576), "1048576");
    assert_eq!(format_i64(-1), "-1");
    assert_eq!(format_i64(42), "42");
}

#[test]
fn history_empty_snapshot() {
    let buffer = HistoryBuffer::new(4);
    assert_eq!(buffer.len(), 0);
    assert!(buffer.snapshot().is_empty());
}

#[test]
fn formatting_zero_values() {
    assert_eq!(format_tenths(0), "0.0");
    assert_eq!(format_i64(0), "0");
    assert_eq!(format_i64(i64::MIN), "-9223372036854775808");
}

#[test]
fn config_constructors_keep_their_fields() {
    let api = APIConfig::new(String::from("0.0.0.0"), String::from("8080"), 60);
    assert_eq!(api.listen_ip_addr, "0.0.0.0");
    assert_eq!(api.listen_port, "8080");
    assert_eq!(api.history_depth, 60);

    let cmdn = CMDNConfig::new(
        true,
        true,
        false,
        false,
        true,
        String::from("total"),
        true,
        String::from("coretemp"),
        5,
    );
    assert!(cmdn.get_cpu);
    assert!(!cmdn.get_root_fs);
    assert_eq!(cmdn.iface, "total");
    assert_eq!(cmdn.temperature_item, "coretemp");
    assert_eq!(cmdn.polling_secs, 5);

    let fs = FileSystemsConfig::new(vec![[String::from("data"), String::from("/data")]], 300);
    assert_eq!(fs.file_systems.len(), 1);
    assert_eq!(fs.polling_secs, 300);

    let kube = KubernetesConfig::new(
        vec![[String::from("master"), String::from("10.0.0.1")]],
        Vec::new(),
        vec![String::from("kube-system")],
        600,
    );
    assert_eq!(kube.master_nodes_ip.len(), 1);
    assert_eq!(kube.worker_nodes_ip.len(), 0);
    assert_eq!(kube.exclude_namespaces[0], "kube-system");
    assert_eq!(kube.polling_secs, 600);
}
