//! Configuration records: built once at process start from the external
//! config loader, then immutable for the process lifetime. The library
//! performs no further validation beyond what the constructors state.

use vstd::prelude::*;

verus! {

/// Top level configuration record.
pub struct ConfigData {
    pub api_config: APIConfig,
    pub cmdn_config: Option<CMDNConfig>,
    pub file_systems_config: Option<FileSystemsConfig>,
    pub kubernetes_config: Option<KubernetesConfig>,
}

/// Where the HTTP layer listens and how many samples the history retains.
pub struct APIConfig {
    pub listen_ip_addr: String,
    pub listen_port: String,
    pub history_depth: usize,
}

impl APIConfig {
    pub fn new(listen_ip_addr: String, listen_port: String, history_depth: usize) -> (r: Self)
        ensures
            r.listen_ip_addr == listen_ip_addr,
            r.listen_port == listen_port,
            r.history_depth == history_depth,
    {
        APIConfig { listen_ip_addr, listen_port, history_depth }
    }
}

/// CPU / memory / disk / network sampling settings.
pub struct CMDNConfig {
    pub get_cpu: bool,
    pub get_mem: bool,
    pub get_root_fs: bool,
    pub get_swap_fs: bool,
    pub get_net: bool,
    pub iface: String,
    pub get_temperature: bool,
    pub temperature_item: String,
    pub polling_secs: usize,
}

impl CMDNConfig {
    pub fn new(
        get_cpu: bool,
        get_mem: bool,
        get_root_fs: bool,
        get_swap_fs: bool,
        get_net: bool,
        iface: String,
        get_temperature: bool,
        temperature_item: String,
        polling_secs: i32,
    ) -> (r: Self)
        requires
            polling_secs >= 0,
        ensures
            r.get_cpu == get_cpu,
            r.get_mem == get_mem,
            r.get_root_fs == get_root_fs,
            r.get_swap_fs == get_swap_fs,
            r.get_net == get_net,
            r.iface == iface,
            r.get_temperature == get_temperature,
            r.temperature_item == temperature_item,
            r.polling_secs == polling_secs as usize,
    {
        CMDNConfig {
            get_cpu,
            get_mem,
            get_root_fs,
            get_swap_fs,
            get_net,
            iface,
            get_temperature,
            temperature_item,
            polling_secs: polling_secs as usize,
        }
    }
}

/// The extra filesystems to watch, as (label, mount point) pairs, and how
/// often to re-read their usage.
pub struct FileSystemsConfig {
    pub file_systems: Vec<[String; 2]>,
    pub polling_secs: usize,
}

impl FileSystemsConfig {
    pub fn new(file_systems: Vec<[String; 2]>, polling_secs: i32) -> (r: Self)
        requires
            polling_secs >= 0,
        ensures
            r.file_systems == file_systems,
            r.polling_secs == polling_secs as usize,
    {
        FileSystemsConfig { file_systems, polling_secs: polling_secs as usize }
    }
}

/// Cluster polling settings: node addresses as (name, ip) pairs.
pub struct KubernetesConfig {
    pub master_nodes_ip: Vec<[String; 2]>,
    pub worker_nodes_ip: Vec<[String; 2]>,
    pub exclude_namespaces: Vec<String>,
    pub polling_secs: usize,
}

impl KubernetesConfig {
    pub fn new(
        master_nodes_ip: Vec<[String; 2]>,
        worker_nodes_ip: Vec<[String; 2]>,
        exclude_namespaces: Vec<String>,
        polling_secs: i32,
    ) -> (r: Self)
        requires
            polling_secs >= 0,
        ensures
            r.master_nodes_ip == master_nodes_ip,
            r.worker_nodes_ip == worker_nodes_ip,
            r.exclude_namespaces == exclude_namespaces,
            r.polling_secs == polling_secs as usize,
    {
        KubernetesConfig {
            master_nodes_ip,
            worker_nodes_ip,
            exclude_namespaces,
            polling_secs: polling_secs as usize,
        }
    }
}

/// A generic description / value pair offered to configuration consumers.
pub struct DescrValuePair {
    pub description: String,
    pub value: String,
}

} // verus!
