use vstd::prelude::*;

verus! {

/// The command line: a subcommand and the administrative socket's path.
#[derive(Debug, Clone, PartialEq, Eq)]
pub struct DBSArgs {
    pub command: Option<Commands>,
    /// Path of the administrative Unix socket; empty when there is none.
    pub api_sock_path: String,
}

#[derive(Debug, Clone, PartialEq, Eq)]
pub enum Commands {
    /// Create a VM and run it.
    Create { create_args: CreateArgs },
    /// Send update commands to a running VM's administrative socket.
    Update { update_args: UpdateArgs },
}

/// Guest CPU topology.
#[derive(Debug, Clone, Copy, PartialEq, Eq)]
pub struct CpuTopologyArgs {
    pub threads_per_core: u8,
    pub cores_per_die: u8,
    pub dies_per_socket: u8,
    pub sockets: u8,
}

/// The root filesystem's image.
#[derive(Debug, Clone, PartialEq, Eq)]
pub struct RootfsArgs {
    pub rootfs: Option<String>,
    pub is_root: bool,
    pub is_read_only: bool,
}

/// Everything that creating a VM takes.
#[derive(Debug, Clone, PartialEq, Eq)]
pub struct CreateArgs {
    pub cpu: CpuArgs,
    pub mem: MemArgs,
    pub host_device: HostDeviceArgs,
    /// Path of the serial console's socket; "stdio" for the process's own terminal.
    pub serial_path: String,
    /// Path of the vsock device's socket; empty for no vsock device.
    pub vsock: String,
    /// JSON array of network interface configurations; empty for none.
    pub virnets: String,
    /// JSON array of block device configurations; empty for none.
    pub virblks: String,
    /// JSON shared filesystem device configuration; empty for none.
    pub fs: String,
    pub log_file: String,
    pub log_level: String,
    pub kernel_path: Option<String>,
    pub initrd_path: Option<String>,
    pub boot_args: String,
    pub rootfs_args: RootfsArgs,
}

#[derive(Debug, Clone, PartialEq, Eq)]
pub struct CpuArgs {
    pub vcpu: u8,
    pub max_vcpu: u8,
    pub cpu_pm: String,
    pub vpmu_feature: u8,
    pub cpu_topology: CpuTopologyArgs,
}

#[derive(Debug, Clone, PartialEq, Eq)]
pub struct MemArgs {
    /// "shmem" or "hugetlbfs".
    pub mem_type: String,
    pub mem_file_path: String,
    pub mem_size: usize,
}

/// A host PCI device to pass through to the guest.
#[derive(Debug, Clone, PartialEq, Eq)]
pub struct HostDeviceArgs {
    pub pci_hotplug_enabled: bool,
    pub hostdev_id: Option<String>,
    pub sysfs_path: Option<String>,
    pub bus_slot_func: Option<String>,
    pub vendor_device_id: Option<u32>,
    pub guest_dev_id: Option<u8>,
    pub clique_id: Option<u8>,
}

/// The updates that can be sent to a running VM.
#[derive(Debug, Clone, PartialEq, Eq)]
pub struct UpdateArgs {
    pub vcpu_resize: Option<usize>,
    pub virnets: Option<String>,
    pub virblks: Option<String>,
    pub patch_fs: Option<String>,
    pub insert_host_device: Option<HostDeviceArgs>,
    pub prepare_remove_host_device: Option<String>,
    pub remove_host_device: Option<String>,
}

} // verus!
