use vstd::prelude::*;

verus! {

/// The view of an optional string.
pub open spec fn opt_view(o: Option<String>) -> Option<Seq<char>> {
    match o {
        Some(s) => Some(s@),
        None => None,
    }
}

pub fn clone_opt(o: &Option<String>) -> (r: Option<String>)
    ensures
        r == *o,
{
    match o {
        Some(s) => Some(s.clone()),
        None => None,
    }
}

/// Guest CPU topology.
#[derive(Debug, Clone, Copy, PartialEq, Eq)]
pub struct CpuTopology {
    pub threads_per_core: u8,
    pub cores_per_die: u8,
    pub dies_per_socket: u8,
    pub sockets: u8,
}

/// VM-wide configuration: CPUs, memory and power management.
#[derive(Debug, PartialEq, Eq)]
pub struct VmConfig {
    pub vcpu_count: u8,
    pub max_vcpu_count: u8,
    pub cpu_pm: String,
    pub cpu_topology: CpuTopology,
    pub vpmu_feature: u8,
    pub mem_type: String,
    pub mem_file_path: String,
    pub mem_size_mib: usize,
    pub serial_path: Option<String>,
    pub pci_hotplug_enabled: bool,
}

pub struct VmConfigView {
    pub vcpu_count: u8,
    pub max_vcpu_count: u8,
    pub cpu_pm: Seq<char>,
    pub cpu_topology: CpuTopology,
    pub vpmu_feature: u8,
    pub mem_type: Seq<char>,
    pub mem_file_path: Seq<char>,
    pub mem_size_mib: usize,
    pub serial_path: Option<Seq<char>>,
    pub pci_hotplug_enabled: bool,
}

impl View for VmConfig {
    type V = VmConfigView;

    open spec fn view(&self) -> VmConfigView {
        VmConfigView {
            vcpu_count: self.vcpu_count,
            max_vcpu_count: self.max_vcpu_count,
            cpu_pm: self.cpu_pm@,
            cpu_topology: self.cpu_topology,
            vpmu_feature: self.vpmu_feature,
            mem_type: self.mem_type@,
            mem_file_path: self.mem_file_path@,
            mem_size_mib: self.mem_size_mib,
            serial_path: opt_view(self.serial_path),
            pci_hotplug_enabled: self.pci_hotplug_enabled,
        }
    }
}

impl Clone for VmConfig {
    fn clone(&self) -> (r: Self)
        ensures
            r == *self,
    {
        VmConfig {
            vcpu_count: self.vcpu_count,
            max_vcpu_count: self.max_vcpu_count,
            cpu_pm: self.cpu_pm.clone(),
            cpu_topology: self.cpu_topology,
            vpmu_feature: self.vpmu_feature,
            mem_type: self.mem_type.clone(),
            mem_file_path: self.mem_file_path.clone(),
            mem_size_mib: self.mem_size_mib,
            serial_path: clone_opt(&self.serial_path),
            pci_hotplug_enabled: self.pci_hotplug_enabled,
        }
    }
}

/// Where the guest kernel comes from and what it is told at boot.
#[derive(Debug, PartialEq, Eq)]
pub struct BootSource {
    pub kernel_path: String,
    pub initrd_path: Option<String>,
    pub boot_args: Option<String>,
}

pub struct BootSourceView {
    pub kernel_path: Seq<char>,
    pub initrd_path: Option<Seq<char>>,
    pub boot_args: Option<Seq<char>>,
}

impl View for BootSource {
    type V = BootSourceView;

    open spec fn view(&self) -> BootSourceView {
        BootSourceView {
            kernel_path: self.kernel_path@,
            initrd_path: opt_view(self.initrd_path),
            boot_args: opt_view(self.boot_args),
        }
    }
}

impl Clone for BootSource {
    fn clone(&self) -> (r: Self)
        ensures
            r == *self,
    {
        BootSource {
            kernel_path: self.kernel_path.clone(),
            initrd_path: clone_opt(&self.initrd_path),
            boot_args: clone_opt(&self.boot_args),
        }
    }
}

/// A block device backed by a file on the host.
#[derive(Debug, PartialEq, Eq)]
pub struct DriveConfig {
    pub drive_id: String,
    pub path_on_host: String,
    pub is_root_device: bool,
    pub is_read_only: bool,
}

pub struct DriveConfigView {
    pub drive_id: Seq<char>,
    pub path_on_host: Seq<char>,
    pub is_root_device: bool,
    pub is_read_only: bool,
}

impl View for DriveConfig {
    type V = DriveConfigView;

    open spec fn view(&self) -> DriveConfigView {
        DriveConfigView {
            drive_id: self.drive_id@,
            path_on_host: self.path_on_host@,
            is_root_device: self.is_root_device,
            is_read_only: self.is_read_only,
        }
    }
}

impl Clone for DriveConfig {
    fn clone(&self) -> (r: Self)
        ensures
            r == *self,
    {
        DriveConfig {
            drive_id: self.drive_id.clone(),
            path_on_host: self.path_on_host.clone(),
            is_root_device: self.is_root_device,
            is_read_only: self.is_read_only,
        }
    }
}

/// A block device: either built from explicit fields, or a JSON configuration object that
/// the engine interprets.
#[derive(Debug, PartialEq, Eq)]
pub enum BlockDeviceConfig {
    Drive(DriveConfig),
    Json(String),
}

pub enum BlockDeviceConfigView {
    Drive(DriveConfigView),
    Json(Seq<char>),
}

impl View for BlockDeviceConfig {
    type V = BlockDeviceConfigView;

    open spec fn view(&self) -> BlockDeviceConfigView {
        match self {
            BlockDeviceConfig::Drive(d) => BlockDeviceConfigView::Drive(d@),
            BlockDeviceConfig::Json(s) => BlockDeviceConfigView::Json(s@),
        }
    }
}

impl Clone for BlockDeviceConfig {
    fn clone(&self) -> (r: Self)
        ensures
            r == *self,
    {
        match self {
            BlockDeviceConfig::Drive(d) => BlockDeviceConfig::Drive(d.clone()),
            BlockDeviceConfig::Json(s) => BlockDeviceConfig::Json(s.clone()),
        }
    }
}

/// A vsock device and the host socket that backs it.
#[derive(Debug, PartialEq, Eq)]
pub struct VsockConfig {
    pub guest_cid: u32,
    pub uds_path: String,
}

pub struct VsockConfigView {
    pub guest_cid: u32,
    pub uds_path: Seq<char>,
}

impl View for VsockConfig {
    type V = VsockConfigView;

    open spec fn view(&self) -> VsockConfigView {
        VsockConfigView { guest_cid: self.guest_cid, uds_path: self.uds_path@ }
    }
}

impl Clone for VsockConfig {
    fn clone(&self) -> (r: Self)
        ensures
            r == *self,
    {
        VsockConfig { guest_cid: self.guest_cid, uds_path: self.uds_path.clone() }
    }
}

/// A PCI device of the host passed through to the guest.
#[derive(Debug, PartialEq, Eq)]
pub struct HostDeviceConfig {
    pub hostdev_id: String,
    pub sysfs_path: String,
    pub bus_slot_func: String,
    pub vendor_device_id: u32,
    pub guest_dev_id: Option<u8>,
    pub clique_id: Option<u8>,
}

pub struct HostDeviceConfigView {
    pub hostdev_id: Seq<char>,
    pub sysfs_path: Seq<char>,
    pub bus_slot_func: Seq<char>,
    pub vendor_device_id: u32,
    pub guest_dev_id: Option<u8>,
    pub clique_id: Option<u8>,
}

impl View for HostDeviceConfig {
    type V = HostDeviceConfigView;

    open spec fn view(&self) -> HostDeviceConfigView {
        HostDeviceConfigView {
            hostdev_id: self.hostdev_id@,
            sysfs_path: self.sysfs_path@,
            bus_slot_func: self.bus_slot_func@,
            vendor_device_id: self.vendor_device_id,
            guest_dev_id: self.guest_dev_id,
            clique_id: self.clique_id,
        }
    }
}

impl Clone for HostDeviceConfig {
    fn clone(&self) -> (r: Self)
        ensures
            r == *self,
    {
        HostDeviceConfig {
            hostdev_id: self.hostdev_id.clone(),
            sysfs_path: self.sysfs_path.clone(),
            bus_slot_func: self.bus_slot_func.clone(),
            vendor_device_id: self.vendor_device_id,
            guest_dev_id: self.guest_dev_id,
            clique_id: self.clique_id,
        }
    }
}

/// A hot-plugged memory device.
#[derive(Debug, PartialEq, Eq)]
pub struct MemDeviceConfig {
    pub mem_id: String,
    pub size_mib: u64,
    pub multi_region: bool,
}

pub struct MemDeviceConfigView {
    pub mem_id: Seq<char>,
    pub size_mib: u64,
    pub multi_region: bool,
}

impl View for MemDeviceConfig {
    type V = MemDeviceConfigView;

    open spec fn view(&self) -> MemDeviceConfigView {
        MemDeviceConfigView {
            mem_id: self.mem_id@,
            size_mib: self.size_mib,
            multi_region: self.multi_region,
        }
    }
}

impl Clone for MemDeviceConfig {
    fn clone(&self) -> (r: Self)
        ensures
            r == *self,
    {
        MemDeviceConfig {
            mem_id: self.mem_id.clone(),
            size_mib: self.size_mib,
            multi_region: self.multi_region,
        }
    }
}

/// One command understood by the VM engine. Each variant owns its payload, so an action can
/// be cloned and moved to the worker thread.
#[derive(Debug, PartialEq, Eq)]
pub enum Action {
    SetVmConfiguration(VmConfig),
    ConfigureBootSource(BootSource),
    InsertBlockDevice(BlockDeviceConfig),
    /// A network interface, as the engine's JSON configuration object.
    InsertNetworkDevice(String),
    InsertVsockDevice(VsockConfig),
    /// A shared filesystem device, as the engine's JSON configuration object.
    InsertFsDevice(String),
    /// A mount or umount on a shared filesystem's backend, as the engine's JSON object.
    ManipulateFsBackend(String),
    ResizeVcpu(Option<u8>),
    InsertHostDevice(HostDeviceConfig),
    PrepareRemoveHostDevice(String),
    RemoveHostDevice(String),
    InsertMemoryDevice(MemDeviceConfig),
    StartMicroVm,
}

pub enum ActionView {
    SetVmConfiguration(VmConfigView),
    ConfigureBootSource(BootSourceView),
    InsertBlockDevice(BlockDeviceConfigView),
    InsertNetworkDevice(Seq<char>),
    InsertVsockDevice(VsockConfigView),
    InsertFsDevice(Seq<char>),
    ManipulateFsBackend(Seq<char>),
    ResizeVcpu(Option<u8>),
    InsertHostDevice(HostDeviceConfigView),
    PrepareRemoveHostDevice(Seq<char>),
    RemoveHostDevice(Seq<char>),
    InsertMemoryDevice(MemDeviceConfigView),
    StartMicroVm,
}

impl View for Action {
    type V = ActionView;

    open spec fn view(&self) -> ActionView {
        match self {
            Action::SetVmConfiguration(c) => ActionView::SetVmConfiguration(c@),
            Action::ConfigureBootSource(c) => ActionView::ConfigureBootSource(c@),
            Action::InsertBlockDevice(c) => ActionView::InsertBlockDevice(c@),
            Action::InsertNetworkDevice(c) => ActionView::InsertNetworkDevice(c@),
            Action::InsertVsockDevice(c) => ActionView::InsertVsockDevice(c@),
            Action::InsertFsDevice(c) => ActionView::InsertFsDevice(c@),
            Action::ManipulateFsBackend(c) => ActionView::ManipulateFsBackend(c@),
            Action::ResizeVcpu(n) => ActionView::ResizeVcpu(*n),
            Action::InsertHostDevice(c) => ActionView::InsertHostDevice(c@),
            Action::PrepareRemoveHostDevice(id) => ActionView::PrepareRemoveHostDevice(id@),
            Action::RemoveHostDevice(id) => ActionView::RemoveHostDevice(id@),
            Action::InsertMemoryDevice(c) => ActionView::InsertMemoryDevice(c@),
            Action::StartMicroVm => ActionView::StartMicroVm,
        }
    }
}

/// The views of a sequence of actions.
pub open spec fn actions_view(s: Seq<Action>) -> Seq<ActionView> {
    s.map_values(|a: Action| a@)
}

impl Clone for Action {
    fn clone(&self) -> (r: Self)
        ensures
            r == *self,
    {
        match self {
            Action::SetVmConfiguration(c) => Action::SetVmConfiguration(c.clone()),
            Action::ConfigureBootSource(c) => Action::ConfigureBootSource(c.clone()),
            Action::InsertBlockDevice(c) => Action::InsertBlockDevice(c.clone()),
            Action::InsertNetworkDevice(c) => Action::InsertNetworkDevice(c.clone()),
            Action::InsertVsockDevice(c) => Action::InsertVsockDevice(c.clone()),
            Action::InsertFsDevice(c) => Action::InsertFsDevice(c.clone()),
            Action::ManipulateFsBackend(c) => Action::ManipulateFsBackend(c.clone()),
            Action::ResizeVcpu(n) => Action::ResizeVcpu(*n),
            Action::InsertHostDevice(c) => Action::InsertHostDevice(c.clone()),
            Action::PrepareRemoveHostDevice(id) => Action::PrepareRemoveHostDevice(id.clone()),
            Action::RemoveHostDevice(id) => Action::RemoveHostDevice(id.clone()),
            Action::InsertMemoryDevice(c) => Action::InsertMemoryDevice(c.clone()),
            Action::StartMicroVm => Action::StartMicroVm,
        }
    }
}

impl Action {
    /// Device attachments: the actions that may reach the engine before its hot-plug
    /// subsystem is up, and so are retried while it answers "not ready".
    pub open spec fn is_attachment(&self) -> bool {
        match self {
            Action::InsertBlockDevice(_) | Action::InsertNetworkDevice(_)
            | Action::InsertVsockDevice(_) | Action::InsertFsDevice(_)
            | Action::InsertHostDevice(_) | Action::InsertMemoryDevice(_) => true,
            _ => false,
        }
    }

    pub fn needs_retry(&self) -> (r: bool)
        ensures
            r == self.is_attachment(),
    {
        match self {
            Action::InsertBlockDevice(_) | Action::InsertNetworkDevice(_)
            | Action::InsertVsockDevice(_) | Action::InsertFsDevice(_)
            | Action::InsertHostDevice(_) | Action::InsertMemoryDevice(_) => true,
            _ => false,
        }
    }
}

/// What the engine hands back when an action succeeds.
#[derive(Debug, PartialEq, Eq)]
pub enum Payload {
    Empty,
    Data(String),
}

/// Why the engine refused an action.
#[derive(Debug, PartialEq, Eq)]
pub enum ActionError {
    /// The engine's hot-plug subsystem is not initialised yet; asking again later may work.
    NotReady,
    /// Any other refusal, with the engine's description; final.
    Other(String),
}

/// The engine's answer to one action.
pub type ActionOutcome = Result<Payload, ActionError>;

/// The other end of the channel is gone.
#[derive(Debug, Clone, Copy, PartialEq, Eq)]
pub enum TransportError {
    Disconnected,
}

/// Why a call did not succeed.
#[derive(Debug, PartialEq, Eq)]
pub enum CallError {
    /// The worker or the channel to it is gone.
    ChannelClosed,
    /// The engine refused the action.
    Rejected(ActionError),
    /// The engine kept answering "not ready" until the attempt budget ran out.
    RetriesExhausted,
}

/// A round trip's outcome as the caller sees it: the engine's payload, its refusal, or the
/// loss of the channel.
pub open spec fn settled(o: Result<ActionOutcome, TransportError>) -> Result<Payload, CallError> {
    match o {
        Ok(Ok(p)) => Ok(p),
        Ok(Err(e)) => Err(CallError::Rejected(e)),
        Err(_) => Err(CallError::ChannelClosed),
    }
}

/// Turns what came back over the channel into the caller's result.
pub fn settle(o: Result<ActionOutcome, TransportError>) -> (r: Result<Payload, CallError>)
    ensures
        r == settled(o),
{
    match o {
        Ok(Ok(p)) => Ok(p),
        Ok(Err(e)) => Err(CallError::Rejected(e)),
        Err(_) => Err(CallError::ChannelClosed),
    }
}


/// A round trip ends in exactly one of three ways: the engine's payload, the engine's own
/// refusal passed on unchanged, or the loss of the channel; never in `RetriesExhausted`.
pub proof fn lemma_round_trip_outcomes(o: Result<ActionOutcome, TransportError>)
    ensures
        forall|p: Payload| settled(o) == Ok::<Payload, CallError>(p) <==> o == Ok::<
            ActionOutcome,
            TransportError,
        >(Ok(p)),
        forall|e: ActionError| settled(o) == Err::<Payload, CallError>(CallError::Rejected(e)) <==> o == Ok::<
            ActionOutcome,
            TransportError,
        >(Err(e)),
        settled(o) == Err::<Payload, CallError>(CallError::ChannelClosed) <==> o is Err,
        settled(o) != Err::<Payload, CallError>(CallError::RetriesExhausted),
{
}

} // verus!
