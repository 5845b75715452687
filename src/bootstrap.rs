use vstd::prelude::*;
use crate::action::{
    actions_view, clone_opt, opt_view, Action, ActionError, ActionView, BlockDeviceConfig,
    BlockDeviceConfigView,
    BootSource, BootSourceView, CpuTopology, DriveConfig, DriveConfigView, HostDeviceConfig,
    HostDeviceConfigView, VmConfig, VmConfigView, VsockConfig, VsockConfigView,
};
use crate::args::CreateArgs;
use crate::dispatch::{
    in_order, in_order_at, initial_model, lemma_ordering_decides_success, stub_run, StepFailure,
};
use crate::json::{array_elements, is_json, json_array_elements, parses_as_json};
use crate::retry::REQUEST_RETRY;
use crate::protocol::{block_device_views, block_devices, net_device_views, net_devices};

verus! {

/// Why no boot plan could be made.
#[derive(Debug, Clone, Copy, PartialEq, Eq)]
pub enum BootError {
    /// A VM needs both a kernel image and a root filesystem.
    MissingKernelOrRootfs,
    /// The network devices are not a JSON array.
    MalformedNetConfig,
    /// The block devices are not a JSON array.
    MalformedBlockConfig,
    /// The shared filesystem device is not JSON.
    MalformedFsConfig,
}

/// The context id of the guest side of the vsock device.
pub const VSOCK_GUEST_CID: u32 = 42;

/// The serial console goes to the process's own terminal when its path is "stdio"; any other
/// path names a socket.
pub open spec fn serial_path_of(a: CreateArgs) -> Option<Seq<char>> {
    if a.serial_path@ == "stdio"@ {
        None
    } else {
        Some(a.serial_path@)
    }
}

pub open spec fn vm_config_of(a: CreateArgs) -> VmConfigView {
    VmConfigView {
        vcpu_count: a.cpu.vcpu,
        max_vcpu_count: a.cpu.max_vcpu,
        cpu_pm: a.cpu.cpu_pm@,
        cpu_topology: CpuTopology {
            threads_per_core: a.cpu.cpu_topology.threads_per_core,
            cores_per_die: a.cpu.cpu_topology.cores_per_die,
            dies_per_socket: a.cpu.cpu_topology.dies_per_socket,
            sockets: a.cpu.cpu_topology.sockets,
        },
        vpmu_feature: a.cpu.vpmu_feature,
        mem_type: a.mem.mem_type@,
        mem_file_path: a.mem.mem_file_path@,
        mem_size_mib: a.mem.mem_size,
        serial_path: serial_path_of(a),
        pci_hotplug_enabled: a.host_device.pci_hotplug_enabled,
    }
}

/// The first three steps: VM configuration, boot source, root block device.
pub open spec fn base_steps(a: CreateArgs, kernel: Seq<char>, rootfs: Seq<char>) -> Seq<ActionView> {
    seq![
        ActionView::SetVmConfiguration(vm_config_of(a)),
        ActionView::ConfigureBootSource(
            BootSourceView {
                kernel_path: kernel,
                initrd_path: opt_view(a.initrd_path),
                boot_args: Some(a.boot_args@),
            },
        ),
        ActionView::InsertBlockDevice(
            BlockDeviceConfigView::Drive(
                DriveConfigView {
                    drive_id: "rootfs"@,
                    path_on_host: rootfs,
                    is_root_device: a.rootfs_args.is_root,
                    is_read_only: a.rootfs_args.is_read_only,
                },
            ),
        ),
    ]
}

pub open spec fn vsock_steps(a: CreateArgs) -> Seq<ActionView> {
    if a.vsock@.len() == 0 {
        seq![]
    } else {
        seq![
            ActionView::InsertVsockDevice(
                VsockConfigView { guest_cid: VSOCK_GUEST_CID, uds_path: a.vsock@ },
            ),
        ]
    }
}

/// A host device is inserted only when both its id and its bus/slot/function are given.
pub open spec fn host_device_steps(a: CreateArgs) -> Seq<ActionView> {
    match (a.host_device.hostdev_id, a.host_device.bus_slot_func) {
        (Some(id), Some(bsf)) => seq![
            ActionView::InsertHostDevice(
                HostDeviceConfigView {
                    hostdev_id: id@,
                    sysfs_path: match a.host_device.sysfs_path {
                        Some(p) => p@,
                        None => Seq::empty(),
                    },
                    bus_slot_func: bsf@,
                    vendor_device_id: match a.host_device.vendor_device_id {
                        Some(v) => v,
                        None => 0,
                    },
                    guest_dev_id: a.host_device.guest_dev_id,
                    clique_id: a.host_device.clique_id,
                },
            ),
        ],
        _ => seq![],
    }
}

/// The devices of an optional JSON array: none when the text is empty, `None` when it is no
/// JSON array.
pub open spec fn json_device_steps(text: Seq<char>, block: bool) -> Option<Seq<ActionView>> {
    if text.len() == 0 {
        Some(Seq::<ActionView>::empty())
    } else {
        match json_array_elements(text) {
            Some(items) => Some(
                if block {
                    block_device_views(items)
                } else {
                    net_device_views(items)
                },
            ),
            None => None,
        }
    }
}

/// The filesystem device of an optional JSON object: none when the text is empty, `None`
/// when it is not JSON.
pub open spec fn fs_device_steps(text: Seq<char>) -> Option<Seq<ActionView>> {
    if text.len() == 0 {
        Some(Seq::<ActionView>::empty())
    } else if is_json(text) {
        Some(seq![ActionView::InsertFsDevice(text)])
    } else {
        None
    }
}

/// The steps for the optional JSON device lists, or the first one that is malformed.
pub open spec fn device_steps(a: CreateArgs) -> Result<Seq<ActionView>, BootError> {
    match (
        json_device_steps(a.virnets@, false),
        json_device_steps(a.virblks@, true),
        fs_device_steps(a.fs@),
    ) {
        (None, _, _) => Err(BootError::MalformedNetConfig),
        (Some(_), None, _) => Err(BootError::MalformedBlockConfig),
        (Some(_), Some(_), None) => Err(BootError::MalformedFsConfig),
        (Some(n), Some(b), Some(f)) => Ok(n + b + f),
    }
}

/// The commands that bring a VM from nothing to running, in the order they are issued:
/// VM configuration, boot source, root block device, then the optional vsock, host, network,
/// block and filesystem devices, and last the start of the instance.
pub open spec fn boot_plan_spec(a: CreateArgs) -> Result<Seq<ActionView>, BootError> {
    match (a.kernel_path, a.rootfs_args.rootfs) {
        (Some(kernel), Some(rootfs)) => match device_steps(a) {
            Ok(devices) => Ok(
                base_steps(a, kernel@, rootfs@) + vsock_steps(a) + host_device_steps(a) + devices
                    + seq![ActionView::StartMicroVm],
            ),
            Err(e) => Err(e),
        },
        _ => Err(BootError::MissingKernelOrRootfs),
    }
}

fn json_devices(text: &String, block: bool) -> (r: Option<Vec<Action>>)
    ensures
        match r {
            Some(v) => json_device_steps(text@, block) == Some(actions_view(v@)),
            None => json_device_steps(text@, block) is None,
        },
{
    if text.as_str().is_empty() {
        let v: Vec<Action> = Vec::new();
        assert(actions_view(v@) =~= Seq::<ActionView>::empty());
        return Some(v);
    }
    match array_elements(text.as_str()) {
        None => None,
        Some(items) => if block {
            Some(block_devices(&items))
        } else {
            Some(net_devices(&items))
        },
    }
}

fn fs_device(text: &String) -> (r: Option<Vec<Action>>)
    ensures
        match r {
            Some(v) => fs_device_steps(text@) == Some(actions_view(v@)),
            None => fs_device_steps(text@) is None,
        },
{
    let mut v: Vec<Action> = Vec::new();
    if text.as_str().is_empty() {
        assert(actions_view(v@) =~= Seq::<ActionView>::empty());
        return Some(v);
    }
    if parses_as_json(text.as_str()) {
        v.push(Action::InsertFsDevice(text.clone()));
        assert(actions_view(v@) =~= seq![ActionView::InsertFsDevice(text@)]);
        Some(v)
    } else {
        None
    }
}

fn device_actions(args: &CreateArgs) -> (r: Result<Vec<Action>, BootError>)
    ensures
        match r {
            Ok(v) => device_steps(*args) == Ok::<Seq<ActionView>, BootError>(actions_view(v@)),
            Err(e) => device_steps(*args) == Err::<Seq<ActionView>, BootError>(e),
        },
{
    let mut nets = match json_devices(&args.virnets, false) {
        Some(v) => v,
        None => {
            return Err(BootError::MalformedNetConfig);
        },
    };
    let mut blks = match json_devices(&args.virblks, true) {
        Some(v) => v,
        None => {
            return Err(BootError::MalformedBlockConfig);
        },
    };
    let mut fs = match fs_device(&args.fs) {
        Some(v) => v,
        None => {
            return Err(BootError::MalformedFsConfig);
        },
    };
    let ghost expected = actions_view(nets@) + actions_view(blks@) + actions_view(fs@);
    nets.append(&mut blks);
    nets.append(&mut fs);
    assert(actions_view(nets@) =~= expected);
    Ok(nets)
}

/// Builds the boot sequence from the creation arguments. Fails, before anything is sent,
/// when the kernel or the root filesystem is missing or a device list is malformed.
pub fn boot_plan(args: &CreateArgs) -> (r: Result<Vec<Action>, BootError>)
    ensures
        match r {
            Ok(v) => boot_plan_spec(*args) == Ok::<Seq<ActionView>, BootError>(actions_view(v@)),
            Err(e) => boot_plan_spec(*args) == Err::<Seq<ActionView>, BootError>(e),
        },
{
    let (kernel, rootfs) = match (&args.kernel_path, &args.rootfs_args.rootfs) {
        (Some(k), Some(r)) => (k, r),
        _ => {
            return Err(BootError::MissingKernelOrRootfs);
        },
    };
    let mut devices = match device_actions(args) {
        Ok(v) => v,
        Err(e) => {
            return Err(e);
        },
    };
    let serial_path = if args.serial_path == "stdio".to_owned() {
        None
    } else {
        Some(args.serial_path.clone())
    };
    let vm_config = VmConfig {
        vcpu_count: args.cpu.vcpu,
        max_vcpu_count: args.cpu.max_vcpu,
        cpu_pm: args.cpu.cpu_pm.clone(),
        cpu_topology: CpuTopology {
            threads_per_core: args.cpu.cpu_topology.threads_per_core,
            cores_per_die: args.cpu.cpu_topology.cores_per_die,
            dies_per_socket: args.cpu.cpu_topology.dies_per_socket,
            sockets: args.cpu.cpu_topology.sockets,
        },
        vpmu_feature: args.cpu.vpmu_feature,
        mem_type: args.mem.mem_type.clone(),
        mem_file_path: args.mem.mem_file_path.clone(),
        mem_size_mib: args.mem.mem_size,
        serial_path,
        pci_hotplug_enabled: args.host_device.pci_hotplug_enabled,
    };
    let boot_source = BootSource {
        kernel_path: kernel.clone(),
        initrd_path: clone_opt(&args.initrd_path),
        boot_args: Some(args.boot_args.clone()),
    };
    let rootfs_drive = DriveConfig {
        drive_id: "rootfs".to_owned(),
        path_on_host: rootfs.clone(),
        is_root_device: args.rootfs_args.is_root,
        is_read_only: args.rootfs_args.is_read_only,
    };
    let mut plan: Vec<Action> = Vec::new();
    plan.push(Action::SetVmConfiguration(vm_config));
    plan.push(Action::ConfigureBootSource(boot_source));
    plan.push(Action::InsertBlockDevice(BlockDeviceConfig::Drive(rootfs_drive)));
    assert(actions_view(plan@) =~= base_steps(*args, kernel@, rootfs@));

    let ghost before = actions_view(plan@);
    if !args.vsock.as_str().is_empty() {
        plan.push(
            Action::InsertVsockDevice(
                VsockConfig { guest_cid: VSOCK_GUEST_CID, uds_path: args.vsock.clone() },
            ),
        );
    }
    assert(actions_view(plan@) =~= before + vsock_steps(*args));

    let ghost before = actions_view(plan@);
    if let (Some(id), Some(bsf)) = (&args.host_device.hostdev_id, &args.host_device.bus_slot_func) {
        let sysfs_path = match &args.host_device.sysfs_path {
            Some(p) => p.clone(),
            None => String::new(),
        };
        let vendor_device_id = match args.host_device.vendor_device_id {
            Some(v) => v,
            None => 0,
        };
        plan.push(
            Action::InsertHostDevice(
                HostDeviceConfig {
                    hostdev_id: id.clone(),
                    sysfs_path,
                    bus_slot_func: bsf.clone(),
                    vendor_device_id,
                    guest_dev_id: args.host_device.guest_dev_id,
                    clique_id: args.host_device.clique_id,
                },
            ),
        );
    }
    assert(actions_view(plan@) =~= before + host_device_steps(*args));

    let ghost before = actions_view(plan@);
    let ghost device_views = actions_view(devices@);
    plan.append(&mut devices);
    plan.push(Action::StartMicroVm);
    assert(actions_view(plan@) =~= before + device_views + seq![ActionView::StartMicroVm]);
    Ok(plan)
}

/// A plan whose first two steps configure the VM and its boot source is in order.
proof fn lemma_configured_first(plan: Seq<Action>)
    requires
        plan.len() >= 2,
        plan[0] is SetVmConfiguration,
        plan[1] is ConfigureBootSource,
    ensures
        in_order(plan),
{
    assert forall|j: int| 0 <= j < plan.len() implies #[trigger] in_order_at(plan, j) by {
        if plan[j] is InsertBlockDevice {
            assert(j >= 2);
            assert(plan.take(j)[0] is SetVmConfiguration);
            assert(plan.take(j)[1] is ConfigureBootSource);
        }
    }
}

/// The boot plan configures the VM and the boot source before any block device, so an engine
/// that refuses block devices until both were accepted runs the whole plan to success,
/// whatever its refusal. (Arguments with a malformed device list give no plan at all:
/// `boot_plan` refuses them before anything is sent.)
pub proof fn lemma_boot_plan_in_order(args: CreateArgs, plan: Seq<Action>, refusal: ActionError)
    requires
        boot_plan_spec(args) == Ok::<Seq<ActionView>, BootError>(actions_view(plan)),
        plan.len() <= usize::MAX,
    ensures
        in_order(plan),
        stub_run(initial_model(plan), refusal, plan.len() + REQUEST_RETRY as nat) == Some(
            Ok::<(), StepFailure>(()),
        ),
{
    assert(actions_view(plan).len() == plan.len());
    assert(actions_view(plan)[0] is SetVmConfiguration);
    assert(actions_view(plan)[1] is ConfigureBootSource);
    assert(actions_view(plan)[0] == plan[0]@);
    assert(actions_view(plan)[1] == plan[1]@);
    lemma_configured_first(plan);
    lemma_ordering_decides_success(plan, refusal);
}

} // verus!
