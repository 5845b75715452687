use dbs_cli::action::{
    Action, ActionError, BlockDeviceConfig, BootSource, CallError, CpuTopology, DriveConfig,
    HostDeviceConfig, Payload, VmConfig, VsockConfig,
};
use dbs_cli::args::{CpuArgs, CpuTopologyArgs, CreateArgs, HostDeviceArgs, MemArgs, RootfsArgs};
use dbs_cli::bootstrap::{boot_plan, BootError};
use dbs_cli::dispatch::{Directive, Dispatcher, StepFailure};

fn create_args() -> CreateArgs {
    CreateArgs {
        cpu: CpuArgs {
            vcpu: 2,
            max_vcpu: 4,
            cpu_pm: "on".to_string(),
            vpmu_feature: 0,
            cpu_topology: CpuTopologyArgs {
                threads_per_core: 1,
                cores_per_die: 1,
                dies_per_socket: 1,
                sockets: 1,
            },
        },
        mem: MemArgs {
            mem_type: "shmem".to_string(),
            mem_file_path: String::new(),
            mem_size: 128,
        },
        host_device: HostDeviceArgs {
            pci_hotplug_enabled: false,
            hostdev_id: None,
            sysfs_path: None,
            bus_slot_func: None,
            vendor_device_id: None,
            guest_dev_id: None,
            clique_id: None,
        },
        serial_path: "stdio".to_string(),
        vsock: String::new(),
        virnets: String::new(),
        virblks: String::new(),
        fs: String::new(),
        log_file: "dbs-cli.log".to_string(),
        log_level: "Debug".to_string(),
        kernel_path: Some("/vmlinux".to_string()),
        initrd_path: None,
        boot_args: "console=ttyS0".to_string(),
        rootfs_args: RootfsArgs {
            rootfs: Some("/rootfs.img".to_string()),
            is_root: true,
            is_read_only: false,
        },
    }
}

/// An engine that refuses a block device until a VM configuration and a boot source were
/// accepted, and accepts everything else.
fn ordering_stub(accepted: &[Action], a: &Action) -> Result<Payload, CallError> {
    let configured = accepted.iter().any(|x| matches!(x, Action::SetVmConfiguration(_)));
    let booted = accepted.iter().any(|x| matches!(x, Action::ConfigureBootSource(_)));
    if matches!(a, Action::InsertBlockDevice(_)) && !(configured && booted) {
        Err(CallError::Rejected(ActionError::Other("out of order".to_string())))
    } else {
        Ok(Payload::Empty)
    }
}

fn run_against_stub(plan: Vec<Action>) -> (Result<(), StepFailure>, Vec<Action>) {
    let mut d = Dispatcher::new(plan);
    let mut accepted: Vec<Action> = Vec::new();
    let mut directive = d.start();
    loop {
        match directive {
            Directive::Send(a) | Directive::SendAfter(_, a) => {
                let r = ordering_stub(&accepted, &a);
                if r.is_ok() {
                    accepted.push(a);
                }
                directive = d.on_reply(r);
            }
            Directive::Finished(r) => return (r, accepted),
        }
    }
}

#[test]
fn plan_has_the_documented_order() {
    let plan = boot_plan(&create_args()).unwrap();
    assert_eq!(
        plan,
        vec![
            Action::SetVmConfiguration(VmConfig {
                vcpu_count: 2,
                max_vcpu_count: 4,
                cpu_pm: "on".to_string(),
                cpu_topology: CpuTopology {
                    threads_per_core: 1,
                    cores_per_die: 1,
                    dies_per_socket: 1,
                    sockets: 1,
                },
                vpmu_feature: 0,
                mem_type: "shmem".to_string(),
                mem_file_path: String::new(),
                mem_size_mib: 128,
                serial_path: None,
                pci_hotplug_enabled: false,
            }),
            Action::ConfigureBootSource(BootSource {
                kernel_path: "/vmlinux".to_string(),
                initrd_path: None,
                boot_args: Some("console=ttyS0".to_string()),
            }),
            Action::InsertBlockDevice(BlockDeviceConfig::Drive(DriveConfig {
                drive_id: "rootfs".to_string(),
                path_on_host: "/rootfs.img".to_string(),
                is_root_device: true,
                is_read_only: false,
            })),
            Action::StartMicroVm,
        ]
    );
}

#[test]
fn plan_in_documented_order_succeeds_against_ordering_stub() {
    let plan = boot_plan(&create_args()).unwrap();
    let n = plan.len();
    let (r, accepted) = run_against_stub(plan);
    assert_eq!(r, Ok(()));
    assert_eq!(accepted.len(), n);
}

#[test]
fn reordered_plan_fails_at_the_block_device() {
    let mut plan = boot_plan(&create_args()).unwrap();
    plan.swap(1, 2);
    let (r, accepted) = run_against_stub(plan);
    assert_eq!(
        r,
        Err(StepFailure {
            step: 1,
            error: CallError::Rejected(ActionError::Other("out of order".to_string())),
        })
    );
    assert_eq!(accepted.len(), 1);
}

#[test]
fn plan_without_boot_source_fails() {
    let mut plan = boot_plan(&create_args()).unwrap();
    plan.remove(1);
    let (r, accepted) = run_against_stub(plan);
    assert!(matches!(r, Err(StepFailure { step: 1, .. })));
    assert!(!accepted.contains(&Action::StartMicroVm));
}

#[test]
fn plan_without_configuration_fails() {
    let mut plan = boot_plan(&create_args()).unwrap();
    plan.remove(0);
    let (r, _) = run_against_stub(plan);
    assert!(matches!(r, Err(StepFailure { step: 1, .. })));
}

#[test]
fn kernel_and_rootfs_are_required() {
    let mut args = create_args();
    args.kernel_path = None;
    assert_eq!(boot_plan(&args), Err(BootError::MissingKernelOrRootfs));
    let mut args = create_args();
    args.rootfs_args.rootfs = None;
    assert_eq!(boot_plan(&args), Err(BootError::MissingKernelOrRootfs));
}

#[test]
fn optional_devices_come_between_rootfs_and_start() {
    let mut args = create_args();
    args.serial_path = "/tmp/console.sock".to_string();
    args.vsock = "/tmp/vsock.sock".to_string();
    args.host_device.hostdev_id = Some("d0".to_string());
    args.host_device.bus_slot_func = Some("0000:00:01.0".to_string());
    args.host_device.vendor_device_id = Some(7);
    args.virnets = r#"[{"iface_id":"eth0"}]"#.to_string();
    args.virblks = r#"[{"drive_id":"b0"},{"drive_id":"b1"}]"#.to_string();
    args.fs = r#"{"tag":"fs0"}"#.to_string();
    let plan = boot_plan(&args).unwrap();
    assert_eq!(plan.len(), 10);
    match &plan[0] {
        Action::SetVmConfiguration(c) => {
            assert_eq!(c.serial_path, Some("/tmp/console.sock".to_string()))
        }
        other => panic!("unexpected {other:?}"),
    }
    assert_eq!(
        plan[3],
        Action::InsertVsockDevice(VsockConfig {
            guest_cid: 42,
            uds_path: "/tmp/vsock.sock".to_string()
        })
    );
    assert_eq!(
        plan[4],
        Action::InsertHostDevice(HostDeviceConfig {
            hostdev_id: "d0".to_string(),
            sysfs_path: String::new(),
            bus_slot_func: "0000:00:01.0".to_string(),
            vendor_device_id: 7,
            guest_dev_id: None,
            clique_id: None,
        })
    );
    assert_eq!(plan[5], Action::InsertNetworkDevice(r#"{"iface_id":"eth0"}"#.to_string()));
    assert_eq!(
        plan[6],
        Action::InsertBlockDevice(BlockDeviceConfig::Json(r#"{"drive_id":"b0"}"#.to_string()))
    );
    assert_eq!(
        plan[7],
        Action::InsertBlockDevice(BlockDeviceConfig::Json(r#"{"drive_id":"b1"}"#.to_string()))
    );
    assert_eq!(plan[8], Action::InsertFsDevice(r#"{"tag":"fs0"}"#.to_string()));
    assert_eq!(plan[9], Action::StartMicroVm);
    let (r, _) = run_against_stub(plan);
    assert_eq!(r, Ok(()));
}

#[test]
fn host_device_needs_both_id_and_address() {
    let mut args = create_args();
    args.host_device.hostdev_id = Some("d0".to_string());
    assert_eq!(boot_plan(&args).unwrap().len(), 4);
}

#[test]
fn malformed_device_lists_are_refused() {
    let mut args = create_args();
    args.virnets = "[{".to_string();
    assert_eq!(boot_plan(&args), Err(BootError::MalformedNetConfig));
    let mut args = create_args();
    args.virblks = r#"{"drive_id":"b0"}"#.to_string();
    assert_eq!(boot_plan(&args), Err(BootError::MalformedBlockConfig));
    let mut args = create_args();
    args.fs = "{".to_string();
    assert_eq!(boot_plan(&args), Err(BootError::MalformedFsConfig));
}

#[test]
fn attachments_in_the_plan_are_retried() {
    let plan = boot_plan(&create_args()).unwrap();
    assert!(!plan[0].needs_retry());
    assert!(!plan[1].needs_retry());
    assert!(plan[2].needs_retry());
    assert!(!plan[3].needs_retry());
}
