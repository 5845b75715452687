use dbs_cli::action::{Action, BlockDeviceConfig, HostDeviceConfig, MemDeviceConfig};
use dbs_cli::args::{HostDeviceArgs, UpdateArgs};
use dbs_cli::client::{
    request_cpu_resize, request_insert_host_device, request_patch_fs,
    request_prepare_remove_host_device, request_remove_host_device, request_virtio_blk,
    request_virtio_net, run_api_client,
};
use dbs_cli::protocol::{
    decode_message, decode_wire_command, read_wire_command, DecodeError, Decoded, WireCommand,
};

fn no_update() -> UpdateArgs {
    UpdateArgs {
        vcpu_resize: None,
        virnets: None,
        virblks: None,
        patch_fs: None,
        insert_host_device: None,
        prepare_remove_host_device: None,
        remove_host_device: None,
    }
}

fn host_device(id: Option<&str>, bsf: Option<&str>) -> HostDeviceArgs {
    HostDeviceArgs {
        pci_hotplug_enabled: false,
        hostdev_id: id.map(|s| s.to_string()),
        sysfs_path: None,
        bus_slot_func: bsf.map(|s| s.to_string()),
        vendor_device_id: None,
        guest_dev_id: None,
        clique_id: None,
    }
}

#[test]
fn resize_vcpu_dispatches_one_resize() {
    let r = decode_message(r#"{"action":"resize_vcpu","vcpu_count":4}"#);
    assert_eq!(r, Ok(Decoded::Dispatch(vec![Action::ResizeVcpu(Some(4))])));
}

#[test]
fn resize_vcpu_without_count() {
    let r = decode_message(r#"{"action":"resize_vcpu"}"#);
    assert_eq!(r, Ok(Decoded::Dispatch(vec![Action::ResizeVcpu(None)])));
}

#[test]
fn resize_vcpu_count_is_cut_to_a_byte() {
    let r = decode_message(r#"{"action":"resize_vcpu","vcpu_count":300}"#);
    assert_eq!(r, Ok(Decoded::Dispatch(vec![Action::ResizeVcpu(Some(44))])));
}

#[test]
fn insert_virblks_dispatches_each_element_in_order() {
    let msg = r#"{"action":"insert_virblks","config":"[{\"drive_id\":\"a\"},{\"drive_id\":\"b\"}]"}"#;
    let r = decode_message(msg);
    assert_eq!(
        r,
        Ok(Decoded::Dispatch(vec![
            Action::InsertBlockDevice(BlockDeviceConfig::Json(r#"{"drive_id":"a"}"#.to_string())),
            Action::InsertBlockDevice(BlockDeviceConfig::Json(r#"{"drive_id":"b"}"#.to_string())),
        ]))
    );
}

#[test]
fn insert_virnets_dispatches_each_element() {
    let msg = r#"{"action":"insert_virnets","config":"[{\"iface_id\":\"eth0\"}]"}"#;
    assert_eq!(
        decode_message(msg),
        Ok(Decoded::Dispatch(vec![Action::InsertNetworkDevice(
            r#"{"iface_id":"eth0"}"#.to_string()
        )]))
    );
}

#[test]
fn unknown_action_dispatches_nothing() {
    assert_eq!(decode_message(r#"{"action":"bogus"}"#), Ok(Decoded::Unrecognized));
    assert_eq!(decode_message(r#"{"vcpu_count":4}"#), Ok(Decoded::Unrecognized));
    assert_eq!(decode_message(r#"{"action":7}"#), Ok(Decoded::Unrecognized));
}

#[test]
fn malformed_config_is_a_decode_failure() {
    let msg = r#"{"action":"insert_virblks","config":"[{\"drive_id\":"}"#;
    assert_eq!(decode_message(msg), Err(DecodeError::MalformedConfig));
    let msg = r#"{"action":"insert_virblks","config":"{\"drive_id\":\"a\"}"}"#;
    assert_eq!(decode_message(msg), Err(DecodeError::MalformedConfig));
}

#[test]
fn missing_config_is_a_decode_failure() {
    assert_eq!(decode_message(r#"{"action":"insert_virnets"}"#), Err(DecodeError::MissingConfig));
    assert_eq!(decode_message(r#"{"action":"patch_fs"}"#), Err(DecodeError::MissingConfig));
}

#[test]
fn malformed_message_is_a_decode_failure() {
    assert_eq!(decode_message("not json"), Err(DecodeError::MalformedMessage));
    assert_eq!(decode_message(""), Err(DecodeError::MalformedMessage));
}

#[test]
fn patch_fs_passes_its_config_through() {
    let msg = r#"{"action":"patch_fs","config":"{\"ops\":\"mount\"}"}"#;
    assert_eq!(
        decode_message(msg),
        Ok(Decoded::Dispatch(vec![Action::ManipulateFsBackend(r#"{"ops":"mount"}"#.to_string())]))
    );
    let msg = r#"{"action":"patch_fs","config":"{oops"}"#;
    assert_eq!(decode_message(msg), Err(DecodeError::MalformedConfig));
}

#[test]
fn host_device_actions() {
    let msg = r#"{"action":"insert_host_device","hostdev-id":"d0","bus-slot-func":"0000:00:01.0"}"#;
    assert_eq!(
        decode_message(msg),
        Ok(Decoded::Dispatch(vec![Action::InsertHostDevice(HostDeviceConfig {
            hostdev_id: "d0".to_string(),
            sysfs_path: String::new(),
            bus_slot_func: "0000:00:01.0".to_string(),
            vendor_device_id: 0,
            guest_dev_id: None,
            clique_id: None,
        })]))
    );
    assert_eq!(
        decode_message(r#"{"action":"insert_host_device","bus-slot-func":"x"}"#),
        Err(DecodeError::MissingHostDeviceId)
    );
    assert_eq!(
        decode_message(r#"{"action":"insert_host_device","hostdev-id":"d0"}"#),
        Err(DecodeError::MissingBusSlotFunc)
    );
    assert_eq!(
        decode_message(r#"{"action":"prepare_remove_host_device","hostdev-id":"d0"}"#),
        Ok(Decoded::Dispatch(vec![Action::PrepareRemoveHostDevice("d0".to_string())]))
    );
    assert_eq!(
        decode_message(r#"{"action":"remove_host_device","hostdev-id":"d0"}"#),
        Ok(Decoded::Dispatch(vec![Action::RemoveHostDevice("d0".to_string())]))
    );
    assert_eq!(
        decode_message(r#"{"action":"remove_host_device"}"#),
        Err(DecodeError::MissingHostDeviceId)
    );
}

#[test]
fn hotplug_memory_uses_the_fixed_device_id() {
    assert_eq!(
        decode_message(r#"{"action":"hotplug_memory","size_mib":1024}"#),
        Ok(Decoded::Dispatch(vec![Action::InsertMemoryDevice(MemDeviceConfig {
            mem_id: "virtio-mem0".to_string(),
            size_mib: 1024,
            multi_region: true,
        })]))
    );
    assert_eq!(
        decode_message(r#"{"action":"hotplug_memory"}"#),
        Err(DecodeError::MissingSize)
    );
}

#[test]
fn wire_command_reads_members() {
    let w = read_wire_command(r#"{"action":"a","vcpu_count":3,"config":"c","hostdev-id":"h","bus-slot-func":"b","size_mib":9}"#)
        .unwrap();
    assert_eq!(
        w,
        WireCommand {
            action: Some("a".to_string()),
            vcpu_count: Some(3),
            config: Some("c".to_string()),
            hostdev_id: Some("h".to_string()),
            bus_slot_func: Some("b".to_string()),
            size_mib: Some(9),
        }
    );
    let w = read_wire_command(r#"{"action":1,"vcpu_count":-1}"#).unwrap();
    assert_eq!(w.action, None);
    assert_eq!(w.vcpu_count, None);
    assert_eq!(read_wire_command("[1"), Err(DecodeError::MalformedMessage));
}

#[test]
fn decode_wire_command_on_plain_members() {
    let w = WireCommand {
        action: Some("resize_vcpu".to_string()),
        vcpu_count: Some(8),
        config: None,
        hostdev_id: None,
        bus_slot_func: None,
        size_mib: None,
    };
    assert_eq!(decode_wire_command(&w), Ok(Decoded::Dispatch(vec![Action::ResizeVcpu(Some(8))])));
}

#[test]
fn requests_are_the_wire_format() {
    assert_eq!(request_cpu_resize(4), r#"{"action":"resize_vcpu","vcpu_count":4}"#);
    assert_eq!(request_cpu_resize(0), r#"{"action":"resize_vcpu","vcpu_count":0}"#);
    assert_eq!(request_cpu_resize(1234), r#"{"action":"resize_vcpu","vcpu_count":1234}"#);
    assert_eq!(
        request_virtio_net(r#"[{"iface_id":"eth0"}]"#),
        r#"{"action":"insert_virnets","config":"[{\"iface_id\":\"eth0\"}]"}"#
    );
    assert_eq!(
        request_virtio_blk("[]"),
        r#"{"action":"insert_virblks","config":"[]"}"#
    );
    assert_eq!(request_patch_fs("{}"), r#"{"action":"patch_fs","config":"{}"}"#);
    assert_eq!(
        request_insert_host_device("d0", "0000:00:01.0"),
        r#"{"action":"insert_host_device","bus-slot-func":"0000:00:01.0","hostdev-id":"d0"}"#
    );
    assert_eq!(
        request_prepare_remove_host_device("d0"),
        r#"{"action":"prepare_remove_host_device","hostdev-id":"d0"}"#
    );
    assert_eq!(
        request_remove_host_device("d0"),
        r#"{"action":"remove_host_device","hostdev-id":"d0"}"#
    );
}

#[test]
fn request_strings_are_escaped() {
    assert_eq!(
        request_patch_fs("a\"b\\c\nd\u{1}e\u{1f}é"),
        "{\"action\":\"patch_fs\",\"config\":\"a\\\"b\\\\c\\nd\\u0001e\\u001fé\"}"
    );
}

#[test]
fn requests_decode_back_to_their_actions() {
    let net = r#"[{"iface_id":"eth0"},{"iface_id":"eth1"}]"#;
    assert_eq!(
        decode_message(&request_virtio_net(net)),
        Ok(Decoded::Dispatch(vec![
            Action::InsertNetworkDevice(r#"{"iface_id":"eth0"}"#.to_string()),
            Action::InsertNetworkDevice(r#"{"iface_id":"eth1"}"#.to_string()),
        ]))
    );
    assert_eq!(
        decode_message(&request_cpu_resize(3)),
        Ok(Decoded::Dispatch(vec![Action::ResizeVcpu(Some(3))]))
    );
}

#[test]
fn update_sends_requests_in_order() {
    let mut args = no_update();
    assert_eq!(run_api_client(&args), Vec::<String>::new());
    args.vcpu_resize = Some(2);
    args.patch_fs = Some("{}".to_string());
    args.remove_host_device = Some("d1".to_string());
    args.insert_host_device = Some(host_device(Some("d0"), Some("0000:00:02.0")));
    assert_eq!(
        run_api_client(&args),
        vec![
            r#"{"action":"resize_vcpu","vcpu_count":2}"#.to_string(),
            r#"{"action":"patch_fs","config":"{}"}"#.to_string(),
            r#"{"action":"insert_host_device","bus-slot-func":"0000:00:02.0","hostdev-id":"d0"}"#
                .to_string(),
            r#"{"action":"remove_host_device","hostdev-id":"d1"}"#.to_string(),
        ]
    );
}

#[test]
fn host_device_without_bus_slot_func_is_not_sent() {
    let mut args = no_update();
    args.insert_host_device = Some(host_device(Some("d0"), None));
    assert_eq!(run_api_client(&args), Vec::<String>::new());
}
