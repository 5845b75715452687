use vstd::prelude::*;
use vstd::string::StringExecFns;
use crate::args::{HostDeviceArgs, UpdateArgs};
use crate::json::{json_quoted, quoted, strings_view};

verus! {

/// The character for a decimal digit.
pub open spec fn digit_char(d: nat) -> char {
    if d == 0 { '0' }
    else if d == 1 { '1' }
    else if d == 2 { '2' }
    else if d == 3 { '3' }
    else if d == 4 { '4' }
    else if d == 5 { '5' }
    else if d == 6 { '6' }
    else if d == 7 { '7' }
    else if d == 8 { '8' }
    else { '9' }
}

/// The decimal digits of a number, most significant first, with no leading zero.
pub open spec fn decimal(n: nat) -> Seq<char>
    decreases n,
{
    if n < 10 {
        seq![digit_char(n)]
    } else {
        decimal(n / 10) + seq![digit_char(n % 10)]
    }
}

fn digit_str(d: usize) -> (r: &'static str)
    requires
        d < 10,
    ensures
        r@ == seq![digit_char(d as nat)],
{
    proof {
        reveal_strlit("0");
        reveal_strlit("1");
        reveal_strlit("2");
        reveal_strlit("3");
        reveal_strlit("4");
        reveal_strlit("5");
        reveal_strlit("6");
        reveal_strlit("7");
        reveal_strlit("8");
        reveal_strlit("9");
    }
    match d {
        0 => "0",
        1 => "1",
        2 => "2",
        3 => "3",
        4 => "4",
        5 => "5",
        6 => "6",
        7 => "7",
        8 => "8",
        _ => "9",
    }
}

fn append_decimal(s: &mut String, n: usize)
    ensures
        final(s)@ == old(s)@ + decimal(n as nat),
    decreases n,
{
    if n >= 10 {
        append_decimal(s, n / 10);
    }
    s.append(digit_str(n % 10));
}

/// The request that asks for `n` vCPUs.
pub open spec fn cpu_resize_request(n: nat) -> Seq<char> {
    "{\"action\":\"resize_vcpu\",\"vcpu_count\":"@ + decimal(n) + "}"@
}

/// A request that names an action and carries one string member, `key`.
pub open spec fn one_member_request(action: Seq<char>, key: Seq<char>, value: Seq<char>) -> Seq<
    char,
> {
    "{\"action\":\""@ + action + "\",\""@ + key + "\":"@ + json_quoted(value) + "}"@
}

pub open spec fn virtio_net_request(config: Seq<char>) -> Seq<char> {
    one_member_request("insert_virnets"@, "config"@, config)
}

pub open spec fn virtio_blk_request(config: Seq<char>) -> Seq<char> {
    one_member_request("insert_virblks"@, "config"@, config)
}

pub open spec fn patch_fs_request(config: Seq<char>) -> Seq<char> {
    one_member_request("patch_fs"@, "config"@, config)
}

pub open spec fn insert_host_device_request(hostdev_id: Seq<char>, bus_slot_func: Seq<char>) -> Seq<
    char,
> {
    "{\"action\":\"insert_host_device\",\"bus-slot-func\":"@ + json_quoted(bus_slot_func)
        + ",\"hostdev-id\":"@ + json_quoted(hostdev_id) + "}"@
}

pub open spec fn prepare_remove_host_device_request(hostdev_id: Seq<char>) -> Seq<char> {
    one_member_request("prepare_remove_host_device"@, "hostdev-id"@, hostdev_id)
}

pub open spec fn remove_host_device_request(hostdev_id: Seq<char>) -> Seq<char> {
    one_member_request("remove_host_device"@, "hostdev-id"@, hostdev_id)
}

/// The request of an optional update: none when the update was not asked for.
pub open spec fn optional_request(o: Option<String>, f: spec_fn(Seq<char>) -> Seq<char>) -> Seq<
    Seq<char>,
> {
    match o {
        Some(s) => seq![f(s@)],
        None => seq![],
    }
}

/// The host-device request is sent only when a bus/slot/function is given.
pub open spec fn host_device_requests(h: Option<HostDeviceArgs>) -> Seq<Seq<char>> {
    match h {
        Some(h) => match (h.hostdev_id, h.bus_slot_func) {
            (Some(id), Some(bsf)) => seq![insert_host_device_request(id@, bsf@)],
            _ => seq![],
        },
        None => seq![],
    }
}

/// The requests for an update, in the order they are sent: vCPU resize, network devices,
/// block devices, filesystem patch, host device insertion, its preparation for removal, its
/// removal.
pub open spec fn update_requests(args: UpdateArgs) -> Seq<Seq<char>> {
    (match args.vcpu_resize {
        Some(n) => seq![cpu_resize_request(n as nat)],
        None => seq![],
    }) + optional_request(args.virnets, |c: Seq<char>| virtio_net_request(c))
        + optional_request(args.virblks, |c: Seq<char>| virtio_blk_request(c))
        + optional_request(args.patch_fs, |c: Seq<char>| patch_fs_request(c))
        + host_device_requests(args.insert_host_device)
        + optional_request(
        args.prepare_remove_host_device,
        |id: Seq<char>| prepare_remove_host_device_request(id),
    ) + optional_request(args.remove_host_device, |id: Seq<char>| remove_host_device_request(id))
}

pub fn request_cpu_resize(vcpu_resize_num: usize) -> (r: String)
    ensures
        r@ == cpu_resize_request(vcpu_resize_num as nat),
{
    let mut s = String::new();
    s.append("{\"action\":\"resize_vcpu\",\"vcpu_count\":");
    append_decimal(&mut s, vcpu_resize_num);
    s.append("}");
    s
}

fn one_member(action: &str, key: &str, value: &str) -> (r: String)
    ensures
        r@ == one_member_request(action@, key@, value@),
{
    let mut s = String::new();
    s.append("{\"action\":\"");
    s.append(action);
    s.append("\",\"");
    s.append(key);
    s.append("\":");
    let q = quoted(value);
    s.append(q.as_str());
    s.append("}");
    s
}

/// Insert virtio network devices.
pub fn request_virtio_net(net_config: &str) -> (r: String)
    ensures
        r@ == virtio_net_request(net_config@),
{
    one_member("insert_virnets", "config", net_config)
}

/// Insert virtio-blk devices.
pub fn request_virtio_blk(virtio_blk_config: &str) -> (r: String)
    ensures
        r@ == virtio_blk_request(virtio_blk_config@),
{
    one_member("insert_virblks", "config", virtio_blk_config)
}

pub fn request_patch_fs(patch_fs_config: &str) -> (r: String)
    ensures
        r@ == patch_fs_request(patch_fs_config@),
{
    one_member("patch_fs", "config", patch_fs_config)
}

pub fn request_insert_host_device(hostdev_id: &str, bus_slot_func: &str) -> (r: String)
    ensures
        r@ == insert_host_device_request(hostdev_id@, bus_slot_func@),
{
    let mut s = String::new();
    s.append("{\"action\":\"insert_host_device\",\"bus-slot-func\":");
    let q = quoted(bus_slot_func);
    s.append(q.as_str());
    s.append(",\"hostdev-id\":");
    let q = quoted(hostdev_id);
    s.append(q.as_str());
    s.append("}");
    s
}

pub fn request_prepare_remove_host_device(hostdev_id: &str) -> (r: String)
    ensures
        r@ == prepare_remove_host_device_request(hostdev_id@),
{
    one_member("prepare_remove_host_device", "hostdev-id", hostdev_id)
}

pub fn request_remove_host_device(hostdev_id: &str) -> (r: String)
    ensures
        r@ == remove_host_device_request(hostdev_id@),
{
    one_member("remove_host_device", "hostdev-id", hostdev_id)
}

/// The requests that an update sends to the administrative socket, one connection each, in
/// order. A host device is inserted only when its bus/slot/function is given, and then its
/// id must be given too.
pub fn run_api_client(args: &UpdateArgs) -> (r: Vec<String>)
    requires
        args.insert_host_device matches Some(h) ==> (h.bus_slot_func is Some ==> h.hostdev_id is Some),
    ensures
        strings_view(r@) == update_requests(*args),
{
    let mut out: Vec<String> = Vec::new();
    if let Some(n) = args.vcpu_resize {
        out.push(request_cpu_resize(n));
    }
    assert(strings_view(out@) =~= (match args.vcpu_resize {
        Some(n) => seq![cpu_resize_request(n as nat)],
        None => seq![],
    }));
    let ghost before = strings_view(out@);
    if let Some(config) = &args.virnets {
        out.push(request_virtio_net(config.as_str()));
    }
    assert(strings_view(out@) =~= before + optional_request(args.virnets, |c: Seq<char>| virtio_net_request(c)));
    let ghost before = strings_view(out@);
    if let Some(config) = &args.virblks {
        out.push(request_virtio_blk(config.as_str()));
    }
    assert(strings_view(out@) =~= before + optional_request(args.virblks, |c: Seq<char>| virtio_blk_request(c)));
    let ghost before = strings_view(out@);
    if let Some(config) = &args.patch_fs {
        out.push(request_patch_fs(config.as_str()));
    }
    assert(strings_view(out@) =~= before + optional_request(args.patch_fs, |c: Seq<char>| patch_fs_request(c)));
    let ghost before = strings_view(out@);
    if let Some(h) = &args.insert_host_device {
        if let Some(bsf) = &h.bus_slot_func {
            if let Some(id) = &h.hostdev_id {
                out.push(request_insert_host_device(id.as_str(), bsf.as_str()));
            }
        }
    }
    assert(strings_view(out@) =~= before + host_device_requests(args.insert_host_device));
    let ghost before = strings_view(out@);
    if let Some(id) = &args.prepare_remove_host_device {
        out.push(request_prepare_remove_host_device(id.as_str()));
    }
    assert(strings_view(out@) =~= before + optional_request(
        args.prepare_remove_host_device,
        |id: Seq<char>| prepare_remove_host_device_request(id),
    ));
    let ghost before = strings_view(out@);
    if let Some(id) = &args.remove_host_device {
        out.push(request_remove_host_device(id.as_str()));
    }
    assert(strings_view(out@) =~= before + optional_request(args.remove_host_device, |id: Seq<char>| remove_host_device_request(id)));
    out
}

} // verus!
