use vstd::prelude::*;
use crate::action::{
    actions_view, opt_view, Action, ActionView, BlockDeviceConfig, BlockDeviceConfigView,
    HostDeviceConfig, HostDeviceConfigView, MemDeviceConfig, MemDeviceConfigView,
};
use crate::json::{
    array_elements, is_json, json_array_elements, json_string_member, json_u64_member,
    parses_as_json, string_member, strings_view, u64_member,
};

verus! {

/// The members of an administrative command that the decoder reads, as plain values.
#[derive(Debug, Clone, PartialEq, Eq)]
pub struct WireCommand {
    pub action: Option<String>,
    pub vcpu_count: Option<u64>,
    pub config: Option<String>,
    pub hostdev_id: Option<String>,
    pub bus_slot_func: Option<String>,
    pub size_mib: Option<u64>,
}

pub struct WireCommandView {
    pub action: Option<Seq<char>>,
    pub vcpu_count: Option<u64>,
    pub config: Option<Seq<char>>,
    pub hostdev_id: Option<Seq<char>>,
    pub bus_slot_func: Option<Seq<char>>,
    pub size_mib: Option<u64>,
}

impl View for WireCommand {
    type V = WireCommandView;

    open spec fn view(&self) -> WireCommandView {
        WireCommandView {
            action: opt_view(self.action),
            vcpu_count: self.vcpu_count,
            config: opt_view(self.config),
            hostdev_id: opt_view(self.hostdev_id),
            bus_slot_func: opt_view(self.bus_slot_func),
            size_mib: self.size_mib,
        }
    }
}

/// What a decoded command asks for.
#[derive(Debug, PartialEq, Eq)]
pub enum Decoded {
    /// The `action` member is missing or names no known action: nothing is dispatched.
    Unrecognized,
    /// These actions, in this order.
    Dispatch(Vec<Action>),
}

/// Why a command could not be decoded.
#[derive(Debug, Clone, Copy, PartialEq, Eq)]
pub enum DecodeError {
    /// The message is not JSON.
    MalformedMessage,
    /// The action needs a `config` string and there is none.
    MissingConfig,
    /// The `config` string is not the JSON the action needs.
    MalformedConfig,
    /// The action needs a `hostdev-id` string and there is none.
    MissingHostDeviceId,
    /// The action needs a `bus-slot-func` string and there is none.
    MissingBusSlotFunc,
    /// The action needs a `size_mib` number and there is none.
    MissingSize,
}

/// The id under which memory is hot-plugged.
pub open spec fn hotplug_mem_id() -> Seq<char> {
    "virtio-mem0"@
}

/// The views of what a decode returns: `None` for an unrecognized command.
pub open spec fn decoded_view(r: Result<Decoded, DecodeError>) -> Result<
    Option<Seq<ActionView>>,
    DecodeError,
> {
    match r {
        Ok(Decoded::Unrecognized) => Ok(None),
        Ok(Decoded::Dispatch(v)) => Ok(Some(actions_view(v@))),
        Err(e) => Err(e),
    }
}

pub open spec fn net_device_views(items: Seq<Seq<char>>) -> Seq<ActionView> {
    items.map_values(|c: Seq<char>| ActionView::InsertNetworkDevice(c))
}

pub open spec fn block_device_views(items: Seq<Seq<char>>) -> Seq<ActionView> {
    items.map_values(
        |c: Seq<char>| ActionView::InsertBlockDevice(BlockDeviceConfigView::Json(c)),
    )
}

/// The actions for a batch of devices given as a JSON array in `config`.
pub open spec fn batch_spec(config: Option<Seq<char>>, block: bool) -> Result<
    Option<Seq<ActionView>>,
    DecodeError,
> {
    match config {
        None => Err(DecodeError::MissingConfig),
        Some(c) => match json_array_elements(c) {
            None => Err(DecodeError::MalformedConfig),
            Some(items) => Ok(
                Some(
                    if block {
                        block_device_views(items)
                    } else {
                        net_device_views(items)
                    },
                ),
            ),
        },
    }
}

/// What a command's members ask for. A `vcpu_count` above 255 keeps its low byte, as a cast
/// to `u8` does. The batch and filesystem-patch actions require their `config` member: one
/// without it is refused with `MissingConfig`, not taken as a no-op, so that a client's
/// mistake is reported rather than silently ignored.
pub open spec fn decode_spec(w: WireCommandView) -> Result<Option<Seq<ActionView>>, DecodeError> {
    match w.action {
        None => Ok(None),
        Some(a) => if a == "resize_vcpu"@ {
            Ok(
                Some(
                    seq![
                        ActionView::ResizeVcpu(
                            match w.vcpu_count {
                                Some(n) => Some((n % 256) as u8),
                                None => None,
                            },
                        ),
                    ],
                ),
            )
        } else if a == "insert_virnets"@ {
            batch_spec(w.config, false)
        } else if a == "insert_virblks"@ {
            batch_spec(w.config, true)
        } else if a == "patch_fs"@ {
            match w.config {
                None => Err(DecodeError::MissingConfig),
                Some(c) => if is_json(c) {
                    Ok(Some(seq![ActionView::ManipulateFsBackend(c)]))
                } else {
                    Err(DecodeError::MalformedConfig)
                },
            }
        } else if a == "insert_host_device"@ {
            match (w.hostdev_id, w.bus_slot_func) {
                (None, _) => Err(DecodeError::MissingHostDeviceId),
                (Some(_), None) => Err(DecodeError::MissingBusSlotFunc),
                (Some(id), Some(bsf)) => Ok(
                    Some(
                        seq![
                            ActionView::InsertHostDevice(
                                HostDeviceConfigView {
                                    hostdev_id: id,
                                    sysfs_path: Seq::empty(),
                                    bus_slot_func: bsf,
                                    vendor_device_id: 0,
                                    guest_dev_id: None,
                                    clique_id: None,
                                },
                            ),
                        ],
                    ),
                ),
            }
        } else if a == "prepare_remove_host_device"@ {
            match w.hostdev_id {
                None => Err(DecodeError::MissingHostDeviceId),
                Some(id) => Ok(Some(seq![ActionView::PrepareRemoveHostDevice(id)])),
            }
        } else if a == "remove_host_device"@ {
            match w.hostdev_id {
                None => Err(DecodeError::MissingHostDeviceId),
                Some(id) => Ok(Some(seq![ActionView::RemoveHostDevice(id)])),
            }
        } else if a == "hotplug_memory"@ {
            match w.size_mib {
                None => Err(DecodeError::MissingSize),
                Some(n) => Ok(
                    Some(
                        seq![
                            ActionView::InsertMemoryDevice(
                                MemDeviceConfigView {
                                    mem_id: hotplug_mem_id(),
                                    size_mib: n,
                                    multi_region: true,
                                },
                            ),
                        ],
                    ),
                ),
            }
        } else {
            Ok(None)
        },
    }
}

/// The members that the decoder reads from a message, as serde_json finds them.
pub open spec fn wire_view_of(text: Seq<char>) -> WireCommandView {
    WireCommandView {
        action: json_string_member(text, "action"@),
        vcpu_count: json_u64_member(text, "vcpu_count"@),
        config: json_string_member(text, "config"@),
        hostdev_id: json_string_member(text, "hostdev-id"@),
        bus_slot_func: json_string_member(text, "bus-slot-func"@),
        size_mib: json_u64_member(text, "size_mib"@),
    }
}

/// What a whole message asks for.
pub open spec fn decode_message_spec(text: Seq<char>) -> Result<
    Option<Seq<ActionView>>,
    DecodeError,
> {
    if is_json(text) {
        decode_spec(wire_view_of(text))
    } else {
        Err(DecodeError::MalformedMessage)
    }
}

fn is_literal(s: &String, lit: &str) -> (r: bool)
    ensures
        r == (s@ == lit@),
{
    *s == lit.to_owned()
}

/// One network device per configuration, in order.
pub fn net_devices(items: &Vec<String>) -> (r: Vec<Action>)
    ensures
        actions_view(r@) == net_device_views(strings_view(items@)),
{
    let mut out: Vec<Action> = Vec::new();
    let mut i: usize = 0;
    while i < items.len()
        invariant
            i <= items.len(),
            out@.len() == i,
            forall|j: int| 0 <= j < i ==> (#[trigger] out@[j])@ == ActionView::InsertNetworkDevice(items@[j]@),
        decreases items.len() - i,
    {
        out.push(Action::InsertNetworkDevice(items[i].clone()));
        i = i + 1;
    }
    assert(actions_view(out@) =~= net_device_views(strings_view(items@)));
    out
}

/// One block device per JSON configuration, in order.
pub fn block_devices(items: &Vec<String>) -> (r: Vec<Action>)
    ensures
        actions_view(r@) == block_device_views(strings_view(items@)),
{
    let mut out: Vec<Action> = Vec::new();
    let mut i: usize = 0;
    while i < items.len()
        invariant
            i <= items.len(),
            out@.len() == i,
            forall|j: int| 0 <= j < i ==> (#[trigger] out@[j])@ == ActionView::InsertBlockDevice(BlockDeviceConfigView::Json(items@[j]@)),
        decreases items.len() - i,
    {
        out.push(Action::InsertBlockDevice(BlockDeviceConfig::Json(items[i].clone())));
        i = i + 1;
    }
    assert(actions_view(out@) =~= block_device_views(strings_view(items@)));
    out
}

fn decode_batch(config: &Option<String>, block: bool) -> (r: Result<Decoded, DecodeError>)
    ensures
        decoded_view(r) == batch_spec(opt_view(*config), block),
{
    match config {
        None => Err(DecodeError::MissingConfig),
        Some(c) => match array_elements(c.as_str()) {
            None => Err(DecodeError::MalformedConfig),
            Some(items) => if block {
                Ok(Decoded::Dispatch(block_devices(&items)))
            } else {
                Ok(Decoded::Dispatch(net_devices(&items)))
            },
        },
    }
}

fn single(a: Action) -> (r: Result<Decoded, DecodeError>)
    ensures
        decoded_view(r) == Ok::<Option<Seq<ActionView>>, DecodeError>(Some(seq![a@])),
{
    let mut v: Vec<Action> = Vec::new();
    v.push(a);
    assert(actions_view(v@) =~= seq![a@]);
    Ok(Decoded::Dispatch(v))
}

/// Maps a command's members to the actions it asks for. A missing or unknown `action` asks
/// for nothing; a missing required member, or a `config` that is not the JSON the action
/// needs, is an error and asks for nothing either.
pub fn decode_wire_command(w: &WireCommand) -> (r: Result<Decoded, DecodeError>)
    ensures
        decoded_view(r) == decode_spec(w@),
{
    let a = match &w.action {
        None => {
            return Ok(Decoded::Unrecognized);
        },
        Some(a) => a,
    };
    if is_literal(a, "resize_vcpu") {
        let n = match w.vcpu_count {
            Some(n) => Some((n % 256) as u8),
            None => None,
        };
        single(Action::ResizeVcpu(n))
    } else if is_literal(a, "insert_virnets") {
        decode_batch(&w.config, false)
    } else if is_literal(a, "insert_virblks") {
        decode_batch(&w.config, true)
    } else if is_literal(a, "patch_fs") {
        match &w.config {
            None => Err(DecodeError::MissingConfig),
            Some(c) => if parses_as_json(c.as_str()) {
                single(Action::ManipulateFsBackend(c.clone()))
            } else {
                Err(DecodeError::MalformedConfig)
            },
        }
    } else if is_literal(a, "insert_host_device") {
        match (&w.hostdev_id, &w.bus_slot_func) {
            (None, _) => Err(DecodeError::MissingHostDeviceId),
            (Some(_), None) => Err(DecodeError::MissingBusSlotFunc),
            (Some(id), Some(bsf)) => single(
                Action::InsertHostDevice(
                    HostDeviceConfig {
                        hostdev_id: id.clone(),
                        sysfs_path: String::new(),
                        bus_slot_func: bsf.clone(),
                        vendor_device_id: 0,
                        guest_dev_id: None,
                        clique_id: None,
                    },
                ),
            ),
        }
    } else if is_literal(a, "prepare_remove_host_device") {
        match &w.hostdev_id {
            None => Err(DecodeError::MissingHostDeviceId),
            Some(id) => single(Action::PrepareRemoveHostDevice(id.clone())),
        }
    } else if is_literal(a, "remove_host_device") {
        match &w.hostdev_id {
            None => Err(DecodeError::MissingHostDeviceId),
            Some(id) => single(Action::RemoveHostDevice(id.clone())),
        }
    } else if is_literal(a, "hotplug_memory") {
        match w.size_mib {
            None => Err(DecodeError::MissingSize),
            Some(n) => single(
                Action::InsertMemoryDevice(
                    MemDeviceConfig { mem_id: "virtio-mem0".to_owned(), size_mib: n, multi_region: true },
                ),
            ),
        }
    } else {
        Ok(Decoded::Unrecognized)
    }
}

/// Reads the members that the decoder needs from a message; fails when it is not JSON.
pub fn read_wire_command(message: &str) -> (r: Result<WireCommand, DecodeError>)
    ensures
        !is_json(message@) ==> r == Err::<WireCommand, DecodeError>(DecodeError::MalformedMessage),
        is_json(message@) ==> (r matches Ok(w) && w@ == wire_view_of(message@)),
{
    if !parses_as_json(message) {
        return Err(DecodeError::MalformedMessage);
    }
    Ok(
        WireCommand {
            action: string_member(message, "action"),
            vcpu_count: u64_member(message, "vcpu_count"),
            config: string_member(message, "config"),
            hostdev_id: string_member(message, "hostdev-id"),
            bus_slot_func: string_member(message, "bus-slot-func"),
            size_mib: u64_member(message, "size_mib"),
        },
    )
}

/// Decodes one administrative message, a JSON object, into the actions it asks for.
pub fn decode_message(message: &str) -> (r: Result<Decoded, DecodeError>)
    ensures
        decoded_view(r) == decode_message_spec(message@),
{
    match read_wire_command(message) {
        Ok(w) => decode_wire_command(&w),
        Err(e) => Err(e),
    }
}

} // verus!
