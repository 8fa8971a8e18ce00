//! What the bridge does with the outcome of each read, and where it sends
//! each write.

use crate::api::{RegisterUpdate, WriteRequest, WriteRequestView};
use crate::config::{
    device_with_id, find_device, DeviceConfig, DeviceConfigView, RegisterConfig,
    RegisterConfigView, RegisterType,
};
use crate::modbus::reader::{RegisterValue, RegisterValueView};
use crate::modbus::store::{committed, lookup, RegisterStore, StoreView};
use crate::timestamp::Timestamp;
use vstd::prelude::*;

verus! {

broadcast use vstd::string::group_string_axioms;

/// Depth of the queue of write requests.
pub const WRITE_QUEUE_DEPTH: usize = 100;

/// Takes a successful read into the bridge: commits the value to the store
/// and returns the update to publish on the bus.
///
/// `value` is the calibrated engineering value as binary64 bits, `now` the
/// instant the read completed.
pub fn apply_read(
    store: &mut RegisterStore,
    device_id: &str,
    register: &RegisterConfig,
    raw: Vec<u16>,
    value: u64,
    now: Timestamp,
) -> (update: RegisterUpdate)
    ensures
        final(store)@ == committed(
            old(store)@,
            device_id@,
            RegisterValue::of_read(register.deep_view(), raw@, value, now),
        ),
        update.deep_view() == RegisterUpdate::announcing(
            device_id@,
            RegisterValue::of_read(register.deep_view(), raw@, value, now),
        ),
{
    let read = RegisterValue::from_read(register, raw, value, now);
    let update = RegisterUpdate::from_value(device_id, &read);
    store.commit(device_id, read);
    update
}

/// The store after the successful reads of a cycle are committed in order.
pub open spec fn after_reads(store: StoreView, device_id: Seq<char>, reads: Seq<RegisterValueView>) -> StoreView
    decreases reads.len(),
{
    if reads.len() == 0 {
        store
    } else {
        committed(after_reads(store, device_id, reads.drop_last()), device_id, reads.last())
    }
}

/// The reads carry timestamps in the order they were made.
pub open spec fn in_time_order(reads: Seq<RegisterValueView>) -> bool {
    forall|i: int, j: int|
        0 <= i <= j < reads.len() ==> (#[trigger] reads[i]).timestamp.not_after(
            (#[trigger] reads[j]).timestamp,
        )
}

/// No read is stamped earlier than the value the store holds for its
/// register.
pub open spec fn not_before_store(store: StoreView, device_id: Seq<char>, reads: Seq<RegisterValueView>) -> bool {
    forall|i: int|
        0 <= i < reads.len() ==> (lookup(store, device_id, (#[trigger] reads[i]).name) matches Some(
            held,
        ) ==> held.timestamp.not_after(reads[i].timestamp))
}

/// Over a cycle, each register either keeps its value or takes the value of
/// one of the cycle's reads, stamped no earlier than the value it replaces.
/// Failed reads commit nothing, so they leave the last good value in place.
/// Registers of other devices are untouched.
///
/// This needs a clock that does not run backwards: the reads are stamped in
/// order and none is stamped before the value already held.
pub proof fn lemma_cycle_replaces_or_keeps(
    store: StoreView,
    device_id: Seq<char>,
    reads: Seq<RegisterValueView>,
    other_device: Seq<char>,
    name: Seq<char>,
)
    requires
        in_time_order(reads),
        not_before_store(store, device_id, reads),
    ensures
        other_device != device_id ==> lookup(
            after_reads(store, device_id, reads),
            other_device,
            name,
        ) == lookup(store, other_device, name),
        lookup(after_reads(store, device_id, reads), device_id, name) == lookup(
            store,
            device_id,
            name,
        ) || (exists|i: int|
            0 <= i < reads.len() && (#[trigger] reads[i]).name == name && lookup(
                after_reads(store, device_id, reads),
                device_id,
                name,
            ) == Some(reads[i]) && (lookup(store, device_id, name) matches Some(held)
                ==> held.timestamp.not_after(reads[i].timestamp))),
    decreases reads.len(),
{
    if reads.len() > 0 {
        let earlier = reads.drop_last();
        let last = reads.last();
        assert forall|i: int, j: int| 0 <= i <= j < earlier.len() implies (
        #[trigger] earlier[i]).timestamp.not_after((#[trigger] earlier[j]).timestamp) by {
            assert(reads[i].timestamp.not_after(reads[j].timestamp));
        }
        assert forall|i: int| 0 <= i < earlier.len() implies (lookup(
            store,
            device_id,
            (#[trigger] earlier[i]).name,
        ) matches Some(held) ==> held.timestamp.not_after(earlier[i].timestamp)) by {
            assert(earlier[i] == reads[i]);
        }
        lemma_cycle_replaces_or_keeps(store, device_id, earlier, other_device, name);
        let before = after_reads(store, device_id, earlier);
        if name == last.name {
            let i = reads.len() - 1;
            assert(reads[i].name == name);
            assert(lookup(after_reads(store, device_id, reads), device_id, name) == Some(reads[i]));
        } else {
            assert(lookup(after_reads(store, device_id, reads), device_id, name) == lookup(
                before,
                device_id,
                name,
            ));
            if lookup(before, device_id, name) != lookup(store, device_id, name) {
                let i = choose|i: int|
                    0 <= i < earlier.len() && (#[trigger] earlier[i]).name == name && lookup(
                        before,
                        device_id,
                        name,
                    ) == Some(earlier[i]) && (lookup(store, device_id, name) matches Some(held)
                        ==> held.timestamp.not_after(earlier[i].timestamp));
                assert(reads[i] == earlier[i]);
            }
        }
    }
}

/// Why the write coordinator turns a request down.
pub open spec fn unknown_device() -> Seq<char> {
    "device not found"@
}

pub open spec fn unknown_address() -> Seq<char> {
    "address is not a holding register of the device"@
}

/// The register is a holding register whose words include the address.
pub open spec fn covers(register: RegisterConfigView, address: u16) -> bool {
    &&& register.register_type == RegisterType::Holding
    &&& register.address <= address < register.address + register.count
}

/// Some register of the device is a holding register at the address.
pub open spec fn writable_at(device: DeviceConfigView, address: u16) -> bool {
    exists|k: int| 0 <= k < device.registers.len() && covers(#[trigger] device.registers[k], address)
}

/// Where a write request goes: to the session of the first device with the
/// request's id, provided the address is a holding register of that device.
pub open spec fn routed(devices: Seq<DeviceConfigView>, request: WriteRequestView) -> Result<
    DeviceConfigView,
    Seq<char>,
> {
    match device_with_id(devices, request.device_id) {
        None => Err(unknown_device()),
        Some(device) => if writable_at(device, request.address) {
            Ok(device)
        } else {
            Err(unknown_address())
        },
    }
}

fn is_writable_at(device: &DeviceConfig, address: u16) -> (writable: bool)
    ensures
        writable == writable_at(device.deep_view(), address),
{
    let ghost shown = device.deep_view().registers;
    let mut k: usize = 0;
    while k < device.registers.len()
        invariant
            k <= device.registers.len(),
            shown == device.registers.deep_view(),
            forall|j: int| 0 <= j < k ==> !covers(#[trigger] shown[j], address),
        decreases device.registers.len() - k,
    {
        let register = &device.registers[k];
        let holding = match register.register_type {
            RegisterType::Holding => true,
            _ => false,
        };
        if holding && register.address <= address && (address as u32) < register.address as u32
            + register.count as u32 {
            assert(covers(device.deep_view().registers[k as int], address));
            return true;
        }
        k += 1;
    }
    false
}

/// Decides one write request: the position of the device whose session gets
/// it, or the reason it is turned down.
pub fn route_write(devices: &Vec<DeviceConfig>, request: &WriteRequest) -> (route: Result<
    usize,
    String,
>)
    ensures
        match route {
            Ok(i) => i < devices.len() && routed(devices.deep_view(), request.deep_view()) == Ok::<
                DeviceConfigView,
                Seq<char>,
            >(devices[i as int].deep_view()),
            Err(reason) => routed(devices.deep_view(), request.deep_view()) == Err::<
                DeviceConfigView,
                Seq<char>,
            >(reason@),
        },
{
    match find_device(devices, request.device_id.as_str()) {
        None => Err("device not found".to_string()),
        Some(i) => {
            if is_writable_at(&devices[i], request.address) {
                Ok(i)
            } else {
                Err("address is not a holding register of the device".to_string())
            }
        },
    }
}

} // verus!
