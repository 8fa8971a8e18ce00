//! The register store: for each device, the latest value of each register.

use crate::assoc::{
    as_map, distinct_keys, has_key, index_of, lemma_entry_in_map, lemma_map_size,
    lemma_push_fresh, lemma_replace_value,
};
use crate::modbus::reader::{RegisterValue, RegisterValueView};
use crate::text::str_eq;
use crate::timestamp::Timestamp;
use vstd::prelude::*;

verus! {

broadcast use vstd::string::group_string_axioms;

/// The registers of one device, by name.
pub type RegisterMap = Map<Seq<char>, RegisterValueView>;

/// The contents of a store: device id to registers.
pub type StoreView = Map<Seq<char>, RegisterMap>;

/// A sequence of register values, each listed under its name.
pub open spec fn by_name(registers: Seq<RegisterValueView>) -> Seq<(Seq<char>, RegisterValueView)> {
    Seq::new(registers.len(), |i: int| (registers[i].name, registers[i]))
}

/// No two values of the sequence share a name.
pub open spec fn distinct_names(registers: Seq<RegisterValueView>) -> bool {
    distinct_keys(by_name(registers))
}

/// The map from register name to value that a sequence of values stands for.
pub open spec fn register_map(registers: Seq<RegisterValueView>) -> RegisterMap {
    as_map(by_name(registers))
}

/// The store after a value is committed for a device: the value stands under
/// its name among the device's registers, everything else is as before.
pub open spec fn committed(store: StoreView, device_id: Seq<char>, value: RegisterValueView) -> StoreView {
    let before = if store.dom().contains(device_id) {
        store[device_id]
    } else {
        Map::empty()
    };
    store.insert(device_id, before.insert(value.name, value))
}

/// What a lookup of one register finds.
pub open spec fn lookup(store: StoreView, device_id: Seq<char>, name: Seq<char>) -> Option<RegisterValueView> {
    if store.dom().contains(device_id) && store[device_id].dom().contains(name) {
        Some(store[device_id][name])
    } else {
        None
    }
}

/// `latest` is the newest timestamp among the registers.
pub open spec fn is_latest(registers: RegisterMap, latest: Timestamp) -> bool {
    &&& exists|name: Seq<char>| #[trigger]
        registers.dom().contains(name) && registers[name].timestamp == latest
    &&& forall|name: Seq<char>| #[trigger]
        registers.dom().contains(name) ==> registers[name].timestamp.not_after(latest)
}

struct DeviceRegisters {
    id: String,
    registers: Vec<RegisterValue>,
}

spec fn by_id(devices: Seq<DeviceRegisters>) -> Seq<(Seq<char>, RegisterMap)> {
    Seq::new(
        devices.len(),
        |i: int| (devices[i].id@, register_map(devices[i].registers.deep_view())),
    )
}

spec fn well_formed(devices: Seq<DeviceRegisters>) -> bool {
    &&& distinct_keys(by_id(devices))
    &&& forall|i: int|
        0 <= i < devices.len() ==> distinct_names(
            (#[trigger] devices[i]).registers.deep_view(),
        ) && devices[i].registers.len() > 0
}

/// Why a lookup found nothing.
#[derive(Debug, Clone, Copy, PartialEq, Eq, Structural)]
pub enum Missing {
    Device,
    Register,
}

/// One line of the device listing.
#[derive(Debug)]
pub struct DeviceSummary {
    pub id: String,
    pub register_count: usize,
    pub last_update: Option<Timestamp>,
}

/// In-memory store of the latest register values.
pub struct RegisterStore {
    devices: Vec<DeviceRegisters>,
}

impl View for RegisterStore {
    type V = StoreView;

    closed spec fn view(&self) -> StoreView {
        as_map(by_id(self.devices@))
    }
}

fn find_register(registers: &Vec<RegisterValue>, name: &str) -> (found: Option<usize>)
    ensures
        match found {
            Some(i) => i < registers.len() && registers[i as int].name@ == name@,
            None => !has_key(by_name(registers.deep_view()), name@),
        },
{
    let mut i: usize = 0;
    while i < registers.len()
        invariant
            i <= registers.len(),
            forall|j: int| 0 <= j < i ==> registers[j].name@ != name@,
        decreases registers.len() - i,
    {
        if str_eq(registers[i].name.as_str(), name) {
            return Some(i);
        }
        i += 1;
    }
    proof {
        let entries = by_name(registers.deep_view());
        if has_key(entries, name@) {
            let j = index_of(entries, name@);
            assert(registers[j].name@ == name@);
        }
    }
    None
}

fn find_device(devices: &Vec<DeviceRegisters>, device_id: &str) -> (found: Option<usize>)
    ensures
        match found {
            Some(i) => i < devices.len() && devices[i as int].id@ == device_id@,
            None => !has_key(by_id(devices@), device_id@),
        },
{
    let mut i: usize = 0;
    while i < devices.len()
        invariant
            i <= devices.len(),
            forall|j: int| 0 <= j < i ==> devices[j].id@ != device_id@,
        decreases devices.len() - i,
    {
        if str_eq(devices[i].id.as_str(), device_id) {
            return Some(i);
        }
        i += 1;
    }
    proof {
        let entries = by_id(devices@);
        if has_key(entries, device_id@) {
            let j = index_of(entries, device_id@);
            assert(devices[j].id@ == device_id@);
        }
    }
    None
}

proof fn lemma_registers_pushed(registers: Seq<RegisterValueView>, value: RegisterValueView)
    requires
        distinct_names(registers),
        !has_key(by_name(registers), value.name),
    ensures
        distinct_names(registers.push(value)),
        register_map(registers.push(value)) == register_map(registers).insert(value.name, value),
{
    lemma_push_fresh(by_name(registers), value.name, value);
    assert(by_name(registers.push(value)) =~= by_name(registers).push((value.name, value)));
}

proof fn lemma_registers_replaced(
    registers: Seq<RegisterValueView>,
    k: int,
    value: RegisterValueView,
)
    requires
        distinct_names(registers),
        0 <= k < registers.len(),
        registers[k].name == value.name,
    ensures
        distinct_names(registers.update(k, value)),
        register_map(registers.update(k, value)) == register_map(registers).insert(
            value.name,
            value,
        ),
{
    lemma_replace_value(by_name(registers), k, value);
    assert(by_name(registers.update(k, value)) =~= by_name(registers).update(
        k,
        (value.name, value),
    ));
}

proof fn lemma_device_added(
    devices: Seq<DeviceRegisters>,
    entry: DeviceRegisters,
    value: RegisterValueView,
)
    requires
        well_formed(devices),
        !has_key(by_id(devices), entry.id@),
        entry.registers.deep_view() == seq![value],
    ensures
        well_formed(devices.push(entry)),
        as_map(by_id(devices.push(entry))) == committed(as_map(by_id(devices)), entry.id@, value),
{
    let none = Seq::<RegisterValueView>::empty();
    assert(by_name(none) =~= Seq::empty());
    assert(register_map(none) =~= Map::empty());
    assert(!has_key(by_name(none), value.name));
    lemma_registers_pushed(none, value);
    assert(none.push(value) =~= seq![value]);
    let registers = register_map(seq![value]);
    lemma_push_fresh(by_id(devices), entry.id@, registers);
    assert(by_id(devices.push(entry)) =~= by_id(devices).push((entry.id@, registers)));
    let grown = devices.push(entry);
    assert forall|i: int| 0 <= i < grown.len() implies distinct_names(
        (#[trigger] grown[i]).registers.deep_view(),
    ) && grown[i].registers.len() > 0 by {
        if i < devices.len() {
            assert(grown[i] == devices[i]);
        } else {
            assert(entry.registers.deep_view().len() == 1);
        }
    }
}

proof fn lemma_device_changed(
    devices: Seq<DeviceRegisters>,
    i: int,
    entry: DeviceRegisters,
    value: RegisterValueView,
)
    requires
        well_formed(devices),
        0 <= i < devices.len(),
        entry.id@ == devices[i].id@,
        distinct_names(entry.registers.deep_view()),
        register_map(entry.registers.deep_view()) == register_map(
            devices[i].registers.deep_view(),
        ).insert(value.name, value),
        entry.registers.len() > 0,
    ensures
        well_formed(devices.update(i, entry)),
        as_map(by_id(devices.update(i, entry))) == committed(
            as_map(by_id(devices)),
            entry.id@,
            value,
        ),
{
    let registers = register_map(entry.registers.deep_view());
    lemma_replace_value(by_id(devices), i, registers);
    lemma_entry_in_map(by_id(devices), i);
    assert(by_id(devices.update(i, entry)) =~= by_id(devices).update(i, (entry.id@, registers)));
    let changed = devices.update(i, entry);
    assert forall|j: int| 0 <= j < changed.len() implies distinct_names(
        (#[trigger] changed[j]).registers.deep_view(),
    ) && changed[j].registers.len() > 0 by {
        if j != i {
            assert(changed[j] == devices[j]);
        }
    }
}

fn latest_timestamp(registers: &Vec<RegisterValue>) -> (latest: Timestamp)
    requires
        registers.len() > 0,
    ensures
        exists|k: int| 0 <= k < registers.len() && (#[trigger] registers[k]).timestamp == latest,
        forall|k: int|
            0 <= k < registers.len() ==> (#[trigger] registers[k]).timestamp.not_after(latest),
{
    let mut latest = registers[0].timestamp;
    let mut i: usize = 1;
    while i < registers.len()
        invariant
            1 <= i <= registers.len(),
            exists|k: int| 0 <= k < i && (#[trigger] registers[k]).timestamp == latest,
            forall|k: int| 0 <= k < i ==> (#[trigger] registers[k]).timestamp.not_after(latest),
        decreases registers.len() - i,
    {
        if !registers[i].timestamp.is_not_after(&latest) {
            latest = registers[i].timestamp;
        }
        i += 1;
    }
    latest
}

proof fn lemma_latest_of_map(registers: Seq<RegisterValueView>, latest: Timestamp)
    requires
        distinct_names(registers),
        exists|k: int| 0 <= k < registers.len() && (#[trigger] registers[k]).timestamp == latest,
        forall|k: int|
            0 <= k < registers.len() ==> (#[trigger] registers[k]).timestamp.not_after(latest),
    ensures
        is_latest(register_map(registers), latest),
{
    let entries = by_name(registers);
    let k = choose|k: int| 0 <= k < registers.len() && (#[trigger] registers[k]).timestamp == latest;
    lemma_entry_in_map(entries, k);
    assert(register_map(registers).dom().contains(registers[k].name) && register_map(
        registers,
    )[registers[k].name].timestamp == latest);
    assert forall|name: Seq<char>| #[trigger]
        register_map(registers).dom().contains(name) implies register_map(
        registers,
    )[name].timestamp.not_after(latest) by {
        let j = index_of(entries, name);
        assert(entries[j].1 == registers[j]);
    }
}

impl RegisterStore {
    #[verifier::type_invariant]
    spec fn wf(self) -> bool {
        well_formed(self.devices@)
    }

    /// An empty store.
    pub fn new() -> (store: Self)
        ensures
            store@ == StoreView::empty(),
    {
        let store = RegisterStore { devices: Vec::new() };
        assert(by_id(store.devices@) =~= Seq::empty());
        assert(store@ =~= StoreView::empty());
        store
    }

    /// Stores a value as the latest of its register on the device, replacing
    /// the one held under the same name, if any.
    pub fn commit(&mut self, device_id: &str, value: RegisterValue)
        ensures
            final(self)@ == committed(old(self)@, device_id@, value.deep_view()),
    {
        proof {
            use_type_invariant(&*self);
        }
        let mut devices: Vec<DeviceRegisters> = Vec::new();
        assert(by_id(devices@) =~= Seq::empty());
        core::mem::swap(&mut self.devices, &mut devices);
        let ghost before = devices@;
        let ghost shown = value.deep_view();
        match find_device(&devices, device_id) {
            Some(i) => {
                let ghost held = devices[i as int].registers.deep_view();
                match find_register(&devices[i].registers, value.name.as_str()) {
                    Some(k) => {
                        devices[i].registers[k] = value;
                        proof {
                            lemma_registers_replaced(held, k as int, shown);
                            assert(devices[i as int].registers.deep_view() =~= held.update(
                                k as int,
                                shown,
                            ));
                        }
                    },
                    None => {
                        devices[i].registers.push(value);
                        proof {
                            lemma_registers_pushed(held, shown);
                            assert(devices[i as int].registers.deep_view() =~= held.push(shown));
                        }
                    },
                }
                proof {
                    lemma_device_changed(before, i as int, devices[i as int], shown);
                    assert(devices@ =~= before.update(i as int, devices[i as int]));
                }
            },
            None => {
                let mut registers: Vec<RegisterValue> = Vec::new();
                registers.push(value);
                let entry = DeviceRegisters { id: device_id.to_string(), registers };
                proof {
                    assert(entry.registers.deep_view() =~= seq![shown]);
                    lemma_device_added(before, entry, shown);
                }
                devices.push(entry);
            },
        }
        self.devices = devices;
    }

    /// Whether any value has been committed for the device.
    pub fn contains_device(&self, device_id: &str) -> (known: bool)
        ensures
            known == self@.dom().contains(device_id@),
    {
        proof {
            use_type_invariant(self);
        }
        match find_device(&self.devices, device_id) {
            Some(i) => {
                proof {
                    lemma_entry_in_map(by_id(self.devices@), i as int);
                }
                true
            },
            None => false,
        }
    }

    /// The latest value of one register, or what is missing.
    pub fn get_register(&self, device_id: &str, name: &str) -> (found: Result<
        RegisterValue,
        Missing,
    >)
        ensures
            match found {
                Ok(value) => lookup(self@, device_id@, name@) == Some(value.deep_view()),
                Err(Missing::Device) => !self@.dom().contains(device_id@),
                Err(Missing::Register) => self@.dom().contains(device_id@)
                    && !self@[device_id@].dom().contains(name@),
            },
    {
        proof {
            use_type_invariant(self);
        }
        match find_device(&self.devices, device_id) {
            Some(i) => {
                proof {
                    lemma_entry_in_map(by_id(self.devices@), i as int);
                }
                let registers = &self.devices[i].registers;
                match find_register(registers, name) {
                    Some(k) => {
                        proof {
                            lemma_entry_in_map(by_name(registers.deep_view()), k as int);
                        }
                        Ok(registers[k].clone())
                    },
                    None => Err(Missing::Register),
                }
            },
            None => Err(Missing::Device),
        }
    }

    /// A snapshot of every register of the device, each name once, or `None`
    /// where nothing was ever committed for it. A snapshot is never empty.
    pub fn get_device(&self, device_id: &str) -> (snapshot: Option<Vec<RegisterValue>>)
        ensures
            match snapshot {
                Some(registers) => {
                    &&& self@.dom().contains(device_id@)
                    &&& distinct_names(registers.deep_view())
                    &&& register_map(registers.deep_view()) == self@[device_id@]
                    &&& registers.len() > 0
                },
                None => !self@.dom().contains(device_id@),
            },
    {
        proof {
            use_type_invariant(self);
        }
        match find_device(&self.devices, device_id) {
            Some(i) => {
                proof {
                    lemma_entry_in_map(by_id(self.devices@), i as int);
                }
                let registers = self.devices[i].registers.clone();
                assert(registers.deep_view() =~= self.devices[i as int].registers.deep_view());
                Some(registers)
            },
            None => None,
        }
    }

    /// One summary per device: its id, how many registers it has, and the
    /// newest timestamp among them.
    pub fn list_devices(&self) -> (listing: Vec<DeviceSummary>)
        ensures
            self@.dom().finite(),
            listing.len() == self@.dom().len(),
            forall|device_id: Seq<char>| #[trigger]
                self@.dom().contains(device_id) ==> exists|i: int|
                    0 <= i < listing.len() && (#[trigger] listing[i]).id@ == device_id,
            forall|i: int, j: int|
                0 <= i < j < listing.len() ==> (#[trigger] listing[i]).id@ != (
                #[trigger] listing[j]).id@,
            forall|i: int|
                0 <= i < listing.len() ==> {
                    let entry = #[trigger] listing[i];
                    &&& self@.dom().contains(entry.id@)
                    &&& self@[entry.id@].dom().finite()
                    &&& entry.register_count == self@[entry.id@].dom().len()
                    &&& entry.register_count > 0
                    &&& entry.last_update matches Some(latest)
                    &&& is_latest(self@[entry.id@], latest)
                },
    {
        proof {
            use_type_invariant(self);
            lemma_map_size(by_id(self.devices@));
        }
        let mut listing: Vec<DeviceSummary> = Vec::new();
        let mut i: usize = 0;
        while i < self.devices.len()
            invariant
                i <= self.devices.len(),
                well_formed(self.devices@),
                listing.len() == i,
                forall|j: int|
                    0 <= j < i ==> {
                        let entry = #[trigger] listing[j];
                        &&& entry.id@ == self.devices[j].id@
                        &&& self@.dom().contains(entry.id@)
                        &&& self@[entry.id@].dom().finite()
                        &&& entry.register_count == self@[entry.id@].dom().len()
                        &&& entry.register_count > 0
                        &&& entry.last_update matches Some(latest)
                        &&& is_latest(self@[entry.id@], latest)
                    },
            decreases self.devices.len() - i,
        {
            let device = &self.devices[i];
            let latest = latest_timestamp(&device.registers);
            proof {
                lemma_entry_in_map(by_id(self.devices@), i as int);
                lemma_map_size(by_name(device.registers.deep_view()));
                let shown = device.registers.deep_view();
                let k = choose|k: int|
                    0 <= k < device.registers.len() && (
                    #[trigger] device.registers[k]).timestamp == latest;
                assert(shown[k].timestamp == latest);
                assert forall|j: int| 0 <= j < shown.len() implies (
                #[trigger] shown[j]).timestamp.not_after(latest) by {
                    assert(device.registers[j].timestamp.not_after(latest));
                }
                lemma_latest_of_map(shown, latest);
            }
            listing.push(
                DeviceSummary {
                    id: device.id.clone(),
                    register_count: device.registers.len(),
                    last_update: Some(latest),
                },
            );
            i += 1;
        }
        proof {
            assert forall|a: int, b: int| 0 <= a < b < listing.len() implies (
            #[trigger] listing[a]).id@ != (#[trigger] listing[b]).id@ by {
                assert(by_id(self.devices@)[a].0 != by_id(self.devices@)[b].0);
            }
            assert forall|device_id: Seq<char>| #[trigger]
                self@.dom().contains(device_id) implies exists|i: int|
                0 <= i < listing.len() && (#[trigger] listing[i]).id@ == device_id by {
                let j = index_of(by_id(self.devices@), device_id);
                assert(listing[j].id@ == device_id);
            }
        }
        listing
    }
}

/// A committed value is what a lookup under its device and name finds, and
/// no other lookup changes.
pub proof fn lemma_commit_then_lookup(
    store: StoreView,
    device_id: Seq<char>,
    value: RegisterValueView,
    other_device: Seq<char>,
    other_name: Seq<char>,
)
    ensures
        lookup(committed(store, device_id, value), device_id, value.name) == Some(value),
        (other_device != device_id || other_name != value.name) ==> lookup(
            committed(store, device_id, value),
            other_device,
            other_name,
        ) == lookup(store, other_device, other_name),
{
}

/// Once a device has a committed value it stays known, and it never has an
/// empty register map.
pub proof fn lemma_commit_keeps_devices(
    store: StoreView,
    device_id: Seq<char>,
    value: RegisterValueView,
    other_device: Seq<char>,
)
    ensures
        committed(store, device_id, value).dom().contains(device_id),
        store.dom().contains(other_device) ==> committed(store, device_id, value).dom().contains(
            other_device,
        ),
        committed(store, device_id, value)[device_id].dom().contains(value.name),
{
}

} // verus!
