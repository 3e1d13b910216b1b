//! Virtual machine backends: the lifecycle every backend follows, an
//! in-memory backend, and the KVM backend with its QEMU command line.
use vstd::prelude::*;
use dashmap::DashMap;
use crate::text::{concat2, concat3, decimal, decimal_string, string_list, strs};
use crate::virtualization::types::{
    device_views, ConfigView, DeviceView, SnapshotView, VirtualMachineConfig, VirtualMachineDevice,
    VirtualMachineResource, VirtualMachineSnapshot, VirtualMachineState, VirtualizationError,
};

verus! {

/// A table of virtual machines by identity, each with its state.
pub type VmTable = DashMap<String, (VirtualMachineConfig, VirtualMachineState)>;

/// A table of snapshots by identity.
pub type SnapshotTable = DashMap<String, VirtualMachineSnapshot>;

/// The machines a table holds, by identity, with their states.
pub uninterp spec fn vm_table(m: DashMap<String, (VirtualMachineConfig, VirtualMachineState)>) -> Map<
    Seq<char>,
    (ConfigView, VirtualMachineState),
>;

/// The snapshots a table holds, by identity.
pub uninterp spec fn snapshot_table(m: DashMap<String, VirtualMachineSnapshot>) -> Map<Seq<char>, SnapshotView>;

/// No machines.
pub open spec fn no_vms() -> Map<Seq<char>, (ConfigView, VirtualMachineState)> {
    Map::empty()
}

/// No snapshots.
pub open spec fn no_snapshots() -> Map<Seq<char>, SnapshotView> {
    Map::empty()
}

/// `DashMap::new`: an empty table.
#[verifier::external_body]
fn vms_new() -> (r: VmTable)
    ensures
        vm_table(r) == no_vms(),
{
    DashMap::new()
}

/// `DashMap::insert`: the key now maps to the machine; other keys are unchanged.
#[verifier::external_body]
fn vms_insert(
    m: &mut DashMap<String, (VirtualMachineConfig, VirtualMachineState)>,
    k: String,
    v: (VirtualMachineConfig, VirtualMachineState),
)
    ensures
        vm_table(*final(m)) == vm_table(*old(m)).insert(k@, (v.0@, v.1)),
{
    m.insert(k, v);
}

/// `DashMap::get`, cloning the machine and state found under the key.
#[verifier::external_body]
fn vms_get(m: &DashMap<String, (VirtualMachineConfig, VirtualMachineState)>, k: &str) -> (r: Option<
    (VirtualMachineConfig, VirtualMachineState),
>)
    ensures
        r is Some <==> vm_table(*m).contains_key(k@),
        r matches Some(p) ==> (p.0@, p.1) == vm_table(*m)[k@],
{
    m.get(k).map(|e| e.value().clone())
}

/// `DashMap::remove`: the key is gone; whether it was there is returned.
#[verifier::external_body]
fn vms_remove(m: &mut DashMap<String, (VirtualMachineConfig, VirtualMachineState)>, k: &str) -> (r: bool)
    ensures
        vm_table(*final(m)) == vm_table(*old(m)).remove(k@),
        r == vm_table(*old(m)).contains_key(k@),
{
    m.remove(k).is_some()
}

/// `DashMap::contains_key`.
#[verifier::external_body]
fn vms_contains(m: &DashMap<String, (VirtualMachineConfig, VirtualMachineState)>, k: &str) -> (r: bool)
    ensures
        r == vm_table(*m).contains_key(k@),
{
    m.contains_key(k)
}

/// `DashMap::new`: an empty table.
#[verifier::external_body]
fn snapshots_new() -> (r: SnapshotTable)
    ensures
        snapshot_table(r) == no_snapshots(),
{
    DashMap::new()
}

/// `DashMap::insert`: the key now maps to the snapshot; other keys are unchanged.
#[verifier::external_body]
fn snapshots_insert(m: &mut DashMap<String, VirtualMachineSnapshot>, k: String, v: VirtualMachineSnapshot)
    ensures
        snapshot_table(*final(m)) == snapshot_table(*old(m)).insert(k@, v@),
{
    m.insert(k, v);
}

/// `DashMap::contains_key`.
#[verifier::external_body]
fn snapshots_contains(m: &DashMap<String, VirtualMachineSnapshot>, k: &str) -> (r: bool)
    ensures
        r == snapshot_table(*m).contains_key(k@),
{
    m.contains_key(k)
}

/// `uuid::Uuid::now_v7`, in its hyphenated text form (`Display` writes the
/// 36-character hyphenated form, `Hyphenated::LENGTH`); its value depends on
/// the clock and on chance and is not promised.
#[verifier::external_body]
fn new_uuid_v7() -> (r: String)
    ensures
        r@.len() == 36,
{
    uuid::Uuid::now_v7().to_string()
}

/// A fresh identity: the prefix followed by a new UUID in its 36-character
/// hyphenated form.
pub fn fresh_id(prefix: &str) -> (r: String)
    ensures
        crate::text::starts_with(r@, prefix@),
        r@.len() == prefix@.len() + 36,
{
    let r = concat2(prefix, new_uuid_v7().as_str());
    assert(r@.subrange(0, prefix@.len() as int) =~= prefix@);
    r
}

/// The result is the refusal of an unknown machine or snapshot `id`.
pub open spec fn not_found<T>(r: Result<T, VirtualizationError>, id: Seq<char>) -> bool {
    r matches Err(e) && (e matches VirtualizationError::NotFound(m) && m@ == id)
}

/// The table with the machine `id` put in state `s`.
pub open spec fn with_state(
    t: Map<Seq<char>, (ConfigView, VirtualMachineState)>,
    id: Seq<char>,
    s: VirtualMachineState,
) -> Map<Seq<char>, (ConfigView, VirtualMachineState)> {
    t.insert(id, (t[id].0, s))
}

/// The configuration with the device attached.
pub open spec fn with_device(c: ConfigView, d: DeviceView) -> ConfigView {
    ConfigView { devices: c.devices.push(d), ..c }
}

/// The configuration with every device of the identity detached.
pub open spec fn without_device(c: ConfigView, device_id: Seq<char>) -> ConfigView {
    ConfigView { devices: c.devices.filter(|d: DeviceView| d.device_id != device_id), ..c }
}

/// The configuration with new resources.
pub open spec fn with_resources(c: ConfigView, r: VirtualMachineResource) -> ConfigView {
    ConfigView { resources: r, ..c }
}

/// The lifecycle every virtual machine backend follows.
pub trait VirtualizationBackend {
    /// The machines the backend knows, with their states.
    spec fn vms(&self) -> Map<Seq<char>, (ConfigView, VirtualMachineState)>;

    /// Registers a stopped machine under its own identity, replacing any
    /// machine of that identity, and returns the identity.
    fn create_vm(&mut self, config: VirtualMachineConfig) -> (r: Result<String, VirtualizationError>)
        ensures
            r matches Ok(id) && id@ == config.vm_id@,
            final(self).vms() == old(self).vms().insert(config.vm_id@, (config@, VirtualMachineState::Stopped)),
    ;

    /// Puts a known machine in the running state.
    fn start_vm(&mut self, vm_id: &str) -> (r: Result<(), VirtualizationError>)
        ensures
            old(self).vms().contains_key(vm_id@) ==> r is Ok && final(self).vms() == with_state(
                old(self).vms(),
                vm_id@,
                VirtualMachineState::Running,
            ),
            !old(self).vms().contains_key(vm_id@) ==> not_found(r, vm_id@) && final(self).vms() == old(
                self,
            ).vms(),
    ;

    /// Puts a known machine in the stopped state.
    fn stop_vm(&mut self, vm_id: &str) -> (r: Result<(), VirtualizationError>)
        ensures
            old(self).vms().contains_key(vm_id@) ==> r is Ok && final(self).vms() == with_state(
                old(self).vms(),
                vm_id@,
                VirtualMachineState::Stopped,
            ),
            !old(self).vms().contains_key(vm_id@) ==> not_found(r, vm_id@) && final(self).vms() == old(
                self,
            ).vms(),
    ;

    /// Puts a known machine in the paused state.
    fn pause_vm(&mut self, vm_id: &str) -> (r: Result<(), VirtualizationError>)
        ensures
            old(self).vms().contains_key(vm_id@) ==> r is Ok && final(self).vms() == with_state(
                old(self).vms(),
                vm_id@,
                VirtualMachineState::Paused,
            ),
            !old(self).vms().contains_key(vm_id@) ==> not_found(r, vm_id@) && final(self).vms() == old(
                self,
            ).vms(),
    ;

    /// Puts a paused or any other known machine back in the running state.
    fn resume_vm(&mut self, vm_id: &str) -> (r: Result<(), VirtualizationError>)
        ensures
            old(self).vms().contains_key(vm_id@) ==> r is Ok && final(self).vms() == with_state(
                old(self).vms(),
                vm_id@,
                VirtualMachineState::Running,
            ),
            !old(self).vms().contains_key(vm_id@) ==> not_found(r, vm_id@) && final(self).vms() == old(
                self,
            ).vms(),
    ;

    /// Forgets a known machine.
    fn delete_vm(&mut self, vm_id: &str) -> (r: Result<(), VirtualizationError>)
        ensures
            old(self).vms().contains_key(vm_id@) ==> r is Ok,
            !old(self).vms().contains_key(vm_id@) ==> not_found(r, vm_id@),
            final(self).vms() == old(self).vms().remove(vm_id@),
    ;

    /// The configuration of a known machine.
    fn inspect_vm(&self, vm_id: &str) -> (r: Result<VirtualMachineConfig, VirtualizationError>)
        ensures
            self.vms().contains_key(vm_id@) ==> (r matches Ok(c) && c@ == self.vms()[vm_id@].0),
            !self.vms().contains_key(vm_id@) ==> not_found(r, vm_id@),
    ;

    /// The state of a known machine.
    fn get_state(&self, vm_id: &str) -> (r: Result<VirtualMachineState, VirtualizationError>)
        ensures
            self.vms().contains_key(vm_id@) ==> (r matches Ok(s) && s == self.vms()[vm_id@].1),
            !self.vms().contains_key(vm_id@) ==> not_found(r, vm_id@),
    ;

    /// Attaches a device to a known machine.
    fn attach_device(&mut self, vm_id: &str, device: VirtualMachineDevice) -> (r: Result<(), VirtualizationError>)
        ensures
            old(self).vms().contains_key(vm_id@) ==> r is Ok && final(self).vms() == old(self).vms().insert(
                vm_id@,
                (with_device(old(self).vms()[vm_id@].0, device@), old(self).vms()[vm_id@].1),
            ),
            !old(self).vms().contains_key(vm_id@) ==> not_found(r, vm_id@) && final(self).vms() == old(
                self,
            ).vms(),
    ;

    /// Detaches every device of the identity from a known machine.
    fn detach_device(&mut self, vm_id: &str, device_id: &str) -> (r: Result<(), VirtualizationError>)
        ensures
            old(self).vms().contains_key(vm_id@) ==> r is Ok && final(self).vms() == old(self).vms().insert(
                vm_id@,
                (without_device(old(self).vms()[vm_id@].0, device_id@), old(self).vms()[vm_id@].1),
            ),
            !old(self).vms().contains_key(vm_id@) ==> not_found(r, vm_id@) && final(self).vms() == old(
                self,
            ).vms(),
    ;

    /// Gives a known machine new resources.
    fn resize_resources(&mut self, vm_id: &str, new_resources: VirtualMachineResource) -> (r: Result<
        (),
        VirtualizationError,
    >)
        ensures
            old(self).vms().contains_key(vm_id@) ==> r is Ok && final(self).vms() == old(self).vms().insert(
                vm_id@,
                (with_resources(old(self).vms()[vm_id@].0, new_resources), old(self).vms()[vm_id@].1),
            ),
            !old(self).vms().contains_key(vm_id@) ==> not_found(r, vm_id@) && final(self).vms() == old(
                self,
            ).vms(),
    ;

    /// Accepts a signal for a known machine.
    fn send_signal(&self, vm_id: &str, signal: i32) -> (r: Result<(), VirtualizationError>)
        ensures
            self.vms().contains_key(vm_id@) ==> r is Ok,
            !self.vms().contains_key(vm_id@) ==> not_found(r, vm_id@),
    ;
}

fn set_state(vms: &mut VmTable, vm_id: &str, state: VirtualMachineState) -> (r: Result<(), VirtualizationError>)
    ensures
        vm_table(*old(vms)).contains_key(vm_id@) ==> r is Ok && vm_table(*final(vms)) == with_state(
            vm_table(*old(vms)),
            vm_id@,
            state,
        ),
        !vm_table(*old(vms)).contains_key(vm_id@) ==> not_found(r, vm_id@) && vm_table(*final(vms)) == vm_table(
            *old(vms),
        ),
{
    match vms_get(vms, vm_id) {
        None => Err(VirtualizationError::NotFound(String::from_str(vm_id))),
        Some((config, _)) => {
            vms_insert(vms, String::from_str(vm_id), (config, state));
            Ok(())
        },
    }
}

fn remove_vm(vms: &mut VmTable, vm_id: &str) -> (r: Result<(), VirtualizationError>)
    ensures
        vm_table(*old(vms)).contains_key(vm_id@) ==> r is Ok,
        !vm_table(*old(vms)).contains_key(vm_id@) ==> not_found(r, vm_id@),
        vm_table(*final(vms)) == vm_table(*old(vms)).remove(vm_id@),
{
    if vms_remove(vms, vm_id) {
        Ok(())
    } else {
        Err(VirtualizationError::NotFound(String::from_str(vm_id)))
    }
}

fn inspect(vms: &VmTable, vm_id: &str) -> (r: Result<VirtualMachineConfig, VirtualizationError>)
    ensures
        vm_table(*vms).contains_key(vm_id@) ==> (r matches Ok(c) && c@ == vm_table(*vms)[vm_id@].0),
        !vm_table(*vms).contains_key(vm_id@) ==> not_found(r, vm_id@),
{
    match vms_get(vms, vm_id) {
        None => Err(VirtualizationError::NotFound(String::from_str(vm_id))),
        Some((config, _)) => Ok(config),
    }
}

fn state_of(vms: &VmTable, vm_id: &str) -> (r: Result<VirtualMachineState, VirtualizationError>)
    ensures
        vm_table(*vms).contains_key(vm_id@) ==> (r matches Ok(s) && s == vm_table(*vms)[vm_id@].1),
        !vm_table(*vms).contains_key(vm_id@) ==> not_found(r, vm_id@),
{
    match vms_get(vms, vm_id) {
        None => Err(VirtualizationError::NotFound(String::from_str(vm_id))),
        Some((_, state)) => Ok(state),
    }
}

fn known(vms: &VmTable, vm_id: &str) -> (r: Result<(), VirtualizationError>)
    ensures
        vm_table(*vms).contains_key(vm_id@) ==> r is Ok,
        !vm_table(*vms).contains_key(vm_id@) ==> not_found(r, vm_id@),
{
    if vms_contains(vms, vm_id) {
        Ok(())
    } else {
        Err(VirtualizationError::NotFound(String::from_str(vm_id)))
    }
}

fn attach(vms: &mut VmTable, vm_id: &str, device: VirtualMachineDevice) -> (r: Result<(), VirtualizationError>)
    ensures
        vm_table(*old(vms)).contains_key(vm_id@) ==> r is Ok && vm_table(*final(vms)) == vm_table(*old(vms)).insert(
            vm_id@,
            (with_device(vm_table(*old(vms))[vm_id@].0, device@), vm_table(*old(vms))[vm_id@].1),
        ),
        !vm_table(*old(vms)).contains_key(vm_id@) ==> not_found(r, vm_id@) && vm_table(*final(vms)) == vm_table(
            *old(vms),
        ),
{
    match vms_get(vms, vm_id) {
        None => Err(VirtualizationError::NotFound(String::from_str(vm_id))),
        Some((mut config, state)) => {
            let ghost before = config@;
            let ghost dv = device@;
            let ghost prev = config.devices@;
            config.devices.push(device);
            assert(device_views(config.devices@) =~= device_views(prev).push(dv));
            assert(config@ == with_device(before, dv));
            vms_insert(vms, String::from_str(vm_id), (config, state));
            Ok(())
        },
    }
}

fn detach(vms: &mut VmTable, vm_id: &str, device_id: &str) -> (r: Result<(), VirtualizationError>)
    ensures
        vm_table(*old(vms)).contains_key(vm_id@) ==> r is Ok && vm_table(*final(vms)) == vm_table(*old(vms)).insert(
            vm_id@,
            (without_device(vm_table(*old(vms))[vm_id@].0, device_id@), vm_table(*old(vms))[vm_id@].1),
        ),
        !vm_table(*old(vms)).contains_key(vm_id@) ==> not_found(r, vm_id@) && vm_table(*final(vms)) == vm_table(
            *old(vms),
        ),
{
    match vms_get(vms, vm_id) {
        None => Err(VirtualizationError::NotFound(String::from_str(vm_id))),
        Some((mut config, state)) => {
            let ghost before = config@;
            let ghost pred = |d: DeviceView| d.device_id != device_id@;
            let ghost dvs = device_views(config.devices@);
            let mut kept: Vec<VirtualMachineDevice> = Vec::new();
            let mut i: usize = 0;
            while i < config.devices.len()
                invariant
                    i <= config.devices.len(),
                    dvs == device_views(config.devices@),
                    pred == (|d: DeviceView| d.device_id != device_id@),
                    device_views(kept@) == dvs.take(i as int).filter(pred),
                decreases config.devices.len() - i,
            {
                let d = &config.devices[i];
                assert(dvs[i as int] == d@);
                assert(dvs.take(i + 1) =~= dvs.take(i as int).push(d@));
                proof {
                    dvs.take(i as int).lemma_filter_push(d@, pred);
                }
                if !crate::text::str_eq(d.device_id.as_str(), device_id) {
                    let ghost prev = kept@;
                    kept.push(d.clone());
                    assert(device_views(kept@) =~= device_views(prev).push(d@));
                }
                i += 1;
            }
            assert(dvs.take(config.devices.len() as int) =~= dvs);
            config.devices = kept;
            assert(config@ == without_device(before, device_id@));
            vms_insert(vms, String::from_str(vm_id), (config, state));
            Ok(())
        },
    }
}

fn resize(vms: &mut VmTable, vm_id: &str, new_resources: VirtualMachineResource) -> (r: Result<
    (),
    VirtualizationError,
>)
    ensures
        vm_table(*old(vms)).contains_key(vm_id@) ==> r is Ok && vm_table(*final(vms)) == vm_table(*old(vms)).insert(
            vm_id@,
            (with_resources(vm_table(*old(vms))[vm_id@].0, new_resources), vm_table(*old(vms))[vm_id@].1),
        ),
        !vm_table(*old(vms)).contains_key(vm_id@) ==> not_found(r, vm_id@) && vm_table(*final(vms)) == vm_table(
            *old(vms),
        ),
{
    match vms_get(vms, vm_id) {
        None => Err(VirtualizationError::NotFound(String::from_str(vm_id))),
        Some((mut config, state)) => {
            config.resources = new_resources;
            vms_insert(vms, String::from_str(vm_id), (config, state));
            Ok(())
        },
    }
}

/// A copy of a known machine under a new identity and name, stopped.
fn clone_into(vms: &mut VmTable, vm_id: &str, new_id: String, new_name: &str) -> (r: Result<
    String,
    VirtualizationError,
>)
    ensures
        vm_table(*old(vms)).contains_key(vm_id@) ==> (r matches Ok(id) && id@ == new_id@ && vm_table(*final(vms))
            == vm_table(*old(vms)).insert(
            new_id@,
            (
                ConfigView { vm_id: new_id@, name: new_name@, ..vm_table(*old(vms))[vm_id@].0 },
                VirtualMachineState::Stopped,
            ),
        )),
        !vm_table(*old(vms)).contains_key(vm_id@) ==> not_found(r, vm_id@) && vm_table(*final(vms)) == vm_table(
            *old(vms),
        ),
{
    match vms_get(vms, vm_id) {
        None => Err(VirtualizationError::NotFound(String::from_str(vm_id))),
        Some((mut config, _)) => {
            config.vm_id = new_id.clone();
            config.name = String::from_str(new_name);
            vms_insert(vms, new_id.clone(), (config, VirtualMachineState::Stopped));
            Ok(new_id)
        },
    }
}

/// An in-memory backend that keeps machines and snapshots and runs nothing.
pub struct MockBackend {
    pub vms: DashMap<String, (VirtualMachineConfig, VirtualMachineState)>,
    pub snapshots: DashMap<String, VirtualMachineSnapshot>,
}

impl MockBackend {
    /// The snapshots taken, by identity.
    pub closed spec fn snapshots(&self) -> Map<Seq<char>, SnapshotView> {
        snapshot_table(self.snapshots)
    }

    /// No machines and no snapshots.
    pub fn new() -> (r: Self)
        ensures
            r.vms() == no_vms(),
            r.snapshots() == no_snapshots(),
    {
        MockBackend { vms: vms_new(), snapshots: snapshots_new() }
    }

    /// Stops then starts a known machine: it ends running.
    pub fn restart_vm(&mut self, vm_id: &str) -> (r: Result<(), VirtualizationError>)
        ensures
            old(self).vms().contains_key(vm_id@) ==> r is Ok && final(self).vms() == with_state(
                old(self).vms(),
                vm_id@,
                VirtualMachineState::Running,
            ),
            !old(self).vms().contains_key(vm_id@) ==> not_found(r, vm_id@) && final(self).vms() == old(
                self,
            ).vms(),
    {
        self.stop_vm(vm_id)?;
        let r = self.start_vm(vm_id);
        proof {
            assert(with_state(with_state(old(self).vms(), vm_id@, VirtualMachineState::Stopped), vm_id@, VirtualMachineState::Running) =~= with_state(old(self).vms(), vm_id@, VirtualMachineState::Running));
        }
        r
    }

    /// Stops a known machine.
    pub fn shutdown_vm(&mut self, vm_id: &str) -> (r: Result<(), VirtualizationError>)
        ensures
            old(self).vms().contains_key(vm_id@) ==> r is Ok && final(self).vms() == with_state(
                old(self).vms(),
                vm_id@,
                VirtualMachineState::Stopped,
            ),
            !old(self).vms().contains_key(vm_id@) ==> not_found(r, vm_id@) && final(self).vms() == old(
                self,
            ).vms(),
    {
        self.stop_vm(vm_id)
    }

    /// Stops a known machine at once.
    pub fn force_stop_vm(&mut self, vm_id: &str) -> (r: Result<(), VirtualizationError>)
        ensures
            old(self).vms().contains_key(vm_id@) ==> r is Ok && final(self).vms() == with_state(
                old(self).vms(),
                vm_id@,
                VirtualMachineState::Stopped,
            ),
            !old(self).vms().contains_key(vm_id@) ==> not_found(r, vm_id@) && final(self).vms() == old(
                self,
            ).vms(),
    {
        self.stop_vm(vm_id)
    }

    /// Records a snapshot of a known machine, named `snap-mock-<uuid>`, taken
    /// at time 1000 and 1024 bytes large.
    pub fn snapshot_vm(&mut self, vm_id: &str, name: &str) -> (r: Result<VirtualMachineSnapshot, VirtualizationError>)
        ensures
            final(self).vms() == old(self).vms(),
            !old(self).vms().contains_key(vm_id@) ==> not_found(r, vm_id@) && final(self).snapshots() == old(
                self,
            ).snapshots(),
            old(self).vms().contains_key(vm_id@) ==> (r matches Ok(s) && s.vm_id@ == vm_id@ && s.name@ == name@
                && s.created_at == 1000 && s.size_bytes == 1024 && crate::text::starts_with(
                s.snapshot_id@,
                "snap-mock-"@,
            ) && final(self).snapshots() == old(self).snapshots().insert(s.snapshot_id@, s@)),
    {
        if !vms_contains(&self.vms, vm_id) {
            return Err(VirtualizationError::NotFound(String::from_str(vm_id)));
        }
        let snap_id = concat2("snap-mock-", new_uuid_v7().as_str());
        assert(crate::text::starts_with(snap_id@, "snap-mock-"@)) by {
            assert(snap_id@.subrange(0, "snap-mock-"@.len() as int) =~= "snap-mock-"@);
        }
        let snap = VirtualMachineSnapshot {
            snapshot_id: snap_id.clone(),
            vm_id: String::from_str(vm_id),
            name: String::from_str(name),
            created_at: 1000,
            size_bytes: 1024,
        };
        snapshots_insert(&mut self.snapshots, snap_id, snap.clone());
        Ok(snap)
    }

    /// Accepts restoring a known snapshot of a known machine.
    pub fn restore_snapshot(&self, vm_id: &str, snapshot_id: &str) -> (r: Result<(), VirtualizationError>)
        ensures
            !self.vms().contains_key(vm_id@) ==> not_found(r, vm_id@),
            self.vms().contains_key(vm_id@) && !self.snapshots().contains_key(snapshot_id@) ==> not_found(
                r,
                snapshot_id@,
            ),
            self.vms().contains_key(vm_id@) && self.snapshots().contains_key(snapshot_id@) ==> r is Ok,
    {
        if !vms_contains(&self.vms, vm_id) {
            return Err(VirtualizationError::NotFound(String::from_str(vm_id)));
        }
        if !snapshots_contains(&self.snapshots, snapshot_id) {
            return Err(VirtualizationError::NotFound(String::from_str(snapshot_id)));
        }
        Ok(())
    }

    /// Copies a known machine under the identity `vm-clone-<uuid>` and a new
    /// name, stopped.
    pub fn clone_vm(&mut self, vm_id: &str, new_name: &str) -> (r: Result<String, VirtualizationError>)
        ensures
            old(self).vms().contains_key(vm_id@) ==> (r matches Ok(id) && crate::text::starts_with(
                id@,
                "vm-clone-"@,
            ) && final(self).vms() == old(self).vms().insert(
                id@,
                (
                    ConfigView { vm_id: id@, name: new_name@, ..old(self).vms()[vm_id@].0 },
                    VirtualMachineState::Stopped,
                ),
            )),
            !old(self).vms().contains_key(vm_id@) ==> not_found(r, vm_id@) && final(self).vms() == old(
                self,
            ).vms(),
            final(self).snapshots() == old(self).snapshots(),
    {
        let new_id = concat2("vm-clone-", new_uuid_v7().as_str());
        assert(crate::text::starts_with(new_id@, "vm-clone-"@)) by {
            assert(new_id@.subrange(0, "vm-clone-"@.len() as int) =~= "vm-clone-"@);
        }
        clone_into(&mut self.vms, vm_id, new_id, new_name)
    }

    /// The log of a known machine.
    pub fn get_logs(&self, vm_id: &str) -> (r: Result<Vec<String>, VirtualizationError>)
        ensures
            self.vms().contains_key(vm_id@) ==> (r matches Ok(lines) && strs(lines@) == seq!["[Mock] VM ready"@]),
            !self.vms().contains_key(vm_id@) ==> not_found(r, vm_id@),
    {
        known(&self.vms, vm_id)?;
        let lines = string_list(&["[Mock] VM ready"]);
        assert(strs(lines@) =~= seq!["[Mock] VM ready"@]);
        Ok(lines)
    }

    /// The console address of a known machine.
    pub fn connect_console(&self, vm_id: &str) -> (r: Result<String, VirtualizationError>)
        ensures
            self.vms().contains_key(vm_id@) ==> (r matches Ok(c) && c@ == "mock-console://"@ + vm_id@),
            !self.vms().contains_key(vm_id@) ==> not_found(r, vm_id@),
    {
        known(&self.vms, vm_id)?;
        Ok(concat2("mock-console://", vm_id))
    }
}

impl VirtualizationBackend for MockBackend {
    closed spec fn vms(&self) -> Map<Seq<char>, (ConfigView, VirtualMachineState)> {
        vm_table(self.vms)
    }

    fn create_vm(&mut self, config: VirtualMachineConfig) -> (r: Result<String, VirtualizationError>)
        ensures
            final(self).snapshots() == old(self).snapshots(),
    {
        let id = config.vm_id.clone();
        vms_insert(&mut self.vms, id.clone(), (config, VirtualMachineState::Stopped));
        Ok(id)
    }

    fn start_vm(&mut self, vm_id: &str) -> (r: Result<(), VirtualizationError>)
        ensures
            final(self).snapshots() == old(self).snapshots(),
    {
        set_state(&mut self.vms, vm_id, VirtualMachineState::Running)
    }

    fn stop_vm(&mut self, vm_id: &str) -> (r: Result<(), VirtualizationError>)
        ensures
            final(self).snapshots() == old(self).snapshots(),
    {
        set_state(&mut self.vms, vm_id, VirtualMachineState::Stopped)
    }

    fn pause_vm(&mut self, vm_id: &str) -> (r: Result<(), VirtualizationError>)
        ensures
            final(self).snapshots() == old(self).snapshots(),
    {
        set_state(&mut self.vms, vm_id, VirtualMachineState::Paused)
    }

    fn resume_vm(&mut self, vm_id: &str) -> (r: Result<(), VirtualizationError>)
        ensures
            final(self).snapshots() == old(self).snapshots(),
    {
        set_state(&mut self.vms, vm_id, VirtualMachineState::Running)
    }

    fn delete_vm(&mut self, vm_id: &str) -> (r: Result<(), VirtualizationError>)
        ensures
            final(self).snapshots() == old(self).snapshots(),
    {
        remove_vm(&mut self.vms, vm_id)
    }

    fn inspect_vm(&self, vm_id: &str) -> (r: Result<VirtualMachineConfig, VirtualizationError>) {
        inspect(&self.vms, vm_id)
    }

    fn get_state(&self, vm_id: &str) -> (r: Result<VirtualMachineState, VirtualizationError>) {
        state_of(&self.vms, vm_id)
    }

    fn attach_device(&mut self, vm_id: &str, device: VirtualMachineDevice) -> (r: Result<(), VirtualizationError>)
        ensures
            final(self).snapshots() == old(self).snapshots(),
    {
        attach(&mut self.vms, vm_id, device)
    }

    fn detach_device(&mut self, vm_id: &str, device_id: &str) -> (r: Result<(), VirtualizationError>)
        ensures
            final(self).snapshots() == old(self).snapshots(),
    {
        detach(&mut self.vms, vm_id, device_id)
    }

    fn resize_resources(&mut self, vm_id: &str, new_resources: VirtualMachineResource) -> (r: Result<
        (),
        VirtualizationError,
    >)
        ensures
            final(self).snapshots() == old(self).snapshots(),
    {
        resize(&mut self.vms, vm_id, new_resources)
    }

    fn send_signal(&self, vm_id: &str, signal: i32) -> (r: Result<(), VirtualizationError>) {
        known(&self.vms, vm_id)
    }
}

/// The KVM backend: machines run under QEMU with KVM acceleration.
pub struct KvmBackend {
    vms: DashMap<String, (VirtualMachineConfig, VirtualMachineState)>,
}

/// The QEMU arguments for a machine: KVM, memory, CPUs and a virtio disk,
/// then OVMF firmware for UEFI machines and user networking for NAT machines.
pub open spec fn qemu_args(c: ConfigView) -> Seq<Seq<char>> {
    let base = seq![
        "-enable-kvm"@,
        "-m"@,
        decimal(c.resources.memory_mb as nat),
        "-smp"@,
        decimal(c.resources.cpus as nat),
        "-drive"@,
        "file="@ + c.storage.disk_path + ",format="@ + c.storage.format + ",if=virtio"@,
    ];
    let with_bios = if c.uefi {
        base + seq!["-bios"@, "/usr/share/OVMF/OVMF_CODE.fd"@]
    } else {
        base
    };
    if c.network.mode == "nat"@ {
        with_bios + seq!["-netdev"@, "user,id=net0"@, "-device"@, "virtio-net-pci,netdev=net0"@]
    } else {
        with_bios
    }
}

impl KvmBackend {
    pub fn new() -> (r: Self)
        ensures
            r.vms() == no_vms(),
    {
        KvmBackend { vms: vms_new() }
    }

    /// The QEMU command line for a machine.
    pub fn build_qemu_args(config: &VirtualMachineConfig) -> (r: Vec<String>)
        ensures
            strs(r@) == qemu_args(config@),
    {
        let mut args: Vec<String> = Vec::new();
        args.push(String::from_str("-enable-kvm"));
        args.push(String::from_str("-m"));
        args.push(decimal_string(config.resources.memory_mb));
        args.push(String::from_str("-smp"));
        args.push(decimal_string(config.resources.cpus as u64));
        args.push(String::from_str("-drive"));
        let mut drive = concat3("file=", config.storage.disk_path.as_str(), ",format=");
        drive.append(config.storage.format.as_str());
        drive.append(",if=virtio");
        args.push(drive);
        let ghost base = strs(args@);
        if config.uefi {
            args.push(String::from_str("-bios"));
            args.push(String::from_str("/usr/share/OVMF/OVMF_CODE.fd"));
        }
        let ghost with_bios = strs(args@);
        if crate::text::str_eq(config.network.mode.as_str(), "nat") {
            args.push(String::from_str("-netdev"));
            args.push(String::from_str("user,id=net0"));
            args.push(String::from_str("-device"));
            args.push(String::from_str("virtio-net-pci,netdev=net0"));
        }
        assert(strs(args@) =~= qemu_args(config@));
        args
    }

    /// Stops then starts a known machine: it ends running.
    pub fn restart_vm(&mut self, vm_id: &str) -> (r: Result<(), VirtualizationError>)
        ensures
            old(self).vms().contains_key(vm_id@) ==> r is Ok && final(self).vms() == with_state(
                old(self).vms(),
                vm_id@,
                VirtualMachineState::Running,
            ),
            !old(self).vms().contains_key(vm_id@) ==> not_found(r, vm_id@) && final(self).vms() == old(
                self,
            ).vms(),
    {
        self.stop_vm(vm_id)?;
        let r = self.start_vm(vm_id);
        proof {
            assert(with_state(with_state(old(self).vms(), vm_id@, VirtualMachineState::Stopped), vm_id@, VirtualMachineState::Running) =~= with_state(old(self).vms(), vm_id@, VirtualMachineState::Running));
        }
        r
    }

    /// Stops a known machine.
    pub fn shutdown_vm(&mut self, vm_id: &str) -> (r: Result<(), VirtualizationError>)
        ensures
            old(self).vms().contains_key(vm_id@) ==> r is Ok && final(self).vms() == with_state(
                old(self).vms(),
                vm_id@,
                VirtualMachineState::Stopped,
            ),
            !old(self).vms().contains_key(vm_id@) ==> not_found(r, vm_id@) && final(self).vms() == old(
                self,
            ).vms(),
    {
        self.stop_vm(vm_id)
    }

    /// Stops a known machine at once.
    pub fn force_stop_vm(&mut self, vm_id: &str) -> (r: Result<(), VirtualizationError>)
        ensures
            old(self).vms().contains_key(vm_id@) ==> r is Ok && final(self).vms() == with_state(
                old(self).vms(),
                vm_id@,
                VirtualMachineState::Stopped,
            ),
            !old(self).vms().contains_key(vm_id@) ==> not_found(r, vm_id@) && final(self).vms() == old(
                self,
            ).vms(),
    {
        self.stop_vm(vm_id)
    }

    /// A snapshot description of a known machine, named `snap-<uuid>`, taken
    /// at time 1000 and one MiB large; nothing is recorded.
    pub fn snapshot_vm(&self, vm_id: &str, name: &str) -> (r: Result<VirtualMachineSnapshot, VirtualizationError>)
        ensures
            !self.vms().contains_key(vm_id@) ==> not_found(r, vm_id@),
            self.vms().contains_key(vm_id@) ==> (r matches Ok(s) && s.vm_id@ == vm_id@ && s.name@ == name@
                && s.created_at == 1000 && s.size_bytes == 1024 * 1024 && crate::text::starts_with(
                s.snapshot_id@,
                "snap-"@,
            )),
    {
        known(&self.vms, vm_id)?;
        let snap_id = concat2("snap-", new_uuid_v7().as_str());
        assert(crate::text::starts_with(snap_id@, "snap-"@)) by {
            assert(snap_id@.subrange(0, "snap-"@.len() as int) =~= "snap-"@);
        }
        Ok(
            VirtualMachineSnapshot {
                snapshot_id: snap_id,
                vm_id: String::from_str(vm_id),
                name: String::from_str(name),
                created_at: 1000,
                size_bytes: 1024 * 1024,
            },
        )
    }

    /// Accepts restoring any snapshot of a known machine.
    pub fn restore_snapshot(&self, vm_id: &str, snapshot_id: &str) -> (r: Result<(), VirtualizationError>)
        ensures
            self.vms().contains_key(vm_id@) ==> r is Ok,
            !self.vms().contains_key(vm_id@) ==> not_found(r, vm_id@),
    {
        known(&self.vms, vm_id)
    }

    /// Copies a known machine under the identity `vm-<uuid>` and a new name,
    /// stopped.
    pub fn clone_vm(&mut self, vm_id: &str, new_name: &str) -> (r: Result<String, VirtualizationError>)
        ensures
            old(self).vms().contains_key(vm_id@) ==> (r matches Ok(id) && crate::text::starts_with(id@, "vm-"@)
                && final(self).vms() == old(self).vms().insert(
                id@,
                (
                    ConfigView { vm_id: id@, name: new_name@, ..old(self).vms()[vm_id@].0 },
                    VirtualMachineState::Stopped,
                ),
            )),
            !old(self).vms().contains_key(vm_id@) ==> not_found(r, vm_id@) && final(self).vms() == old(
                self,
            ).vms(),
    {
        let new_id = concat2("vm-", new_uuid_v7().as_str());
        assert(crate::text::starts_with(new_id@, "vm-"@)) by {
            assert(new_id@.subrange(0, "vm-"@.len() as int) =~= "vm-"@);
        }
        clone_into(&mut self.vms, vm_id, new_id, new_name)
    }

    /// The boot log of a known machine.
    pub fn get_logs(&self, vm_id: &str) -> (r: Result<Vec<String>, VirtualizationError>)
        ensures
            self.vms().contains_key(vm_id@) ==> (r matches Ok(lines) && strs(lines@) == seq![
                "[KVM] VM initialized"@,
                "[KVM] Booting kernel"@,
            ]),
            !self.vms().contains_key(vm_id@) ==> not_found(r, vm_id@),
    {
        known(&self.vms, vm_id)?;
        let lines = string_list(&["[KVM] VM initialized", "[KVM] Booting kernel"]);
        assert(strs(lines@) =~= seq!["[KVM] VM initialized"@, "[KVM] Booting kernel"@]);
        Ok(lines)
    }

    /// The console socket of a known machine.
    pub fn connect_console(&self, vm_id: &str) -> (r: Result<String, VirtualizationError>)
        ensures
            self.vms().contains_key(vm_id@) ==> (r matches Ok(c) && c@ == "/run/cognyxos/vm-"@ + vm_id@ + ".sock"@),
            !self.vms().contains_key(vm_id@) ==> not_found(r, vm_id@),
    {
        known(&self.vms, vm_id)?;
        Ok(concat3("/run/cognyxos/vm-", vm_id, ".sock"))
    }
}

impl VirtualizationBackend for KvmBackend {
    closed spec fn vms(&self) -> Map<Seq<char>, (ConfigView, VirtualMachineState)> {
        vm_table(self.vms)
    }

    fn create_vm(&mut self, config: VirtualMachineConfig) -> (r: Result<String, VirtualizationError>) {
        let id = config.vm_id.clone();
        vms_insert(&mut self.vms, id.clone(), (config, VirtualMachineState::Stopped));
        Ok(id)
    }

    fn start_vm(&mut self, vm_id: &str) -> (r: Result<(), VirtualizationError>) {
        set_state(&mut self.vms, vm_id, VirtualMachineState::Running)
    }

    fn stop_vm(&mut self, vm_id: &str) -> (r: Result<(), VirtualizationError>) {
        set_state(&mut self.vms, vm_id, VirtualMachineState::Stopped)
    }

    fn pause_vm(&mut self, vm_id: &str) -> (r: Result<(), VirtualizationError>) {
        set_state(&mut self.vms, vm_id, VirtualMachineState::Paused)
    }

    fn resume_vm(&mut self, vm_id: &str) -> (r: Result<(), VirtualizationError>) {
        set_state(&mut self.vms, vm_id, VirtualMachineState::Running)
    }

    fn delete_vm(&mut self, vm_id: &str) -> (r: Result<(), VirtualizationError>) {
        remove_vm(&mut self.vms, vm_id)
    }

    fn inspect_vm(&self, vm_id: &str) -> (r: Result<VirtualMachineConfig, VirtualizationError>) {
        inspect(&self.vms, vm_id)
    }

    fn get_state(&self, vm_id: &str) -> (r: Result<VirtualMachineState, VirtualizationError>) {
        state_of(&self.vms, vm_id)
    }

    fn attach_device(&mut self, vm_id: &str, device: VirtualMachineDevice) -> (r: Result<(), VirtualizationError>) {
        attach(&mut self.vms, vm_id, device)
    }

    fn detach_device(&mut self, vm_id: &str, device_id: &str) -> (r: Result<(), VirtualizationError>) {
        detach(&mut self.vms, vm_id, device_id)
    }

    fn resize_resources(&mut self, vm_id: &str, new_resources: VirtualMachineResource) -> (r: Result<
        (),
        VirtualizationError,
    >) {
        resize(&mut self.vms, vm_id, new_resources)
    }

    fn send_signal(&self, vm_id: &str, signal: i32) -> (r: Result<(), VirtualizationError>) {
        known(&self.vms, vm_id)
    }
}

/// A machine that was started and then stopped is stopped, whatever state it
/// was in before; its configuration is unchanged.
pub proof fn law_start_then_stop(t: Map<Seq<char>, (ConfigView, VirtualMachineState)>, id: Seq<char>)
    requires
        t.contains_key(id),
    ensures
        with_state(with_state(t, id, VirtualMachineState::Running), id, VirtualMachineState::Stopped)[id]
            == (t[id].0, VirtualMachineState::Stopped),
        with_state(with_state(t, id, VirtualMachineState::Running), id, VirtualMachineState::Stopped).dom()
            == t.dom(),
{
    assert(with_state(with_state(t, id, VirtualMachineState::Running), id, VirtualMachineState::Stopped).dom() =~= t.dom());
}

} // verus!
