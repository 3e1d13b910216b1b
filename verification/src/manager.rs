//! The runtime manager's state: the execution runtimes it knows, the resource
//! quota it enforces, where virtual machine disks live, and the network policy
//! it answers for.
use vstd::prelude::*;
use crate::execution::RuntimeRegistry;
use crate::network::{decision, VirtualNetworkManager};
use crate::resources::ResourceManager;
use crate::storage::{default_storage_dir, path_join, VMStorageManager};

verus! {

/// The runtime manager service's state.
pub struct RuntimeManagerServer {
    registry: RuntimeRegistry,
    resources: ResourceManager,
    storage: VMStorageManager,
    network: VirtualNetworkManager,
}

impl RuntimeManagerServer {
    /// Every part keeps its own invariant.
    #[verifier::type_invariant]
    spec fn parts_wf(self) -> bool {
        self.registry.wf() && self.resources.wf() && self.network.wf()
    }

    pub closed spec fn registry_view(&self) -> RuntimeRegistry {
        self.registry
    }

    pub closed spec fn resources_view(&self) -> ResourceManager {
        self.resources
    }

    pub closed spec fn storage_view(&self) -> VMStorageManager {
        self.storage
    }

    pub closed spec fn network_view(&self) -> VirtualNetworkManager {
        self.network
    }

    /// A manager with no runtimes, the default quota and no reservations, no
    /// network attachments or rules, and its images, disks and snapshots
    /// folders under the configured storage folder (or the default one).
    pub fn new(storage_dir: Option<String>) -> (r: Self)
        ensures
            r.registry_view().ids() == Seq::<Seq<char>>::empty(),
            r.resources_view().quota().max_cpus == 16,
            r.resources_view().quota().max_memory_mb == 32768,
            r.resources_view().reservations() == crate::resources::no_reservations(),
            r.network_view().runtimes() == Map::<Seq<char>, crate::network::ConfigView>::empty(),
            r.network_view().rules() == Seq::<crate::network::RuleView>::empty(),
            ({
                let base = match storage_dir {
                    Some(b) => b@,
                    None => default_storage_dir(),
                };
                &&& r.storage_view().images_dir@ == path_join(base, "images"@)
                &&& r.storage_view().disks_dir@ == path_join(base, "disks"@)
                &&& r.storage_view().snapshots_dir@ == path_join(base, "snapshots"@)
            }),
    {
        RuntimeManagerServer {
            registry: RuntimeRegistry::new(),
            resources: ResourceManager::default(),
            storage: VMStorageManager::from_configured(storage_dir),
            network: VirtualNetworkManager::new(),
        }
    }

    /// The execution runtimes the manager knows.
    pub fn registry(&self) -> (r: &RuntimeRegistry)
        ensures
            *r == self.registry_view(),
    {
        &self.registry
    }

    /// The resource quota and its reservations.
    pub fn resources(&self) -> (r: &ResourceManager)
        ensures
            *r == self.resources_view(),
    {
        &self.resources
    }

    /// Where virtual machine disks live.
    pub fn storage(&self) -> (r: &VMStorageManager)
        ensures
            *r == self.storage_view(),
    {
        &self.storage
    }

    /// The network attachments and rules.
    pub fn network(&self) -> (r: &VirtualNetworkManager)
        ensures
            *r == self.network_view(),
    {
        &self.network
    }

    /// Whether one runtime may reach another on a port and protocol, with the
    /// reason: the network policy's decision.
    pub fn check_network_policy(&self, source_runtime_id: &str, target_runtime_id: &str, port: u32, protocol: &str) -> (r: (
        bool,
        String,
    ))
        ensures
            (r.0, r.1@) == decision(
                self.network_view().runtimes(),
                self.network_view().rules(),
                source_runtime_id@,
                target_runtime_id@,
                port,
                protocol@,
            ),
    {
        proof {
            use_type_invariant(self);
        }
        self.network.can_communicate(source_runtime_id, target_runtime_id, port, protocol)
    }
}

} // verus!
