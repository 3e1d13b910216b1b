//! Resource quotas and the reservations held against them.
use vstd::prelude::*;
use dashmap::DashMap;
use crate::text::{concat2, decimal, decimal_string, strs};
use crate::sums::{
    lemma_map_total_empty, lemma_map_total_insert, lemma_map_total_remove, lemma_seq_sum_is_set_sum,
    lemma_seq_sum_prefix_bound, map_total, seq_sum, share,
};

verus! {

/// The most a host hands out to its runtimes.
#[derive(Clone, Copy, Debug)]
pub struct ResourceQuota {
    pub max_cpus: u32,
    pub max_memory_mb: u64,
    pub max_storage_gb: u64,
    pub max_gpus: u32,
    pub max_vms: u32,
    pub max_containers: u32,
}

impl Default for ResourceQuota {
    /// Sixteen CPUs, 32 GiB of memory, 500 GB of storage, two GPUs, five
    /// virtual machines and twenty containers.
    fn default() -> (r: Self)
        ensures
            r.max_cpus == 16,
            r.max_memory_mb == 32768,
            r.max_storage_gb == 500,
            r.max_gpus == 2,
            r.max_vms == 5,
            r.max_containers == 20,
    {
        ResourceQuota {
            max_cpus: 16,
            max_memory_mb: 32768,
            max_storage_gb: 500,
            max_gpus: 2,
            max_vms: 5,
            max_containers: 20,
        }
    }
}

/// Resources set aside for one runtime.
#[derive(Debug)]
pub struct ResourceReservation {
    pub reservation_id: String,
    pub runtime_id: String,
    pub cpus: u32,
    pub memory_mb: u64,
    pub storage_gb: u64,
    pub gpus: u32,
}

/// A reservation as a value.
pub struct ReservationView {
    pub reservation_id: Seq<char>,
    pub runtime_id: Seq<char>,
    pub cpus: u32,
    pub memory_mb: u64,
    pub storage_gb: u64,
    pub gpus: u32,
}

impl View for ResourceReservation {
    type V = ReservationView;

    open spec fn view(&self) -> ReservationView {
        ReservationView {
            reservation_id: self.reservation_id@,
            runtime_id: self.runtime_id@,
            cpus: self.cpus,
            memory_mb: self.memory_mb,
            storage_gb: self.storage_gb,
            gpus: self.gpus,
        }
    }
}

impl Clone for ResourceReservation {
    fn clone(&self) -> (r: Self)
        ensures
            r@ == self@,
    {
        ResourceReservation {
            reservation_id: self.reservation_id.clone(),
            runtime_id: self.runtime_id.clone(),
            cpus: self.cpus,
            memory_mb: self.memory_mb,
            storage_gb: self.storage_gb,
            gpus: self.gpus,
        }
    }
}

/// What is currently allocated.
#[derive(Clone, Copy, Debug)]
pub struct ResourceMetrics {
    pub allocated_cpus: u32,
    pub allocated_memory_mb: u64,
    pub allocated_storage_gb: u64,
    pub active_vms: u32,
    pub active_containers: u32,
}

/// Why a reservation was refused or could not be released.
#[derive(Debug, Clone, PartialEq, Eq)]
pub enum ResourceError {
    /// What was requested, and what is left.
    QuotaExceeded(String, String),
    NotFound(String),
}

impl ResourceError {
    /// The human-readable message of the error.
    pub fn message(&self) -> (r: String)
        ensures
            match self {
                ResourceError::QuotaExceeded(a, b) => r@ == "Resource quota exceeded: requested "@
                    + a@ + ", available "@ + b@,
                ResourceError::NotFound(id) => r@ == "Reservation not found: "@ + id@,
            },
    {
        match self {
            ResourceError::QuotaExceeded(a, b) => {
                let mut r = concat2("Resource quota exceeded: requested ", a.as_str());
                r.append(", available ");
                r.append(b.as_str());
                r
            },
            ResourceError::NotFound(id) => concat2("Reservation not found: ", id.as_str()),
        }
    }
}

/// A table of reservations by reservation identity.
pub type ReservationTable = DashMap<String, ResourceReservation>;

/// The reservations a table holds, by reservation identity.
pub uninterp spec fn reservation_table(m: DashMap<String, ResourceReservation>) -> Map<
    Seq<char>,
    ReservationView,
>;

/// No reservations.
pub open spec fn no_reservations() -> Map<Seq<char>, ReservationView> {
    Map::empty()
}

/// `DashMap::new`: an empty table.
#[verifier::external_body]
fn reservations_new() -> (r: ReservationTable)
    ensures
        reservation_table(r) == no_reservations(),
{
    DashMap::new()
}

/// `DashMap::insert`: the key now maps to the reservation; other keys are unchanged.
#[verifier::external_body]
fn reservations_insert(m: &mut DashMap<String, ResourceReservation>, k: String, v: ResourceReservation)
    ensures
        reservation_table(*final(m)) == reservation_table(*old(m)).insert(k@, v@),
{
    m.insert(k, v);
}

/// `DashMap::remove`: the key is gone; whether it was there is returned.
#[verifier::external_body]
fn reservations_remove(m: &mut DashMap<String, ResourceReservation>, k: &str) -> (r: bool)
    ensures
        reservation_table(*final(m)) == reservation_table(*old(m)).remove(k@),
        r == reservation_table(*old(m)).contains_key(k@),
{
    m.remove(k).is_some()
}

/// `DashMap::get`, cloning the reservation found under the key.
#[verifier::external_body]
fn reservations_get(m: &DashMap<String, ResourceReservation>, k: &str) -> (r: Option<
    ResourceReservation,
>)
    ensures
        r is Some <==> reservation_table(*m).contains_key(k@),
        r matches Some(v) ==> v@ == reservation_table(*m)[k@],
{
    m.get(k).map(|e| e.value().clone())
}

/// `DashMap::iter`, keeping the keys: every key of the table once, in the
/// table's own order.
#[verifier::external_body]
fn reservations_keys(m: &DashMap<String, ResourceReservation>) -> (r: Vec<String>)
    ensures
        strs(r@).no_duplicates(),
        strs(r@).to_set() == reservation_table(*m).dom(),
{
    m.iter().map(|e| e.key().clone()).collect()
}

/// `DashMap::len`: the number of keys in the table.
#[verifier::external_body]
fn reservations_len(m: &DashMap<String, ResourceReservation>) -> (r: usize)
    ensures
        r == reservation_table(*m).len(),
{
    m.len()
}

/// The CPUs of a reservation.
pub open spec fn cpus() -> spec_fn(ReservationView) -> int {
    |r: ReservationView| r.cpus as int
}

/// The memory of a reservation, in MB.
pub open spec fn memory() -> spec_fn(ReservationView) -> int {
    |r: ReservationView| r.memory_mb as int
}

/// The storage of a reservation, in GB.
pub open spec fn storage() -> spec_fn(ReservationView) -> int {
    |r: ReservationView| r.storage_gb as int
}

/// CPUs allocated over all reservations.
pub open spec fn allocated_cpus(t: Map<Seq<char>, ReservationView>) -> int {
    map_total(t, cpus())
}

/// Memory allocated over all reservations, in MB.
pub open spec fn allocated_memory(t: Map<Seq<char>, ReservationView>) -> int {
    map_total(t, memory())
}

/// Storage allocated over all reservations, in GB.
pub open spec fn allocated_storage(t: Map<Seq<char>, ReservationView>) -> int {
    map_total(t, storage())
}

/// `a - b`, or zero where `b` is larger.
pub open spec fn saturating_sub(a: int, b: int) -> int {
    if a >= b {
        a - b
    } else {
        0
    }
}

/// The two sides of a refused CPU request.
pub open spec fn cpu_refusal(requested: u32, left: int) -> (Seq<char>, Seq<char>) {
    (decimal(requested as nat) + " CPUs"@, decimal(left as nat) + " CPUs left"@)
}

/// The two sides of a refused memory request.
pub open spec fn memory_refusal(requested: u64, left: int) -> (Seq<char>, Seq<char>) {
    (decimal(requested as nat) + " MB RAM"@, decimal(left as nat) + " MB RAM left"@)
}

/// Resources held against a quota, by reservation.
pub struct ResourceManager {
    quota: ResourceQuota,
    reservations: DashMap<String, ResourceReservation>,
}

impl ResourceManager {
    /// The quota the reservations are held against.
    pub closed spec fn quota(&self) -> ResourceQuota {
        self.quota
    }

    /// The reservations held, by reservation identity.
    pub closed spec fn reservations(&self) -> Map<Seq<char>, ReservationView> {
        reservation_table(self.reservations)
    }

    /// Finitely many reservations, and CPUs and memory within the quota.
    pub open spec fn wf(&self) -> bool {
        &&& self.reservations().dom().finite()
        &&& allocated_cpus(self.reservations()) <= self.quota().max_cpus
        &&& allocated_memory(self.reservations()) <= self.quota().max_memory_mb
    }

    /// A manager with no reservations.
    pub fn new(quota: ResourceQuota) -> (r: Self)
        ensures
            r.wf(),
            r.quota() == quota,
            r.reservations() == no_reservations(),
    {
        let r = ResourceManager { quota, reservations: reservations_new() };
        proof {
            lemma_map_total_empty::<Seq<char>, ReservationView>(cpus());
            lemma_map_total_empty::<Seq<char>, ReservationView>(memory());
        }
        r
    }

    /// Totals over the reservations held: CPUs, memory and storage summed, and
    /// the number of reservations as the number of active virtual machines.
    pub fn get_current_usage(&self) -> (m: ResourceMetrics)
        requires
            self.wf(),
            allocated_storage(self.reservations()) <= u64::MAX,
        ensures
            m.allocated_cpus == allocated_cpus(self.reservations()),
            m.allocated_memory_mb == allocated_memory(self.reservations()),
            m.allocated_storage_gb == allocated_storage(self.reservations()),
            m.active_vms == self.reservations().len() as u32,
            m.active_containers == 0,
    {
        let ghost t = self.reservations();
        let ghost fc = share(t, cpus());
        let ghost fm = share(t, memory());
        let ghost fs = share(t, storage());
        let keys = reservations_keys(&self.reservations);
        let ghost ks = strs(keys@);
        proof {
            lemma_seq_sum_is_set_sum(ks, fc);
            lemma_seq_sum_is_set_sum(ks, fm);
            lemma_seq_sum_is_set_sum(ks, fs);
        }
        let mut total_cpus: u32 = 0;
        let mut total_mem: u64 = 0;
        let mut total_storage: u64 = 0;
        let mut i: usize = 0;
        while i < keys.len()
            invariant
                i <= keys.len(),
                t == reservation_table(self.reservations),
                fc == share(t, cpus()),
                fm == share(t, memory()),
                fs == share(t, storage()),
                ks == strs(keys@),
                ks.to_set() == t.dom(),
                seq_sum(ks, fc) <= u32::MAX,
                seq_sum(ks, fm) <= u64::MAX,
                seq_sum(ks, fs) <= u64::MAX,
                total_cpus == seq_sum(ks.take(i as int), fc),
                total_mem == seq_sum(ks.take(i as int), fm),
                total_storage == seq_sum(ks.take(i as int), fs),
            decreases keys.len() - i,
        {
            let ghost k = ks[i as int];
            proof {
                assert(ks.contains(k));
                assert(ks.to_set().contains(k));
                assert(ks.take(i + 1).drop_last() =~= ks.take(i as int));
                assert(ks.take(i + 1).last() == k);
                assert forall|x: Seq<char>| #[trigger] fc(x) >= 0 by {
                    assert(fc(x) == cpus()(t[x]));
                }
                assert forall|x: Seq<char>| #[trigger] fm(x) >= 0 by {
                    assert(fm(x) == memory()(t[x]));
                }
                assert forall|x: Seq<char>| #[trigger] fs(x) >= 0 by {
                    assert(fs(x) == storage()(t[x]));
                }
                lemma_seq_sum_prefix_bound(ks, i + 1, fc);
                lemma_seq_sum_prefix_bound(ks, i + 1, fm);
                lemma_seq_sum_prefix_bound(ks, i + 1, fs);
            }
            match reservations_get(&self.reservations, keys[i].as_str()) {
                Some(r) => {
                    total_cpus = total_cpus + r.cpus;
                    total_mem = total_mem + r.memory_mb;
                    total_storage = total_storage + r.storage_gb;
                },
                None => {},
            }
            i = i + 1;
        }
        proof {
            assert(ks.take(keys.len() as int) =~= ks);
        }
        let n = reservations_len(&self.reservations);
        ResourceMetrics {
            allocated_cpus: total_cpus,
            allocated_memory_mb: total_mem,
            allocated_storage_gb: total_storage,
            active_vms: n as u32,
            active_containers: 0,
        }
    }

    /// Holds the reservation if the quota's CPUs and memory allow it; a
    /// reservation under an identity already held replaces it.
    pub fn reserve(&mut self, reservation: ResourceReservation) -> (r: Result<(), ResourceError>)
        requires
            old(self).wf(),
            allocated_storage(old(self).reservations()) <= u64::MAX,
            allocated_cpus(old(self).reservations()) + reservation.cpus <= u32::MAX,
            allocated_memory(old(self).reservations()) + reservation.memory_mb <= u64::MAX,
        ensures
            final(self).wf(),
            final(self).quota() == old(self).quota(),
            ({
                let t = old(self).reservations();
                let q = old(self).quota();
                if allocated_cpus(t) + reservation.cpus > q.max_cpus {
                    &&& r matches Err(ResourceError::QuotaExceeded(a, b))
                    &&& (a@, b@) == cpu_refusal(
                        reservation.cpus,
                        saturating_sub(q.max_cpus as int, allocated_cpus(t)),
                    )
                    &&& final(self).reservations() == t
                } else if allocated_memory(t) + reservation.memory_mb > q.max_memory_mb {
                    &&& r matches Err(ResourceError::QuotaExceeded(a, b))
                    &&& (a@, b@) == memory_refusal(
                        reservation.memory_mb,
                        saturating_sub(q.max_memory_mb as int, allocated_memory(t)),
                    )
                    &&& final(self).reservations() == t
                } else {
                    &&& r is Ok
                    &&& final(self).reservations() == t.insert(
                        reservation.reservation_id@,
                        reservation@,
                    )
                }
            }),
    {
        let metrics = self.get_current_usage();
        if metrics.allocated_cpus + reservation.cpus > self.quota.max_cpus {
            let left: u32 = if self.quota.max_cpus >= metrics.allocated_cpus {
                self.quota.max_cpus - metrics.allocated_cpus
            } else {
                0
            };
            let a = concat2(decimal_string(reservation.cpus as u64).as_str(), " CPUs");
            let b = concat2(decimal_string(left as u64).as_str(), " CPUs left");
            return Err(ResourceError::QuotaExceeded(a, b));
        }
        if metrics.allocated_memory_mb + reservation.memory_mb > self.quota.max_memory_mb {
            let left: u64 = if self.quota.max_memory_mb >= metrics.allocated_memory_mb {
                self.quota.max_memory_mb - metrics.allocated_memory_mb
            } else {
                0
            };
            let a = concat2(decimal_string(reservation.memory_mb).as_str(), " MB RAM");
            let b = concat2(decimal_string(left).as_str(), " MB RAM left");
            return Err(ResourceError::QuotaExceeded(a, b));
        }
        let ghost t = self.reservations();
        let ghost v = reservation@;
        let id = reservation.reservation_id.clone();
        reservations_insert(&mut self.reservations, id, reservation);
        proof {
            lemma_map_total_insert(t, v.reservation_id, v, cpus());
            lemma_map_total_insert(t, v.reservation_id, v, memory());
            assert(self.reservations().dom() =~= t.dom().insert(v.reservation_id));
        }
        Ok(())
    }

    /// Gives back the reservation held under the identity.
    pub fn release(&mut self, reservation_id: &str) -> (r: Result<(), ResourceError>)
        requires
            old(self).wf(),
        ensures
            final(self).wf(),
            final(self).quota() == old(self).quota(),
            final(self).reservations() == old(self).reservations().remove(reservation_id@),
            old(self).reservations().contains_key(reservation_id@) <==> r is Ok,
            r matches Err(e) ==> e matches ResourceError::NotFound(id) && id@ == reservation_id@,
    {
        let ghost t = self.reservations();
        let found = reservations_remove(&mut self.reservations, reservation_id);
        proof {
            lemma_map_total_remove(t, reservation_id@, cpus());
            lemma_map_total_remove(t, reservation_id@, memory());
            assert(self.reservations().dom() =~= t.dom().remove(reservation_id@));
        }
        if found {
            Ok(())
        } else {
            Err(ResourceError::NotFound(String::from_str(reservation_id)))
        }
    }
}

impl Default for ResourceManager {
    /// A manager with the default quota and no reservations.
    fn default() -> (r: Self)
        ensures
            r.wf(),
            r.quota().max_cpus == 16,
            r.quota().max_memory_mb == 32768,
            r.quota().max_storage_gb == 500,
            r.quota().max_gpus == 2,
            r.quota().max_vms == 5,
            r.quota().max_containers == 20,
            r.reservations() == no_reservations(),
    {
        Self::new(ResourceQuota::default())
    }
}

/// A reservation that was admitted and then released leaves the table as it
/// was, when its identity was not held before.
pub proof fn law_release_undoes_reserve(
    t: Map<Seq<char>, ReservationView>,
    id: Seq<char>,
    v: ReservationView,
)
    requires
        !t.contains_key(id),
    ensures
        t.insert(id, v).remove(id) == t,
{
    assert(t.insert(id, v).remove(id) =~= t);
}

} // verus!
