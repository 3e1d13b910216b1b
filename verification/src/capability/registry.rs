//! The capability registry: every registered version of each capability, kept
//! in version order, and the providers that serve them.
use vstd::prelude::*;
use dashmap::DashMap;
use crate::capability::model::{
    compatible, version_le, version_lt, version_text, CapabilityDefinition, CapabilityVersion,
    DefinitionView,
};
use crate::text::{concat3, lemma_lex_irreflexive, lemma_lex_total, lemma_lex_transitive, lex_lt, list_contains, str_lt, strs};

verus! {

/// A table of capability versions by capability identity.
pub type DefinitionTable = DashMap<String, Vec<CapabilityDefinition>>;

/// The versions a definition table holds, by capability identity.
pub uninterp spec fn definition_table(m: DashMap<String, Vec<CapabilityDefinition>>) -> Map<
    Seq<char>,
    Seq<DefinitionView>,
>;

/// No definitions.
pub open spec fn no_definitions() -> Map<Seq<char>, Seq<DefinitionView>> {
    Map::empty()
}

/// The views of a list of definitions.
pub open spec fn def_views(s: Seq<CapabilityDefinition>) -> Seq<DefinitionView> {
    s.map_values(|d: CapabilityDefinition| d@)
}

/// `DashMap::new`: an empty table.
#[verifier::external_body]
fn definitions_new() -> (r: DefinitionTable)
    ensures
        definition_table(r) == no_definitions(),
{
    DashMap::new()
}

/// `DashMap::insert`: the key now maps to the versions; other keys are unchanged.
#[verifier::external_body]
fn definitions_insert(m: &mut DashMap<String, Vec<CapabilityDefinition>>, k: String, v: Vec<CapabilityDefinition>)
    ensures
        definition_table(*final(m)) == definition_table(*old(m)).insert(k@, def_views(v@)),
{
    m.insert(k, v);
}

/// `DashMap::get`, cloning the versions found under the key.
#[verifier::external_body]
fn definitions_get(m: &DashMap<String, Vec<CapabilityDefinition>>, k: &str) -> (r: Option<
    Vec<CapabilityDefinition>,
>)
    ensures
        r is Some <==> definition_table(*m).contains_key(k@),
        r matches Some(v) ==> def_views(v@) == definition_table(*m)[k@],
{
    m.get(k).map(|e| e.value().clone())
}

/// `DashMap::iter`, keeping the keys: every key of the table once, in the
/// table's own order.
#[verifier::external_body]
fn definitions_keys(m: &DashMap<String, Vec<CapabilityDefinition>>) -> (r: Vec<String>)
    ensures
        strs(r@).no_duplicates(),
        strs(r@).to_set() == definition_table(*m).dom(),
{
    m.iter().map(|e| e.key().clone()).collect()
}

/// Versions strictly increase along the list.
pub open spec fn versions_sorted(vs: Seq<DefinitionView>) -> bool {
    forall|i: int, j: int| 0 <= i < j < vs.len() ==> version_lt(#[trigger] vs[i].version, #[trigger] vs[j].version)
}

/// The versions registered for a capability; none when it is unknown.
pub open spec fn versions_of(t: Map<Seq<char>, Seq<DefinitionView>>, id: Seq<char>) -> Seq<DefinitionView> {
    if t.contains_key(id) {
        t[id]
    } else {
        Seq::empty()
    }
}

/// How many listed versions come before `v`.
pub open spec fn count_before(vs: Seq<DefinitionView>, v: CapabilityVersion) -> nat
    decreases vs.len(),
{
    if vs.len() == 0 {
        0
    } else {
        count_before(vs.drop_last(), v) + (if version_lt(vs.last().version, v) {
            1nat
        } else {
            0nat
        })
    }
}

/// The list with `d` put in version order.
pub open spec fn with_version(vs: Seq<DefinitionView>, d: DefinitionView) -> Seq<DefinitionView> {
    vs.insert(count_before(vs, d.version) as int, d)
}

/// The version is already listed.
pub open spec fn has_version(vs: Seq<DefinitionView>, v: CapabilityVersion) -> bool {
    exists|i: int| 0 <= i < vs.len() && #[trigger] vs[i].version == v
}

/// The refusal of a version that is already registered.
pub open spec fn duplicate_message(d: DefinitionView) -> Seq<char> {
    "capability '"@ + d.capability_id + "' "@ + version_text(d.version) + " is already registered"@
}

/// The table after registering `d`, or the refusal.
pub open spec fn register_outcome(t: Map<Seq<char>, Seq<DefinitionView>>, d: DefinitionView) -> Result<
    Map<Seq<char>, Seq<DefinitionView>>,
    Seq<char>,
> {
    if has_version(versions_of(t, d.capability_id), d.version) {
        Err(duplicate_message(d))
    } else {
        Ok(t.insert(d.capability_id, with_version(versions_of(t, d.capability_id), d)))
    }
}

/// A definition serves a request for a version, or any request without one.
pub open spec fn serves(d: DefinitionView, requested: Option<CapabilityVersion>) -> bool {
    match requested {
        Some(v) => compatible(d.version, v),
        None => true,
    }
}

/// The last listed version that serves the request.
pub open spec fn lookup_index(vs: Seq<DefinitionView>, requested: Option<CapabilityVersion>) -> Option<int>
    decreases vs.len(),
{
    if vs.len() == 0 {
        None
    } else if serves(vs.last(), requested) {
        Some(vs.len() - 1)
    } else {
        lookup_index(vs.drop_last(), requested)
    }
}

/// The definition a lookup answers with.
pub open spec fn lookup_spec(
    t: Map<Seq<char>, Seq<DefinitionView>>,
    id: Seq<char>,
    requested: Option<CapabilityVersion>,
) -> Option<DefinitionView> {
    let vs = versions_of(t, id);
    match lookup_index(vs, requested) {
        Some(i) => Some(vs[i]),
        None => None,
    }
}

/// A well-formed table lists each capability's versions in strict version
/// order, each under its own identity.
pub open spec fn table_wf(t: Map<Seq<char>, Seq<DefinitionView>>) -> bool {
    forall|k: Seq<char>| #[trigger] t.contains_key(k) ==> {
        &&& versions_sorted(t[k])
        &&& forall|i: int| 0 <= i < t[k].len() ==> (#[trigger] t[k][i]).capability_id == k
    }
}

/// `lookup_index` answers `i` when `i` serves and nothing after it does.
proof fn lemma_lookup_index_at(vs: Seq<DefinitionView>, requested: Option<CapabilityVersion>, i: int)
    requires
        0 <= i < vs.len(),
        serves(vs[i], requested),
        forall|j: int| i < j < vs.len() ==> !serves(#[trigger] vs[j], requested),
    ensures
        lookup_index(vs, requested) == Some(i),
    decreases vs.len(),
{
    if i < vs.len() - 1 {
        assert(!serves(vs[vs.len() - 1], requested));
        assert forall|j: int| i < j < vs.drop_last().len() implies !serves(#[trigger] vs.drop_last()[j], requested) by {
            assert(vs.drop_last()[j] == vs[j]);
        }
        lemma_lookup_index_at(vs.drop_last(), requested, i);
    }
}

/// `lookup_index` answers nothing when nothing serves.
proof fn lemma_lookup_index_none(vs: Seq<DefinitionView>, requested: Option<CapabilityVersion>)
    requires
        forall|j: int| 0 <= j < vs.len() ==> !serves(#[trigger] vs[j], requested),
    ensures
        lookup_index(vs, requested) is None,
    decreases vs.len(),
{
    if vs.len() > 0 {
        assert(!serves(vs[vs.len() - 1], requested));
        assert forall|j: int| 0 <= j < vs.drop_last().len() implies !serves(#[trigger] vs.drop_last()[j], requested) by {
            assert(vs.drop_last()[j] == vs[j]);
        }
        lemma_lookup_index_none(vs.drop_last(), requested);
    }
}

/// The index `lookup_index` answers serves, and nothing after it does.
proof fn lemma_lookup_index_shape(vs: Seq<DefinitionView>, requested: Option<CapabilityVersion>)
    ensures
        match lookup_index(vs, requested) {
            Some(i) => 0 <= i < vs.len() && serves(vs[i], requested) && forall|j: int|
                i < j < vs.len() ==> !serves(#[trigger] vs[j], requested),
            None => forall|j: int| 0 <= j < vs.len() ==> !serves(#[trigger] vs[j], requested),
        },
    decreases vs.len(),
{
    if vs.len() > 0 {
        lemma_lookup_index_shape(vs.drop_last(), requested);
        if !serves(vs.last(), requested) {
            match lookup_index(vs.drop_last(), requested) {
                Some(i) => {
                    assert forall|j: int| i < j < vs.len() implies !serves(#[trigger] vs[j], requested) by {
                        if j < vs.len() - 1 {
                            assert(vs.drop_last()[j] == vs[j]);
                        }
                    }
                },
                None => {
                    assert forall|j: int| 0 <= j < vs.len() implies !serves(#[trigger] vs[j], requested) by {
                        if j < vs.len() - 1 {
                            assert(vs.drop_last()[j] == vs[j]);
                        }
                    }
                },
            }
        }
    }
}

/// Lookups answer with the newest version that serves the request: among a
/// capability's registered versions, the answer serves the request and no
/// serving version is newer; there is no answer only when nothing serves.
pub proof fn law_lookup_is_newest_compatible(vs: Seq<DefinitionView>, requested: Option<CapabilityVersion>)
    requires
        versions_sorted(vs),
    ensures
        match lookup_index(vs, requested) {
            Some(i) => 0 <= i < vs.len() && serves(vs[i], requested) && forall|j: int|
                0 <= j < vs.len() && serves(#[trigger] vs[j], requested) ==> version_le(
                    vs[j].version,
                    vs[i].version,
                ),
            None => forall|j: int| 0 <= j < vs.len() ==> !serves(#[trigger] vs[j], requested),
        },
{
    lemma_lookup_index_shape(vs, requested);
    match lookup_index(vs, requested) {
        Some(i) => {
            assert forall|j: int| 0 <= j < vs.len() && serves(#[trigger] vs[j], requested) implies version_le(
                vs[j].version,
                vs[i].version,
            ) by {
                if j > i {
                    assert(!serves(vs[j], requested));
                } else if j < i {
                    assert(version_lt(vs[j].version, vs[i].version));
                }
            }
        },
        None => {},
    }
}

/// With the versions before `p` all older than `v` and the rest not, `p` of
/// them come before `v`.
proof fn lemma_count_before(vs: Seq<DefinitionView>, v: CapabilityVersion, p: int)
    requires
        0 <= p <= vs.len(),
        forall|j: int| 0 <= j < p ==> version_lt(#[trigger] vs[j].version, v),
        forall|j: int| p <= j < vs.len() ==> !version_lt(#[trigger] vs[j].version, v),
    ensures
        count_before(vs, v) == p,
    decreases vs.len(),
{
    if vs.len() > 0 {
        let n = vs.len() - 1;
        let init = vs.drop_last();
        if p == vs.len() {
            assert(version_lt(vs[n].version, v));
            assert forall|j: int| 0 <= j < n implies version_lt(#[trigger] init[j].version, v) by {
                assert(init[j] == vs[j]);
            }
            lemma_count_before(init, v, n);
        } else {
            assert(!version_lt(vs[n].version, v));
            assert forall|j: int| 0 <= j < p implies version_lt(#[trigger] init[j].version, v) by {
                assert(init[j] == vs[j]);
            }
            assert forall|j: int| p <= j < n implies !version_lt(#[trigger] init[j].version, v) by {
                assert(init[j] == vs[j]);
            }
            lemma_count_before(init, v, p);
        }
    }
}

/// In versions in strict order, `count_before` splits them: those before the
/// count precede `v`, the others do not.
proof fn lemma_count_before_splits(vs: Seq<DefinitionView>, v: CapabilityVersion)
    requires
        versions_sorted(vs),
    ensures
        count_before(vs, v) <= vs.len(),
        forall|j: int| 0 <= j < count_before(vs, v) ==> version_lt(#[trigger] vs[j].version, v),
        forall|j: int| count_before(vs, v) <= j < vs.len() ==> !version_lt(#[trigger] vs[j].version, v),
    decreases vs.len(),
{
    if vs.len() > 0 {
        let n = vs.len() - 1;
        let init = vs.drop_last();
        assert forall|i: int, j: int| 0 <= i < j < init.len() implies version_lt(
            #[trigger] init[i].version,
            #[trigger] init[j].version,
        ) by {
            assert(init[i] == vs[i] && init[j] == vs[j]);
        }
        lemma_count_before_splits(init, v);
        if version_lt(vs[n].version, v) {
            assert forall|j: int| 0 <= j < n implies version_lt(#[trigger] vs[j].version, v) by {
                assert(version_lt(vs[j].version, vs[n].version));
            }
        } else {
            assert forall|j: int| count_before(vs, v) <= j < vs.len() implies !version_lt(
                #[trigger] vs[j].version,
                v,
            ) by {
                if j < n {
                    assert(init[j] == vs[j]);
                }
            }
            assert forall|j: int| 0 <= j < count_before(vs, v) implies version_lt(#[trigger] vs[j].version, v) by {
                assert(init[j] == vs[j]);
            }
        }
    }
}

/// Registering a version adds exactly that version: where the capability
/// already lists it the registration is refused; otherwise the capability's
/// new list is the old one plus the new definition, in strict version order
/// (so no version twice), and no other capability changes.
pub proof fn law_register_adds_one_version(t: Map<Seq<char>, Seq<DefinitionView>>, d: DefinitionView)
    requires
        table_wf(t),
    ensures
        register_outcome(t, d) is Err <==> has_version(versions_of(t, d.capability_id), d.version),
        register_outcome(t, d) matches Ok(n) ==> {
            let vs = versions_of(t, d.capability_id);
            let nv = n[d.capability_id];
            &&& n.contains_key(d.capability_id)
            &&& versions_sorted(nv)
            &&& nv.len() == vs.len() + 1
            &&& nv.to_set() == vs.to_set().insert(d)
            &&& n.remove(d.capability_id) == t.remove(d.capability_id)
        },
{
    let id = d.capability_id;
    let vs = versions_of(t, id);
    assert(versions_sorted(vs)) by {
        if t.contains_key(id) {
        } else {
            assert(vs.len() == 0);
        }
    }
    if !has_version(vs, d.version) {
        let v = d.version;
        lemma_count_before_splits(vs, v);
        let p = count_before(vs, v) as int;
        let nv = vs.insert(p, d);
        let n = t.insert(id, with_version(vs, d));
        assert(n[id] == nv);
        assert forall|i: int, j: int| 0 <= i < j < nv.len() implies version_lt(
            #[trigger] nv[i].version,
            #[trigger] nv[j].version,
        ) by {
            if j < p {
            } else if j == p {
            } else if i < p {
                assert(nv[j] == vs[j - 1]);
            } else if i == p {
                assert(nv[j] == vs[j - 1]);
                assert(vs[j - 1].version != v);
            } else {
                assert(nv[i] == vs[i - 1]);
                assert(nv[j] == vs[j - 1]);
            }
        }
        assert(nv.to_set() =~= vs.to_set().insert(d)) by {
            assert forall|y: DefinitionView| nv.to_set().contains(y) implies vs.to_set().insert(d).contains(y) by {
                let k = choose|k: int| 0 <= k < nv.len() && nv[k] == y;
                if k < p {
                    assert(vs[k] == y);
                } else if k > p {
                    assert(vs[k - 1] == y);
                }
            }
            assert forall|y: DefinitionView| vs.to_set().insert(d).contains(y) implies nv.to_set().contains(y) by {
                if y == d {
                    assert(nv[p] == y);
                } else {
                    let k = choose|k: int| 0 <= k < vs.len() && vs[k] == y;
                    if k < p {
                        assert(nv[k] == y);
                    } else {
                        assert(nv[k + 1] == y);
                    }
                }
            }
        }
        assert(n.remove(id) =~= t.remove(id));
    }
}

/// All definitions listed, capability by capability in the given key order.
pub open spec fn concat_versions(t: Map<Seq<char>, Seq<DefinitionView>>, ks: Seq<Seq<char>>) -> Seq<
    DefinitionView,
>
    decreases ks.len(),
{
    if ks.len() == 0 {
        Seq::empty()
    } else {
        concat_versions(t, ks.drop_last()) + t[ks.last()]
    }
}

/// `defs` lists every registered definition once, capability by capability.
pub open spec fn is_full_listing(t: Map<Seq<char>, Seq<DefinitionView>>, defs: Seq<DefinitionView>) -> bool {
    exists|ks: Seq<Seq<char>>|
        {
            &&& ks.no_duplicates()
            &&& ks.to_set() == t.dom()
            &&& defs == concat_versions(t, ks)
        }
}

/// The search text matches the identity or the description, ignoring ASCII case.
pub open spec fn matches_query(d: DefinitionView, needle: Seq<char>) -> bool {
    crate::text::contains(crate::text::lower(d.capability_id), needle) || crate::text::contains(
        crate::text::lower(d.description),
        needle,
    )
}

/// What the registry keeps of a provider: its identity, its runtime, its
/// priority (lower runs first) and the capabilities it defines.
#[derive(Debug)]
pub struct ProviderEntry {
    pub provider_id: String,
    pub runtime_id: String,
    pub priority: u8,
    pub capability_ids: Vec<String>,
}

/// A provider entry as a value.
pub struct ProviderView {
    pub provider_id: Seq<char>,
    pub runtime_id: Seq<char>,
    pub priority: u8,
    pub capability_ids: Seq<Seq<char>>,
}

impl View for ProviderEntry {
    type V = ProviderView;

    open spec fn view(&self) -> ProviderView {
        ProviderView {
            provider_id: self.provider_id@,
            runtime_id: self.runtime_id@,
            priority: self.priority,
            capability_ids: strs(self.capability_ids@),
        }
    }
}

impl Clone for ProviderEntry {
    fn clone(&self) -> (r: Self)
        ensures
            r@ == self@,
    {
        ProviderEntry {
            provider_id: self.provider_id.clone(),
            runtime_id: self.runtime_id.clone(),
            priority: self.priority,
            capability_ids: crate::text::clone_strings(&self.capability_ids),
        }
    }
}

/// A table of providers by provider identity.
pub type ProviderTable = DashMap<String, ProviderEntry>;

/// The providers a table holds, by provider identity.
pub uninterp spec fn provider_table(m: DashMap<String, ProviderEntry>) -> Map<Seq<char>, ProviderView>;

/// No providers.
pub open spec fn no_providers() -> Map<Seq<char>, ProviderView> {
    Map::empty()
}

/// `DashMap::new`: an empty table.
#[verifier::external_body]
fn providers_new() -> (r: ProviderTable)
    ensures
        provider_table(r) == no_providers(),
{
    DashMap::new()
}

/// `DashMap::contains_key`.
#[verifier::external_body]
fn providers_contains(m: &DashMap<String, ProviderEntry>, k: &str) -> (r: bool)
    ensures
        r == provider_table(*m).contains_key(k@),
{
    m.contains_key(k)
}

/// `DashMap::insert`: the key now maps to the provider; other keys are unchanged.
#[verifier::external_body]
fn providers_insert(m: &mut DashMap<String, ProviderEntry>, k: String, v: ProviderEntry)
    ensures
        provider_table(*final(m)) == provider_table(*old(m)).insert(k@, v@),
{
    m.insert(k, v);
}

/// `DashMap::remove`: the key is gone; whether it was there is returned.
#[verifier::external_body]
fn providers_remove(m: &mut DashMap<String, ProviderEntry>, k: &str) -> (r: bool)
    ensures
        provider_table(*final(m)) == provider_table(*old(m)).remove(k@),
        r == provider_table(*old(m)).contains_key(k@),
{
    m.remove(k).is_some()
}

/// `DashMap::get`, cloning the provider found under the key.
#[verifier::external_body]
fn providers_get(m: &DashMap<String, ProviderEntry>, k: &str) -> (r: Option<ProviderEntry>)
    ensures
        r is Some <==> provider_table(*m).contains_key(k@),
        r matches Some(v) ==> v@ == provider_table(*m)[k@],
{
    m.get(k).map(|e| e.value().clone())
}

/// `DashMap::iter`, keeping the keys: every key of the table once, in the
/// table's own order.
#[verifier::external_body]
fn providers_keys(m: &DashMap<String, ProviderEntry>) -> (r: Vec<String>)
    ensures
        strs(r@).no_duplicates(),
        strs(r@).to_set() == provider_table(*m).dom(),
{
    m.iter().map(|e| e.key().clone()).collect()
}

/// The provider defines the capability.
pub open spec fn offers(p: ProviderView, capability_id: Seq<char>) -> bool {
    p.capability_ids.contains(capability_id)
}

/// The provider may take a request: it defines the capability, runs on the
/// hinted runtime if there is a hint, and is not currently unavailable.
pub open spec fn candidate(
    id: Seq<char>,
    p: ProviderView,
    capability_id: Seq<char>,
    runtime_hint: Option<Seq<char>>,
    unavailable: Seq<Seq<char>>,
) -> bool {
    &&& (runtime_hint matches Some(h) ==> p.runtime_id == h)
    &&& offers(p, capability_id)
    &&& !unavailable.contains(id)
}

/// Identities in strictly increasing code point order.
pub open spec fn ids_sorted(ids: Seq<Seq<char>>) -> bool {
    forall|i: int, j: int| 0 <= i < j < ids.len() ==> lex_lt(#[trigger] ids[i], #[trigger] ids[j])
}

/// The capability definitions' identities, in order.
pub open spec fn capability_ids_of(ds: Seq<DefinitionView>) -> Seq<Seq<char>> {
    ds.map_values(|d: DefinitionView| d.capability_id)
}

/// What registering one of a provider's definitions does: it is registered
/// unless a version serving it is already there.
pub open spec fn adopt_definition(t: Map<Seq<char>, Seq<DefinitionView>>, d: DefinitionView) -> Map<
    Seq<char>,
    Seq<DefinitionView>,
> {
    if lookup_spec(t, d.capability_id, Some(d.version)) is None {
        t.insert(d.capability_id, with_version(versions_of(t, d.capability_id), d))
    } else {
        t
    }
}

/// A provider's definitions adopted in order.
pub open spec fn adopt_definitions(t: Map<Seq<char>, Seq<DefinitionView>>, ds: Seq<DefinitionView>) -> Map<
    Seq<char>,
    Seq<DefinitionView>,
>
    decreases ds.len(),
{
    if ds.len() == 0 {
        t
    } else {
        adopt_definition(adopt_definitions(t, ds.drop_last()), ds.last())
    }
}

/// A version already registered serves a request for itself.
proof fn lemma_has_version_serves(vs: Seq<DefinitionView>, v: CapabilityVersion)
    requires
        has_version(vs, v),
    ensures
        lookup_index(vs, Some(v)) is Some,
{
    let i = choose|i: int| 0 <= i < vs.len() && #[trigger] vs[i].version == v;
    assert(serves(vs[i], Some(v)));
    lemma_lookup_index_shape(vs, Some(v));
}

fn insert_sorted_id(v: &mut Vec<String>, x: String)
    requires
        ids_sorted(strs(old(v)@)),
        !strs(old(v)@).contains(x@),
    ensures
        ids_sorted(strs(final(v)@)),
        strs(final(v)@).to_set() == strs(old(v)@).to_set().insert(x@),
        strs(final(v)@).len() == strs(old(v)@).len() + 1,
{
    let ghost s = strs(v@);
    let mut p: usize = 0;
    while p < v.len() && str_lt(v[p].as_str(), x.as_str())
        invariant
            p <= v.len(),
            s == strs(v@),
            forall|j: int| 0 <= j < p ==> lex_lt(#[trigger] s[j], x@),
        decreases v.len() - p,
    {
        p += 1;
    }
    proof {
        if p < v.len() {
            assert(s[p as int] == v@[p as int]@);
            assert(!lex_lt(s[p as int], x@));
            assert(s[p as int] != x@) by {
                assert(s.contains(s[p as int]));
            }
            lemma_lex_total(s[p as int], x@);
        }
    }
    v.insert(p, x);
    let ghost n = strs(v@);
    assert(n =~= s.insert(p as int, x@));
    proof {
        assert forall|i: int, j: int| 0 <= i < j < n.len() implies lex_lt(#[trigger] n[i], #[trigger] n[j]) by {
            if j < p {
            } else if j == p {
            } else if i < p {
                assert(n[j] == s[j - 1]);
                assert(lex_lt(s[i], x@));
                lemma_lex_transitive(s[i], x@, s[p as int]);
                if j - 1 > p {
                    lemma_lex_transitive(s[i], s[p as int], s[j - 1]);
                }
            } else if i == p {
                assert(n[j] == s[j - 1]);
                if j - 1 > p {
                    lemma_lex_transitive(x@, s[p as int], s[j - 1]);
                }
            } else {
                assert(n[i] == s[i - 1]);
                assert(n[j] == s[j - 1]);
            }
        }
        assert(n.to_set() =~= s.to_set().insert(x@)) by {
            assert forall|y: Seq<char>| n.to_set().contains(y) implies s.to_set().insert(x@).contains(y) by {
                let k = choose|k: int| 0 <= k < n.len() && n[k] == y;
                if k < p {
                    assert(s[k] == y);
                } else if k > p {
                    assert(s[k - 1] == y);
                }
            }
            assert forall|y: Seq<char>| s.to_set().insert(x@).contains(y) implies n.to_set().contains(y) by {
                if y == x@ {
                    assert(n[p as int] == y);
                } else {
                    let k = choose|k: int| 0 <= k < s.len() && s[k] == y;
                    if k < p {
                        assert(n[k] == y);
                    } else {
                        assert(n[k + 1] == y);
                    }
                }
            }
        }
    }
}

/// Strictly increasing identities are distinct.
proof fn lemma_sorted_no_duplicates(ids: Seq<Seq<char>>)
    requires
        ids_sorted(ids),
    ensures
        ids.no_duplicates(),
{
    assert forall|i: int, j: int| 0 <= i < ids.len() && 0 <= j < ids.len() && i != j implies ids[i] != ids[j] by {
        if i < j {
            assert(lex_lt(ids[i], ids[j]));
            lemma_lex_irreflexive(ids[i]);
        } else {
            assert(lex_lt(ids[j], ids[i]));
            lemma_lex_irreflexive(ids[j]);
        }
    }
}

/// The priorities of providers listed by identity never decrease.
pub open spec fn by_priority(ids: Seq<Seq<char>>, t: Map<Seq<char>, ProviderView>) -> bool {
    forall|i: int, j: int| 0 <= i < j < ids.len() ==> t[#[trigger] ids[i]].priority <= t[#[trigger] ids[j]].priority
}

/// Registered capability versions, and the providers that serve capabilities.
pub struct CapabilityRegistry {
    definitions: DashMap<String, Vec<CapabilityDefinition>>,
    providers: DashMap<String, ProviderEntry>,
}

impl CapabilityRegistry {
    /// Registered versions by capability identity.
    pub closed spec fn defs(&self) -> Map<Seq<char>, Seq<DefinitionView>> {
        definition_table(self.definitions)
    }

    /// Registered providers by provider identity.
    pub closed spec fn providers(&self) -> Map<Seq<char>, ProviderView> {
        provider_table(self.providers)
    }

    /// Each capability's versions in strict version order, under its identity.
    pub open spec fn wf(&self) -> bool {
        table_wf(self.defs())
    }

    /// An empty registry.
    pub fn new() -> (r: Self)
        ensures
            r.wf(),
            r.defs() == no_definitions(),
            r.providers() == no_providers(),
    {
        CapabilityRegistry { definitions: definitions_new(), providers: providers_new() }
    }

    /// Registers a capability version, kept in version order among the
    /// capability's versions; a version already registered is refused.
    pub fn register(&mut self, definition: CapabilityDefinition) -> (r: Result<(), String>)
        requires
            old(self).wf(),
        ensures
            final(self).wf(),
            match (r, register_outcome(old(self).defs(), definition@)) {
                (Ok(()), Ok(t)) => final(self).defs() == t,
                (Err(m), Err(e)) => m@ == e && final(self).defs() == old(self).defs(),
                _ => false,
            },
            final(self).providers() == old(self).providers(),
    {
        let ghost t = self.defs();
        let ghost d = definition@;
        let ghost id = definition.capability_id@;
        let v = definition.version;
        let mut versions = match definitions_get(&self.definitions, definition.capability_id.as_str()) {
            Some(vs) => vs,
            None => Vec::new(),
        };
        let ghost vs = def_views(versions@);
        assert(vs == versions_of(t, id));
        assert(versions_sorted(vs));
        let mut p: usize = 0;
        while p < versions.len() && versions[p].version.precedes(&v)
            invariant
                p <= versions.len(),
                vs == def_views(versions@),
                forall|j: int| 0 <= j < p ==> version_lt(#[trigger] vs[j].version, v),
            decreases versions.len() - p,
        {
            assert(vs[p as int] == versions@[p as int]@);
            p += 1;
        }
        proof {
            assert forall|j: int| p <= j < vs.len() implies !version_lt(#[trigger] vs[j].version, v) by {
                assert(!version_lt(vs[p as int].version, v));
                if j > p {
                    assert(version_lt(vs[p as int].version, vs[j].version));
                }
            }
            lemma_count_before(vs, v, p as int);
        }
        if p < versions.len() && versions[p].version == v {
            proof {
                assert(vs[p as int].version == v);
                assert(has_version(vs, v));
            }
            let mut m = concat3("capability '", definition.capability_id.as_str(), "' ");
            m.append(v.to_string().as_str());
            m.append(" is already registered");
            return Err(m);
        }
        proof {
            assert forall|j: int| 0 <= j < vs.len() implies #[trigger] vs[j].version != v by {
                if j > p {
                    assert(version_lt(vs[p as int].version, vs[j].version));
                }
            }
        }
        let key = definition.capability_id.clone();
        versions.insert(p, definition);
        let ghost nv = def_views(versions@);
        assert(nv =~= vs.insert(p as int, d));
        proof {
            assert forall|i: int, j: int| 0 <= i < j < nv.len() implies version_lt(#[trigger] nv[i].version, #[trigger] nv[j].version) by {
                if j < p {
                } else if j == p {
                } else if i < p {
                    assert(nv[j] == vs[j - 1]);
                } else if i == p {
                    assert(nv[j] == vs[j - 1]);
                    assert(!version_lt(vs[j - 1].version, v));
                    assert(vs[j - 1].version != v);
                } else {
                    assert(nv[i] == vs[i - 1]);
                    assert(nv[j] == vs[j - 1]);
                }
            }
        }
        definitions_insert(&mut self.definitions, key, versions);
        assert(self.defs() == t.insert(id, with_version(versions_of(t, id), d)));
        Ok(())
    }

    /// Removes one version of a capability; whether it was registered.
    pub fn unregister(&mut self, id: &str, version: &CapabilityVersion) -> (r: bool)
        requires
            old(self).wf(),
        ensures
            final(self).wf(),
            r == has_version(versions_of(old(self).defs(), id@), *version),
            r ==> exists|i: int|
                0 <= i < versions_of(old(self).defs(), id@).len() && versions_of(old(self).defs(), id@)[i].version
                    == *version && final(self).defs() == old(self).defs().insert(
                    id@,
                    versions_of(old(self).defs(), id@).remove(i),
                ),
            !r ==> final(self).defs() == old(self).defs(),
            final(self).providers() == old(self).providers(),
    {
        let ghost t = self.defs();
        match definitions_get(&self.definitions, id) {
            None => false,
            Some(mut versions) => {
                let ghost vs = def_views(versions@);
                proof {
                    assert(t.contains_key(id@));
                    assert(versions_sorted(vs));
                }
                let mut i: usize = 0;
                while i < versions.len()
                    invariant
                        i <= versions.len(),
                        vs == def_views(versions@),
                        t == self.defs(),
                        t == old(self).defs(),
                        self.providers() == old(self).providers(),
                        table_wf(t),
                        t.contains_key(id@),
                        vs == t[id@],
                        versions_sorted(vs),
                        forall|j: int| 0 <= j < i ==> #[trigger] vs[j].version != *version,
                    decreases versions.len() - i,
                {
                    assert(vs[i as int] == versions@[i as int]@);
                    if versions[i].version == *version {
                        versions.remove(i);
                        let ghost nv = def_views(versions@);
                        assert(nv =~= vs.remove(i as int));
                        proof {
                            assert forall|a: int, b: int| 0 <= a < b < nv.len() implies version_lt(#[trigger] nv[a].version, #[trigger] nv[b].version) by {
                                if a >= i {
                                    assert(nv[a] == vs[a + 1]);
                                }
                                if b >= i {
                                    assert(nv[b] == vs[b + 1]);
                                }
                            }
                            assert(vs[i as int].version == *version);
                            assert forall|a: int| 0 <= a < nv.len() implies (#[trigger] nv[a]).capability_id == id@ by {
                                if a >= i {
                                    assert(nv[a] == vs[a + 1]);
                                }
                            }
                        }
                        definitions_insert(&mut self.definitions, String::from_str(id), versions);
                        proof {
                            assert(versions_of(t, id@)[i as int].version == *version);
                            assert(self.defs() == t.insert(id@, versions_of(t, id@).remove(i as int)));
                            assert forall|k: Seq<char>| #[trigger] self.defs().contains_key(k) implies {
                                &&& versions_sorted(self.defs()[k])
                                &&& forall|a: int| 0 <= a < self.defs()[k].len() ==> (#[trigger] self.defs()[k][a]).capability_id == k
                            } by {
                                if k != id@ {
                                    assert(t.contains_key(k));
                                }
                            }
                        }
                        return true;
                    }
                    i += 1;
                }
                false
            },
        }
    }

    /// The newest registered version of the capability that serves the
    /// requested version, or the newest version when none is requested.
    pub fn lookup(&self, id: &str, requested: Option<&CapabilityVersion>) -> (r: Option<CapabilityDefinition>)
        requires
            self.wf(),
        ensures
            match (r, lookup_spec(self.defs(), id@, crate::capability::registry::copied(requested))) {
                (Some(d), Some(e)) => d@ == e,
                (None, None) => true,
                _ => false,
            },
    {
        let ghost req = copied(requested);
        match definitions_get(&self.definitions, id) {
            None => {
                proof {
                    lemma_lookup_index_none(Seq::<DefinitionView>::empty(), req);
                }
                None
            },
            Some(versions) => {
                let ghost vs = def_views(versions@);
                let mut i: usize = versions.len();
                while i > 0
                    invariant
                        i <= versions.len(),
                        vs == def_views(versions@),
                        vs == versions_of(self.defs(), id@),
                        req == copied(requested),
                        forall|j: int| i <= j < vs.len() ==> !serves(#[trigger] vs[j], req),
                    decreases i,
                {
                    i -= 1;
                    assert(vs[i as int] == versions@[i as int]@);
                    let ok = match requested {
                        Some(v) => versions[i].version.compatible_with(v),
                        None => true,
                    };
                    if ok {
                        proof {
                            lemma_lookup_index_at(vs, req, i as int);
                        }
                        return Some(versions[i].clone());
                    }
                }
                proof {
                    lemma_lookup_index_none(vs, req);
                }
                None
            },
        }
    }

    /// Every registered definition, capability by capability.
    pub fn list(&self) -> (r: Vec<CapabilityDefinition>)
        ensures
            is_full_listing(self.defs(), def_views(r@)),
    {
        let keys = definitions_keys(&self.definitions);
        let ghost t = self.defs();
        let ghost ks = strs(keys@);
        let mut r: Vec<CapabilityDefinition> = Vec::new();
        let mut i: usize = 0;
        while i < keys.len()
            invariant
                i <= keys.len(),
                t == self.defs(),
                ks == strs(keys@),
                ks.to_set() == t.dom(),
                def_views(r@) == concat_versions(t, ks.take(i as int)),
            decreases keys.len() - i,
        {
            proof {
                assert(ks.contains(ks[i as int]));
                assert(ks.take(i + 1).drop_last() =~= ks.take(i as int));
            }
            match definitions_get(&self.definitions, keys[i].as_str()) {
                Some(vs) => {
                    let ghost before = def_views(r@);
                    let mut j: usize = 0;
                    while j < vs.len()
                        invariant
                            j <= vs.len(),
                            def_views(r@) == before + def_views(vs@).take(j as int),
                        decreases vs.len() - j,
                    {
                        let ghost prev = r@;
                        r.push(vs[j].clone());
                        assert(def_views(r@) =~= def_views(prev).push(vs@[j as int]@));
                        assert(def_views(vs@).take(j + 1) =~= def_views(vs@).take(j as int).push(vs@[j as int]@));
                        assert(def_views(r@) =~= before + def_views(vs@).take(j + 1));
                        j += 1;
                    }
                    assert(def_views(vs@).take(vs.len() as int) =~= def_views(vs@));
                    assert(ks.take(i + 1).last() == ks[i as int]);
                },
                None => {},
            }
            i += 1;
        }
        assert(ks.take(keys.len() as int) =~= ks);
        r
    }

    /// The registered definitions whose identity or description contains the
    /// query, ignoring ASCII case.
    pub fn search(&self, query: &str) -> (r: Vec<CapabilityDefinition>)
        ensures
            exists|all: Seq<DefinitionView>|
                is_full_listing(self.defs(), all) && def_views(r@) == all.filter(
                    |d: DefinitionView| matches_query(d, crate::text::lower(query@)),
                ),
    {
        let needle = crate::text::to_lower(query);
        let all = self.list();
        let ghost pred = |d: DefinitionView| matches_query(d, crate::text::lower(query@));
        let ghost av = def_views(all@);
        let mut r: Vec<CapabilityDefinition> = Vec::new();
        let mut i: usize = 0;
        while i < all.len()
            invariant
                i <= all.len(),
                av == def_views(all@),
                needle@ == crate::text::lower(query@),
                pred == (|d: DefinitionView| matches_query(d, crate::text::lower(query@))),
                def_views(r@) == av.take(i as int).filter(pred),
            decreases all.len() - i,
        {
            let d = &all[i];
            assert(av[i as int] == d@);
            let id_l = crate::text::to_lower(d.capability_id.as_str());
            let desc_l = crate::text::to_lower(d.description.as_str());
            let hit = crate::text::contains_exec(&id_l, &needle) || crate::text::contains_exec(&desc_l, &needle);
            assert(av.take(i + 1).drop_last() =~= av.take(i as int));
            assert(av.take(i + 1).last() == d@);
            assert(pred(d@) == matches_query(d@, crate::text::lower(query@)));
            assert(hit == pred(d@));
            assert(av.take(i + 1) =~= av.take(i as int).push(d@));
            proof {
                av.take(i as int).lemma_filter_push(d@, pred);
            }
            assert(av.take(i + 1).filter(pred) == (if pred(d@) {
                av.take(i as int).filter(pred).push(d@)
            } else {
                av.take(i as int).filter(pred)
            }));
            if hit {
                let ghost prev = r@;
                r.push(d.clone());
                assert(def_views(r@) =~= def_views(prev).push(d@));
                assert(def_views(r@) =~= av.take(i as int).filter(pred).push(d@));
            }
            i += 1;
        }
        assert(av.take(all.len() as int) =~= av);
        r
    }

    /// Registers a provider with the definitions it offers; each definition is
    /// registered unless a version serving it already is. A provider identity
    /// already registered is refused.
    pub fn register_provider(
        &mut self,
        provider_id: &str,
        runtime_id: &str,
        priority: u8,
        definitions: Vec<CapabilityDefinition>,
    ) -> (r: Result<(), String>)
        requires
            old(self).wf(),
        ensures
            final(self).wf(),
            old(self).providers().contains_key(provider_id@) ==> {
                &&& r matches Err(m) && m@ == "provider '"@ + provider_id@ + "' is already registered"@
                &&& final(self).defs() == old(self).defs()
                &&& final(self).providers() == old(self).providers()
            },
            !old(self).providers().contains_key(provider_id@) ==> {
                &&& r is Ok
                &&& final(self).defs() == adopt_definitions(old(self).defs(), def_views(definitions@))
                &&& final(self).providers() == old(self).providers().insert(
                    provider_id@,
                    ProviderView {
                        provider_id: provider_id@,
                        runtime_id: runtime_id@,
                        priority,
                        capability_ids: capability_ids_of(def_views(definitions@)),
                    },
                )
            },
    {
        if providers_contains(&self.providers, provider_id) {
            return Err(concat3("provider '", provider_id, "' is already registered"));
        }
        let ghost ds = def_views(definitions@);
        let ghost t0 = self.defs();
        let ghost p0 = self.providers();
        let mut ids: Vec<String> = Vec::new();
        let mut i: usize = 0;
        while i < definitions.len()
            invariant
                i <= definitions.len(),
                ds == def_views(definitions@),
                self.wf(),
                self.defs() == adopt_definitions(t0, ds.take(i as int)),
                self.providers() == p0,
                strs(ids@) == capability_ids_of(ds.take(i as int)),
            decreases definitions.len() - i,
        {
            let d = definitions[i].clone();
            let ghost dv = d@;
            assert(dv == ds[i as int]);
            assert(ds.take(i + 1).drop_last() =~= ds.take(i as int));
            assert(ds.take(i + 1).last() == dv);
            let ghost before = self.defs();
            let id = d.capability_id.clone();
            let found = self.lookup(d.capability_id.as_str(), Some(&d.version));
            if found.is_none() {
                match self.register(d) {
                    Ok(()) => {},
                    Err(m) => {
                        proof {
                            lemma_has_version_serves(versions_of(before, dv.capability_id), dv.version);
                        }
                        return Err(m);
                    },
                }
            }
            let ghost prev_ids = ids@;
            ids.push(id);
            assert(strs(ids@) =~= strs(prev_ids).push(dv.capability_id));
            assert(capability_ids_of(ds.take(i + 1)) =~= capability_ids_of(ds.take(i as int)).push(dv.capability_id));
            i += 1;
        }
        assert(ds.take(definitions.len() as int) =~= ds);
        let entry = ProviderEntry {
            provider_id: String::from_str(provider_id),
            runtime_id: String::from_str(runtime_id),
            priority,
            capability_ids: ids,
        };
        providers_insert(&mut self.providers, String::from_str(provider_id), entry);
        Ok(())
    }

    /// Records what a registered provider answers now: its runtime, priority
    /// and the capabilities its definitions name, in place of what it
    /// answered before; the definitions themselves are not registered again.
    /// Whether the provider is registered is returned; an unknown one changes
    /// nothing.
    pub fn refresh_provider(
        &mut self,
        provider_id: &str,
        runtime_id: &str,
        priority: u8,
        definitions: &Vec<CapabilityDefinition>,
    ) -> (r: bool)
        requires
            old(self).wf(),
        ensures
            final(self).wf(),
            final(self).defs() == old(self).defs(),
            r == old(self).providers().contains_key(provider_id@),
            r ==> final(self).providers() == old(self).providers().insert(
                provider_id@,
                ProviderView {
                    provider_id: provider_id@,
                    runtime_id: runtime_id@,
                    priority,
                    capability_ids: capability_ids_of(def_views(definitions@)),
                },
            ),
            !r ==> final(self).providers() == old(self).providers(),
    {
        if !providers_contains(&self.providers, provider_id) {
            return false;
        }
        let ghost ds = def_views(definitions@);
        let mut ids: Vec<String> = Vec::new();
        let mut i: usize = 0;
        while i < definitions.len()
            invariant
                i <= definitions.len(),
                ds == def_views(definitions@),
                strs(ids@) == capability_ids_of(ds.take(i as int)),
            decreases definitions.len() - i,
        {
            let ghost prev_ids = ids@;
            ids.push(definitions[i].capability_id.clone());
            assert(ds[i as int] == definitions@[i as int]@);
            assert(strs(ids@) =~= strs(prev_ids).push(ds[i as int].capability_id));
            assert(capability_ids_of(ds.take(i + 1)) =~= capability_ids_of(ds.take(i as int)).push(
                ds[i as int].capability_id,
            ));
            i += 1;
        }
        assert(ds.take(definitions.len() as int) =~= ds);
        let entry = ProviderEntry {
            provider_id: String::from_str(provider_id),
            runtime_id: String::from_str(runtime_id),
            priority,
            capability_ids: ids,
        };
        providers_insert(&mut self.providers, String::from_str(provider_id), entry);
        true
    }

    /// Removes a provider; whether it was registered.
    pub fn unregister_provider(&mut self, id: &str) -> (r: bool)
        requires
            old(self).wf(),
        ensures
            final(self).wf(),
            r == old(self).providers().contains_key(id@),
            final(self).providers() == old(self).providers().remove(id@),
            final(self).defs() == old(self).defs(),
    {
        providers_remove(&mut self.providers, id)
    }

    /// The providers that define the capability, in code point order of their
    /// identities.
    pub fn provider_ids_for(&self, capability_id: &str) -> (r: Vec<String>)
        ensures
            ids_sorted(strs(r@)),
            strs(r@).no_duplicates(),
            strs(r@).to_set() == self.providers().dom().filter(
                |k: Seq<char>| offers(self.providers()[k], capability_id@),
            ),
    {
        let ghost t = self.providers();
        let ghost want = t.dom().filter(|k: Seq<char>| offers(t[k], capability_id@));
        let keys = providers_keys(&self.providers);
        let ghost ks = strs(keys@);
        let mut r: Vec<String> = Vec::new();
        let mut i: usize = 0;
        while i < keys.len()
            invariant
                i <= keys.len(),
                t == self.providers(),
                ks == strs(keys@),
                ks.no_duplicates(),
                ks.to_set() == t.dom(),
                ids_sorted(strs(r@)),
                strs(r@).to_set() == ks.take(i as int).to_set().filter(|k: Seq<char>| offers(t[k], capability_id@)),
            decreases keys.len() - i,
        {
            let ghost k = ks[i as int];
            proof {
                assert(ks.contains(k));
                assert(ks.take(i + 1) =~= ks.take(i as int).push(k));
                crate::assoc::lemma_push_set(ks.take(i as int), k);
            }
            match providers_get(&self.providers, keys[i].as_str()) {
                Some(p) => {
                    if list_contains(&p.capability_ids, capability_id) {
                        proof {
                            assert(!strs(r@).contains(k)) by {
                                if strs(r@).contains(k) {
                                    let j = choose|j: int| 0 <= j < strs(r@).len() && strs(r@)[j] == k;
                                    assert(strs(r@).to_set().contains(k));
                                    let m = choose|m: int| 0 <= m < ks.take(i as int).len() && ks.take(i as int)[m] == k;
                                    assert(ks[m] == ks[i as int]);
                                }
                            }
                        }
                        let ghost before = strs(r@);
                        insert_sorted_id(&mut r, keys[i].clone());
                        proof {
                            assert(strs(r@).to_set() =~= ks.take(i + 1).to_set().filter(|k: Seq<char>| offers(t[k], capability_id@)));
                            assert(!before.to_set().contains(k));
                        }
                    } else {
                        assert(strs(r@).to_set() =~= ks.take(i + 1).to_set().filter(|k: Seq<char>| offers(t[k], capability_id@)));
                    }
                },
                None => {},
            }
            i += 1;
        }
        proof {
            assert(ks.take(keys.len() as int) =~= ks);
            lemma_sorted_no_duplicates(strs(r@));
        }
        r
    }

    /// The providers that may take a request for the capability, optionally
    /// only those on the hinted runtime, leaving out the providers reported
    /// unavailable; lower priority values first.
    pub fn provider_candidates(
        &self,
        capability_id: &str,
        runtime_hint: Option<&str>,
        unavailable: &Vec<String>,
    ) -> (r: Vec<String>)
        ensures
            strs(r@).no_duplicates(),
            strs(r@).to_set() == self.providers().dom().filter(
                |k: Seq<char>|
                    candidate(
                        k,
                        self.providers()[k],
                        capability_id@,
                        crate::worker::registry::opt_view(runtime_hint),
                        strs(unavailable@),
                    ),
            ),
            by_priority(strs(r@), self.providers()),
    {
        let ghost t = self.providers();
        let ghost hint = crate::worker::registry::opt_view(runtime_hint);
        let ghost un = strs(unavailable@);
        let ghost pick = |k: Seq<char>| candidate(k, t[k], capability_id@, hint, un);
        let keys = providers_keys(&self.providers);
        let ghost ks = strs(keys@);
        let mut r: Vec<String> = Vec::new();
        let mut prios: Vec<u8> = Vec::new();
        let mut i: usize = 0;
        while i < keys.len()
            invariant
                i <= keys.len(),
                t == self.providers(),
                ks == strs(keys@),
                ks.no_duplicates(),
                ks.to_set() == t.dom(),
                pick == (|k: Seq<char>| candidate(k, t[k], capability_id@, hint, un)),
                hint == crate::worker::registry::opt_view(runtime_hint),
                un == strs(unavailable@),
                prios@.len() == r@.len(),
                forall|j: int| 0 <= j < r@.len() ==> #[trigger] prios@[j] == t[strs(r@)[j]].priority,
                strs(r@).no_duplicates(),
                strs(r@).to_set() == ks.take(i as int).to_set().filter(pick),
                by_priority(strs(r@), t),
            decreases keys.len() - i,
        {
            let ghost k = ks[i as int];
            proof {
                assert(ks.contains(k));
                assert(ks.take(i + 1) =~= ks.take(i as int).push(k));
                crate::assoc::lemma_push_set(ks.take(i as int), k);
            }
            match providers_get(&self.providers, keys[i].as_str()) {
                Some(p) => {
                    let hint_ok = match runtime_hint {
                        Some(h) => crate::text::str_eq(p.runtime_id.as_str(), h),
                        None => true,
                    };
                    let take = hint_ok && list_contains(&p.capability_ids, capability_id) && !list_contains(
                        unavailable,
                        keys[i].as_str(),
                    );
                    assert(take == pick(k));
                    if take {
                        let ghost s = strs(r@);
                        proof {
                            assert(!s.contains(k)) by {
                                if s.contains(k) {
                                    let j = choose|j: int| 0 <= j < s.len() && s[j] == k;
                                    assert(s.to_set().contains(k));
                                    let m = choose|m: int| 0 <= m < ks.take(i as int).len() && ks.take(i as int)[m] == k;
                                    assert(ks[m] == ks[i as int]);
                                }
                            }
                        }
                        let mut q: usize = 0;
                        while q < r.len() && prios[q] <= p.priority
                            invariant
                                q <= r.len(),
                                prios@.len() == r@.len(),
                                forall|j: int| 0 <= j < q ==> prios@[j] <= p.priority,
                            decreases r.len() - q,
                        {
                            q += 1;
                        }
                        let ghost old_prios = prios@;
                        r.insert(q, keys[i].clone());
                        prios.insert(q, p.priority);
                        let ghost n = strs(r@);
                        assert(n =~= s.insert(q as int, k));
                        proof {
                            assert(prios@ =~= old_prios.insert(q as int, p.priority));
                            assert forall|j: int| 0 <= j < r@.len() implies #[trigger] prios@[j] == t[strs(r@)[j]].priority by {
                                if j < q {
                                    assert(n[j] == s[j]);
                                } else if j > q {
                                    assert(n[j] == s[j - 1]);
                                    assert(prios@[j] == old_prios[j - 1]);
                                }
                            }
                            assert forall|a: int, b: int| 0 <= a < b < n.len() implies t[#[trigger] n[a]].priority <= t[#[trigger] n[b]].priority by {
                                if b < q {
                                    assert(n[a] == s[a] && n[b] == s[b]);
                                } else if b == q {
                                    assert(n[a] == s[a]);
                                    assert(old_prios[a] <= p.priority);
                                } else if a < q {
                                    assert(n[a] == s[a] && n[b] == s[b - 1]);
                                } else if a == q {
                                    assert(n[b] == s[b - 1]);
                                    assert(old_prios[q as int] > p.priority);
                                    if b - 1 > q {
                                        assert(t[s[q as int]].priority <= t[s[b - 1]].priority);
                                    }
                                } else {
                                    assert(n[a] == s[a - 1] && n[b] == s[b - 1]);
                                }
                            }
                            assert forall|a: int, b: int| 0 <= a < n.len() && 0 <= b < n.len() && a != b implies n[a] != n[b] by {
                                if a != q as int && b != q as int {
                                    let a2 = if a < q { a } else { a - 1 };
                                    let b2 = if b < q { b } else { b - 1 };
                                    assert(n[a] == s[a2] && n[b] == s[b2]);
                                } else if a == q {
                                    let b2 = if b < q { b } else { b - 1 };
                                    assert(n[b] == s[b2]);
                                    assert(s.contains(s[b2]));
                                } else {
                                    let a2 = if a < q { a } else { a - 1 };
                                    assert(n[a] == s[a2]);
                                    assert(s.contains(s[a2]));
                                }
                            }
                            assert(n.to_set() =~= s.to_set().insert(k)) by {
                                assert forall|y: Seq<char>| n.to_set().contains(y) implies s.to_set().insert(k).contains(y) by {
                                    let m = choose|m: int| 0 <= m < n.len() && n[m] == y;
                                    if m < q {
                                        assert(s[m] == y);
                                    } else if m > q {
                                        assert(s[m - 1] == y);
                                    }
                                }
                                assert forall|y: Seq<char>| s.to_set().insert(k).contains(y) implies n.to_set().contains(y) by {
                                    if y == k {
                                        assert(n[q as int] == y);
                                    } else {
                                        let m = choose|m: int| 0 <= m < s.len() && s[m] == y;
                                        if m < q {
                                            assert(n[m] == y);
                                        } else {
                                            assert(n[m + 1] == y);
                                        }
                                    }
                                }
                            }
                            assert(n.to_set() =~= ks.take(i + 1).to_set().filter(pick));
                        }
                    } else {
                        assert(strs(r@).to_set() =~= ks.take(i + 1).to_set().filter(pick));
                    }
                },
                None => {},
            }
            i += 1;
        }
        assert(ks.take(keys.len() as int) =~= ks);
        r
    }

}

/// The version an optional reference points to.
pub open spec fn copied(o: Option<&CapabilityVersion>) -> Option<CapabilityVersion> {
    match o {
        Some(v) => Some(*v),
        None => None,
    }
}

} // verus!
