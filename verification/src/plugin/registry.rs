//! The plugin registry. Plugins run in-process; nothing here sandboxes them.
use vstd::prelude::*;
use dashmap::DashMap;
use crate::plugin::json::{build_checksum, manifest_checksum};
use crate::plugin::model::{create_manifest, created_manifest, AuditEvent, AuditEventView, ManifestView, Plugin, PluginError, PluginLifecycle, PluginManifest, PluginView};
use crate::text::{chars_of, concat2, list_contains, starts_with, starts_with_exec, str_eq, string_list, string_of, strs};

verus! {

/// A table of plugins by identity.
pub type PluginTable = DashMap<String, Plugin>;

/// The plugins a registry table holds, by plugin identity.
pub uninterp spec fn plugin_table(m: DashMap<String, Plugin>) -> Map<Seq<char>, PluginView>;

/// No plugins.
pub open spec fn no_plugins() -> Map<Seq<char>, PluginView> {
    Map::empty()
}

/// `DashMap::new`: an empty table.
#[verifier::external_body]
fn plugins_new() -> (r: PluginTable)
    ensures
        plugin_table(r) == no_plugins(),
{
    DashMap::new()
}

/// `DashMap::insert`: the key now maps to the plugin; other keys are unchanged.
#[verifier::external_body]
fn plugins_insert(m: &mut PluginTable, k: String, v: Plugin)
    ensures
        plugin_table(*final(m)) == plugin_table(*old(m)).insert(k@, v@),
{
    m.insert(k, v);
}

/// `DashMap::get`, cloning the plugin found under the key.
#[verifier::external_body]
fn plugins_get(m: &PluginTable, k: &str) -> (r: Option<Plugin>)
    ensures
        r is Some <==> plugin_table(*m).contains_key(k@),
        r matches Some(p) ==> p@ == plugin_table(*m)[k@],
{
    m.get(k).map(|e| e.value().clone())
}

/// `DashMap::remove`: the key is gone; whether it was present is returned.
#[verifier::external_body]
fn plugins_remove(m: &mut PluginTable, k: &str) -> (r: Option<Plugin>)
    ensures
        plugin_table(*final(m)) == plugin_table(*old(m)).remove(k@),
        r is Some <==> plugin_table(*old(m)).contains_key(k@),
{
    m.remove(k).map(|(_, v)| v)
}

/// `DashMap::iter`, keeping the keys: every key once, in the table's own order.
#[verifier::external_body]
fn plugins_keys(m: &PluginTable) -> (r: Vec<String>)
    ensures
        strs(r@).no_duplicates(),
        strs(r@).to_set() == plugin_table(*m).dom(),
{
    m.iter().map(|e| e.key().clone()).collect()
}

/// The permissions a user holds and a plugin never inherits.
pub open spec fn user_grants_spec() -> Seq<Seq<char>> {
    seq!["filesystem.write"@, "terminal.execute"@, "network.request"@]
}

/// A permission a plugin may not declare: a user grant other than the
/// workspace read and echo permissions.
pub open spec fn inherits_user_grant(p: Seq<char>) -> bool {
    user_grants_spec().contains(p) && p != "workspace.read"@ && p != "echo.say"@
}

pub open spec fn audit_entry(id: Seq<char>, action: Seq<char>, detail: Seq<char>) -> AuditEventView {
    AuditEventView { plugin_id: id, action: action, detail: detail }
}

/// A plugin freshly installed from a manifest.
pub open spec fn installed(m: ManifestView) -> PluginView {
    PluginView {
        id: "plug-"@ + m.name,
        manifest: m,
        lifecycle: PluginLifecycle::Installed,
        checksum: manifest_checksum(m),
        previous_version: None,
    }
}

/// A plugin moved to another lifecycle state.
pub open spec fn with_lifecycle(p: PluginView, l: PluginLifecycle) -> PluginView {
    PluginView { lifecycle: l, ..p }
}

/// A manifest with another version.
pub open spec fn with_version(m: ManifestView, v: Seq<char>) -> ManifestView {
    ManifestView { version: v, ..m }
}

/// A plugin upgraded to a new version, remembering the version it replaced.
pub open spec fn updated(p: PluginView, v: Seq<char>) -> PluginView {
    PluginView {
        manifest: with_version(p.manifest, v),
        previous_version: Some(p.manifest.version),
        checksum: manifest_checksum(with_version(p.manifest, v)),
        ..p
    }
}

/// A plugin returned to the version it had before its last upgrade.
pub open spec fn rolled_back(p: PluginView) -> PluginView {
    PluginView {
        manifest: with_version(p.manifest, p.previous_version->0),
        previous_version: None,
        lifecycle: PluginLifecycle::RolledBack,
        checksum: manifest_checksum(with_version(p.manifest, p.previous_version->0)),
        ..p
    }
}

/// The path lies under one of the scopes.
pub open spec fn in_scope(path: Seq<char>, scopes: Seq<Seq<char>>) -> bool {
    exists|i: int| 0 <= i < scopes.len() && starts_with(path, scopes[i])
}

/// A path lies in a plugin's scope exactly when one of its scopes, whichever
/// it is in the list, is a prefix of the path.
pub proof fn law_any_scope_admits(path: Seq<char>, scopes: Seq<Seq<char>>, i: int)
    ensures
        0 <= i < scopes.len() && starts_with(path, scopes[i]) ==> in_scope(path, scopes),
        in_scope(path, scopes) ==> exists|k: int| 0 <= k < scopes.len() && #[trigger] starts_with(path, scopes[k]),
{
}

/// Capabilities of the enabled plugins among the listed identities, in order.
pub open spec fn enabled_caps(ks: Seq<Seq<char>>, t: Map<Seq<char>, PluginView>) -> Seq<Seq<char>>
    decreases ks.len(),
{
    if ks.len() == 0 {
        Seq::empty()
    } else {
        enabled_caps(ks.drop_last(), t) + if t[ks.last()].lifecycle == PluginLifecycle::Enabled {
            t[ks.last()].manifest.capabilities
        } else {
            Seq::empty()
        }
    }
}

/// Arguments separated by single spaces.
pub open spec fn space_joined(args: Seq<Seq<char>>) -> Seq<char>
    decreases args.len(),
{
    if args.len() == 0 {
        Seq::empty()
    } else if args.len() == 1 {
        args[0]
    } else {
        space_joined(args.drop_last()) + seq![' '] + args.last()
    }
}

pub open spec fn arg_views(args: Seq<&str>) -> Seq<Seq<char>> {
    args.map_values(|a: &str| a@)
}

/// Installed plugins, the audit log, and the user grants plugins never inherit.
pub struct PluginRegistry {
    plugins: PluginTable,
    audit: Vec<AuditEvent>,
    user_grants: Vec<String>,
}

impl PluginRegistry {
    /// Installed plugins by identity.
    pub closed spec fn plugins(&self) -> Map<Seq<char>, PluginView> {
        plugin_table(self.plugins)
    }

    /// The audit log, oldest entry first.
    pub closed spec fn log(&self) -> Seq<AuditEventView> {
        self.audit@.map_values(|e: AuditEvent| e@)
    }

    /// Each plugin is stored under its identity, with the checksum of its manifest.
    pub closed spec fn wf(&self) -> bool {
        &&& strs(self.user_grants@) == user_grants_spec()
        &&& forall|k: Seq<char>| #[trigger] self.plugins().contains_key(k) ==> {
            &&& self.plugins()[k].id == k
            &&& self.plugins()[k].checksum == manifest_checksum(self.plugins()[k].manifest)
        }
    }

    pub fn new() -> (r: Self)
        ensures
            r.wf(),
            r.plugins() == no_plugins(),
            r.log() == Seq::<AuditEventView>::empty(),
    {
        let grants = string_list(&["filesystem.write", "terminal.execute", "network.request"]);
        assert(strs(grants@) =~= user_grants_spec());
        let r = PluginRegistry { plugins: plugins_new(), audit: Vec::new(), user_grants: grants };
        assert(r.log() =~= Seq::<AuditEventView>::empty());
        r
    }

    fn audit(&mut self, plugin_id: &str, action: &str, detail: &str)
        ensures
            final(self).plugins() == old(self).plugins(),
            final(self).user_grants@ == old(self).user_grants@,
            final(self).log() == old(self).log().push(audit_entry(plugin_id@, action@, detail@)),
    {
        let e = AuditEvent {
            plugin_id: String::from_str(plugin_id),
            action: String::from_str(action),
            detail: String::from_str(detail),
        };
        self.audit.push(e);
        assert(self.log() =~= old(self).log().push(audit_entry(plugin_id@, action@, detail@)));
    }

    /// The audit log.
    pub fn audit_log(&self) -> (r: Vec<AuditEvent>)
        ensures
            r@.map_values(|e: AuditEvent| e@) == self.log(),
    {
        let mut r: Vec<AuditEvent> = Vec::new();
        let mut i: usize = 0;
        while i < self.audit.len()
            invariant
                i <= self.audit.len(),
                r@.map_values(|e: AuditEvent| e@) == self.log().subrange(0, i as int),
            decreases self.audit.len() - i,
        {
            let ghost before = r@;
            let e = self.audit[i].clone();
            r.push(e);
            assert(r@.map_values(|e: AuditEvent| e@) =~= before.map_values(|e: AuditEvent| e@).push(e@));
            assert(r@.map_values(|e: AuditEvent| e@) =~= self.log().subrange(0, i + 1));
            i += 1;
        }
        assert(self.log().subrange(0, self.audit.len() as int) =~= self.log());
        r
    }

    /// A new manifest for a plugin of the given name.
    pub fn create(name: &str) -> (r: PluginManifest)
        ensures
            r@ == created_manifest(name@),
    {
        create_manifest(name)
    }

    /// The checksum of a manifest.
    pub fn build(manifest: &PluginManifest) -> (r: String)
        ensures
            r@ == manifest_checksum(manifest@),
    {
        build_checksum(manifest)
    }

    /// Installs a manifest as plugin `plug-<name>`. A manifest without a name,
    /// or one that declares a user grant, is refused.
    pub fn install(&mut self, manifest: PluginManifest) -> (r: Result<Plugin, PluginError>)
        requires
            old(self).wf(),
        ensures
            final(self).wf(),
            manifest@.name.len() == 0 ==> (r matches Err(PluginError::Manifest(m)) && m@ == "name required"@)
                && final(self).plugins() == old(self).plugins() && final(self).log() == old(self).log(),
            manifest@.name.len() > 0 && (exists|i: int| 0 <= i < manifest@.permissions.len()
                && inherits_user_grant(#[trigger] manifest@.permissions[i])) ==> (r matches Err(PluginError::PermissionDenied(m))
                && exists|i: int| 0 <= i < manifest@.permissions.len() && inherits_user_grant(manifest@.permissions[i])
                    && (forall|j: int| 0 <= j < i ==> !inherits_user_grant(#[trigger] manifest@.permissions[j]))
                    && m@ == "plugin cannot inherit user permission "@ + manifest@.permissions[i])
                && final(self).plugins() == old(self).plugins() && final(self).log() == old(self).log(),
            manifest@.name.len() > 0 && (forall|i: int| 0 <= i < manifest@.permissions.len()
                ==> !inherits_user_grant(#[trigger] manifest@.permissions[i])) ==> (r matches Ok(p) && p@ == installed(manifest@))
                && final(self).plugins() == old(self).plugins().insert(installed(manifest@).id, installed(manifest@))
                && final(self).log() == old(self).log().push(audit_entry(installed(manifest@).id, "install"@, manifest@.version)),
    {
        if manifest.name.as_str().is_empty() {
            assert(manifest@.name.len() == 0);
            return Err(PluginError::Manifest(String::from_str("name required")));
        }
        assert(manifest@.name.len() > 0);
        match self.first_inherited(&manifest) {
            Some(i) => {
                let name = manifest.permissions[i].name.as_str();
                return Err(PluginError::PermissionDenied(concat2("plugin cannot inherit user permission ", name)));
            }
            None => {}
        }
        let checksum = build_checksum(&manifest);
        let id = concat2("plug-", manifest.name.as_str());
        let plugin = Plugin {
            id,
            manifest,
            lifecycle: PluginLifecycle::Installed,
            checksum,
            previous_version: None,
        };
        let stored = plugin.clone();
        let ghost pv = plugin@;
        plugins_insert(&mut self.plugins, plugin.id.clone(), stored);
        self.audit(plugin.id.as_str(), "install", plugin.manifest.version.as_str());
        assert forall|k: Seq<char>| #[trigger] self.plugins().contains_key(k) implies {
            &&& self.plugins()[k].id == k
            &&& self.plugins()[k].checksum == manifest_checksum(self.plugins()[k].manifest)
        } by {
            if k != pv.id {
                assert(old(self).plugins().contains_key(k));
            }
        }
        Ok(plugin)
    }

    fn first_inherited(&self, manifest: &PluginManifest) -> (r: Option<usize>)
        requires
            strs(self.user_grants@) == user_grants_spec(),
        ensures
            match r {
                Some(i) => {
                    &&& i < manifest@.permissions.len()
                    &&& i < manifest.permissions@.len()
                    &&& manifest.permissions@[i as int].name@ == manifest@.permissions[i as int]
                    &&& inherits_user_grant(manifest@.permissions[i as int])
                    &&& forall|j: int| 0 <= j < i ==> !inherits_user_grant(#[trigger] manifest@.permissions[j])
                },
                None => forall|j: int| 0 <= j < manifest@.permissions.len() ==> !inherits_user_grant(#[trigger] manifest@.permissions[j]),
            },
    {
        let mut i: usize = 0;
        while i < manifest.permissions.len()
            invariant
                i <= manifest.permissions.len(),
                strs(self.user_grants@) == user_grants_spec(),
                manifest@.permissions.len() == manifest.permissions.len(),
                forall|j: int| 0 <= j < i ==> !inherits_user_grant(#[trigger] manifest@.permissions[j]),
            decreases manifest.permissions.len() - i,
        {
            let name = manifest.permissions[i].name.as_str();
            assert(manifest@.permissions[i as int] == name@);
            if list_contains(&self.user_grants, name) && !str_eq(name, "workspace.read") && !str_eq(name, "echo.say") {
                return Some(i);
            }
            i += 1;
        }
        None
    }

    /// Checks an installed plugin's checksum against its manifest and marks it verified.
    pub fn verify(&mut self, plugin_id: &str) -> (r: Result<(), PluginError>)
        requires
            old(self).wf(),
        ensures
            final(self).wf(),
            !old(self).plugins().contains_key(plugin_id@) ==> (r matches Err(PluginError::NotFound(m)) && m@ == plugin_id@)
                && final(self).plugins() == old(self).plugins() && final(self).log() == old(self).log(),
            old(self).plugins().contains_key(plugin_id@) ==> r is Ok
                && final(self).plugins() == old(self).plugins().insert(plugin_id@, with_lifecycle(old(self).plugins()[plugin_id@], PluginLifecycle::Verified))
                && final(self).log() == old(self).log().push(audit_entry(plugin_id@, "verify"@, "ok"@)),
    {
        let mut p = match plugins_get(&self.plugins, plugin_id) {
            Some(p) => p,
            None => {
                return Err(PluginError::NotFound(String::from_str(plugin_id)));
            }
        };
        let expected = build_checksum(&p.manifest);
        if expected != p.checksum {
            assert(false);
            return Err(PluginError::Manifest(String::from_str("checksum mismatch")));
        }
        p.lifecycle = PluginLifecycle::Verified;
        self.set_plugin(plugin_id, p);
        self.audit(plugin_id, "verify", "ok");
        Ok(())
    }

    fn set_plugin(&mut self, plugin_id: &str, p: Plugin)
        requires
            old(self).wf(),
            p@.id == plugin_id@,
            p@.checksum == manifest_checksum(p@.manifest),
        ensures
            final(self).wf(),
            final(self).plugins() == old(self).plugins().insert(plugin_id@, p@),
            final(self).log() == old(self).log(),
    {
        plugins_insert(&mut self.plugins, String::from_str(plugin_id), p);
        assert forall|k: Seq<char>| #[trigger] self.plugins().contains_key(k) implies {
            &&& self.plugins()[k].id == k
            &&& self.plugins()[k].checksum == manifest_checksum(self.plugins()[k].manifest)
        } by {
            if k != plugin_id@ {
                assert(old(self).plugins().contains_key(k));
            }
        }
    }

    fn set_lifecycle(&mut self, plugin_id: &str, l: PluginLifecycle, action: &str) -> (r: Result<(), PluginError>)
        requires
            old(self).wf(),
        ensures
            final(self).wf(),
            !old(self).plugins().contains_key(plugin_id@) ==> (r matches Err(PluginError::NotFound(m)) && m@ == plugin_id@)
                && final(self).plugins() == old(self).plugins() && final(self).log() == old(self).log(),
            old(self).plugins().contains_key(plugin_id@) ==> r is Ok
                && final(self).plugins() == old(self).plugins().insert(plugin_id@, with_lifecycle(old(self).plugins()[plugin_id@], l))
                && final(self).log() == old(self).log().push(audit_entry(plugin_id@, action@, "ok"@)),
    {
        let mut p = match plugins_get(&self.plugins, plugin_id) {
            Some(p) => p,
            None => {
                return Err(PluginError::NotFound(String::from_str(plugin_id)));
            }
        };
        p.lifecycle = l;
        self.set_plugin(plugin_id, p);
        self.audit(plugin_id, action, "ok");
        Ok(())
    }

    /// Enables an installed plugin.
    pub fn enable(&mut self, plugin_id: &str) -> (r: Result<(), PluginError>)
        requires
            old(self).wf(),
        ensures
            final(self).wf(),
            !old(self).plugins().contains_key(plugin_id@) ==> (r matches Err(PluginError::NotFound(m)) && m@ == plugin_id@)
                && final(self).plugins() == old(self).plugins() && final(self).log() == old(self).log(),
            old(self).plugins().contains_key(plugin_id@) ==> r is Ok
                && final(self).plugins() == old(self).plugins().insert(plugin_id@, with_lifecycle(old(self).plugins()[plugin_id@], PluginLifecycle::Enabled))
                && final(self).log() == old(self).log().push(audit_entry(plugin_id@, "enable"@, "ok"@)),
    {
        self.set_lifecycle(plugin_id, PluginLifecycle::Enabled, "enable")
    }

    /// Disables an installed plugin.
    pub fn disable(&mut self, plugin_id: &str) -> (r: Result<(), PluginError>)
        requires
            old(self).wf(),
        ensures
            final(self).wf(),
            !old(self).plugins().contains_key(plugin_id@) ==> (r matches Err(PluginError::NotFound(m)) && m@ == plugin_id@)
                && final(self).plugins() == old(self).plugins() && final(self).log() == old(self).log(),
            old(self).plugins().contains_key(plugin_id@) ==> r is Ok
                && final(self).plugins() == old(self).plugins().insert(plugin_id@, with_lifecycle(old(self).plugins()[plugin_id@], PluginLifecycle::Disabled))
                && final(self).log() == old(self).log().push(audit_entry(plugin_id@, "disable"@, "ok"@)),
    {
        self.set_lifecycle(plugin_id, PluginLifecycle::Disabled, "disable")
    }

    /// Runs a capability of an enabled plugin, within its CPU quota, its
    /// filesystem scopes and its network allowlist.
    pub fn execute(
        &mut self,
        plugin_id: &str,
        capability: &str,
        cpu_millis: u32,
        path: Option<&str>,
        network_host: Option<&str>,
    ) -> (r: Result<String, PluginError>)
        requires
            old(self).wf(),
        ensures
            final(self).wf(),
            final(self).plugins() == old(self).plugins(),
            ({
                let t = old(self).plugins();
                let p = t[plugin_id@];
                if !t.contains_key(plugin_id@) {
                    r matches Err(PluginError::NotFound(m)) && m@ == plugin_id@
                } else if p.lifecycle != PluginLifecycle::Enabled {
                    r matches Err(PluginError::Disabled(m)) && m@ == plugin_id@
                } else if !p.manifest.capabilities.contains(capability@) {
                    r matches Err(PluginError::PermissionDenied(m)) && m@ == capability@
                } else if cpu_millis > p.manifest.resources.cpu_millis {
                    r matches Err(PluginError::Quota(m)) && m@ == "cpu"@
                } else if path matches Some(q) && !in_scope(q@, p.manifest.filesystem_scopes) {
                    r matches Err(PluginError::PermissionDenied(m)) && m@ == path->0@
                } else if network_host matches Some(h) && !p.manifest.network_access.contains(h@) {
                    r matches Err(PluginError::PermissionDenied(m)) && m@ == network_host->0@
                } else {
                    r matches Ok(out) && out@ == capability@ + " ok"@
                }
            }),
            ({
                let t = old(self).plugins();
                let p = t[plugin_id@];
                &&& t.contains_key(plugin_id@)
                &&& p.lifecycle == PluginLifecycle::Enabled
                &&& p.manifest.capabilities.contains(capability@)
                &&& cpu_millis <= p.manifest.resources.cpu_millis
                &&& (path is Some ==> exists|k: int|
                    0 <= k < p.manifest.filesystem_scopes.len() && #[trigger] starts_with(
                        path->0@,
                        p.manifest.filesystem_scopes[k],
                    ))
                &&& (network_host is Some ==> p.manifest.network_access.contains(network_host->0@))
            }) ==> (r matches Ok(out) && out@ == capability@ + " ok"@),
            r is Ok ==> final(self).log() == old(self).log().push(audit_entry(plugin_id@, "execute"@, capability@)),
            r is Err ==> final(self).log() == old(self).log(),
    {
        let p = match plugins_get(&self.plugins, plugin_id) {
            Some(p) => p,
            None => {
                return Err(PluginError::NotFound(String::from_str(plugin_id)));
            }
        };
        if p.lifecycle != PluginLifecycle::Enabled {
            return Err(PluginError::Disabled(String::from_str(plugin_id)));
        }
        if !has_capability(&p.manifest, capability) {
            return Err(PluginError::PermissionDenied(String::from_str(capability)));
        }
        if cpu_millis > p.manifest.resources.cpu_millis {
            return Err(PluginError::Quota(String::from_str("cpu")));
        }
        match path {
            Some(q) => {
                if !path_in_scopes(q, &p.manifest.filesystem_scopes) {
                    return Err(PluginError::PermissionDenied(String::from_str(q)));
                }
            }
            None => {}
        }
        match network_host {
            Some(h) => {
                if !list_contains(&p.manifest.network_access, h) {
                    return Err(PluginError::PermissionDenied(String::from_str(h)));
                }
            }
            None => {}
        }
        self.audit(plugin_id, "execute", capability);
        Ok(concat2(capability, " ok"))
    }

    /// Upgrades a plugin to a new version, remembering the version it replaces.
    pub fn update(&mut self, plugin_id: &str, new_version: &str) -> (r: Result<Plugin, PluginError>)
        requires
            old(self).wf(),
        ensures
            final(self).wf(),
            !old(self).plugins().contains_key(plugin_id@) ==> (r matches Err(PluginError::NotFound(m)) && m@ == plugin_id@)
                && final(self).plugins() == old(self).plugins() && final(self).log() == old(self).log(),
            old(self).plugins().contains_key(plugin_id@) ==> (r matches Ok(p) && p@ == updated(old(self).plugins()[plugin_id@], new_version@))
                && final(self).plugins() == old(self).plugins().insert(plugin_id@, updated(old(self).plugins()[plugin_id@], new_version@))
                && final(self).log() == old(self).log().push(audit_entry(plugin_id@, "update"@, new_version@)),
    {
        let mut p = match plugins_get(&self.plugins, plugin_id) {
            Some(p) => p,
            None => {
                return Err(PluginError::NotFound(String::from_str(plugin_id)));
            }
        };
        p.previous_version = Some(p.manifest.version.clone());
        p.manifest.version = String::from_str(new_version);
        p.checksum = build_checksum(&p.manifest);
        let result = p.clone();
        self.set_plugin(plugin_id, p);
        self.audit(plugin_id, "update", new_version);
        Ok(result)
    }

    /// Returns a plugin to the version it had before its last upgrade.
    pub fn rollback(&mut self, plugin_id: &str) -> (r: Result<Plugin, PluginError>)
        requires
            old(self).wf(),
        ensures
            final(self).wf(),
            !old(self).plugins().contains_key(plugin_id@) ==> (r matches Err(PluginError::NotFound(m)) && m@ == plugin_id@)
                && final(self).plugins() == old(self).plugins() && final(self).log() == old(self).log(),
            old(self).plugins().contains_key(plugin_id@) && old(self).plugins()[plugin_id@].previous_version is None
                ==> (r matches Err(PluginError::Manifest(m)) && m@ == "no previous version"@)
                && final(self).plugins() == old(self).plugins() && final(self).log() == old(self).log(),
            old(self).plugins().contains_key(plugin_id@) && old(self).plugins()[plugin_id@].previous_version is Some
                ==> (r matches Ok(p) && p@ == rolled_back(old(self).plugins()[plugin_id@]))
                && final(self).plugins() == old(self).plugins().insert(plugin_id@, rolled_back(old(self).plugins()[plugin_id@]))
                && final(self).log() == old(self).log().push(audit_entry(plugin_id@, "rollback"@, old(self).plugins()[plugin_id@].previous_version->0)),
    {
        let mut p = match plugins_get(&self.plugins, plugin_id) {
            Some(p) => p,
            None => {
                return Err(PluginError::NotFound(String::from_str(plugin_id)));
            }
        };
        let prev = match &p.previous_version {
            Some(v) => v.clone(),
            None => {
                return Err(PluginError::Manifest(String::from_str("no previous version")));
            }
        };
        p.manifest.version = prev.clone();
        p.previous_version = None;
        p.lifecycle = PluginLifecycle::RolledBack;
        p.checksum = build_checksum(&p.manifest);
        let result = p.clone();
        self.set_plugin(plugin_id, p);
        self.audit(plugin_id, "rollback", prev.as_str());
        Ok(result)
    }

    /// Removes a plugin.
    pub fn remove(&mut self, plugin_id: &str) -> (r: Result<(), PluginError>)
        requires
            old(self).wf(),
        ensures
            final(self).wf(),
            final(self).plugins() == old(self).plugins().remove(plugin_id@),
            !old(self).plugins().contains_key(plugin_id@) ==> (r matches Err(PluginError::NotFound(m)) && m@ == plugin_id@)
                && final(self).log() == old(self).log(),
            old(self).plugins().contains_key(plugin_id@) ==> r is Ok
                && final(self).log() == old(self).log().push(audit_entry(plugin_id@, "remove"@, "ok"@)),
    {
        match plugins_remove(&mut self.plugins, plugin_id) {
            Some(_) => {
                assert forall|k: Seq<char>| #[trigger] self.plugins().contains_key(k) implies {
                    &&& self.plugins()[k].id == k
                    &&& self.plugins()[k].checksum == manifest_checksum(self.plugins()[k].manifest)
                } by {
                    assert(old(self).plugins().contains_key(k));
                }
                self.audit(plugin_id, "remove", "ok");
                Ok(())
            }
            None => {
                assert(self.plugins() =~= old(self).plugins());
                Err(PluginError::NotFound(String::from_str(plugin_id)))
            }
        }
    }

    /// The plugin installed under the identity.
    pub fn inspect(&self, plugin_id: &str) -> (r: Result<Plugin, PluginError>)
        ensures
            self.plugins().contains_key(plugin_id@) ==> (r matches Ok(p) && p@ == self.plugins()[plugin_id@]),
            !self.plugins().contains_key(plugin_id@) ==> (r matches Err(PluginError::NotFound(m)) && m@ == plugin_id@),
    {
        match plugins_get(&self.plugins, plugin_id) {
            Some(p) => Ok(p),
            None => Err(PluginError::NotFound(String::from_str(plugin_id))),
        }
    }

    /// The capabilities of every enabled plugin, plugin by plugin.
    pub fn enabled_capabilities(&self) -> (r: Vec<String>)
        ensures
            exists|ks: Seq<Seq<char>>|
                {
                    &&& ks.no_duplicates()
                    &&& ks.to_set() == self.plugins().dom()
                    &&& strs(r@) == enabled_caps(ks, self.plugins())
                },
            forall|c: Seq<char>| strs(r@).contains(c) <==> exists|k: Seq<char>| #[trigger] self.plugins().contains_key(k)
                && self.plugins()[k].lifecycle == PluginLifecycle::Enabled && self.plugins()[k].manifest.capabilities.contains(c),
    {
        let ks = plugins_keys(&self.plugins);
        let mut r: Vec<String> = Vec::new();
        let mut i: usize = 0;
        while i < ks.len()
            invariant
                i <= ks.len(),
                strs(ks@).to_set() == self.plugins().dom(),
                strs(r@) == enabled_caps(strs(ks@).take(i as int), self.plugins()),
            decreases ks.len() - i,
        {
            assert(strs(ks@)[i as int] == ks@[i as int]@);
            assert(strs(ks@).to_set().contains(ks@[i as int]@));
            assert(strs(ks@).take(i + 1).drop_last() =~= strs(ks@).take(i as int));
            let p = match plugins_get(&self.plugins, ks[i].as_str()) {
                Some(p) => p,
                None => {
                    assert(false);
                    return r;
                }
            };
            if p.lifecycle == PluginLifecycle::Enabled {
                let mut j: usize = 0;
                let ghost base = strs(r@);
                while j < p.manifest.capabilities.len()
                    invariant
                        j <= p.manifest.capabilities.len(),
                        p@.manifest.capabilities.len() == p.manifest.capabilities.len(),
                        strs(r@) == base + p@.manifest.capabilities.subrange(0, j as int),
                    decreases p.manifest.capabilities.len() - j,
                {
                    let ghost before = r@;
                    let n = p.manifest.capabilities[j].name.clone();
                    r.push(n);
                    assert(p@.manifest.capabilities[j as int] == n@);
                    assert(strs(r@) =~= strs(before).push(n@));
                    assert(strs(r@) =~= base + p@.manifest.capabilities.subrange(0, j + 1));
                    j += 1;
                }
                assert(p@.manifest.capabilities.subrange(0, p.manifest.capabilities.len() as int) =~= p@.manifest.capabilities);
                assert(strs(r@) =~= enabled_caps(strs(ks@).take(i + 1), self.plugins()));
            } else {
                assert(strs(r@) =~= enabled_caps(strs(ks@).take(i + 1), self.plugins()));
            }
            i += 1;
        }
        assert(strs(ks@).take(ks.len() as int) =~= strs(ks@));
        proof {
            lemma_enabled_caps_member(strs(ks@), self.plugins());
        }
        r
    }

    /// The command line for a plugin subcommand.
    pub fn cli(args: &[&str]) -> (r: String)
        ensures
            r@ == "cognyx plugin "@ + space_joined(arg_views(args@)),
    {
        let mut out: Vec<char> = chars_of("cognyx plugin ");
        let ghost start = out@;
        let mut i: usize = 0;
        while i < args.len()
            invariant
                i <= args@.len(),
                start == "cognyx plugin "@,
                out@ == start + space_joined(arg_views(args@).take(i as int)),
            decreases args@.len() - i,
        {
            if i > 0 {
                out.push(' ');
            }
            let a = chars_of(args[i]);
            let mut j: usize = 0;
            let ghost mid = out@;
            while j < a.len()
                invariant
                    j <= a.len(),
                    out@ == mid + a@.subrange(0, j as int),
                decreases a.len() - j,
            {
                out.push(a[j]);
                assert(out@ =~= mid + a@.subrange(0, j + 1));
                j += 1;
            }
            assert(a@.subrange(0, a.len() as int) =~= a@);
            proof {
                let v = arg_views(args@);
                assert(v.take(i + 1).drop_last() =~= v.take(i as int));
                assert(v[i as int] == args@[i as int]@);
                if i == 0 {
                    assert(v.take(1)[0] == v[0]);
                    assert(space_joined(v.take(0)) =~= Seq::<char>::empty());
                } else {
                    assert(v.take(i + 1).last() == v[i as int]);
                }
            }
            assert(out@ =~= start + space_joined(arg_views(args@).take(i + 1)));
            i += 1;
        }
        assert(arg_views(args@).take(args@.len() as int) =~= arg_views(args@));
        string_of(&out)
    }
}


/// Rolling a plugin back right after upgrading it restores its manifest and
/// checksum and leaves no earlier version to roll back to.
pub proof fn law_rollback_undoes_update(p: PluginView, v: Seq<char>)
    requires
        p.checksum == manifest_checksum(p.manifest),
    ensures
        rolled_back(updated(p, v)).manifest == p.manifest,
        rolled_back(updated(p, v)).checksum == p.checksum,
        rolled_back(updated(p, v)).previous_version is None,
        rolled_back(updated(p, v)).id == p.id,
{
    assert(with_version(with_version(p.manifest, v), p.manifest.version) == p.manifest);
}

/// Whether the manifest lists the capability.
fn has_capability(m: &PluginManifest, capability: &str) -> (r: bool)
    ensures
        r == m@.capabilities.contains(capability@),
{
    let mut i: usize = 0;
    while i < m.capabilities.len()
        invariant
            i <= m.capabilities.len(),
            m@.capabilities.len() == m.capabilities.len(),
            forall|k: int| 0 <= k < i ==> m@.capabilities[k] != capability@,
        decreases m.capabilities.len() - i,
    {
        assert(m@.capabilities[i as int] == m.capabilities@[i as int].name@);
        if str_eq(m.capabilities[i].name.as_str(), capability) {
            return true;
        }
        i += 1;
    }
    false
}

/// Whether the path lies under one of the scopes.
fn path_in_scopes(path: &str, scopes: &Vec<String>) -> (r: bool)
    ensures
        r == in_scope(path@, strs(scopes@)),
{
    let p = chars_of(path);
    let mut i: usize = 0;
    while i < scopes.len()
        invariant
            i <= scopes.len(),
            p@ == path@,
            forall|k: int| 0 <= k < i ==> !starts_with(path@, #[trigger] strs(scopes@)[k]),
        decreases scopes.len() - i,
    {
        let s = chars_of(scopes[i].as_str());
        assert(strs(scopes@)[i as int] == s@);
        if starts_with_exec(&p, &s) {
            return true;
        }
        i += 1;
    }
    false
}

/// A capability is among the enabled capabilities exactly when an enabled
/// plugin lists it.
pub proof fn lemma_enabled_caps_member(ks: Seq<Seq<char>>, t: Map<Seq<char>, PluginView>)
    ensures
        forall|c: Seq<char>| enabled_caps(ks, t).contains(c) <==> exists|i: int| 0 <= i < ks.len()
            && t[ks[i]].lifecycle == PluginLifecycle::Enabled && t[#[trigger] ks[i]].manifest.capabilities.contains(c),
        ks.to_set() == t.dom() ==> forall|c: Seq<char>| enabled_caps(ks, t).contains(c) <==> exists|k: Seq<char>|
            #[trigger] t.contains_key(k) && t[k].lifecycle == PluginLifecycle::Enabled && t[k].manifest.capabilities.contains(c),
    decreases ks.len(),
{
    broadcast use vstd::seq_lib::group_seq_properties;
    if ks.len() > 0 {
        lemma_enabled_caps_member(ks.drop_last(), t);
        assert forall|c: Seq<char>| enabled_caps(ks, t).contains(c) <==> exists|i: int| 0 <= i < ks.len()
            && t[ks[i]].lifecycle == PluginLifecycle::Enabled && t[#[trigger] ks[i]].manifest.capabilities.contains(c) by {
            if enabled_caps(ks.drop_last(), t).contains(c) {
                let i = choose|i: int| 0 <= i < ks.drop_last().len() && t[ks.drop_last()[i]].lifecycle
                    == PluginLifecycle::Enabled && t[#[trigger] ks.drop_last()[i]].manifest.capabilities.contains(c);
                assert(ks[i] == ks.drop_last()[i]);
            }
            if exists|i: int| 0 <= i < ks.len() && t[ks[i]].lifecycle == PluginLifecycle::Enabled
                && t[#[trigger] ks[i]].manifest.capabilities.contains(c) {
                let i = choose|i: int| 0 <= i < ks.len() && t[ks[i]].lifecycle == PluginLifecycle::Enabled
                    && t[#[trigger] ks[i]].manifest.capabilities.contains(c);
                if i < ks.len() - 1 {
                    assert(ks.drop_last()[i] == ks[i]);
                }
            }
        }
    }
    if ks.to_set() == t.dom() {
        assert forall|c: Seq<char>| enabled_caps(ks, t).contains(c) <==> exists|k: Seq<char>|
            #[trigger] t.contains_key(k) && t[k].lifecycle == PluginLifecycle::Enabled && t[k].manifest.capabilities.contains(c) by {
            if enabled_caps(ks, t).contains(c) {
                let i = choose|i: int| 0 <= i < ks.len() && t[ks[i]].lifecycle == PluginLifecycle::Enabled
                    && t[#[trigger] ks[i]].manifest.capabilities.contains(c);
                assert(ks.contains(ks[i]));
                assert(ks.to_set().contains(ks[i]));
                assert(t.contains_key(ks[i]));
            }
            if exists|k: Seq<char>| #[trigger] t.contains_key(k) && t[k].lifecycle == PluginLifecycle::Enabled
                && t[k].manifest.capabilities.contains(c) {
                let k = choose|k: Seq<char>| #[trigger] t.contains_key(k) && t[k].lifecycle == PluginLifecycle::Enabled
                    && t[k].manifest.capabilities.contains(c);
                assert(ks.to_set().contains(k));
                let i = choose|i: int| 0 <= i < ks.len() && ks[i] == k;
                assert(t[ks[i]].manifest.capabilities.contains(c));
            }
        }
    }
}

} // verus!
