//! Plugin manifests and lifecycle.
use vstd::prelude::*;
use crate::text::{clone_strings, concat2, string_list, strs};

verus! {

/// Why a plugin operation was refused.
#[derive(Debug, Clone, PartialEq, Eq)]
pub enum PluginError {
    PermissionDenied(String),
    Quota(String),
    NotFound(String),
    Manifest(String),
    Disabled(String),
}

impl PluginError {
    /// The human-readable message of the error.
    pub fn message(&self) -> (r: String)
        ensures
            match self {
                PluginError::PermissionDenied(m) => r@ == "permission denied: "@ + m@,
                PluginError::Quota(m) => r@ == "quota exceeded: "@ + m@,
                PluginError::NotFound(m) => r@ == "not found: "@ + m@,
                PluginError::Manifest(m) => r@ == "invalid manifest: "@ + m@,
                PluginError::Disabled(m) => r@ == "disabled: "@ + m@,
            },
    {
        match self {
            PluginError::PermissionDenied(m) => concat2("permission denied: ", m.as_str()),
            PluginError::Quota(m) => concat2("quota exceeded: ", m.as_str()),
            PluginError::NotFound(m) => concat2("not found: ", m.as_str()),
            PluginError::Manifest(m) => concat2("invalid manifest: ", m.as_str()),
            PluginError::Disabled(m) => concat2("disabled: ", m.as_str()),
        }
    }
}

#[derive(Debug, PartialEq, Eq)]
pub struct PluginPermission {
    pub name: String,
}

#[derive(Debug, PartialEq, Eq)]
pub struct PluginCapability {
    pub name: String,
}

/// CPU and memory a plugin may use.
#[derive(Clone, Copy, Debug, PartialEq, Eq, Structural)]
pub struct ResourceQuota {
    pub cpu_millis: u32,
    pub ram_mb: u32,
}

impl ResourceQuota {
    /// The default quota: 100 CPU milliseconds and 64 MB of memory.
    pub fn default_quota() -> (r: Self)
        ensures
            r == (ResourceQuota { cpu_millis: 100, ram_mb: 64 }),
    {
        ResourceQuota { cpu_millis: 100, ram_mb: 64 }
    }
}

impl Default for ResourceQuota {
    fn default() -> (r: Self)
        ensures
            r == (ResourceQuota { cpu_millis: 100, ram_mb: 64 }),
    {
        ResourceQuota::default_quota()
    }
}

/// What a plugin declares about itself.
#[derive(Debug, PartialEq, Eq)]
pub struct PluginManifest {
    pub name: String,
    pub version: String,
    pub api_version: String,
    pub permissions: Vec<PluginPermission>,
    pub capabilities: Vec<PluginCapability>,
    pub resources: ResourceQuota,
    pub network_access: Vec<String>,
    pub filesystem_scopes: Vec<String>,
    pub runtime_requirements: Vec<String>,
}

/// The abstract content of a manifest; permissions and capabilities by name.
pub struct ManifestView {
    pub name: Seq<char>,
    pub version: Seq<char>,
    pub api_version: Seq<char>,
    pub permissions: Seq<Seq<char>>,
    pub capabilities: Seq<Seq<char>>,
    pub resources: ResourceQuota,
    pub network_access: Seq<Seq<char>>,
    pub filesystem_scopes: Seq<Seq<char>>,
    pub runtime_requirements: Seq<Seq<char>>,
}

pub open spec fn perm_names(v: Seq<PluginPermission>) -> Seq<Seq<char>> {
    v.map_values(|p: PluginPermission| p.name@)
}

pub open spec fn cap_names(v: Seq<PluginCapability>) -> Seq<Seq<char>> {
    v.map_values(|c: PluginCapability| c.name@)
}

impl View for PluginManifest {
    type V = ManifestView;

    open spec fn view(&self) -> ManifestView {
        ManifestView {
            name: self.name@,
            version: self.version@,
            api_version: self.api_version@,
            permissions: perm_names(self.permissions@),
            capabilities: cap_names(self.capabilities@),
            resources: self.resources,
            network_access: strs(self.network_access@),
            filesystem_scopes: strs(self.filesystem_scopes@),
            runtime_requirements: strs(self.runtime_requirements@),
        }
    }
}

/// Permissions named by the given names, in order.
pub fn permissions_named(names: &[&str]) -> (r: Vec<PluginPermission>)
    ensures
        perm_names(r@).len() == names@.len(),
        forall|i: int| 0 <= i < names@.len() ==> #[trigger] perm_names(r@)[i] == names@[i]@,
{
    let mut r: Vec<PluginPermission> = Vec::new();
    let mut i: usize = 0;
    while i < names.len()
        invariant
            i <= names@.len(),
            r@.len() == i,
            forall|k: int| 0 <= k < i ==> #[trigger] r@[k].name@ == names@[k]@,
        decreases names@.len() - i,
    {
        r.push(PluginPermission { name: String::from_str(names[i]) });
        i += 1;
    }
    r
}

/// Capabilities named by the given names, in order.
pub fn capabilities_named(names: &[&str]) -> (r: Vec<PluginCapability>)
    ensures
        cap_names(r@).len() == names@.len(),
        forall|i: int| 0 <= i < names@.len() ==> #[trigger] cap_names(r@)[i] == names@[i]@,
{
    let mut r: Vec<PluginCapability> = Vec::new();
    let mut i: usize = 0;
    while i < names.len()
        invariant
            i <= names@.len(),
            r@.len() == i,
            forall|k: int| 0 <= k < i ==> #[trigger] r@[k].name@ == names@[k]@,
        decreases names@.len() - i,
    {
        r.push(PluginCapability { name: String::from_str(names[i]) });
        i += 1;
    }
    r
}

fn clone_permissions(v: &Vec<PluginPermission>) -> (r: Vec<PluginPermission>)
    ensures
        perm_names(r@) == perm_names(v@),
{
    let mut r: Vec<PluginPermission> = Vec::new();
    let mut i: usize = 0;
    while i < v.len()
        invariant
            i <= v.len(),
            perm_names(r@) == perm_names(v@).subrange(0, i as int),
        decreases v.len() - i,
    {
        let ghost before = r@;
        let item = PluginPermission { name: v[i].name.clone() };
        r.push(item);
        assert(r@ == before.push(item));
        assert(perm_names(r@) =~= perm_names(before).push(item.name@));
        assert(perm_names(v@)[i as int] == item.name@);
        assert(perm_names(r@) =~= perm_names(v@).subrange(0, i + 1));
        i += 1;
    }
    assert(perm_names(v@).subrange(0, v.len() as int) =~= perm_names(v@));
    r
}

fn clone_capabilities(v: &Vec<PluginCapability>) -> (r: Vec<PluginCapability>)
    ensures
        cap_names(r@) == cap_names(v@),
{
    let mut r: Vec<PluginCapability> = Vec::new();
    let mut i: usize = 0;
    while i < v.len()
        invariant
            i <= v.len(),
            cap_names(r@) == cap_names(v@).subrange(0, i as int),
        decreases v.len() - i,
    {
        let ghost before = r@;
        let item = PluginCapability { name: v[i].name.clone() };
        r.push(item);
        assert(r@ == before.push(item));
        assert(cap_names(r@) =~= cap_names(before).push(item.name@));
        assert(cap_names(v@)[i as int] == item.name@);
        assert(cap_names(r@) =~= cap_names(v@).subrange(0, i + 1));
        i += 1;
    }
    assert(cap_names(v@).subrange(0, v.len() as int) =~= cap_names(v@));
    r
}

impl Clone for PluginManifest {
    fn clone(&self) -> (r: Self)
        ensures
            r@ == self@,
    {
        PluginManifest {
            name: self.name.clone(),
            version: self.version.clone(),
            api_version: self.api_version.clone(),
            permissions: clone_permissions(&self.permissions),
            capabilities: clone_capabilities(&self.capabilities),
            resources: self.resources,
            network_access: clone_strings(&self.network_access),
            filesystem_scopes: clone_strings(&self.filesystem_scopes),
            runtime_requirements: clone_strings(&self.runtime_requirements),
        }
    }
}

/// Where a plugin is in its lifecycle.
#[derive(Clone, Copy, Debug, PartialEq, Eq, Structural)]
pub enum PluginLifecycle {
    Created,
    Installed,
    Verified,
    Enabled,
    Disabled,
    RolledBack,
    Removed,
}

/// An installed plugin.
#[derive(Debug, PartialEq)]
pub struct Plugin {
    pub id: String,
    pub manifest: PluginManifest,
    pub lifecycle: PluginLifecycle,
    pub checksum: String,
    pub previous_version: Option<String>,
}

pub struct PluginView {
    pub id: Seq<char>,
    pub manifest: ManifestView,
    pub lifecycle: PluginLifecycle,
    pub checksum: Seq<char>,
    pub previous_version: Option<Seq<char>>,
}

impl View for Plugin {
    type V = PluginView;

    open spec fn view(&self) -> PluginView {
        PluginView {
            id: self.id@,
            manifest: self.manifest@,
            lifecycle: self.lifecycle,
            checksum: self.checksum@,
            previous_version: match self.previous_version {
                Some(v) => Some(v@),
                None => None,
            },
        }
    }
}

impl Clone for Plugin {
    fn clone(&self) -> (r: Self)
        ensures
            r@ == self@,
    {
        Plugin {
            id: self.id.clone(),
            manifest: self.manifest.clone(),
            lifecycle: self.lifecycle,
            checksum: self.checksum.clone(),
            previous_version: match &self.previous_version {
                Some(v) => Some(v.clone()),
                None => None,
            },
        }
    }
}

/// One entry of the audit log.
#[derive(Debug, PartialEq, Eq)]
pub struct AuditEvent {
    pub plugin_id: String,
    pub action: String,
    pub detail: String,
}

pub struct AuditEventView {
    pub plugin_id: Seq<char>,
    pub action: Seq<char>,
    pub detail: Seq<char>,
}

impl View for AuditEvent {
    type V = AuditEventView;

    open spec fn view(&self) -> AuditEventView {
        AuditEventView { plugin_id: self.plugin_id@, action: self.action@, detail: self.detail@ }
    }
}

impl Clone for AuditEvent {
    fn clone(&self) -> (r: Self)
        ensures
            r@ == self@,
    {
        AuditEvent {
            plugin_id: self.plugin_id.clone(),
            action: self.action.clone(),
            detail: self.detail.clone(),
        }
    }
}

/// The manifest a new plugin starts from.
pub open spec fn created_manifest(name: Seq<char>) -> ManifestView {
    ManifestView {
        name: name,
        version: "0.1.0"@,
        api_version: "1"@,
        permissions: seq!["workspace.read"@],
        capabilities: seq!["echo.say"@],
        resources: ResourceQuota { cpu_millis: 100, ram_mb: 64 },
        network_access: Seq::empty(),
        filesystem_scopes: seq!["/Workspace/Artifacts"@],
        runtime_requirements: seq!["linux"@],
    }
}

/// A new manifest with one read permission, the echo capability, the default
/// quota and the artifacts workspace scope.
pub fn create_manifest(name: &str) -> (r: PluginManifest)
    ensures
        r@ == created_manifest(name@),
{
    let permissions = permissions_named(&["workspace.read"]);
    let capabilities = capabilities_named(&["echo.say"]);
    let filesystem_scopes = string_list(&["/Workspace/Artifacts"]);
    let runtime_requirements = string_list(&["linux"]);
    let r = PluginManifest {
        name: String::from_str(name),
        version: String::from_str("0.1.0"),
        api_version: String::from_str("1"),
        permissions,
        capabilities,
        resources: ResourceQuota::default_quota(),
        network_access: Vec::new(),
        filesystem_scopes,
        runtime_requirements,
    };
    assert(r@.permissions =~= seq!["workspace.read"@]);
    assert(r@.capabilities =~= seq!["echo.say"@]);
    assert(r@.network_access =~= Seq::<Seq<char>>::empty());
    assert(r@.filesystem_scopes =~= seq!["/Workspace/Artifacts"@]);
    assert(r@.runtime_requirements =~= seq!["linux"@]);
    r
}

/// The sample echo plugin: one capability, one agent role, one workspace integration.
pub fn sample_echo_plugin() -> (r: PluginManifest)
    ensures
        r@ == (ManifestView {
            permissions: seq!["workspace.read"@, "agent.role.echo"@],
            ..created_manifest("sample-echo"@)
        }),
{
    let mut m = create_manifest("sample-echo");
    m.capabilities = capabilities_named(&["echo.say"]);
    m.permissions = permissions_named(&["workspace.read", "agent.role.echo"]);
    assert(m@.capabilities =~= seq!["echo.say"@]);
    assert(m@.permissions =~= seq!["workspace.read"@, "agent.role.echo"@]);
    m
}

} // verus!
