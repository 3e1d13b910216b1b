//! Capability contracts: versions, definitions, requests, results and errors.
use vstd::prelude::*;
use serde_json::Value;
use crate::text::{concat2, decimal, decimal_string, strs};

verus! {

/// `serde_json::Value` carries schemas, inputs and outputs through the
/// library unread.
#[verifier::external_type_specification]
#[verifier::external_body]
pub struct ExValue(Value);

/// `Value::Object` holding `Map::new()`: an empty JSON object.
#[verifier::external_body]
pub(crate) fn empty_object() -> Value {
    Value::Object(serde_json::Map::new())
}

/// `Value::Null`.
#[verifier::external_body]
pub(crate) fn null_value() -> Value {
    Value::Null
}

/// `<Value as Clone>::clone`: an equal JSON value.
#[verifier::external_body]
pub(crate) fn clone_value(v: &Value) -> (r: Value)
    ensures
        r == *v,
{
    v.clone()
}

/// Milliseconds since the Unix epoch on the host clock.
#[verifier::external_body]
pub(crate) fn now_ms() -> u64 {
    std::time::SystemTime::now().duration_since(std::time::UNIX_EPOCH).unwrap_or_default().as_millis() as u64
}

/// A capability contract version; a provider at `major.minor` serves requests
/// for the same major version and any minor version up to its own.
#[derive(Clone, Copy, Debug, PartialEq, Eq, Structural, Hash, PartialOrd, Ord)]
pub struct CapabilityVersion {
    pub major: u16,
    pub minor: u16,
}

/// `a` is no later than `b`, major version first.
pub open spec fn version_le(a: CapabilityVersion, b: CapabilityVersion) -> bool {
    a.major < b.major || (a.major == b.major && a.minor <= b.minor)
}

/// `a` comes strictly before `b`, major version first.
pub open spec fn version_lt(a: CapabilityVersion, b: CapabilityVersion) -> bool {
    a.major < b.major || (a.major == b.major && a.minor < b.minor)
}

/// A version serves a request for `requested`.
pub open spec fn compatible(v: CapabilityVersion, requested: CapabilityVersion) -> bool {
    v.major == requested.major && v.minor >= requested.minor
}

/// The text form `v<major>.<minor>`.
pub open spec fn version_text(v: CapabilityVersion) -> Seq<char> {
    "v"@ + decimal(v.major as nat) + "."@ + decimal(v.minor as nat)
}

impl CapabilityVersion {
    /// Version 1.0.
    pub fn v1() -> (r: Self)
        ensures
            r.major == 1,
            r.minor == 0,
    {
        CapabilityVersion { major: 1, minor: 0 }
    }

    /// Whether this version serves a request for `requested`.
    pub fn compatible_with(&self, requested: &Self) -> (r: bool)
        ensures
            r == compatible(*self, *requested),
    {
        self.major == requested.major && self.minor >= requested.minor
    }

    /// Whether this version comes strictly before `other`.
    pub fn precedes(&self, other: &Self) -> (r: bool)
        ensures
            r == version_lt(*self, *other),
    {
        self.major < other.major || (self.major == other.major && self.minor < other.minor)
    }

    /// The text form, such as `v1.0`.
    pub fn to_string(&self) -> (r: String)
        ensures
            r@ == version_text(*self),
    {
        let mut r = concat2("v", decimal_string(self.major as u64).as_str());
        r.append(".");
        r.append(decimal_string(self.minor as u64).as_str());
        r
    }
}

/// Where a capability can run.
#[derive(Clone, Copy, Debug, PartialEq, Eq, Structural, Hash)]
pub enum CapabilityRuntime {
    Linux,
    Windows,
    MacOS,
    Container,
    Remote,
}

#[derive(Clone, Copy, Debug, PartialEq, Eq, Structural)]
pub enum SecurityLevel {
    Low,
    Sensitive,
    Privileged,
    Critical,
}

#[derive(Clone, Copy, Debug, PartialEq, Eq, Structural)]
pub enum RiskLevel {
    Low,
    Medium,
    High,
    Critical,
}

#[derive(Clone, Copy, Debug, PartialEq, Eq, Structural)]
pub enum Idempotency {
    ReadOnly,
    Idempotent,
    NonIdempotent,
    Destructive,
}

/// What is recorded when a capability runs; `NoAudit` records nothing.
#[derive(Clone, Copy, Debug, PartialEq, Eq, Structural)]
pub enum AuditPolicy {
    NoAudit,
    Metadata,
    Full,
}

/// What running a capability demands and risks.
#[derive(Debug)]
pub struct CapabilityMetadata {
    pub required_permissions: Vec<String>,
    pub required_resources: Vec<String>,
    pub supported_runtimes: Vec<CapabilityRuntime>,
    pub security_level: SecurityLevel,
    pub risk_level: RiskLevel,
    pub idempotency: Idempotency,
    pub timeout_ms: u64,
    pub audit_policy: AuditPolicy,
}

/// Capability metadata as a value.
pub struct MetadataView {
    pub required_permissions: Seq<Seq<char>>,
    pub required_resources: Seq<Seq<char>>,
    pub supported_runtimes: Seq<CapabilityRuntime>,
    pub security_level: SecurityLevel,
    pub risk_level: RiskLevel,
    pub idempotency: Idempotency,
    pub timeout_ms: u64,
    pub audit_policy: AuditPolicy,
}

impl View for CapabilityMetadata {
    type V = MetadataView;

    open spec fn view(&self) -> MetadataView {
        MetadataView {
            required_permissions: strs(self.required_permissions@),
            required_resources: strs(self.required_resources@),
            supported_runtimes: self.supported_runtimes@,
            security_level: self.security_level,
            risk_level: self.risk_level,
            idempotency: self.idempotency,
            timeout_ms: self.timeout_ms,
            audit_policy: self.audit_policy,
        }
    }
}

fn clone_runtimes(v: &Vec<CapabilityRuntime>) -> (r: Vec<CapabilityRuntime>)
    ensures
        r@ == v@,
{
    let mut r: Vec<CapabilityRuntime> = Vec::new();
    let mut i: usize = 0;
    while i < v.len()
        invariant
            i <= v.len(),
            r@ == v@.subrange(0, i as int),
        decreases v.len() - i,
    {
        r.push(v[i]);
        i += 1;
    }
    r
}

impl Clone for CapabilityMetadata {
    fn clone(&self) -> (r: Self)
        ensures
            r@ == self@,
    {
        CapabilityMetadata {
            required_permissions: crate::text::clone_strings(&self.required_permissions),
            required_resources: crate::text::clone_strings(&self.required_resources),
            supported_runtimes: clone_runtimes(&self.supported_runtimes),
            security_level: self.security_level,
            risk_level: self.risk_level,
            idempotency: self.idempotency,
            timeout_ms: self.timeout_ms,
            audit_policy: self.audit_policy,
        }
    }
}

/// A versioned capability contract.
#[derive(Debug)]
pub struct CapabilityDefinition {
    pub capability_id: String,
    pub name: String,
    pub version: CapabilityVersion,
    pub description: String,
    pub input_schema: Value,
    pub output_schema: Value,
    pub metadata: CapabilityMetadata,
    pub deprecated: bool,
}

/// A capability definition as a value; the schemas are carried unread.
pub struct DefinitionView {
    pub capability_id: Seq<char>,
    pub name: Seq<char>,
    pub version: CapabilityVersion,
    pub description: Seq<char>,
    pub metadata: MetadataView,
    pub deprecated: bool,
}

impl View for CapabilityDefinition {
    type V = DefinitionView;

    open spec fn view(&self) -> DefinitionView {
        DefinitionView {
            capability_id: self.capability_id@,
            name: self.name@,
            version: self.version,
            description: self.description@,
            metadata: self.metadata@,
            deprecated: self.deprecated,
        }
    }
}

impl Clone for CapabilityDefinition {
    fn clone(&self) -> (r: Self)
        ensures
            r@ == self@,
            r.input_schema == self.input_schema,
            r.output_schema == self.output_schema,
    {
        CapabilityDefinition {
            capability_id: self.capability_id.clone(),
            name: self.name.clone(),
            version: self.version,
            description: self.description.clone(),
            input_schema: clone_value(&self.input_schema),
            output_schema: clone_value(&self.output_schema),
            metadata: self.metadata.clone(),
            deprecated: self.deprecated,
        }
    }
}

/// The definition `basic` builds: version 1.0, named after its identity,
/// low security and risk, a 30 second timeout and metadata auditing.
pub open spec fn basic_definition(
    id: Seq<char>,
    description: Seq<char>,
    runtimes: Seq<CapabilityRuntime>,
    idempotency: Idempotency,
) -> DefinitionView {
    DefinitionView {
        capability_id: id,
        name: id,
        version: CapabilityVersion { major: 1, minor: 0 },
        description,
        metadata: MetadataView {
            required_permissions: Seq::empty(),
            required_resources: Seq::empty(),
            supported_runtimes: runtimes,
            security_level: SecurityLevel::Low,
            risk_level: RiskLevel::Low,
            idempotency,
            timeout_ms: 30_000,
            audit_policy: AuditPolicy::Metadata,
        },
        deprecated: false,
    }
}

impl CapabilityDefinition {
    /// A version 1.0 definition with empty schemas and default metadata.
    pub fn basic(id: &str, description: &str, runtimes: Vec<CapabilityRuntime>, idempotency: Idempotency) -> (r:
        Self)
        ensures
            r@ == basic_definition(id@, description@, runtimes@, idempotency),
    {
        let capability_id = String::from_str(id);
        let r = CapabilityDefinition {
            name: capability_id.clone(),
            capability_id,
            version: CapabilityVersion::v1(),
            description: String::from_str(description),
            input_schema: empty_object(),
            output_schema: empty_object(),
            deprecated: false,
            metadata: CapabilityMetadata {
                required_permissions: Vec::new(),
                required_resources: Vec::new(),
                supported_runtimes: runtimes,
                security_level: SecurityLevel::Low,
                risk_level: RiskLevel::Low,
                idempotency,
                timeout_ms: 30_000,
                audit_policy: AuditPolicy::Metadata,
            },
        };
        assert(r@.metadata.required_permissions =~= Seq::<Seq<char>>::empty());
        assert(r@.metadata.required_resources =~= Seq::<Seq<char>>::empty());
        r
    }
}

#[derive(Clone, Copy, Debug, PartialEq, Eq, Structural)]
pub enum CapabilityStatus {
    Completed,
    Failed,
    Denied,
    Timeout,
    Unavailable,
}

#[derive(Clone, Copy, Debug, PartialEq, Eq, Structural)]
pub enum CapabilityErrorCode {
    FileNotFound,
    PermissionDenied,
    ApplicationNotFound,
    RuntimeUnavailable,
    CapabilityUnavailable,
    Timeout,
    ResourceExhausted,
    UserApprovalRequired,
    Unsupported,
    ProviderUnavailable,
    InvalidInput,
    Internal,
}

/// A normalized capability failure.
#[derive(Debug)]
pub struct CapabilityError {
    pub code: CapabilityErrorCode,
    pub message: String,
    pub retryable: bool,
}

impl Clone for CapabilityError {
    fn clone(&self) -> (r: Self)
        ensures
            r.code == self.code,
            r.message@ == self.message@,
            r.retryable == self.retryable,
    {
        CapabilityError { code: self.code, message: self.message.clone(), retryable: self.retryable }
    }
}

/// A request to run a capability.
#[derive(Debug)]
pub struct CapabilityRequest {
    pub request_id: String,
    pub task_id: String,
    pub agent_id: String,
    pub capability_id: String,
    pub requested_version: Option<CapabilityVersion>,
    pub runtime_hint: Option<String>,
    pub input: Value,
    pub timeout_ms: Option<u64>,
    pub trace_id: String,
    pub span_id: String,
}

/// The outcome of a capability request.
#[derive(Debug)]
pub struct CapabilityResult {
    pub request_id: String,
    pub capability_id: String,
    pub runtime_id: String,
    pub status: CapabilityStatus,
    pub output: Value,
    pub error: Option<CapabilityError>,
    pub metadata: Value,
    pub execution_time_ms: u64,
    pub artifacts: Vec<String>,
    pub side_effects: Vec<String>,
    pub provider_id: Option<String>,
}

impl CapabilityResult {
    /// A failed, non-retryable result for the request, with no output.
    pub fn failed(request: &CapabilityRequest, runtime_id: &str, code: CapabilityErrorCode, message: &str) -> (r:
        Self)
        ensures
            r.request_id@ == request.request_id@,
            r.capability_id@ == request.capability_id@,
            r.runtime_id@ == runtime_id@,
            r.status == CapabilityStatus::Failed,
            r.error matches Some(e) && e.code == code && e.message@ == message@ && !e.retryable,
            r.execution_time_ms == 0,
            r.artifacts@.len() == 0,
            r.side_effects@.len() == 0,
            r.provider_id is None,
    {
        CapabilityResult {
            request_id: request.request_id.clone(),
            capability_id: request.capability_id.clone(),
            runtime_id: String::from_str(runtime_id),
            status: CapabilityStatus::Failed,
            output: null_value(),
            error: Some(CapabilityError { code, message: String::from_str(message), retryable: false }),
            metadata: null_value(),
            execution_time_ms: 0,
            artifacts: Vec::new(),
            side_effects: Vec::new(),
            provider_id: None,
        }
    }
}

#[derive(Clone, Copy, Debug, PartialEq, Eq, Structural)]
pub enum ProviderAvailability {
    Available,
    Degraded,
    Unavailable,
}

#[derive(Clone, Copy, Debug, PartialEq, Eq, Structural)]
pub enum ProcessState {
    Running,
    Stopped,
    Exited,
    Unknown,
}

/// An application installed on a runtime, as a capability reports it.
#[derive(Debug)]
pub struct Application {
    pub application_id: String,
    pub name: String,
    pub display_name: String,
    pub version: Option<String>,
    pub runtime_id: String,
    pub executable: Option<String>,
    pub capabilities: Vec<String>,
    pub permissions: Vec<String>,
    pub status: String,
    pub metadata: Value,
}

/// A process running on a runtime, as a capability reports it.
#[derive(Debug)]
pub struct ProcessInfo {
    pub process_id: String,
    pub runtime_id: String,
    pub name: String,
    pub state: ProcessState,
    pub command: Vec<String>,
    pub metadata: Value,
}

} // verus!
