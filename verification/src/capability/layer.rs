//! The universal capability layer's decisions: which definition and providers
//! a request gets, and what each provider outcome makes of the request.
use vstd::prelude::*;
use serde_json::Value;
use crate::capability::model::{
    null_value, CapabilityDefinition, CapabilityError, CapabilityErrorCode, CapabilityRequest,
    CapabilityResult, CapabilityStatus,
};
use crate::capability::registry::{
    adopt_definitions, candidate, capability_ids_of, def_views, lookup_spec, CapabilityRegistry, ProviderView,
};
use crate::text::strs;
use crate::worker::registry::opt_string_view;

verus! {

/// What a provider hands back on success.
#[derive(Debug)]
pub struct CapabilityProviderResult {
    pub output: Value,
    pub artifacts: Vec<String>,
    pub side_effects: Vec<String>,
    pub metadata: Value,
}

/// How one provider's attempt ended.
#[derive(Debug)]
pub enum ProviderOutcome {
    Succeeded(CapabilityProviderResult),
    Failed(CapabilityError),
    TimedOut,
}

/// The definition a request resolves to, the providers to try in order, and
/// the time each attempt may take.
#[derive(Debug)]
pub struct ExecutionPlan {
    pub definition: CapabilityDefinition,
    pub candidates: Vec<String>,
    pub deadline_ms: u64,
}

/// The runtime a failure is reported against: the hinted one, or `unresolved`.
pub open spec fn failure_runtime(hint: Option<Seq<char>>) -> Seq<char> {
    match hint {
        Some(h) => h,
        None => "unresolved"@,
    }
}

/// The version a request asks for.
pub open spec fn requested(r: &CapabilityRequest) -> Option<crate::capability::model::CapabilityVersion> {
    r.requested_version
}

/// A request refused before any provider ran: failed against the hinted
/// runtime (or `unresolved`), for the request's own identity and capability,
/// with no provider, no artifacts and no side effects, and a non-retryable
/// error with the given code and message.
pub open spec fn refused_at_once(
    f: CapabilityResult,
    request: &CapabilityRequest,
    code: CapabilityErrorCode,
    message: Seq<char>,
) -> bool {
    &&& f.status == CapabilityStatus::Failed
    &&& f.runtime_id@ == failure_runtime(opt_string_view(request.runtime_hint))
    &&& f.request_id@ == request.request_id@
    &&& f.capability_id@ == request.capability_id@
    &&& f.provider_id is None
    &&& f.artifacts@.len() == 0
    &&& f.side_effects@.len() == 0
    &&& f.execution_time_ms == 0
    &&& f.error matches Some(e) && e.code == code && e.message@ == message && !e.retryable
}

/// The layer that routes capability requests to providers.
pub struct UniversalCapabilityLayer {
    registry: CapabilityRegistry,
}

impl UniversalCapabilityLayer {
    pub closed spec fn registry_view(&self) -> CapabilityRegistry {
        self.registry
    }

    pub fn new(registry: CapabilityRegistry) -> (r: Self)
        ensures
            r.registry_view() == registry,
    {
        UniversalCapabilityLayer { registry }
    }

    /// The registry the layer routes through.
    pub fn registry(&self) -> (r: &CapabilityRegistry)
        ensures
            *r == self.registry_view(),
    {
        &self.registry
    }

    /// Registers a provider with the registry.
    pub fn register_provider(
        &mut self,
        provider_id: &str,
        runtime_id: &str,
        priority: u8,
        definitions: Vec<CapabilityDefinition>,
    ) -> (r: Result<(), String>)
        requires
            old(self).registry_view().wf(),
        ensures
            final(self).registry_view().wf(),
            old(self).registry_view().providers().contains_key(provider_id@) ==> {
                &&& r matches Err(m) && m@ == "provider '"@ + provider_id@ + "' is already registered"@
                &&& final(self).registry_view().defs() == old(self).registry_view().defs()
                &&& final(self).registry_view().providers() == old(self).registry_view().providers()
            },
            !old(self).registry_view().providers().contains_key(provider_id@) ==> {
                &&& r is Ok
                &&& final(self).registry_view().defs() == adopt_definitions(
                    old(self).registry_view().defs(),
                    def_views(definitions@),
                )
                &&& final(self).registry_view().providers() == old(self).registry_view().providers().insert(
                    provider_id@,
                    ProviderView {
                        provider_id: provider_id@,
                        runtime_id: runtime_id@,
                        priority,
                        capability_ids: capability_ids_of(def_views(definitions@)),
                    },
                )
            },
    {
        self.registry.register_provider(provider_id, runtime_id, priority, definitions)
    }

    /// Records what a registered provider answers now (its runtime, priority
    /// and the capabilities it defines), so that routing follows it; whether
    /// the provider is registered.
    pub fn refresh_provider(
        &mut self,
        provider_id: &str,
        runtime_id: &str,
        priority: u8,
        definitions: &Vec<CapabilityDefinition>,
    ) -> (r: bool)
        requires
            old(self).registry_view().wf(),
        ensures
            final(self).registry_view().wf(),
            final(self).registry_view().defs() == old(self).registry_view().defs(),
            r == old(self).registry_view().providers().contains_key(provider_id@),
            r ==> final(self).registry_view().providers() == old(self).registry_view().providers().insert(
                provider_id@,
                ProviderView {
                    provider_id: provider_id@,
                    runtime_id: runtime_id@,
                    priority,
                    capability_ids: capability_ids_of(def_views(definitions@)),
                },
            ),
            !r ==> final(self).registry_view().providers() == old(self).registry_view().providers(),
    {
        self.registry.refresh_provider(provider_id, runtime_id, priority, definitions)
    }

    /// What a request gets before any provider runs: the newest compatible
    /// definition, the providers that may take it (lowest priority value
    /// first, leaving out those reported unavailable), and the request's own
    /// timeout or else the definition's. A request with no compatible
    /// definition, or with no provider to take it, fails at once.
    pub fn plan(&self, request: &CapabilityRequest, unavailable: &Vec<String>) -> (r: Result<
        ExecutionPlan,
        CapabilityResult,
    >)
        requires
            self.registry_view().wf(),
        ensures
            ({
                let reg = self.registry_view();
                let found = lookup_spec(reg.defs(), request.capability_id@, request.requested_version);
                match found {
                    None => r matches Err(f) && refused_at_once(
                        f,
                        request,
                        CapabilityErrorCode::CapabilityUnavailable,
                        "No compatible capability definition is registered"@,
                    ),
                    Some(d) => {
                        let eligible = reg.providers().dom().filter(
                            |k: Seq<char>|
                                candidate(
                                    k,
                                    reg.providers()[k],
                                    d.capability_id,
                                    opt_string_view(request.runtime_hint),
                                    strs(unavailable@),
                                ),
                        );
                        if eligible.len() == 0 {
                            r matches Err(f) && refused_at_once(
                                f,
                                request,
                                CapabilityErrorCode::RuntimeUnavailable,
                                "No healthy provider is available for this capability"@,
                            )
                        } else {
                            r matches Ok(p) && p.definition@ == d && strs(p.candidates@).to_set() == eligible
                                && strs(p.candidates@).no_duplicates() && crate::capability::registry::by_priority(
                                strs(p.candidates@),
                                reg.providers(),
                            ) && p.deadline_ms == match request.timeout_ms {
                                Some(t) => t,
                                None => d.metadata.timeout_ms,
                            }
                        }
                    },
                }
            }),
    {
        let requested = match &request.requested_version {
            Some(v) => Some(v),
            None => None,
        };
        let runtime: String = match &request.runtime_hint {
            Some(h) => h.clone(),
            None => String::from_str("unresolved"),
        };
        let definition = match self.registry.lookup(request.capability_id.as_str(), requested) {
            Some(d) => d,
            None => {
                return Err(
                    CapabilityResult::failed(
                        request,
                        runtime.as_str(),
                        CapabilityErrorCode::CapabilityUnavailable,
                        "No compatible capability definition is registered",
                    ),
                );
            },
        };
        let hint: Option<&str> = match &request.runtime_hint {
            Some(h) => Some(h.as_str()),
            None => None,
        };
        let candidates = self.registry.provider_candidates(definition.capability_id.as_str(), hint, unavailable);
        if candidates.len() == 0 {
            proof {
                assert(strs(candidates@).to_set() =~= Set::<Seq<char>>::empty());
            }
            return Err(
                CapabilityResult::failed(
                    request,
                    runtime.as_str(),
                    CapabilityErrorCode::RuntimeUnavailable,
                    "No healthy provider is available for this capability",
                ),
            );
        }
        proof {
            assert(strs(candidates@).contains(strs(candidates@)[0]));
            assert(strs(candidates@).to_set().contains(strs(candidates@)[0]));
        }
        let deadline_ms = match request.timeout_ms {
            Some(t) => t,
            None => definition.metadata.timeout_ms,
        };
        Ok(ExecutionPlan { definition, candidates, deadline_ms })
    }
}

/// Time passed from `started` to `now`, or zero if the clock went back.
pub open spec fn elapsed(started: u64, now: u64) -> u64 {
    if now >= started {
        (now - started) as u64
    } else {
        0
    }
}

/// What one provider's outcome makes of the request: success completes it,
/// a retryable failure moves on to the next provider (`None`), any other
/// failure fails it, and running out of time times it out.
pub fn settle(
    request: &CapabilityRequest,
    provider_id: &str,
    runtime_id: &str,
    outcome: ProviderOutcome,
    started_ms: u64,
    now_ms: u64,
) -> (r: Option<CapabilityResult>)
    ensures
        match outcome {
            ProviderOutcome::Succeeded(v) => r matches Some(res) && res.status == CapabilityStatus::Completed
                && res.error is None && res.output == v.output && res.metadata == v.metadata && strs(res.artifacts@)
                == strs(v.artifacts@) && strs(res.side_effects@) == strs(v.side_effects@),
            ProviderOutcome::Failed(e) => if e.retryable {
                r is None
            } else {
                r matches Some(res) && (res.status == CapabilityStatus::Failed && res.artifacts@.len() == 0
                    && res.side_effects@.len() == 0 && (res.error matches Some(x) && (x.code == e.code
                    && x.message@ == e.message@ && !x.retryable)))
            },
            ProviderOutcome::TimedOut => r matches Some(res) && (res.status == CapabilityStatus::Timeout
                && res.artifacts@.len() == 0 && res.side_effects@.len() == 0 && (res.error matches Some(x) && (
                x.code == CapabilityErrorCode::Timeout && x.message@ == "Capability execution timed out"@
                && x.retryable))),
        },
        r matches Some(res) ==> {
            &&& res.request_id@ == request.request_id@
            &&& res.capability_id@ == request.capability_id@
            &&& res.runtime_id@ == runtime_id@
            &&& res.provider_id matches Some(p) && p@ == provider_id@
            &&& res.execution_time_ms == elapsed(started_ms, now_ms)
        },
{
    let took: u64 = if now_ms >= started_ms {
        now_ms - started_ms
    } else {
        0
    };
    match outcome {
        ProviderOutcome::Succeeded(v) => Some(
            CapabilityResult {
                request_id: request.request_id.clone(),
                capability_id: request.capability_id.clone(),
                runtime_id: String::from_str(runtime_id),
                status: CapabilityStatus::Completed,
                output: v.output,
                error: None,
                metadata: v.metadata,
                execution_time_ms: took,
                artifacts: v.artifacts,
                side_effects: v.side_effects,
                provider_id: Some(String::from_str(provider_id)),
            },
        ),
        ProviderOutcome::Failed(e) => {
            if e.retryable {
                None
            } else {
                Some(
                    CapabilityResult {
                        request_id: request.request_id.clone(),
                        capability_id: request.capability_id.clone(),
                        runtime_id: String::from_str(runtime_id),
                        status: CapabilityStatus::Failed,
                        output: null_value(),
                        error: Some(e),
                        metadata: null_value(),
                        execution_time_ms: took,
                        artifacts: Vec::new(),
                        side_effects: Vec::new(),
                        provider_id: Some(String::from_str(provider_id)),
                    },
                )
            }
        },
        ProviderOutcome::TimedOut => Some(
            CapabilityResult {
                request_id: request.request_id.clone(),
                capability_id: request.capability_id.clone(),
                runtime_id: String::from_str(runtime_id),
                status: CapabilityStatus::Timeout,
                output: null_value(),
                error: Some(
                    CapabilityError {
                        code: CapabilityErrorCode::Timeout,
                        message: String::from_str("Capability execution timed out"),
                        retryable: true,
                    },
                ),
                metadata: null_value(),
                execution_time_ms: took,
                artifacts: Vec::new(),
                side_effects: Vec::new(),
                provider_id: Some(String::from_str(provider_id)),
            },
        ),
    }
}

/// The result when every provider failed with a retryable error.
pub fn exhausted(request: &CapabilityRequest) -> (r: CapabilityResult)
    ensures
        r.status == CapabilityStatus::Failed,
        r.error matches Some(e) && e.code == CapabilityErrorCode::ProviderUnavailable && e.message@
            == "All providers failed"@ && !e.retryable,
        r.runtime_id@ == "unresolved"@,
        r.request_id@ == request.request_id@,
        r.capability_id@ == request.capability_id@,
{
    CapabilityResult::failed(request, "unresolved", CapabilityErrorCode::ProviderUnavailable, "All providers failed")
}

} // verus!
