//! Runtime lifecycle events.
use vstd::prelude::*;
use crate::worker::model::now_secs;
use crate::virtualization::backend::fresh_id;

verus! {

/// Something that happened to a runtime.
#[derive(Clone, Debug)]
pub struct RuntimeEvent {
    pub event_id: String,
    pub runtime_id: String,
    pub runtime_type: i32,
    pub event_type: String,
    pub message: String,
    pub timestamp_secs: u64,
}

/// Publishes runtime events.
pub struct RuntimeEventPublisher;

impl RuntimeEventPublisher {
    /// An event `evt-<uuid>` about a runtime, stamped with the current time.
    pub fn publish_event(runtime_id: &str, runtime_type: i32, event_type: &str, message: &str) -> (r: RuntimeEvent)
        ensures
            crate::text::starts_with(r.event_id@, "evt-"@),
            r.runtime_id@ == runtime_id@,
            r.runtime_type == runtime_type,
            r.event_type@ == event_type@,
            r.message@ == message@,
    {
        RuntimeEvent {
            event_id: fresh_id("evt-"),
            runtime_id: String::from_str(runtime_id),
            runtime_type,
            event_type: String::from_str(event_type),
            message: String::from_str(message),
            timestamp_secs: now_secs(),
        }
    }
}

} // verus!
