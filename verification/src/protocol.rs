//! Data the worker reports to the page, and the readout text the page shows
//! for it.
use vstd::prelude::*;

verus! {

/// Which renderer the worker runs, as reported in its `Ready` message.
#[derive(Clone, Debug)]
pub struct AdapterInfo {
    pub adapter: String,
    pub backend: String,
}

/// The adapter the worker reports once the engine is up.
pub fn worker_adapter_info() -> (info: AdapterInfo)
    ensures
        info.adapter@ == "nightshade"@,
        info.backend@ == "WebGPU"@,
{
    AdapterInfo { adapter: String::from_str("nightshade"), backend: String::from_str("WebGPU") }
}

/// The renderer readout: `adapter (backend)`.
pub fn adapter_label(info: &AdapterInfo) -> (label: String)
    ensures
        label@ == info.adapter@ + " ("@ + info.backend@ + ")"@,
{
    let mut label = String::from_str(info.adapter.as_str());
    label.append(" (");
    label.append(info.backend.as_str());
    label.append(")");
    label
}

/// The "engine runs in" readout: the worker scope's name, marked as off the
/// main thread.
pub fn context_label(context: &str) -> (label: String)
    ensures
        label@ == context@ + " (off the main thread)"@,
{
    let mut label = String::from_str(context);
    label.append(" (off the main thread)");
    label
}

} // verus!
