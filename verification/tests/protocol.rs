use nightshade_worker_leptos::protocol::{
    AdapterInfo, adapter_label, context_label, worker_adapter_info,
};
use nightshade_worker_leptos::ui::{canvas_class, heartbeat_value_class, main_stat_class};

#[test]
fn ready_readouts() {
    let info = worker_adapter_info();
    assert_eq!(info.adapter, "nightshade");
    assert_eq!(info.backend, "WebGPU");
    assert_eq!(adapter_label(&info), "nightshade (WebGPU)");
    assert_eq!(
        context_label("DedicatedWorkerGlobalScope"),
        "DedicatedWorkerGlobalScope (off the main thread)"
    );
}

#[test]
fn adapter_label_of_any_info() {
    let info = AdapterInfo { adapter: "a".to_string(), backend: String::new() };
    assert_eq!(adapter_label(&info), "a ()");
}

#[test]
fn classes_follow_state() {
    assert_eq!(main_stat_class(true), "px-2.5 py-2 rounded-md border bg-[#2a1414] border-[#5c1f1f]");
    assert_eq!(main_stat_class(false), "px-2.5 py-2 rounded-md border bg-[#161a26] border-[#262b3c]");
    assert_eq!(heartbeat_value_class(true), "text-[20px] tabular-nums text-[#ff8a8a]");
    assert_eq!(heartbeat_value_class(false), "text-[20px] tabular-nums");
    assert_eq!(canvas_class(true), "block w-full h-full touch-none cursor-grabbing");
    assert_eq!(canvas_class(false), "block w-full h-full touch-none cursor-grab");
}
