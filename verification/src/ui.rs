//! Styling decisions of the page: classes that follow the jam and drag state.
use vstd::prelude::*;

verus! {

/// Classes of the main-thread stat card; it turns red while the main thread
/// is jammed.
pub fn main_stat_class(jammed: bool) -> (class: &'static str)
    ensures
        class@ == (if jammed {
            "px-2.5 py-2 rounded-md border bg-[#2a1414] border-[#5c1f1f]"@
        } else {
            "px-2.5 py-2 rounded-md border bg-[#161a26] border-[#262b3c]"@
        }),
{
    if jammed {
        "px-2.5 py-2 rounded-md border bg-[#2a1414] border-[#5c1f1f]"
    } else {
        "px-2.5 py-2 rounded-md border bg-[#161a26] border-[#262b3c]"
    }
}

/// Classes of the heartbeat counter; its digits turn red while jammed.
pub fn heartbeat_value_class(jammed: bool) -> (class: &'static str)
    ensures
        class@ == (if jammed {
            "text-[20px] tabular-nums text-[#ff8a8a]"@
        } else {
            "text-[20px] tabular-nums"@
        }),
{
    if jammed {
        "text-[20px] tabular-nums text-[#ff8a8a]"
    } else {
        "text-[20px] tabular-nums"
    }
}

/// Classes of the canvas; the cursor shows a closed hand while dragging.
pub fn canvas_class(grabbing: bool) -> (class: &'static str)
    ensures
        class@ == (if grabbing {
            "block w-full h-full touch-none cursor-grabbing"@
        } else {
            "block w-full h-full touch-none cursor-grab"@
        }),
{
    if grabbing {
        "block w-full h-full touch-none cursor-grabbing"
    } else {
        "block w-full h-full touch-none cursor-grab"
    }
}

} // verus!
