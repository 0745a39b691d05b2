//! Logical-device planning: the deduplicated queue-creation requests derived
//! from a queue-family assignment, and the check that device creation handed
//! back usable queue handles.

use vstd::prelude::*;

use crate::adapter::QueueFamilyIndices;
use crate::GraphicsError;

verus! {

/// The created device and the two queue handles retrieved from it. All
/// device-side objects the context builds later are owned through this
/// handle and must be destroyed before it.
#[derive(Clone, Copy, Debug, PartialEq, Eq, Structural)]
pub struct LogicalDeviceHandle {
    pub device: u64,
    pub graphics_queue: u64,
    pub present_queue: u64,
}

impl LogicalDeviceHandle {
    /// A usable handle holds no null handle anywhere.
    pub open spec fn wf(self) -> bool {
        self.device != 0 && self.graphics_queue != 0 && self.present_queue != 0
    }
}

/// The queue-creation requests for a complete assignment: one entry per
/// unique family index, the graphics family first, the present family after
/// it only when it differs.
pub fn unique_queue_families(indices: &QueueFamilyIndices) -> (r: Vec<u32>)
    requires
        indices.spec_is_complete(),
    ensures
        indices.graphics_family matches Some(g) ==> (indices.present_family matches Some(p) ==> (
        if g == p {
            r@ =~= seq![g]
        } else {
            r@ =~= seq![g, p]
        })),
{
    let g = match indices.graphics_family {
        Some(g) => g,
        None => 0,
    };
    let p = match indices.present_family {
        Some(p) => p,
        None => 0,
    };
    let mut families: Vec<u32> = Vec::new();
    families.push(g);
    if p != g {
        families.push(p);
    }
    families
}

/// Accepts the raw results of device creation and queue retrieval: success
/// demands a real device and two non-null queues, exactly as the factory
/// contract requires.
pub fn device_from_queues(device: u64, graphics_queue: u64, present_queue: u64) -> (r: Result<
    LogicalDeviceHandle,
    GraphicsError,
>)
    ensures
        r is Ok <==> device != 0 && graphics_queue != 0 && present_queue != 0,
        r matches Ok(h) ==> h == (LogicalDeviceHandle { device, graphics_queue, present_queue })
            && h.wf(),
        r matches Err(e) ==> e == GraphicsError::DeviceCreationFailed,
{
    if device == 0 || graphics_queue == 0 || present_queue == 0 {
        return Err(GraphicsError::DeviceCreationFailed);
    }
    Ok(LogicalDeviceHandle { device, graphics_queue, present_queue })
}

} // verus!
