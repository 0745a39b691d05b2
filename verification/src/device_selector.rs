//! Adapter selection: queue-family search, suitability filtering, scoring,
//! and the pick of the best candidate. Ties go to the earliest enumerated
//! adapter, deliberately, so a selection is reproducible run over run.

use vstd::prelude::*;

use crate::adapter::{DeviceType, GraphicsAdapter, QueueFamilyIndices, QueueFamilyProps};
use crate::GraphicsError;

verus! {

/// Name of the one device extension every candidate must advertise.
pub open spec fn swapchain_extension_name() -> Seq<char> {
    "VK_KHR_swapchain"@
}

/// Some queue family of `fams` accepts graphics submissions.
pub open spec fn has_graphics_family(fams: Seq<QueueFamilyProps>) -> bool {
    exists|j: int| 0 <= j < fams.len() && fams[j].graphics
}

/// Some queue family of `fams` can present to the surface.
pub open spec fn has_present_family(fams: Seq<QueueFamilyProps>) -> bool {
    exists|j: int| 0 <= j < fams.len() && fams[j].present
}

/// The advertised extension list carries the required swapchain extension.
pub open spec fn supports_required_extensions(exts: Seq<String>) -> bool {
    exists|j: int| 0 <= j < exts.len() && exts[j]@ == swapchain_extension_name()
}

/// Every suitability requirement at once: a graphics family, a present
/// family, the required extension set, and a surface that reports at least
/// one format and one present mode.
pub open spec fn spec_suitable(a: GraphicsAdapter) -> bool {
    &&& has_graphics_family(a.queue_families@)
    &&& has_present_family(a.queue_families@)
    &&& supports_required_extensions(a.extensions@)
    &&& a.surface.formats@.len() > 0
    &&& a.surface.present_modes@.len() > 0
}

/// Bonus granted to discrete adapters. It exceeds every possible image
/// dimension, so any discrete candidate outranks any non-discrete one.
pub const DISCRETE_BONUS: u64 = 0x1_0000_0000;

/// Score of a candidate: zero without geometry-shader support, otherwise the
/// discrete bonus plus the maximum image dimension.
pub open spec fn spec_score(a: GraphicsAdapter) -> int {
    if !a.geometry_shader {
        0
    } else if a.device_type is DiscreteGpu {
        DISCRETE_BONUS + a.max_image_dimension2d
    } else {
        a.max_image_dimension2d as int
    }
}

/// Index `i` names the adapter `select` must pick: suitable, of maximal
/// score, and earliest among the candidates sharing that score.
pub open spec fn is_selected_index(adapters: Seq<GraphicsAdapter>, i: int) -> bool {
    &&& 0 <= i < adapters.len()
    &&& spec_suitable(adapters[i])
    &&& forall|j: int|
        0 <= j < adapters.len() && spec_suitable(adapters[j]) ==> spec_score(adapters[j])
            <= spec_score(adapters[i])
    &&& forall|j: int|
        0 <= j < i && spec_suitable(adapters[j]) ==> spec_score(adapters[j]) < spec_score(
            adapters[i],
        )
}

/// Scans queue families in index order and records the first family offering
/// graphics and, independently, the first offering presentation. The scan
/// stops as soon as both roles are filled; first-wins recording makes the
/// result identical to a full scan.
pub fn find_queue_families(fams: &Vec<QueueFamilyProps>) -> (r: QueueFamilyIndices)
    requires
        fams@.len() <= 0xffff_ffff,
    ensures
        r.graphics_family is Some <==> has_graphics_family(fams@),
        r.present_family is Some <==> has_present_family(fams@),
        r.graphics_family matches Some(g) ==> g < fams@.len() && fams@[g as int].graphics
            && forall|j: int| 0 <= j < g ==> !fams@[j].graphics,
        r.present_family matches Some(p) ==> p < fams@.len() && fams@[p as int].present
            && forall|j: int| 0 <= j < p ==> !fams@[j].present,
{
    let mut indices = QueueFamilyIndices::default();
    let mut i: usize = 0;
    while i < fams.len() && !(indices.graphics_family.is_some()
        && indices.present_family.is_some())
        invariant
            i <= fams@.len() <= 0xffff_ffff,
            indices.graphics_family matches Some(g) ==> g < i && fams@[g as int].graphics
                && forall|j: int| 0 <= j < g ==> !fams@[j].graphics,
            indices.graphics_family is None ==> forall|j: int| 0 <= j < i ==> !fams@[j].graphics,
            indices.present_family matches Some(p) ==> p < i && fams@[p as int].present
                && forall|j: int| 0 <= j < p ==> !fams@[j].present,
            indices.present_family is None ==> forall|j: int| 0 <= j < i ==> !fams@[j].present,
        decreases fams@.len() - i,
    {
        if fams[i].graphics && indices.graphics_family.is_none() {
            indices.graphics_family = Some(i as u32);
        }
        if fams[i].present && indices.present_family.is_none() {
            indices.present_family = Some(i as u32);
        }
        i = i + 1;
    }
    indices
}

/// Checks the advertised extension names for the required swapchain
/// extension.
pub fn check_device_extension_support(exts: &Vec<String>) -> (r: bool)
    ensures
        r == supports_required_extensions(exts@),
{
    let required: String = String::from_str("VK_KHR_swapchain");
    let mut j: usize = 0;
    while j < exts.len()
        invariant
            j <= exts@.len(),
            required@ == swapchain_extension_name(),
            forall|k: int| 0 <= k < j ==> exts@[k]@ != swapchain_extension_name(),
        decreases exts@.len() - j,
    {
        if exts[j] == required {
            return true;
        }
        j = j + 1;
    }
    false
}

/// Decides whether one adapter satisfies every suitability requirement.
pub fn is_device_suitable(a: &GraphicsAdapter) -> (r: bool)
    requires
        a.queue_families@.len() <= 0xffff_ffff,
    ensures
        r == spec_suitable(*a),
{
    let indices = find_queue_families(&a.queue_families);
    let extensions_supported = check_device_extension_support(&a.extensions);
    let swap_chain_adequate = if extensions_supported {
        a.surface.formats.len() > 0 && a.surface.present_modes.len() > 0
    } else {
        false
    };
    indices.is_complete() && extensions_supported && swap_chain_adequate
}

/// Scores one adapter for ranking among the suitable candidates.
pub fn score_physical_device(a: &GraphicsAdapter) -> (r: u64)
    ensures
        r == spec_score(*a),
{
    if !a.geometry_shader {
        return 0;
    }
    let bonus: u64 = if matches!(a.device_type, DeviceType::DiscreteGpu) {
        DISCRETE_BONUS
    } else {
        0
    };
    bonus + (a.max_image_dimension2d as u64)
}

/// Picks the best suitable adapter, if any: maximal score, earliest on a tie.
pub fn select_physical_device(adapters: &Vec<GraphicsAdapter>) -> (r: Option<usize>)
    requires
        forall|j: int|
            0 <= j < adapters@.len() ==> #[trigger] adapters@[j].queue_families@.len()
                <= 0xffff_ffff,
    ensures
        r matches Some(i) ==> is_selected_index(adapters@, i as int),
        r is None ==> forall|j: int| 0 <= j < adapters@.len() ==> !spec_suitable(adapters@[j]),
        (exists|j: int| 0 <= j < adapters@.len() && spec_suitable(adapters@[j])) ==> r is Some,
{
    let mut best: Option<usize> = None;
    let mut best_score: u64 = 0;
    let mut i: usize = 0;
    while i < adapters.len()
        invariant
            i <= adapters@.len(),
            forall|j: int|
                0 <= j < adapters@.len() ==> #[trigger] adapters@[j].queue_families@.len()
                    <= 0xffff_ffff,
            best matches Some(b) ==> b < i && spec_suitable(adapters@[b as int]) && best_score
                == spec_score(adapters@[b as int]),
            best matches Some(b) ==> forall|j: int|
                0 <= j < i && spec_suitable(adapters@[j]) ==> spec_score(adapters@[j])
                    <= best_score,
            best matches Some(b) ==> forall|j: int|
                0 <= j < b && spec_suitable(adapters@[j]) ==> spec_score(adapters@[j]) < best_score,
            best is None ==> forall|j: int| 0 <= j < i ==> !spec_suitable(adapters@[j]),
        decreases adapters@.len() - i,
    {
        let a = &adapters[i];
        if is_device_suitable(a) {
            let score = score_physical_device(a);
            if best.is_none() || score > best_score {
                best = Some(i);
                best_score = score;
            }
        }
        i = i + 1;
    }
    best
}

/// Selects the adapter the context will use and the queue families it will
/// drive. Succeeds exactly when some candidate is suitable; the returned
/// assignment is then complete.
pub fn select(adapters: &Vec<GraphicsAdapter>) -> (r: Result<
    (usize, QueueFamilyIndices),
    GraphicsError,
>)
    requires
        forall|j: int|
            0 <= j < adapters@.len() ==> #[trigger] adapters@[j].queue_families@.len()
                <= 0xffff_ffff,
    ensures
        r matches Ok((i, qfi)) ==> is_selected_index(adapters@, i as int)
            && qfi.spec_is_complete(),
        r matches Err(e) ==> e == GraphicsError::NoSuitableAdapter && forall|j: int|
            0 <= j < adapters@.len() ==> !spec_suitable(adapters@[j]),
        (exists|j: int| 0 <= j < adapters@.len() && spec_suitable(adapters@[j])) <==> r is Ok,
{
    match select_physical_device(adapters) {
        Some(i) => {
            let indices = find_queue_families(&adapters[i].queue_families);
            Ok((i, indices))
        },
        None => Err(GraphicsError::NoSuitableAdapter),
    }
}

} // verus!
