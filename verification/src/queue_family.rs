//! Queue-family selection.
//!
//! Construction picks three queue families from what the device
//! offers: the main (graphics) family, a present-capable family and
//! a transfer family.  A device without a graphics-capable or
//! without a present-capable family is rejected.  The transfer
//! choice prefers a dedicated transfer-only family but deliberately
//! falls back to the main family when the device has none — a
//! load-bearing fallback on GPUs without a dedicated transfer queue.

use vstd::prelude::*;

use crate::error::RenderError;

verus! {

/// What one queue family of a device offers.
#[derive(Clone, Copy, PartialEq, Eq, Structural, Debug)]
pub struct QueueFamilyDesc {
    /// The family accepts graphics work.
    pub graphics: bool,
    /// The family accepts compute work.
    pub compute: bool,
    /// The family accepts transfer work.
    pub transfer: bool,
    /// The family can present to the target surface.
    pub present_support: bool,
}

/// The chosen queue family indices.
#[derive(Clone, Copy, PartialEq, Eq, Structural, Debug)]
pub struct QueueFamilyInfo {
    pub main: u32,
    pub present: u32,
    pub transfer: u32,
}

/// A family fit to serve as the dedicated transfer family: transfer
/// without graphics or compute.
pub open spec fn is_dedicated_transfer(f: QueueFamilyDesc) -> bool {
    f.transfer && !f.graphics && !f.compute
}

/// Pick the main, present and transfer families from the device's
/// family list.
///
/// The main family is the first graphics-capable one.  The present
/// family is the main family if it can present, otherwise the first
/// present-capable one.  The transfer family is the first dedicated
/// transfer family, or the main family if none exists.  Selection
/// fails exactly when no family is graphics-capable or none can
/// present.
pub fn select_queue_families(families: &Vec<QueueFamilyDesc>) -> (r: Result<
    QueueFamilyInfo,
    RenderError,
>)
    requires
        families@.len() <= u32::MAX,
    ensures
        r is Ok <==> (exists|i: int| 0 <= i < families@.len() && (#[trigger] families@[i]).graphics)
            && (exists|i: int|
            0 <= i < families@.len() && (#[trigger] families@[i]).present_support),
        match r {
            Ok(q) => {
                &&& 0 <= q.main < families@.len()
                &&& families@[q.main as int].graphics
                &&& forall|j: int| 0 <= j < q.main ==> !(#[trigger] families@[j]).graphics
                &&& 0 <= q.present < families@.len()
                &&& families@[q.present as int].present_support
                &&& if families@[q.main as int].present_support {
                    q.present == q.main
                } else {
                    forall|j: int| 0 <= j < q.present ==> !(#[trigger] families@[j]).present_support
                }
                &&& if exists|i: int|
                    0 <= i < families@.len() && is_dedicated_transfer(#[trigger] families@[i]) {
                    &&& 0 <= q.transfer < families@.len()
                    &&& is_dedicated_transfer(families@[q.transfer as int])
                    &&& forall|j: int|
                        0 <= j < q.transfer ==> !is_dedicated_transfer(#[trigger] families@[j])
                } else {
                    q.transfer == q.main
                }
            },
            Err(e) => e == RenderError::MissingQueueFamily,
        },
{
    let n = families.len();
    let mut main_idx: usize = 0;
    while main_idx < n && !families[main_idx].graphics
        invariant
            n == families@.len(),
            main_idx <= n,
            forall|j: int| 0 <= j < main_idx ==> !(#[trigger] families@[j]).graphics,
        decreases n - main_idx,
    {
        main_idx = main_idx + 1;
    }
    if main_idx == n {
        return Err(RenderError::MissingQueueFamily);
    }
    let mut present_idx: usize = 0;
    while present_idx < n && !families[present_idx].present_support
        invariant
            n == families@.len(),
            present_idx <= n,
            forall|j: int| 0 <= j < present_idx ==> !(#[trigger] families@[j]).present_support,
        decreases n - present_idx,
    {
        present_idx = present_idx + 1;
    }
    if present_idx == n {
        return Err(RenderError::MissingQueueFamily);
    }
    let present = if families[main_idx].present_support {
        main_idx
    } else {
        present_idx
    };
    let mut transfer_idx: usize = 0;
    while transfer_idx < n && !(families[transfer_idx].transfer && !families[transfer_idx].graphics
        && !families[transfer_idx].compute)
        invariant
            n == families@.len(),
            transfer_idx <= n,
            forall|j: int|
                0 <= j < transfer_idx ==> !is_dedicated_transfer(#[trigger] families@[j]),
        decreases n - transfer_idx,
    {
        transfer_idx = transfer_idx + 1;
    }
    let transfer = if transfer_idx == n {
        main_idx
    } else {
        transfer_idx
    };
    Ok(
        QueueFamilyInfo {
            main: main_idx as u32,
            present: present as u32,
            transfer: transfer as u32,
        },
    )
}

} // verus!
