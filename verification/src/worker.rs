//! Worker offload: the closed set of device operations that cross from
//! the connection tasks to the single blocking worker thread, and the
//! worker's execution discipline. The queue and thread primitives live
//! outside the library; what is verified here is what each unit yields
//! and that a drained batch is answered one reply per unit, in
//! submission order.
use vstd::prelude::*;
use crate::camera::{
    CameraInfo, VerificationResult, cam_views, cam_list_of, placeholder_image,
    list_cameras, capture_thumbnail, verify_once,
};

verus! {

/// Depth of the bounded offload queue.
pub const WORKER_QUEUE_DEPTH: usize = 32;

/// The millisecond budget handed to each verification pass.
pub const VERIFY_BUDGET_MS: u64 = 2000;

/// One unit of work for the device thread.
pub enum WorkUnit {
    ListCameras,
    CaptureThumbnail(usize),
    VerifyOnce(u64),
}

/// The worker's answer to one unit.
pub enum WorkReply {
    Cameras(Vec<CameraInfo>),
    Image(Result<String, String>),
    Verify(Result<VerificationResult, String>),
}

/// The reply a unit must receive: a reply of the matching variant,
/// carrying what the device layer guarantees for that operation.
pub open spec fn reply_matches(unit: WorkUnit, r: WorkReply) -> bool {
    match unit {
        WorkUnit::ListCameras => r matches WorkReply::Cameras(cs)
            && exists|ps: Seq<Seq<char>>| cam_views(cs@) == cam_list_of(ps),
        WorkUnit::CaptureThumbnail(_) => r matches WorkReply::Image(img)
            && img matches Ok(s) && s@ == placeholder_image(),
        WorkUnit::VerifyOnce(_) => r matches WorkReply::Verify(v)
            && v matches Ok(res) && res.ok == true && res.reason is None,
    }
}

/// Executes one unit on the device layer and produces its single reply.
pub fn execute_work(unit: &WorkUnit) -> (r: WorkReply)
    ensures
        reply_matches(*unit, r),
{
    match unit {
        WorkUnit::ListCameras => WorkReply::Cameras(list_cameras()),
        WorkUnit::CaptureThumbnail(idx) => WorkReply::Image(capture_thumbnail(*idx)),
        WorkUnit::VerifyOnce(budget) => WorkReply::Verify(verify_once(*budget)),
    }
}

/// Serves a batch of units exactly as the worker thread serves its queue:
/// one reply per unit, and the reply at each position answers the unit
/// submitted at that position — units submitted earlier are answered
/// earlier.
pub fn drain_queue(units: &Vec<WorkUnit>) -> (rs: Vec<WorkReply>)
    ensures
        rs@.len() == units@.len(),
        forall|i: int| 0 <= i < units@.len() ==> reply_matches(units@[i], #[trigger] rs@[i]),
{
    let mut rs: Vec<WorkReply> = Vec::new();
    let mut i: usize = 0;
    while i < units.len()
        invariant
            0 <= i <= units@.len(),
            rs@.len() == i,
            forall|k: int| 0 <= k < i ==> reply_matches(units@[k], #[trigger] rs@[k]),
        decreases units@.len() - i,
    {
        let r = execute_work(&units[i]);
        rs.push(r);
        i += 1;
    }
    rs
}

} // verus!
