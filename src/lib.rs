use vstd::prelude::*;

pub mod frame;
pub mod frame_loop;
pub mod keypoints;
pub mod letterbox;
pub mod skeleton;

verus! {

} // verus!
