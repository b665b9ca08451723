//! The identity of a capture device.
use vstd::prelude::*;

verus! {

/// Names a device and its place in the operating system's list. Two values
/// with the same index refer to the same physical device.
#[derive(Clone, Debug)]
pub struct CameraInfo {
    pub human_name: String,
    pub description: String,
    pub misc: String,
    pub index: usize,
}

impl CameraInfo {
    pub fn new(human_name: String, description: String, misc: String, index: usize) -> (r: CameraInfo)
        ensures
            r.human_name == human_name,
            r.description == description,
            r.misc == misc,
            r.index == index,
    {
        CameraInfo { human_name, description, misc, index }
    }

    pub fn index(&self) -> (r: usize)
        ensures
            r == self.index,
    {
        self.index
    }

    /// Whether both values name the same physical device.
    pub fn same_device(&self, other: &CameraInfo) -> (r: bool)
        ensures
            r == (self.index == other.index),
    {
        self.index == other.index
    }
}

} // verus!
