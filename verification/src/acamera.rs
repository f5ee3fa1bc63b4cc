//! Handles and constants of the Android Camera2 NDK that the camera probe
//! works with. The handle types are opaque: values of them only ever exist
//! behind pointers that the NDK hands out.
use vstd::prelude::*;

verus! {

/// The Camera2 manager handle.
#[derive(Debug, Clone, Copy)]
pub struct ACameraManager {
    _unused: [u8; 0],
}

/// A camera characteristics handle.
#[derive(Debug, Clone, Copy)]
pub struct ACameraMetadata {
    _unused: [u8; 0],
}

/// An open camera device handle.
#[derive(Debug, Clone, Copy)]
pub struct ACameraDevice {
    _unused: [u8; 0],
}

/// A capture request handle.
#[derive(Debug, Clone, Copy)]
pub struct ACaptureRequest {
    _unused: [u8; 0],
}

/// A capture session output handle.
#[derive(Debug, Clone, Copy)]
pub struct ACaptureSessionOutput {
    _unused: [u8; 0],
}

/// A container of capture session outputs.
#[derive(Debug, Clone, Copy)]
pub struct ACaptureSessionOutputContainer {
    _unused: [u8; 0],
}

/// An image reader handle.
#[derive(Debug, Clone, Copy)]
pub struct AImageReader {
    _unused: [u8; 0],
}

/// A camera output target handle.
#[derive(Debug, Clone, Copy)]
pub struct ACameraOutputTarget {
    _unused: [u8; 0],
}

/// A capture session handle.
#[derive(Debug, Clone, Copy)]
pub struct ACameraCaptureSession {
    _unused: [u8; 0],
}

/// An acquired image handle.
#[derive(Debug, Clone, Copy)]
pub struct AImage {
    _unused: [u8; 0],
}

pub const ACAMERA_LENS_FACING: u32 = 524293;
pub const ACAMERA_LENS_POSE_ROTATION: u32 = 524294;
pub const ACAMERA_LENS_POSE_TRANSLATION: u32 = 524295;
pub const ACAMERA_LENS_INTRINSIC_CALIBRATION: u32 = 524298;
pub const ACAMERA_LENS_POSE_REFERENCE: u32 = 524300;
pub const ACAMERA_SENSOR_ORIENTATION: u32 = 393217;
pub const ACAMERA_REQUEST_AVAILABLE_CAPABILITIES: u32 = 786444;
pub const ACAMERA_SENSOR_INFO_ACTIVE_ARRAY_SIZE: u32 = 983040;
pub const ACAMERA_SENSOR_INFO_PIXEL_ARRAY_SIZE: u32 = 983046;
pub const ACAMERA_SCALER_AVAILABLE_STREAM_CONFIGURATIONS: u32 = 851978;
pub const ACAMERA_LOGICAL_MULTI_CAMERA_PHYSICAL_IDS: u32 = 1703936;
pub const ACAMERA_LOGICAL_MULTI_CAMERA_SENSOR_SYNC_TYPE: u32 = 1703937;

pub const ACAMERA_LENS_FACING_FRONT: u8 = 0;
pub const ACAMERA_LENS_FACING_BACK: u8 = 1;
pub const ACAMERA_LENS_FACING_EXTERNAL: u8 = 2;
pub const ACAMERA_REQUEST_AVAILABLE_CAPABILITIES_LOGICAL_MULTI_CAMERA: u8 = 11;

pub const AIMAGE_FORMAT_PRIVATE: u32 = 0x22;
pub const AHARDWAREBUFFER_USAGE_GPU_SAMPLED_IMAGE: u64 = 256;

} // verus!
