//! The route by which camera pixels reach the projection shader, and the
//! marker text that names it.
use vstd::prelude::*;
use crate::text::{chars_equal, normalize_word, normalized_word};

verus! {

/// How camera frames reach the projection shader.
#[derive(Clone, Copy, Debug, PartialEq, Eq, Structural)]
pub enum MakepadCameraTexturePath {
    /// Direct Camera2 frames uploaded from the CPU as Y, U and V planes.
    DirectCpuYuvPlane,
    /// Direct Camera2 hardware buffers sampled through an external texture.
    DirectHardwareBufferExternal,
    /// Direct Camera2 hardware buffers imported as Y, U and V planes.
    DirectHardwareBufferYuvPlane,
    /// Broker H.264 frames decoded on the CPU and uploaded as YUV planes.
    BrokerH264CpuYuv,
    /// Broker H.264 frames decoded into hardware buffers.
    BrokerH264HardwareBuffer,
    /// Broker H.264 frames decoded into an Android surface texture.
    BrokerH264SurfaceTexture,
}

impl MakepadCameraTexturePath {
    /// The stable marker id of the path.
    pub open spec fn stable_id_spec(self) -> Seq<char> {
        match self {
            MakepadCameraTexturePath::DirectCpuYuvPlane => "direct-camera-cpu-yuv-plane"@,
            MakepadCameraTexturePath::DirectHardwareBufferExternal => "direct-camera-hardware-buffer-external"@,
            MakepadCameraTexturePath::DirectHardwareBufferYuvPlane => "direct-camera-hardware-buffer-yuv-plane"@,
            MakepadCameraTexturePath::BrokerH264CpuYuv => "broker-h264-cpu-yuv"@,
            MakepadCameraTexturePath::BrokerH264HardwareBuffer => "broker-h264-hardware-buffer"@,
            MakepadCameraTexturePath::BrokerH264SurfaceTexture => "broker-h264-surface-texture"@,
        }
    }

    /// The stable marker id of the path.
    pub fn stable_id(&self) -> (id: &'static str)
        ensures
            id@ == self.stable_id_spec(),
    {
        match self {
            MakepadCameraTexturePath::DirectCpuYuvPlane => "direct-camera-cpu-yuv-plane",
            MakepadCameraTexturePath::DirectHardwareBufferExternal => "direct-camera-hardware-buffer-external",
            MakepadCameraTexturePath::DirectHardwareBufferYuvPlane => "direct-camera-hardware-buffer-yuv-plane",
            MakepadCameraTexturePath::BrokerH264CpuYuv => "broker-h264-cpu-yuv",
            MakepadCameraTexturePath::BrokerH264HardwareBuffer => "broker-h264-hardware-buffer",
            MakepadCameraTexturePath::BrokerH264SurfaceTexture => "broker-h264-surface-texture",
        }
    }

    /// Whether the shader samples separate Y, U and V planes on this path.
    pub open spec fn yuv_sampling_spec(self) -> bool {
        match self {
            MakepadCameraTexturePath::DirectCpuYuvPlane => true,
            MakepadCameraTexturePath::DirectHardwareBufferYuvPlane => true,
            MakepadCameraTexturePath::BrokerH264CpuYuv => true,
            _ => false,
        }
    }

    /// Whether the shader samples separate Y, U and V planes on this path.
    pub fn yuv_sampling_enabled(&self) -> (r: bool)
        ensures
            r == self.yuv_sampling_spec(),
    {
        match self {
            MakepadCameraTexturePath::DirectCpuYuvPlane => true,
            MakepadCameraTexturePath::DirectHardwareBufferYuvPlane => true,
            MakepadCameraTexturePath::BrokerH264CpuYuv => true,
            _ => false,
        }
    }

    /// The color conversion the shader applies on this path.
    pub open spec fn color_conversion_spec(self) -> Seq<char> {
        if self.yuv_sampling_spec() {
            "per-eye-yuv-noswap-limited-bt601"@
        } else {
            "external-sampler-driver-yuv-to-rgb"@
        }
    }

    /// The color conversion the shader applies on this path.
    pub fn color_conversion(&self) -> (r: &'static str)
        ensures
            r@ == self.color_conversion_spec(),
    {
        if self.yuv_sampling_enabled() {
            "per-eye-yuv-noswap-limited-bt601"
        } else {
            "external-sampler-driver-yuv-to-rgb"
        }
    }

    /// The reference that the color conversion follows on this path.
    pub open spec fn color_reference_spec(self) -> Seq<char> {
        if self.yuv_sampling_spec() {
            "android-yuv420-888-plane-order"@
        } else {
            "android-external-oes-sampler"@
        }
    }

    /// The reference that the color conversion follows on this path.
    pub fn color_reference(&self) -> (r: &'static str)
        ensures
            r@ == self.color_reference_spec(),
    {
        if self.yuv_sampling_enabled() {
            "android-yuv420-888-plane-order"
        } else {
            "android-external-oes-sampler"
        }
    }

    /// The CPU upload route of the path, `none` when frames stay on the GPU.
    pub open spec fn cpu_upload_path_spec(self) -> Seq<char> {
        match self {
            MakepadCameraTexturePath::DirectCpuYuvPlane => "makepad-camera-cpu-yuv-plane"@,
            MakepadCameraTexturePath::BrokerH264CpuYuv => "makepad-camera-cpu-yuv-plane"@,
            _ => "none"@,
        }
    }

    /// The marker fields that name the path.
    pub open spec fn marker_fields_spec(self) -> Seq<char> {
        "cameraTexturePath="@ + self.stable_id_spec() + " cpuUploadPath="@
            + self.cpu_upload_path_spec()
    }

    /// The marker fields that name the path.
    pub fn marker_fields(&self) -> (r: String)
        ensures
            r@ == self.marker_fields_spec(),
    {
        let mut out = String::from_str("cameraTexturePath=");
        out.append(self.stable_id());
        out.append(" cpuUploadPath=");
        match self {
            MakepadCameraTexturePath::DirectCpuYuvPlane => out.append("makepad-camera-cpu-yuv-plane"),
            MakepadCameraTexturePath::BrokerH264CpuYuv => out.append("makepad-camera-cpu-yuv-plane"),
            _ => out.append("none"),
        }
        out
    }
}


/// The texture path a broker H.264 decode output mode asks for: hardware
/// buffers, a surface texture, or (for anything else) CPU YUV planes. The
/// mode is read trimmed, in lower case and with `_` for `-`.
pub open spec fn broker_h264_requested_texture_path_spec(decode_output_mode: Seq<char>) -> MakepadCameraTexturePath {
    let m = normalized_word(decode_output_mode);
    if m == "hardware-buffer"@ || m == "hwb"@ || m == "image-reader"@ || m == "imagereader"@ {
        MakepadCameraTexturePath::BrokerH264HardwareBuffer
    } else if m == "surface-texture"@ || m == "surfacetexture"@ || m == "external-oes"@ || m == "oes"@
        || m == "surface"@ {
        MakepadCameraTexturePath::BrokerH264SurfaceTexture
    } else {
        MakepadCameraTexturePath::BrokerH264CpuYuv
    }
}

/// The texture path a broker H.264 decode output mode asks for.
pub fn broker_h264_requested_texture_path(decode_output_mode: &str) -> (path: MakepadCameraTexturePath)
    ensures
        path == broker_h264_requested_texture_path_spec(decode_output_mode@),
{
    let m = normalize_word(decode_output_mode);
    if chars_equal(&m, "hardware-buffer") || chars_equal(&m, "hwb") || chars_equal(&m, "image-reader")
        || chars_equal(&m, "imagereader") {
        MakepadCameraTexturePath::BrokerH264HardwareBuffer
    } else if chars_equal(&m, "surface-texture") || chars_equal(&m, "surfacetexture") || chars_equal(
        &m,
        "external-oes",
    ) || chars_equal(&m, "oes") || chars_equal(&m, "surface") {
        MakepadCameraTexturePath::BrokerH264SurfaceTexture
    } else {
        MakepadCameraTexturePath::BrokerH264CpuYuv
    }
}

} // verus!
