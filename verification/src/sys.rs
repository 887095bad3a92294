//! The raw side of the hardware API as plain values: the numeric codes, the
//! bit masks and the records of the wire format, field for field. Where the
//! wire format holds a pointer and a count, a record here holds the list.
#![allow(non_snake_case)]
#![allow(non_camel_case_types)]

use vstd::prelude::*;

verus! {

/// Tag that the loader expects at the start of every dispatchable record.
pub const ICD_LOADER_MAGIC: usize = 0x01CDC0DE;

/// A 32-bit boolean of the wire format.
pub type VkBool32 = u32;

/// A device size or offset of the wire format.
pub type VkDeviceSize = u64;

/// A bit mask of the wire format.
pub type VkFlags = u32;

/// The raw encoding of `true`.
pub const VK_TRUE: u32 = 1;

/// The raw encoding of `false`.
pub const VK_FALSE: u32 = 0;

/// Outcome of a command, as the caller sees it.
#[derive(Clone, Copy, PartialEq, Eq, Debug, Structural)]
pub enum VkResult {
    /// The command completed.
    VK_SUCCESS,
    /// A fence or query has not completed yet.
    VK_NOT_READY,
    /// A wait ran out of time.
    VK_TIMEOUT,
    /// An event is signaled.
    VK_EVENT_SET,
    /// An event is unsignaled.
    VK_EVENT_RESET,
    /// The output buffer was too small for every item.
    VK_INCOMPLETE,
    /// A host memory allocation failed.
    VK_ERROR_OUT_OF_HOST_MEMORY,
    /// A device memory allocation failed.
    VK_ERROR_OUT_OF_DEVICE_MEMORY,
    /// An object could not be initialised.
    VK_ERROR_INITIALIZATION_FAILED,
    /// The device was lost.
    VK_ERROR_DEVICE_LOST,
    /// Mapping a memory object failed.
    VK_ERROR_MEMORY_MAP_FAILED,
    /// A requested layer is missing.
    VK_ERROR_LAYER_NOT_PRESENT,
    /// A requested extension is missing.
    VK_ERROR_EXTENSION_NOT_PRESENT,
    /// A requested feature is missing.
    VK_ERROR_FEATURE_NOT_PRESENT,
    /// The driver does not serve the requested version.
    VK_ERROR_INCOMPATIBLE_DRIVER,
    /// Too many objects of one kind exist.
    VK_ERROR_TOO_MANY_OBJECTS,
    /// The format is not supported.
    VK_ERROR_FORMAT_NOT_SUPPORTED,
}

impl VkResult {
    /// The small integer that stands for this outcome on the wire.
    pub open spec fn spec_code(self) -> i32 {
        match self {
            VkResult::VK_SUCCESS => 0i32,
            VkResult::VK_NOT_READY => 1i32,
            VkResult::VK_TIMEOUT => 2i32,
            VkResult::VK_EVENT_SET => 3i32,
            VkResult::VK_EVENT_RESET => 4i32,
            VkResult::VK_INCOMPLETE => 5i32,
            VkResult::VK_ERROR_OUT_OF_HOST_MEMORY => -1i32,
            VkResult::VK_ERROR_OUT_OF_DEVICE_MEMORY => -2i32,
            VkResult::VK_ERROR_INITIALIZATION_FAILED => -3i32,
            VkResult::VK_ERROR_DEVICE_LOST => -4i32,
            VkResult::VK_ERROR_MEMORY_MAP_FAILED => -5i32,
            VkResult::VK_ERROR_LAYER_NOT_PRESENT => -6i32,
            VkResult::VK_ERROR_EXTENSION_NOT_PRESENT => -7i32,
            VkResult::VK_ERROR_FEATURE_NOT_PRESENT => -8i32,
            VkResult::VK_ERROR_INCOMPATIBLE_DRIVER => -9i32,
            VkResult::VK_ERROR_TOO_MANY_OBJECTS => -10i32,
            VkResult::VK_ERROR_FORMAT_NOT_SUPPORTED => -11i32,
        }
    }

    /// The outcome that a wire integer stands for, if it stands for one.
    pub open spec fn spec_from_code(code: i32) -> Option<VkResult> {
        if code == 0i32 {
            Some(VkResult::VK_SUCCESS)
        } else if code == 1i32 {
            Some(VkResult::VK_NOT_READY)
        } else if code == 2i32 {
            Some(VkResult::VK_TIMEOUT)
        } else if code == 3i32 {
            Some(VkResult::VK_EVENT_SET)
        } else if code == 4i32 {
            Some(VkResult::VK_EVENT_RESET)
        } else if code == 5i32 {
            Some(VkResult::VK_INCOMPLETE)
        } else if code == -1i32 {
            Some(VkResult::VK_ERROR_OUT_OF_HOST_MEMORY)
        } else if code == -2i32 {
            Some(VkResult::VK_ERROR_OUT_OF_DEVICE_MEMORY)
        } else if code == -3i32 {
            Some(VkResult::VK_ERROR_INITIALIZATION_FAILED)
        } else if code == -4i32 {
            Some(VkResult::VK_ERROR_DEVICE_LOST)
        } else if code == -5i32 {
            Some(VkResult::VK_ERROR_MEMORY_MAP_FAILED)
        } else if code == -6i32 {
            Some(VkResult::VK_ERROR_LAYER_NOT_PRESENT)
        } else if code == -7i32 {
            Some(VkResult::VK_ERROR_EXTENSION_NOT_PRESENT)
        } else if code == -8i32 {
            Some(VkResult::VK_ERROR_FEATURE_NOT_PRESENT)
        } else if code == -9i32 {
            Some(VkResult::VK_ERROR_INCOMPATIBLE_DRIVER)
        } else if code == -10i32 {
            Some(VkResult::VK_ERROR_TOO_MANY_OBJECTS)
        } else if code == -11i32 {
            Some(VkResult::VK_ERROR_FORMAT_NOT_SUPPORTED)
        } else {
            None
        }
    }

    /// Encodes the outcome as its wire integer.
    #[verifier::when_used_as_spec(spec_code)]
    pub fn code(self) -> (r: i32)
        ensures
            r == self.spec_code(),
    {
        match self {
            VkResult::VK_SUCCESS => 0i32,
            VkResult::VK_NOT_READY => 1i32,
            VkResult::VK_TIMEOUT => 2i32,
            VkResult::VK_EVENT_SET => 3i32,
            VkResult::VK_EVENT_RESET => 4i32,
            VkResult::VK_INCOMPLETE => 5i32,
            VkResult::VK_ERROR_OUT_OF_HOST_MEMORY => -1i32,
            VkResult::VK_ERROR_OUT_OF_DEVICE_MEMORY => -2i32,
            VkResult::VK_ERROR_INITIALIZATION_FAILED => -3i32,
            VkResult::VK_ERROR_DEVICE_LOST => -4i32,
            VkResult::VK_ERROR_MEMORY_MAP_FAILED => -5i32,
            VkResult::VK_ERROR_LAYER_NOT_PRESENT => -6i32,
            VkResult::VK_ERROR_EXTENSION_NOT_PRESENT => -7i32,
            VkResult::VK_ERROR_FEATURE_NOT_PRESENT => -8i32,
            VkResult::VK_ERROR_INCOMPATIBLE_DRIVER => -9i32,
            VkResult::VK_ERROR_TOO_MANY_OBJECTS => -10i32,
            VkResult::VK_ERROR_FORMAT_NOT_SUPPORTED => -11i32,
        }
    }

    /// Decodes a wire integer; `None` for an integer that names no outcome.
    #[verifier::when_used_as_spec(spec_from_code)]
    pub fn from_code(code: i32) -> (r: Option<VkResult>)
        ensures
            r == VkResult::spec_from_code(code),
    {
        if code == 0i32 {
            Some(VkResult::VK_SUCCESS)
        } else if code == 1i32 {
            Some(VkResult::VK_NOT_READY)
        } else if code == 2i32 {
            Some(VkResult::VK_TIMEOUT)
        } else if code == 3i32 {
            Some(VkResult::VK_EVENT_SET)
        } else if code == 4i32 {
            Some(VkResult::VK_EVENT_RESET)
        } else if code == 5i32 {
            Some(VkResult::VK_INCOMPLETE)
        } else if code == -1i32 {
            Some(VkResult::VK_ERROR_OUT_OF_HOST_MEMORY)
        } else if code == -2i32 {
            Some(VkResult::VK_ERROR_OUT_OF_DEVICE_MEMORY)
        } else if code == -3i32 {
            Some(VkResult::VK_ERROR_INITIALIZATION_FAILED)
        } else if code == -4i32 {
            Some(VkResult::VK_ERROR_DEVICE_LOST)
        } else if code == -5i32 {
            Some(VkResult::VK_ERROR_MEMORY_MAP_FAILED)
        } else if code == -6i32 {
            Some(VkResult::VK_ERROR_LAYER_NOT_PRESENT)
        } else if code == -7i32 {
            Some(VkResult::VK_ERROR_EXTENSION_NOT_PRESENT)
        } else if code == -8i32 {
            Some(VkResult::VK_ERROR_FEATURE_NOT_PRESENT)
        } else if code == -9i32 {
            Some(VkResult::VK_ERROR_INCOMPATIBLE_DRIVER)
        } else if code == -10i32 {
            Some(VkResult::VK_ERROR_TOO_MANY_OBJECTS)
        } else if code == -11i32 {
            Some(VkResult::VK_ERROR_FORMAT_NOT_SUPPORTED)
        } else {
            None
        }
    }

    /// Decoding the wire integer of an outcome gives that outcome back, so no
    /// two outcomes share an integer.
    pub proof fn lemma_code_round_trip(r: VkResult)
        ensures
            VkResult::spec_from_code(r.spec_code()) == Some(r),
    {
    }

    /// An integer that decodes to an outcome is that outcome's wire integer.
    pub proof fn lemma_from_code_round_trip(code: i32)
        ensures
            VkResult::spec_from_code(code) matches Some(r) ==> r.spec_code() == code,
    {
    }
}

/// A raw format code. Every 32-bit value is representable; the named
/// constants below are the codes that the format table knows.
#[derive(Clone, Copy, PartialEq, Eq, Debug, Structural)]
pub struct VkFormat(pub i32);

/// One more than the largest raw format code that has a name.
pub const VK_FORMAT_NAMED_END: i32 = 185;

pub const VK_FORMAT_UNDEFINED: i32 = 0;
pub const VK_FORMAT_R4G4_UNORM_PACK8: i32 = 1;
pub const VK_FORMAT_R4G4B4A4_UNORM_PACK16: i32 = 2;
pub const VK_FORMAT_B4G4R4A4_UNORM_PACK16: i32 = 3;
pub const VK_FORMAT_R5G6B5_UNORM_PACK16: i32 = 4;
pub const VK_FORMAT_B5G6R5_UNORM_PACK16: i32 = 5;
pub const VK_FORMAT_R5G5B5A1_UNORM_PACK16: i32 = 6;
pub const VK_FORMAT_B5G5R5A1_UNORM_PACK16: i32 = 7;
pub const VK_FORMAT_A1R5G5B5_UNORM_PACK16: i32 = 8;
pub const VK_FORMAT_R8_UNORM: i32 = 9;
pub const VK_FORMAT_R8_SNORM: i32 = 10;
pub const VK_FORMAT_R8_USCALED: i32 = 11;
pub const VK_FORMAT_R8_SSCALED: i32 = 12;
pub const VK_FORMAT_R8_UINT: i32 = 13;
pub const VK_FORMAT_R8_SINT: i32 = 14;
pub const VK_FORMAT_R8_SRGB: i32 = 15;
pub const VK_FORMAT_R8G8_UNORM: i32 = 16;
pub const VK_FORMAT_R8G8_SNORM: i32 = 17;
pub const VK_FORMAT_R8G8_USCALED: i32 = 18;
pub const VK_FORMAT_R8G8_SSCALED: i32 = 19;
pub const VK_FORMAT_R8G8_UINT: i32 = 20;
pub const VK_FORMAT_R8G8_SINT: i32 = 21;
pub const VK_FORMAT_R8G8_SRGB: i32 = 22;
pub const VK_FORMAT_R8G8B8_UNORM: i32 = 23;
pub const VK_FORMAT_R8G8B8_SNORM: i32 = 24;
pub const VK_FORMAT_R8G8B8_USCALED: i32 = 25;
pub const VK_FORMAT_R8G8B8_SSCALED: i32 = 26;
pub const VK_FORMAT_R8G8B8_UINT: i32 = 27;
pub const VK_FORMAT_R8G8B8_SINT: i32 = 28;
pub const VK_FORMAT_R8G8B8_SRGB: i32 = 29;
pub const VK_FORMAT_B8G8R8_UNORM: i32 = 30;
pub const VK_FORMAT_B8G8R8_SNORM: i32 = 31;
pub const VK_FORMAT_B8G8R8_USCALED: i32 = 32;
pub const VK_FORMAT_B8G8R8_SSCALED: i32 = 33;
pub const VK_FORMAT_B8G8R8_UINT: i32 = 34;
pub const VK_FORMAT_B8G8R8_SINT: i32 = 35;
pub const VK_FORMAT_B8G8R8_SRGB: i32 = 36;
pub const VK_FORMAT_R8G8B8A8_UNORM: i32 = 37;
pub const VK_FORMAT_R8G8B8A8_SNORM: i32 = 38;
pub const VK_FORMAT_R8G8B8A8_USCALED: i32 = 39;
pub const VK_FORMAT_R8G8B8A8_SSCALED: i32 = 40;
pub const VK_FORMAT_R8G8B8A8_UINT: i32 = 41;
pub const VK_FORMAT_R8G8B8A8_SINT: i32 = 42;
pub const VK_FORMAT_R8G8B8A8_SRGB: i32 = 43;
pub const VK_FORMAT_B8G8R8A8_UNORM: i32 = 44;
pub const VK_FORMAT_B8G8R8A8_SNORM: i32 = 45;
pub const VK_FORMAT_B8G8R8A8_USCALED: i32 = 46;
pub const VK_FORMAT_B8G8R8A8_SSCALED: i32 = 47;
pub const VK_FORMAT_B8G8R8A8_UINT: i32 = 48;
pub const VK_FORMAT_B8G8R8A8_SINT: i32 = 49;
pub const VK_FORMAT_B8G8R8A8_SRGB: i32 = 50;
pub const VK_FORMAT_A8B8G8R8_UNORM_PACK32: i32 = 51;
pub const VK_FORMAT_A8B8G8R8_SNORM_PACK32: i32 = 52;
pub const VK_FORMAT_A8B8G8R8_USCALED_PACK32: i32 = 53;
pub const VK_FORMAT_A8B8G8R8_SSCALED_PACK32: i32 = 54;
pub const VK_FORMAT_A8B8G8R8_UINT_PACK32: i32 = 55;
pub const VK_FORMAT_A8B8G8R8_SINT_PACK32: i32 = 56;
pub const VK_FORMAT_A8B8G8R8_SRGB_PACK32: i32 = 57;
pub const VK_FORMAT_A2R10G10B10_UNORM_PACK32: i32 = 58;
pub const VK_FORMAT_A2R10G10B10_SNORM_PACK32: i32 = 59;
pub const VK_FORMAT_A2R10G10B10_USCALED_PACK32: i32 = 60;
pub const VK_FORMAT_A2R10G10B10_SSCALED_PACK32: i32 = 61;
pub const VK_FORMAT_A2R10G10B10_UINT_PACK32: i32 = 62;
pub const VK_FORMAT_A2R10G10B10_SINT_PACK32: i32 = 63;
pub const VK_FORMAT_A2B10G10R10_UNORM_PACK32: i32 = 64;
pub const VK_FORMAT_A2B10G10R10_SNORM_PACK32: i32 = 65;
pub const VK_FORMAT_A2B10G10R10_USCALED_PACK32: i32 = 66;
pub const VK_FORMAT_A2B10G10R10_SSCALED_PACK32: i32 = 67;
pub const VK_FORMAT_A2B10G10R10_UINT_PACK32: i32 = 68;
pub const VK_FORMAT_A2B10G10R10_SINT_PACK32: i32 = 69;
pub const VK_FORMAT_R16_UNORM: i32 = 70;
pub const VK_FORMAT_R16_SNORM: i32 = 71;
pub const VK_FORMAT_R16_USCALED: i32 = 72;
pub const VK_FORMAT_R16_SSCALED: i32 = 73;
pub const VK_FORMAT_R16_UINT: i32 = 74;
pub const VK_FORMAT_R16_SINT: i32 = 75;
pub const VK_FORMAT_R16_SFLOAT: i32 = 76;
pub const VK_FORMAT_R16G16_UNORM: i32 = 77;
pub const VK_FORMAT_R16G16_SNORM: i32 = 78;
pub const VK_FORMAT_R16G16_USCALED: i32 = 79;
pub const VK_FORMAT_R16G16_SSCALED: i32 = 80;
pub const VK_FORMAT_R16G16_UINT: i32 = 81;
pub const VK_FORMAT_R16G16_SINT: i32 = 82;
pub const VK_FORMAT_R16G16_SFLOAT: i32 = 83;
pub const VK_FORMAT_R16G16B16_UNORM: i32 = 84;
pub const VK_FORMAT_R16G16B16_SNORM: i32 = 85;
pub const VK_FORMAT_R16G16B16_USCALED: i32 = 86;
pub const VK_FORMAT_R16G16B16_SSCALED: i32 = 87;
pub const VK_FORMAT_R16G16B16_UINT: i32 = 88;
pub const VK_FORMAT_R16G16B16_SINT: i32 = 89;
pub const VK_FORMAT_R16G16B16_SFLOAT: i32 = 90;
pub const VK_FORMAT_R16G16B16A16_UNORM: i32 = 91;
pub const VK_FORMAT_R16G16B16A16_SNORM: i32 = 92;
pub const VK_FORMAT_R16G16B16A16_USCALED: i32 = 93;
pub const VK_FORMAT_R16G16B16A16_SSCALED: i32 = 94;
pub const VK_FORMAT_R16G16B16A16_UINT: i32 = 95;
pub const VK_FORMAT_R16G16B16A16_SINT: i32 = 96;
pub const VK_FORMAT_R16G16B16A16_SFLOAT: i32 = 97;
pub const VK_FORMAT_R32_UINT: i32 = 98;
pub const VK_FORMAT_R32_SINT: i32 = 99;
pub const VK_FORMAT_R32_SFLOAT: i32 = 100;
pub const VK_FORMAT_R32G32_UINT: i32 = 101;
pub const VK_FORMAT_R32G32_SINT: i32 = 102;
pub const VK_FORMAT_R32G32_SFLOAT: i32 = 103;
pub const VK_FORMAT_R32G32B32_UINT: i32 = 104;
pub const VK_FORMAT_R32G32B32_SINT: i32 = 105;
pub const VK_FORMAT_R32G32B32_SFLOAT: i32 = 106;
pub const VK_FORMAT_R32G32B32A32_UINT: i32 = 107;
pub const VK_FORMAT_R32G32B32A32_SINT: i32 = 108;
pub const VK_FORMAT_R32G32B32A32_SFLOAT: i32 = 109;
pub const VK_FORMAT_R64_UINT: i32 = 110;
pub const VK_FORMAT_R64_SINT: i32 = 111;
pub const VK_FORMAT_R64_SFLOAT: i32 = 112;
pub const VK_FORMAT_R64G64_UINT: i32 = 113;
pub const VK_FORMAT_R64G64_SINT: i32 = 114;
pub const VK_FORMAT_R64G64_SFLOAT: i32 = 115;
pub const VK_FORMAT_R64G64B64_UINT: i32 = 116;
pub const VK_FORMAT_R64G64B64_SINT: i32 = 117;
pub const VK_FORMAT_R64G64B64_SFLOAT: i32 = 118;
pub const VK_FORMAT_R64G64B64A64_UINT: i32 = 119;
pub const VK_FORMAT_R64G64B64A64_SINT: i32 = 120;
pub const VK_FORMAT_R64G64B64A64_SFLOAT: i32 = 121;
pub const VK_FORMAT_B10G11R11_UFLOAT_PACK32: i32 = 122;
pub const VK_FORMAT_E5B9G9R9_UFLOAT_PACK32: i32 = 123;
pub const VK_FORMAT_D16_UNORM: i32 = 124;
pub const VK_FORMAT_X8_D24_UNORM_PACK32: i32 = 125;
pub const VK_FORMAT_D32_SFLOAT: i32 = 126;
pub const VK_FORMAT_S8_UINT: i32 = 127;
pub const VK_FORMAT_D16_UNORM_S8_UINT: i32 = 128;
pub const VK_FORMAT_D24_UNORM_S8_UINT: i32 = 129;
pub const VK_FORMAT_D32_SFLOAT_S8_UINT: i32 = 130;
pub const VK_FORMAT_BC1_RGB_UNORM_BLOCK: i32 = 131;
pub const VK_FORMAT_BC1_RGB_SRGB_BLOCK: i32 = 132;
pub const VK_FORMAT_BC1_RGBA_UNORM_BLOCK: i32 = 133;
pub const VK_FORMAT_BC1_RGBA_SRGB_BLOCK: i32 = 134;
pub const VK_FORMAT_BC2_UNORM_BLOCK: i32 = 135;
pub const VK_FORMAT_BC2_SRGB_BLOCK: i32 = 136;
pub const VK_FORMAT_BC3_UNORM_BLOCK: i32 = 137;
pub const VK_FORMAT_BC3_SRGB_BLOCK: i32 = 138;
pub const VK_FORMAT_BC4_UNORM_BLOCK: i32 = 139;
pub const VK_FORMAT_BC4_SNORM_BLOCK: i32 = 140;
pub const VK_FORMAT_BC5_UNORM_BLOCK: i32 = 141;
pub const VK_FORMAT_BC5_SNORM_BLOCK: i32 = 142;
pub const VK_FORMAT_BC6H_UFLOAT_BLOCK: i32 = 143;
pub const VK_FORMAT_BC6H_SFLOAT_BLOCK: i32 = 144;
pub const VK_FORMAT_BC7_UNORM_BLOCK: i32 = 145;
pub const VK_FORMAT_BC7_SRGB_BLOCK: i32 = 146;
pub const VK_FORMAT_ETC2_R8G8B8_UNORM_BLOCK: i32 = 147;
pub const VK_FORMAT_ETC2_R8G8B8_SRGB_BLOCK: i32 = 148;
pub const VK_FORMAT_ETC2_R8G8B8A1_UNORM_BLOCK: i32 = 149;
pub const VK_FORMAT_ETC2_R8G8B8A1_SRGB_BLOCK: i32 = 150;
pub const VK_FORMAT_ETC2_R8G8B8A8_UNORM_BLOCK: i32 = 151;
pub const VK_FORMAT_ETC2_R8G8B8A8_SRGB_BLOCK: i32 = 152;
pub const VK_FORMAT_EAC_R11_UNORM_BLOCK: i32 = 153;
pub const VK_FORMAT_EAC_R11_SNORM_BLOCK: i32 = 154;
pub const VK_FORMAT_EAC_R11G11_UNORM_BLOCK: i32 = 155;
pub const VK_FORMAT_EAC_R11G11_SNORM_BLOCK: i32 = 156;
pub const VK_FORMAT_ASTC_4x4_UNORM_BLOCK: i32 = 157;
pub const VK_FORMAT_ASTC_4x4_SRGB_BLOCK: i32 = 158;
pub const VK_FORMAT_ASTC_5x4_UNORM_BLOCK: i32 = 159;
pub const VK_FORMAT_ASTC_5x4_SRGB_BLOCK: i32 = 160;
pub const VK_FORMAT_ASTC_5x5_UNORM_BLOCK: i32 = 161;
pub const VK_FORMAT_ASTC_5x5_SRGB_BLOCK: i32 = 162;
pub const VK_FORMAT_ASTC_6x5_UNORM_BLOCK: i32 = 163;
pub const VK_FORMAT_ASTC_6x5_SRGB_BLOCK: i32 = 164;
pub const VK_FORMAT_ASTC_6x6_UNORM_BLOCK: i32 = 165;
pub const VK_FORMAT_ASTC_6x6_SRGB_BLOCK: i32 = 166;
pub const VK_FORMAT_ASTC_8x5_UNORM_BLOCK: i32 = 167;
pub const VK_FORMAT_ASTC_8x5_SRGB_BLOCK: i32 = 168;
pub const VK_FORMAT_ASTC_8x6_UNORM_BLOCK: i32 = 169;
pub const VK_FORMAT_ASTC_8x6_SRGB_BLOCK: i32 = 170;
pub const VK_FORMAT_ASTC_8x8_UNORM_BLOCK: i32 = 171;
pub const VK_FORMAT_ASTC_8x8_SRGB_BLOCK: i32 = 172;
pub const VK_FORMAT_ASTC_10x5_UNORM_BLOCK: i32 = 173;
pub const VK_FORMAT_ASTC_10x5_SRGB_BLOCK: i32 = 174;
pub const VK_FORMAT_ASTC_10x6_UNORM_BLOCK: i32 = 175;
pub const VK_FORMAT_ASTC_10x6_SRGB_BLOCK: i32 = 176;
pub const VK_FORMAT_ASTC_10x8_UNORM_BLOCK: i32 = 177;
pub const VK_FORMAT_ASTC_10x8_SRGB_BLOCK: i32 = 178;
pub const VK_FORMAT_ASTC_10x10_UNORM_BLOCK: i32 = 179;
pub const VK_FORMAT_ASTC_10x10_SRGB_BLOCK: i32 = 180;
pub const VK_FORMAT_ASTC_12x10_UNORM_BLOCK: i32 = 181;
pub const VK_FORMAT_ASTC_12x10_SRGB_BLOCK: i32 = 182;
pub const VK_FORMAT_ASTC_12x12_UNORM_BLOCK: i32 = 183;
pub const VK_FORMAT_ASTC_12x12_SRGB_BLOCK: i32 = 184;

// Bits of `VkFormatFeatureFlags`.
pub const VK_FORMAT_FEATURE_SAMPLED_IMAGE_BIT: u32 = 0x00000001;
pub const VK_FORMAT_FEATURE_STORAGE_IMAGE_BIT: u32 = 0x00000002;
pub const VK_FORMAT_FEATURE_STORAGE_IMAGE_ATOMIC_BIT: u32 = 0x00000004;
pub const VK_FORMAT_FEATURE_UNIFORM_TEXEL_BUFFER_BIT: u32 = 0x00000008;
pub const VK_FORMAT_FEATURE_STORAGE_TEXEL_BUFFER_BIT: u32 = 0x00000010;
pub const VK_FORMAT_FEATURE_STORAGE_TEXEL_BUFFER_ATOMIC_BIT: u32 = 0x00000020;
pub const VK_FORMAT_FEATURE_VERTEX_BUFFER_BIT: u32 = 0x00000040;
pub const VK_FORMAT_FEATURE_COLOR_ATTACHMENT_BIT: u32 = 0x00000080;
pub const VK_FORMAT_FEATURE_COLOR_ATTACHMENT_BLEND_BIT: u32 = 0x00000100;
pub const VK_FORMAT_FEATURE_DEPTH_STENCIL_ATTACHMENT_BIT: u32 = 0x00000200;
pub const VK_FORMAT_FEATURE_BLIT_SRC_BIT: u32 = 0x00000400;
pub const VK_FORMAT_FEATURE_BLIT_DST_BIT: u32 = 0x00000800;
pub const VK_FORMAT_FEATURE_SAMPLED_IMAGE_FILTER_LINEAR_BIT: u32 = 0x00001000;
pub const VK_FORMAT_FEATURE_SAMPLED_IMAGE_FILTER_CUBIC_BIT_IMG: u32 = 0x00002000;
pub const VK_FORMAT_FEATURE_TRANSFER_SRC_BIT_KHR: u32 = 0x00004000;
pub const VK_FORMAT_FEATURE_TRANSFER_DST_BIT_KHR: u32 = 0x00008000;
pub const VK_FORMAT_FEATURE_SAMPLED_IMAGE_FILTER_MINMAX_BIT_EXT: u32 = 0x00010000;
pub const VK_FORMAT_FEATURE_FLAG_BITS_MAX_ENUM: u32 = 0x7FFFFFFF;

// Bits of `VkMemoryMapFlags`.
pub const VK_MEMORY_MAP_FLAG_BITS_MAX_ENUM: u32 = 0x7FFFFFFF;

// Bits of `VkImageAspectFlags`.
pub const VK_IMAGE_ASPECT_COLOR_BIT: u32 = 0x00000001;
pub const VK_IMAGE_ASPECT_DEPTH_BIT: u32 = 0x00000002;
pub const VK_IMAGE_ASPECT_STENCIL_BIT: u32 = 0x00000004;
pub const VK_IMAGE_ASPECT_METADATA_BIT: u32 = 0x00000008;
pub const VK_IMAGE_ASPECT_FLAG_BITS_MAX_ENUM: u32 = 0x7FFFFFFF;

// Bits of `VkSparseImageFormatFlags`.
pub const VK_SPARSE_IMAGE_FORMAT_SINGLE_MIPTAIL_BIT: u32 = 0x00000001;
pub const VK_SPARSE_IMAGE_FORMAT_ALIGNED_MIP_SIZE_BIT: u32 = 0x00000002;
pub const VK_SPARSE_IMAGE_FORMAT_NONSTANDARD_BLOCK_SIZE_BIT: u32 = 0x00000004;
pub const VK_SPARSE_IMAGE_FORMAT_FLAG_BITS_MAX_ENUM: u32 = 0x7FFFFFFF;

// Bits of `VkQueryResultFlags`.
pub const VK_QUERY_RESULT_64_BIT: u32 = 0x00000001;
pub const VK_QUERY_RESULT_WAIT_BIT: u32 = 0x00000002;
pub const VK_QUERY_RESULT_WITH_AVAILABILITY_BIT: u32 = 0x00000004;
pub const VK_QUERY_RESULT_PARTIAL_BIT: u32 = 0x00000008;
pub const VK_QUERY_RESULT_FLAG_BITS_MAX_ENUM: u32 = 0x7FFFFFFF;

/// Memory that a buffer or an image needs.
#[derive(Clone, Copy, PartialEq, Eq, Debug, Default)]
pub struct VkMemoryRequirements {
    pub size: VkDeviceSize,
    pub alignment: VkDeviceSize,
    pub memoryTypeBits: u32,
}

/// Optional features of a physical device, one 32-bit boolean each.
#[derive(Clone, Copy, PartialEq, Eq, Debug, Default)]
pub struct VkPhysicalDeviceFeatures {
    pub robustBufferAccess: VkBool32,
    pub fullDrawIndexUint32: VkBool32,
    pub imageCubeArray: VkBool32,
    pub independentBlend: VkBool32,
    pub geometryShader: VkBool32,
    pub tessellationShader: VkBool32,
    pub sampleRateShading: VkBool32,
    pub dualSrcBlend: VkBool32,
    pub logicOp: VkBool32,
    pub multiDrawIndirect: VkBool32,
    pub drawIndirectFirstInstance: VkBool32,
    pub depthClamp: VkBool32,
    pub depthBiasClamp: VkBool32,
    pub fillModeNonSolid: VkBool32,
    pub depthBounds: VkBool32,
    pub wideLines: VkBool32,
    pub largePoints: VkBool32,
    pub alphaToOne: VkBool32,
    pub multiViewport: VkBool32,
    pub samplerAnisotropy: VkBool32,
    pub textureCompressionETC2: VkBool32,
    pub textureCompressionASTC_LDR: VkBool32,
    pub textureCompressionBC: VkBool32,
    pub occlusionQueryPrecise: VkBool32,
    pub pipelineStatisticsQuery: VkBool32,
    pub vertexPipelineStoresAndAtomics: VkBool32,
    pub fragmentStoresAndAtomics: VkBool32,
    pub shaderTessellationAndGeometryPointSize: VkBool32,
    pub shaderImageGatherExtended: VkBool32,
    pub shaderStorageImageExtendedFormats: VkBool32,
    pub shaderStorageImageMultisample: VkBool32,
    pub shaderStorageImageReadWithoutFormat: VkBool32,
    pub shaderStorageImageWriteWithoutFormat: VkBool32,
    pub shaderUniformBufferArrayDynamicIndexing: VkBool32,
    pub shaderSampledImageArrayDynamicIndexing: VkBool32,
    pub shaderStorageBufferArrayDynamicIndexing: VkBool32,
    pub shaderStorageImageArrayDynamicIndexing: VkBool32,
    pub shaderClipDistance: VkBool32,
    pub shaderCullDistance: VkBool32,
    pub shaderFloat64: VkBool32,
    pub shaderInt64: VkBool32,
    pub shaderInt16: VkBool32,
    pub shaderResourceResidency: VkBool32,
    pub shaderResourceMinLod: VkBool32,
    pub sparseBinding: VkBool32,
    pub sparseResidencyBuffer: VkBool32,
    pub sparseResidencyImage2D: VkBool32,
    pub sparseResidencyImage3D: VkBool32,
    pub sparseResidency2Samples: VkBool32,
    pub sparseResidency4Samples: VkBool32,
    pub sparseResidency8Samples: VkBool32,
    pub sparseResidency16Samples: VkBool32,
    pub sparseResidencyAliased: VkBool32,
    pub variableMultisampleRate: VkBool32,
    pub inheritedQueries: VkBool32,
}

/// What a format can be used for, per tiling and for buffers.
#[derive(Clone, Copy, PartialEq, Eq, Debug, Default)]
pub struct VkFormatProperties {
    pub linearTilingFeatures: VkFlags,
    pub optimalTilingFeatures: VkFlags,
    pub bufferFeatures: VkFlags,
}

/// A size in three dimensions.
#[derive(Clone, Copy, PartialEq, Eq, Debug, Default)]
pub struct VkExtent3D {
    pub width: u32,
    pub height: u32,
    pub depth: u32,
}

/// Where one subresource of an image lies in memory.
#[derive(Clone, Copy, PartialEq, Eq, Debug, Default)]
pub struct VkSubresourceLayout {
    pub offset: VkDeviceSize,
    pub size: VkDeviceSize,
    pub rowPitch: VkDeviceSize,
    pub arrayPitch: VkDeviceSize,
    pub depthPitch: VkDeviceSize,
}

/// Sparse properties of an image format.
#[derive(Clone, Copy, PartialEq, Eq, Debug, Default)]
pub struct VkSparseImageFormatProperties {
    pub aspectMask: VkFlags,
    pub imageGranularity: VkExtent3D,
    pub flags: VkFlags,
}

/// Sparse memory that an image needs.
#[derive(Clone, Copy, PartialEq, Eq, Debug, Default)]
pub struct VkSparseImageMemoryRequirements {
    pub formatProperties: VkSparseImageFormatProperties,
    pub imageMipTailFirstLod: u32,
    pub imageMipTailSize: VkDeviceSize,
    pub imageMipTailOffset: VkDeviceSize,
    pub imageMipTailStride: VkDeviceSize,
}

/// Request to create an instance.
#[derive(Clone, PartialEq, Eq, Debug)]
pub struct VkInstanceCreateInfo {
    pub flags: VkFlags,
    pub apiVersion: u32,
    pub enabledLayerNames: Vec<Vec<u8>>,
    pub enabledExtensionNames: Vec<Vec<u8>>,
}

/// Request for `queueCount` queues of the family `queueFamilyIndex`.
#[derive(Clone, Copy, PartialEq, Eq, Debug)]
pub struct VkDeviceQueueCreateInfo {
    pub flags: VkFlags,
    pub queueFamilyIndex: u32,
    pub queueCount: u32,
}

/// Request to open a device with the listed queues.
#[derive(Clone, PartialEq, Eq, Debug)]
pub struct VkDeviceCreateInfo {
    pub flags: VkFlags,
    pub queueCreateInfos: Vec<VkDeviceQueueCreateInfo>,
}

/// One batch of a queue submission.
#[derive(Clone, PartialEq, Eq, Debug)]
pub struct VkSubmitInfo {
    pub waitSemaphores: Vec<u64>,
    pub waitDstStageMask: Vec<VkFlags>,
    pub commandBuffers: Vec<u64>,
    pub signalSemaphores: Vec<u64>,
}

/// Request to allocate device memory.
#[derive(Clone, Copy, PartialEq, Eq, Debug)]
pub struct VkMemoryAllocateInfo {
    pub allocationSize: VkDeviceSize,
    pub memoryTypeIndex: u32,
}

/// A range of a mapped memory object.
#[derive(Clone, Copy, PartialEq, Eq, Debug)]
pub struct VkMappedMemoryRange {
    pub memory: u64,
    pub offset: VkDeviceSize,
    pub size: VkDeviceSize,
}

/// One batch of sparse bindings.
#[derive(Clone, PartialEq, Eq, Debug)]
pub struct VkBindSparseInfo {
    pub waitSemaphores: Vec<u64>,
    pub signalSemaphores: Vec<u64>,
}

/// Request to create a buffer.
#[derive(Clone, PartialEq, Eq, Debug)]
pub struct VkBufferCreateInfo {
    pub flags: VkFlags,
    pub size: VkDeviceSize,
    pub usage: VkFlags,
    pub sharingMode: i32,
    pub queueFamilyIndices: Vec<u32>,
}

/// Request to create an image.
#[derive(Clone, PartialEq, Eq, Debug)]
pub struct VkImageCreateInfo {
    pub flags: VkFlags,
    pub imageType: i32,
    pub format: VkFormat,
    pub extent: VkExtent3D,
    pub mipLevels: u32,
    pub arrayLayers: u32,
    pub samples: VkFlags,
    pub tiling: i32,
    pub usage: VkFlags,
    pub sharingMode: i32,
    pub queueFamilyIndices: Vec<u32>,
    pub initialLayout: i32,
}

/// One subresource of an image.
#[derive(Clone, Copy, PartialEq, Eq, Debug)]
pub struct VkImageSubresource {
    pub aspectMask: VkFlags,
    pub mipLevel: u32,
    pub arrayLayer: u32,
}

/// Request to create a pipeline cache, with the data to seed it.
#[derive(Clone, PartialEq, Eq, Debug)]
pub struct VkPipelineCacheCreateInfo {
    pub flags: VkFlags,
    pub initialData: Vec<u8>,
}

/// Request to create a fence.
#[derive(Clone, Copy, PartialEq, Eq, Debug)]
pub struct VkFenceCreateInfo {
    pub flags: VkFlags,
}

/// Request to create a view of a range of a buffer.
#[derive(Clone, Copy, PartialEq, Eq, Debug)]
pub struct VkBufferViewCreateInfo {
    pub flags: VkFlags,
    pub buffer: u64,
    pub format: VkFormat,
    pub offset: VkDeviceSize,
    pub range: VkDeviceSize,
}

/// Request to create a view of an image.
#[derive(Clone, Copy, PartialEq, Eq, Debug)]
pub struct VkImageViewCreateInfo {
    pub flags: VkFlags,
    pub image: u64,
    pub viewType: i32,
    pub format: VkFormat,
    pub aspectMask: VkFlags,
    pub baseMipLevel: u32,
    pub levelCount: u32,
    pub baseArrayLayer: u32,
    pub layerCount: u32,
}

/// Request to create a shader module from its code words.
#[derive(Clone, PartialEq, Eq, Debug)]
pub struct VkShaderModuleCreateInfo {
    pub flags: VkFlags,
    pub code: Vec<u32>,
}

/// Request to create a graphics pipeline.
#[derive(Clone, PartialEq, Eq, Debug)]
pub struct VkGraphicsPipelineCreateInfo {
    pub flags: VkFlags,
    pub stages: Vec<u64>,
    pub layout: u64,
    pub renderPass: u64,
    pub subpass: u32,
    pub basePipelineHandle: u64,
    pub basePipelineIndex: i32,
}

/// Request to create a semaphore.
#[derive(Clone, Copy, PartialEq, Eq, Debug)]
pub struct VkSemaphoreCreateInfo {
    pub flags: VkFlags,
}

/// Request to create an event.
#[derive(Clone, Copy, PartialEq, Eq, Debug)]
pub struct VkEventCreateInfo {
    pub flags: VkFlags,
}

/// Request to create a pool of queries.
#[derive(Clone, Copy, PartialEq, Eq, Debug)]
pub struct VkQueryPoolCreateInfo {
    pub flags: VkFlags,
    pub queryType: i32,
    pub queryCount: u32,
    pub pipelineStatistics: VkFlags,
}

} // verus!
