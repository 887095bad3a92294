//! Image and buffer formats, and their correspondence with raw format codes.
#![allow(non_camel_case_types)]

use crate::sys;
use vstd::prelude::*;
use vstd::std_specs::convert::FromSpec;

verus! {

/// A format. Every raw code that the table knows has a case of its own; any
/// other raw code is kept, with its value, in `Other`.
#[derive(Clone, Copy, PartialEq, Eq, Debug, Structural)]
pub enum Format {
    Unknown,
    R4G4UnormPack8,
    R4G4B4A4UnormPack16,
    B4G4R4A4UnormPack16,
    R5G6B5UnormPack16,
    B5G6R5UnormPack16,
    R5G5B5A1UnormPack16,
    B5G5R5A1UnormPack16,
    A1R5G5B5UnormPack16,
    R8Unorm,
    R8Snorm,
    R8Uscaled,
    R8Sscaled,
    R8Uint,
    R8Sint,
    R8Srgb,
    R8G8Unorm,
    R8G8Snorm,
    R8G8Uscaled,
    R8G8Sscaled,
    R8G8Uint,
    R8G8Sint,
    R8G8Srgb,
    R8G8B8Unorm,
    R8G8B8Snorm,
    R8G8B8Uscaled,
    R8G8B8Sscaled,
    R8G8B8Uint,
    R8G8B8Sint,
    R8G8B8Srgb,
    B8G8R8Unorm,
    B8G8R8Snorm,
    B8G8R8Uscaled,
    B8G8R8Sscaled,
    B8G8R8Uint,
    B8G8R8Sint,
    B8G8R8Srgb,
    R8G8B8A8Unorm,
    R8G8B8A8Snorm,
    R8G8B8A8Uscaled,
    R8G8B8A8Sscaled,
    R8G8B8A8Uint,
    R8G8B8A8Sint,
    R8G8B8A8Srgb,
    B8G8R8A8Unorm,
    B8G8R8A8Snorm,
    B8G8R8A8Uscaled,
    B8G8R8A8Sscaled,
    B8G8R8A8Uint,
    B8G8R8A8Sint,
    B8G8R8A8Srgb,
    A8B8G8R8UnormPack32,
    A8B8G8R8SnormPack32,
    A8B8G8R8UscaledPack32,
    A8B8G8R8SscaledPack32,
    A8B8G8R8UintPack32,
    A8B8G8R8SintPack32,
    A8B8G8R8SrgbPack32,
    A2R10G10B10UnormPack32,
    A2R10G10B10SnormPack32,
    A2R10G10B10UscaledPack32,
    A2R10G10B10SscaledPack32,
    A2R10G10B10UintPack32,
    A2R10G10B10SintPack32,
    A2B10G10R10UnormPack32,
    A2B10G10R10SnormPack32,
    A2B10G10R10UscaledPack32,
    A2B10G10R10SscaledPack32,
    A2B10G10R10UintPack32,
    A2B10G10R10SintPack32,
    R16Unorm,
    R16Snorm,
    R16Uscaled,
    R16Sscaled,
    R16Uint,
    R16Sint,
    R16Sfloat,
    R16G16Unorm,
    R16G16Snorm,
    R16G16Uscaled,
    R16G16Sscaled,
    R16G16Uint,
    R16G16Sint,
    R16G16Sfloat,
    R16G16B16Unorm,
    R16G16B16Snorm,
    R16G16B16Uscaled,
    R16G16B16Sscaled,
    R16G16B16Uint,
    R16G16B16Sint,
    R16G16B16Sfloat,
    R16G16B16A16Unorm,
    R16G16B16A16Snorm,
    R16G16B16A16Uscaled,
    R16G16B16A16Sscaled,
    R16G16B16A16Uint,
    R16G16B16A16Sint,
    R16G16B16A16Sfloat,
    R32Uint,
    R32Sint,
    R32Sfloat,
    R32G32Uint,
    R32G32Sint,
    R32G32Sfloat,
    R32G32B32Uint,
    R32G32B32Sint,
    R32G32B32Sfloat,
    R32G32B32A32Uint,
    R32G32B32A32Sint,
    R32G32B32A32Sfloat,
    R64Uint,
    R64Sint,
    R64Sfloat,
    R64G64Uint,
    R64G64Sint,
    R64G64Sfloat,
    R64G64B64Uint,
    R64G64B64Sint,
    R64G64B64Sfloat,
    R64G64B64A64Uint,
    R64G64B64A64Sint,
    R64G64B64A64Sfloat,
    B10G11R11UfloatPack32,
    E5B9G9R9UfloatPack32,
    D16Unorm,
    X8_D24UnormPack32,
    D32Sfloat,
    S8Uint,
    D16Unorm_S8Uint,
    D24Unorm_S8Uint,
    D32Sfloat_S8Uint,
    BC1_RGBUnormBlock,
    BC1_RGBSrgbBlock,
    BC1_RGBAUnormBlock,
    BC1_RGBASrgbBlock,
    BC2UnormBlock,
    BC2SrgbBlock,
    BC3UnormBlock,
    BC3SrgbBlock,
    BC4UnormBlock,
    BC4SnormBlock,
    BC5UnormBlock,
    BC5SnormBlock,
    BC6HUfloatBlock,
    BC6HSfloatBlock,
    BC7UnormBlock,
    BC7SrgbBlock,
    ETC2_R8G8B8UnormBlock,
    ETC2_R8G8B8SrgbBlock,
    ETC2_R8G8B8A1UnormBlock,
    ETC2_R8G8B8A1SrgbBlock,
    ETC2_R8G8B8A8UnormBlock,
    ETC2_R8G8B8A8SrgbBlock,
    EAC_R11UnormBlock,
    EAC_R11SnormBlock,
    EAC_R11G11UnormBlock,
    EAC_R11G11SnormBlock,
    ASTC_4x4UnormBlock,
    ASTC_4x4SrgbBlock,
    ASTC_5x4UnormBlock,
    ASTC_5x4SrgbBlock,
    ASTC_5x5UnormBlock,
    ASTC_5x5SrgbBlock,
    ASTC_6x5UnormBlock,
    ASTC_6x5SrgbBlock,
    ASTC_6x6UnormBlock,
    ASTC_6x6SrgbBlock,
    ASTC_8x5UnormBlock,
    ASTC_8x5SrgbBlock,
    ASTC_8x6UnormBlock,
    ASTC_8x6SrgbBlock,
    ASTC_8x8UnormBlock,
    ASTC_8x8SrgbBlock,
    ASTC_10x5UnormBlock,
    ASTC_10x5SrgbBlock,
    ASTC_10x6UnormBlock,
    ASTC_10x6SrgbBlock,
    ASTC_10x8UnormBlock,
    ASTC_10x8SrgbBlock,
    ASTC_10x10UnormBlock,
    ASTC_10x10SrgbBlock,
    ASTC_12x10UnormBlock,
    ASTC_12x10SrgbBlock,
    ASTC_12x12UnormBlock,
    ASTC_12x12SrgbBlock,
    /// A raw code without a case of its own.
    Other(i32),
}

impl Format {
    /// Whether the value is the one that stands for its raw code: `Other`
    /// holds only codes that have no case of their own.
    pub open spec fn wf(self) -> bool {
        match self {
            Format::Other(code) => !(0 <= code < sys::VK_FORMAT_NAMED_END),
            _ => true,
        }
    }

    /// The raw code of the format.
    pub open spec fn code(self) -> i32 {
        match self {
            Format::Unknown => sys::VK_FORMAT_UNDEFINED,
            Format::R4G4UnormPack8 => sys::VK_FORMAT_R4G4_UNORM_PACK8,
            Format::R4G4B4A4UnormPack16 => sys::VK_FORMAT_R4G4B4A4_UNORM_PACK16,
            Format::B4G4R4A4UnormPack16 => sys::VK_FORMAT_B4G4R4A4_UNORM_PACK16,
            Format::R5G6B5UnormPack16 => sys::VK_FORMAT_R5G6B5_UNORM_PACK16,
            Format::B5G6R5UnormPack16 => sys::VK_FORMAT_B5G6R5_UNORM_PACK16,
            Format::R5G5B5A1UnormPack16 => sys::VK_FORMAT_R5G5B5A1_UNORM_PACK16,
            Format::B5G5R5A1UnormPack16 => sys::VK_FORMAT_B5G5R5A1_UNORM_PACK16,
            Format::A1R5G5B5UnormPack16 => sys::VK_FORMAT_A1R5G5B5_UNORM_PACK16,
            Format::R8Unorm => sys::VK_FORMAT_R8_UNORM,
            Format::R8Snorm => sys::VK_FORMAT_R8_SNORM,
            Format::R8Uscaled => sys::VK_FORMAT_R8_USCALED,
            Format::R8Sscaled => sys::VK_FORMAT_R8_SSCALED,
            Format::R8Uint => sys::VK_FORMAT_R8_UINT,
            Format::R8Sint => sys::VK_FORMAT_R8_SINT,
            Format::R8Srgb => sys::VK_FORMAT_R8_SRGB,
            Format::R8G8Unorm => sys::VK_FORMAT_R8G8_UNORM,
            Format::R8G8Snorm => sys::VK_FORMAT_R8G8_SNORM,
            Format::R8G8Uscaled => sys::VK_FORMAT_R8G8_USCALED,
            Format::R8G8Sscaled => sys::VK_FORMAT_R8G8_SSCALED,
            Format::R8G8Uint => sys::VK_FORMAT_R8G8_UINT,
            Format::R8G8Sint => sys::VK_FORMAT_R8G8_SINT,
            Format::R8G8Srgb => sys::VK_FORMAT_R8G8_SRGB,
            Format::R8G8B8Unorm => sys::VK_FORMAT_R8G8B8_UNORM,
            Format::R8G8B8Snorm => sys::VK_FORMAT_R8G8B8_SNORM,
            Format::R8G8B8Uscaled => sys::VK_FORMAT_R8G8B8_USCALED,
            Format::R8G8B8Sscaled => sys::VK_FORMAT_R8G8B8_SSCALED,
            Format::R8G8B8Uint => sys::VK_FORMAT_R8G8B8_UINT,
            Format::R8G8B8Sint => sys::VK_FORMAT_R8G8B8_SINT,
            Format::R8G8B8Srgb => sys::VK_FORMAT_R8G8B8_SRGB,
            Format::B8G8R8Unorm => sys::VK_FORMAT_B8G8R8_UNORM,
            Format::B8G8R8Snorm => sys::VK_FORMAT_B8G8R8_SNORM,
            Format::B8G8R8Uscaled => sys::VK_FORMAT_B8G8R8_USCALED,
            Format::B8G8R8Sscaled => sys::VK_FORMAT_B8G8R8_SSCALED,
            Format::B8G8R8Uint => sys::VK_FORMAT_B8G8R8_UINT,
            Format::B8G8R8Sint => sys::VK_FORMAT_B8G8R8_SINT,
            Format::B8G8R8Srgb => sys::VK_FORMAT_B8G8R8_SRGB,
            Format::R8G8B8A8Unorm => sys::VK_FORMAT_R8G8B8A8_UNORM,
            Format::R8G8B8A8Snorm => sys::VK_FORMAT_R8G8B8A8_SNORM,
            Format::R8G8B8A8Uscaled => sys::VK_FORMAT_R8G8B8A8_USCALED,
            Format::R8G8B8A8Sscaled => sys::VK_FORMAT_R8G8B8A8_SSCALED,
            Format::R8G8B8A8Uint => sys::VK_FORMAT_R8G8B8A8_UINT,
            Format::R8G8B8A8Sint => sys::VK_FORMAT_R8G8B8A8_SINT,
            Format::R8G8B8A8Srgb => sys::VK_FORMAT_R8G8B8A8_SRGB,
            Format::B8G8R8A8Unorm => sys::VK_FORMAT_B8G8R8A8_UNORM,
            Format::B8G8R8A8Snorm => sys::VK_FORMAT_B8G8R8A8_SNORM,
            Format::B8G8R8A8Uscaled => sys::VK_FORMAT_B8G8R8A8_USCALED,
            Format::B8G8R8A8Sscaled => sys::VK_FORMAT_B8G8R8A8_SSCALED,
            Format::B8G8R8A8Uint => sys::VK_FORMAT_B8G8R8A8_UINT,
            Format::B8G8R8A8Sint => sys::VK_FORMAT_B8G8R8A8_SINT,
            Format::B8G8R8A8Srgb => sys::VK_FORMAT_B8G8R8A8_SRGB,
            Format::A8B8G8R8UnormPack32 => sys::VK_FORMAT_A8B8G8R8_UNORM_PACK32,
            Format::A8B8G8R8SnormPack32 => sys::VK_FORMAT_A8B8G8R8_SNORM_PACK32,
            Format::A8B8G8R8UscaledPack32 => sys::VK_FORMAT_A8B8G8R8_USCALED_PACK32,
            Format::A8B8G8R8SscaledPack32 => sys::VK_FORMAT_A8B8G8R8_SSCALED_PACK32,
            Format::A8B8G8R8UintPack32 => sys::VK_FORMAT_A8B8G8R8_UINT_PACK32,
            Format::A8B8G8R8SintPack32 => sys::VK_FORMAT_A8B8G8R8_SINT_PACK32,
            Format::A8B8G8R8SrgbPack32 => sys::VK_FORMAT_A8B8G8R8_SRGB_PACK32,
            Format::A2R10G10B10UnormPack32 => sys::VK_FORMAT_A2R10G10B10_UNORM_PACK32,
            Format::A2R10G10B10SnormPack32 => sys::VK_FORMAT_A2R10G10B10_SNORM_PACK32,
            Format::A2R10G10B10UscaledPack32 => sys::VK_FORMAT_A2R10G10B10_USCALED_PACK32,
            Format::A2R10G10B10SscaledPack32 => sys::VK_FORMAT_A2R10G10B10_SSCALED_PACK32,
            Format::A2R10G10B10UintPack32 => sys::VK_FORMAT_A2R10G10B10_UINT_PACK32,
            Format::A2R10G10B10SintPack32 => sys::VK_FORMAT_A2R10G10B10_SINT_PACK32,
            Format::A2B10G10R10UnormPack32 => sys::VK_FORMAT_A2B10G10R10_UNORM_PACK32,
            Format::A2B10G10R10SnormPack32 => sys::VK_FORMAT_A2B10G10R10_SNORM_PACK32,
            Format::A2B10G10R10UscaledPack32 => sys::VK_FORMAT_A2B10G10R10_USCALED_PACK32,
            Format::A2B10G10R10SscaledPack32 => sys::VK_FORMAT_A2B10G10R10_SSCALED_PACK32,
            Format::A2B10G10R10UintPack32 => sys::VK_FORMAT_A2B10G10R10_UINT_PACK32,
            Format::A2B10G10R10SintPack32 => sys::VK_FORMAT_A2B10G10R10_SINT_PACK32,
            Format::R16Unorm => sys::VK_FORMAT_R16_UNORM,
            Format::R16Snorm => sys::VK_FORMAT_R16_SNORM,
            Format::R16Uscaled => sys::VK_FORMAT_R16_USCALED,
            Format::R16Sscaled => sys::VK_FORMAT_R16_SSCALED,
            Format::R16Uint => sys::VK_FORMAT_R16_UINT,
            Format::R16Sint => sys::VK_FORMAT_R16_SINT,
            Format::R16Sfloat => sys::VK_FORMAT_R16_SFLOAT,
            Format::R16G16Unorm => sys::VK_FORMAT_R16G16_UNORM,
            Format::R16G16Snorm => sys::VK_FORMAT_R16G16_SNORM,
            Format::R16G16Uscaled => sys::VK_FORMAT_R16G16_USCALED,
            Format::R16G16Sscaled => sys::VK_FORMAT_R16G16_SSCALED,
            Format::R16G16Uint => sys::VK_FORMAT_R16G16_UINT,
            Format::R16G16Sint => sys::VK_FORMAT_R16G16_SINT,
            Format::R16G16Sfloat => sys::VK_FORMAT_R16G16_SFLOAT,
            Format::R16G16B16Unorm => sys::VK_FORMAT_R16G16B16_UNORM,
            Format::R16G16B16Snorm => sys::VK_FORMAT_R16G16B16_SNORM,
            Format::R16G16B16Uscaled => sys::VK_FORMAT_R16G16B16_USCALED,
            Format::R16G16B16Sscaled => sys::VK_FORMAT_R16G16B16_SSCALED,
            Format::R16G16B16Uint => sys::VK_FORMAT_R16G16B16_UINT,
            Format::R16G16B16Sint => sys::VK_FORMAT_R16G16B16_SINT,
            Format::R16G16B16Sfloat => sys::VK_FORMAT_R16G16B16_SFLOAT,
            Format::R16G16B16A16Unorm => sys::VK_FORMAT_R16G16B16A16_UNORM,
            Format::R16G16B16A16Snorm => sys::VK_FORMAT_R16G16B16A16_SNORM,
            Format::R16G16B16A16Uscaled => sys::VK_FORMAT_R16G16B16A16_USCALED,
            Format::R16G16B16A16Sscaled => sys::VK_FORMAT_R16G16B16A16_SSCALED,
            Format::R16G16B16A16Uint => sys::VK_FORMAT_R16G16B16A16_UINT,
            Format::R16G16B16A16Sint => sys::VK_FORMAT_R16G16B16A16_SINT,
            Format::R16G16B16A16Sfloat => sys::VK_FORMAT_R16G16B16A16_SFLOAT,
            Format::R32Uint => sys::VK_FORMAT_R32_UINT,
            Format::R32Sint => sys::VK_FORMAT_R32_SINT,
            Format::R32Sfloat => sys::VK_FORMAT_R32_SFLOAT,
            Format::R32G32Uint => sys::VK_FORMAT_R32G32_UINT,
            Format::R32G32Sint => sys::VK_FORMAT_R32G32_SINT,
            Format::R32G32Sfloat => sys::VK_FORMAT_R32G32_SFLOAT,
            Format::R32G32B32Uint => sys::VK_FORMAT_R32G32B32_UINT,
            Format::R32G32B32Sint => sys::VK_FORMAT_R32G32B32_SINT,
            Format::R32G32B32Sfloat => sys::VK_FORMAT_R32G32B32_SFLOAT,
            Format::R32G32B32A32Uint => sys::VK_FORMAT_R32G32B32A32_UINT,
            Format::R32G32B32A32Sint => sys::VK_FORMAT_R32G32B32A32_SINT,
            Format::R32G32B32A32Sfloat => sys::VK_FORMAT_R32G32B32A32_SFLOAT,
            Format::R64Uint => sys::VK_FORMAT_R64_UINT,
            Format::R64Sint => sys::VK_FORMAT_R64_SINT,
            Format::R64Sfloat => sys::VK_FORMAT_R64_SFLOAT,
            Format::R64G64Uint => sys::VK_FORMAT_R64G64_UINT,
            Format::R64G64Sint => sys::VK_FORMAT_R64G64_SINT,
            Format::R64G64Sfloat => sys::VK_FORMAT_R64G64_SFLOAT,
            Format::R64G64B64Uint => sys::VK_FORMAT_R64G64B64_UINT,
            Format::R64G64B64Sint => sys::VK_FORMAT_R64G64B64_SINT,
            Format::R64G64B64Sfloat => sys::VK_FORMAT_R64G64B64_SFLOAT,
            Format::R64G64B64A64Uint => sys::VK_FORMAT_R64G64B64A64_UINT,
            Format::R64G64B64A64Sint => sys::VK_FORMAT_R64G64B64A64_SINT,
            Format::R64G64B64A64Sfloat => sys::VK_FORMAT_R64G64B64A64_SFLOAT,
            Format::B10G11R11UfloatPack32 => sys::VK_FORMAT_B10G11R11_UFLOAT_PACK32,
            Format::E5B9G9R9UfloatPack32 => sys::VK_FORMAT_E5B9G9R9_UFLOAT_PACK32,
            Format::D16Unorm => sys::VK_FORMAT_D16_UNORM,
            Format::X8_D24UnormPack32 => sys::VK_FORMAT_X8_D24_UNORM_PACK32,
            Format::D32Sfloat => sys::VK_FORMAT_D32_SFLOAT,
            Format::S8Uint => sys::VK_FORMAT_S8_UINT,
            Format::D16Unorm_S8Uint => sys::VK_FORMAT_D16_UNORM_S8_UINT,
            Format::D24Unorm_S8Uint => sys::VK_FORMAT_D24_UNORM_S8_UINT,
            Format::D32Sfloat_S8Uint => sys::VK_FORMAT_D32_SFLOAT_S8_UINT,
            Format::BC1_RGBUnormBlock => sys::VK_FORMAT_BC1_RGB_UNORM_BLOCK,
            Format::BC1_RGBSrgbBlock => sys::VK_FORMAT_BC1_RGB_SRGB_BLOCK,
            Format::BC1_RGBAUnormBlock => sys::VK_FORMAT_BC1_RGBA_UNORM_BLOCK,
            Format::BC1_RGBASrgbBlock => sys::VK_FORMAT_BC1_RGBA_SRGB_BLOCK,
            Format::BC2UnormBlock => sys::VK_FORMAT_BC2_UNORM_BLOCK,
            Format::BC2SrgbBlock => sys::VK_FORMAT_BC2_SRGB_BLOCK,
            Format::BC3UnormBlock => sys::VK_FORMAT_BC3_UNORM_BLOCK,
            Format::BC3SrgbBlock => sys::VK_FORMAT_BC3_SRGB_BLOCK,
            Format::BC4UnormBlock => sys::VK_FORMAT_BC4_UNORM_BLOCK,
            Format::BC4SnormBlock => sys::VK_FORMAT_BC4_SNORM_BLOCK,
            Format::BC5UnormBlock => sys::VK_FORMAT_BC5_UNORM_BLOCK,
            Format::BC5SnormBlock => sys::VK_FORMAT_BC5_SNORM_BLOCK,
            Format::BC6HUfloatBlock => sys::VK_FORMAT_BC6H_UFLOAT_BLOCK,
            Format::BC6HSfloatBlock => sys::VK_FORMAT_BC6H_SFLOAT_BLOCK,
            Format::BC7UnormBlock => sys::VK_FORMAT_BC7_UNORM_BLOCK,
            Format::BC7SrgbBlock => sys::VK_FORMAT_BC7_SRGB_BLOCK,
            Format::ETC2_R8G8B8UnormBlock => sys::VK_FORMAT_ETC2_R8G8B8_UNORM_BLOCK,
            Format::ETC2_R8G8B8SrgbBlock => sys::VK_FORMAT_ETC2_R8G8B8_SRGB_BLOCK,
            Format::ETC2_R8G8B8A1UnormBlock => sys::VK_FORMAT_ETC2_R8G8B8A1_UNORM_BLOCK,
            Format::ETC2_R8G8B8A1SrgbBlock => sys::VK_FORMAT_ETC2_R8G8B8A1_SRGB_BLOCK,
            Format::ETC2_R8G8B8A8UnormBlock => sys::VK_FORMAT_ETC2_R8G8B8A8_UNORM_BLOCK,
            Format::ETC2_R8G8B8A8SrgbBlock => sys::VK_FORMAT_ETC2_R8G8B8A8_SRGB_BLOCK,
            Format::EAC_R11UnormBlock => sys::VK_FORMAT_EAC_R11_UNORM_BLOCK,
            Format::EAC_R11SnormBlock => sys::VK_FORMAT_EAC_R11_SNORM_BLOCK,
            Format::EAC_R11G11UnormBlock => sys::VK_FORMAT_EAC_R11G11_UNORM_BLOCK,
            Format::EAC_R11G11SnormBlock => sys::VK_FORMAT_EAC_R11G11_SNORM_BLOCK,
            Format::ASTC_4x4UnormBlock => sys::VK_FORMAT_ASTC_4x4_UNORM_BLOCK,
            Format::ASTC_4x4SrgbBlock => sys::VK_FORMAT_ASTC_4x4_SRGB_BLOCK,
            Format::ASTC_5x4UnormBlock => sys::VK_FORMAT_ASTC_5x4_UNORM_BLOCK,
            Format::ASTC_5x4SrgbBlock => sys::VK_FORMAT_ASTC_5x4_SRGB_BLOCK,
            Format::ASTC_5x5UnormBlock => sys::VK_FORMAT_ASTC_5x5_UNORM_BLOCK,
            Format::ASTC_5x5SrgbBlock => sys::VK_FORMAT_ASTC_5x5_SRGB_BLOCK,
            Format::ASTC_6x5UnormBlock => sys::VK_FORMAT_ASTC_6x5_UNORM_BLOCK,
            Format::ASTC_6x5SrgbBlock => sys::VK_FORMAT_ASTC_6x5_SRGB_BLOCK,
            Format::ASTC_6x6UnormBlock => sys::VK_FORMAT_ASTC_6x6_UNORM_BLOCK,
            Format::ASTC_6x6SrgbBlock => sys::VK_FORMAT_ASTC_6x6_SRGB_BLOCK,
            Format::ASTC_8x5UnormBlock => sys::VK_FORMAT_ASTC_8x5_UNORM_BLOCK,
            Format::ASTC_8x5SrgbBlock => sys::VK_FORMAT_ASTC_8x5_SRGB_BLOCK,
            Format::ASTC_8x6UnormBlock => sys::VK_FORMAT_ASTC_8x6_UNORM_BLOCK,
            Format::ASTC_8x6SrgbBlock => sys::VK_FORMAT_ASTC_8x6_SRGB_BLOCK,
            Format::ASTC_8x8UnormBlock => sys::VK_FORMAT_ASTC_8x8_UNORM_BLOCK,
            Format::ASTC_8x8SrgbBlock => sys::VK_FORMAT_ASTC_8x8_SRGB_BLOCK,
            Format::ASTC_10x5UnormBlock => sys::VK_FORMAT_ASTC_10x5_UNORM_BLOCK,
            Format::ASTC_10x5SrgbBlock => sys::VK_FORMAT_ASTC_10x5_SRGB_BLOCK,
            Format::ASTC_10x6UnormBlock => sys::VK_FORMAT_ASTC_10x6_UNORM_BLOCK,
            Format::ASTC_10x6SrgbBlock => sys::VK_FORMAT_ASTC_10x6_SRGB_BLOCK,
            Format::ASTC_10x8UnormBlock => sys::VK_FORMAT_ASTC_10x8_UNORM_BLOCK,
            Format::ASTC_10x8SrgbBlock => sys::VK_FORMAT_ASTC_10x8_SRGB_BLOCK,
            Format::ASTC_10x10UnormBlock => sys::VK_FORMAT_ASTC_10x10_UNORM_BLOCK,
            Format::ASTC_10x10SrgbBlock => sys::VK_FORMAT_ASTC_10x10_SRGB_BLOCK,
            Format::ASTC_12x10UnormBlock => sys::VK_FORMAT_ASTC_12x10_UNORM_BLOCK,
            Format::ASTC_12x10SrgbBlock => sys::VK_FORMAT_ASTC_12x10_SRGB_BLOCK,
            Format::ASTC_12x12UnormBlock => sys::VK_FORMAT_ASTC_12x12_UNORM_BLOCK,
            Format::ASTC_12x12SrgbBlock => sys::VK_FORMAT_ASTC_12x12_SRGB_BLOCK,
            Format::Other(code) => code,
        }
    }

    /// The format that stands for a raw code.
    pub open spec fn of_code(code: i32) -> Format {
        if code == sys::VK_FORMAT_UNDEFINED {
            Format::Unknown
        } else if code == sys::VK_FORMAT_R4G4_UNORM_PACK8 {
            Format::R4G4UnormPack8
        } else if code == sys::VK_FORMAT_R4G4B4A4_UNORM_PACK16 {
            Format::R4G4B4A4UnormPack16
        } else if code == sys::VK_FORMAT_B4G4R4A4_UNORM_PACK16 {
            Format::B4G4R4A4UnormPack16
        } else if code == sys::VK_FORMAT_R5G6B5_UNORM_PACK16 {
            Format::R5G6B5UnormPack16
        } else if code == sys::VK_FORMAT_B5G6R5_UNORM_PACK16 {
            Format::B5G6R5UnormPack16
        } else if code == sys::VK_FORMAT_R5G5B5A1_UNORM_PACK16 {
            Format::R5G5B5A1UnormPack16
        } else if code == sys::VK_FORMAT_B5G5R5A1_UNORM_PACK16 {
            Format::B5G5R5A1UnormPack16
        } else if code == sys::VK_FORMAT_A1R5G5B5_UNORM_PACK16 {
            Format::A1R5G5B5UnormPack16
        } else if code == sys::VK_FORMAT_R8_UNORM {
            Format::R8Unorm
        } else if code == sys::VK_FORMAT_R8_SNORM {
            Format::R8Snorm
        } else if code == sys::VK_FORMAT_R8_USCALED {
            Format::R8Uscaled
        } else if code == sys::VK_FORMAT_R8_SSCALED {
            Format::R8Sscaled
        } else if code == sys::VK_FORMAT_R8_UINT {
            Format::R8Uint
        } else if code == sys::VK_FORMAT_R8_SINT {
            Format::R8Sint
        } else if code == sys::VK_FORMAT_R8_SRGB {
            Format::R8Srgb
        } else if code == sys::VK_FORMAT_R8G8_UNORM {
            Format::R8G8Unorm
        } else if code == sys::VK_FORMAT_R8G8_SNORM {
            Format::R8G8Snorm
        } else if code == sys::VK_FORMAT_R8G8_USCALED {
            Format::R8G8Uscaled
        } else if code == sys::VK_FORMAT_R8G8_SSCALED {
            Format::R8G8Sscaled
        } else if code == sys::VK_FORMAT_R8G8_UINT {
            Format::R8G8Uint
        } else if code == sys::VK_FORMAT_R8G8_SINT {
            Format::R8G8Sint
        } else if code == sys::VK_FORMAT_R8G8_SRGB {
            Format::R8G8Srgb
        } else if code == sys::VK_FORMAT_R8G8B8_UNORM {
            Format::R8G8B8Unorm
        } else if code == sys::VK_FORMAT_R8G8B8_SNORM {
            Format::R8G8B8Snorm
        } else if code == sys::VK_FORMAT_R8G8B8_USCALED {
            Format::R8G8B8Uscaled
        } else if code == sys::VK_FORMAT_R8G8B8_SSCALED {
            Format::R8G8B8Sscaled
        } else if code == sys::VK_FORMAT_R8G8B8_UINT {
            Format::R8G8B8Uint
        } else if code == sys::VK_FORMAT_R8G8B8_SINT {
            Format::R8G8B8Sint
        } else if code == sys::VK_FORMAT_R8G8B8_SRGB {
            Format::R8G8B8Srgb
        } else if code == sys::VK_FORMAT_B8G8R8_UNORM {
            Format::B8G8R8Unorm
        } else if code == sys::VK_FORMAT_B8G8R8_SNORM {
            Format::B8G8R8Snorm
        } else if code == sys::VK_FORMAT_B8G8R8_USCALED {
            Format::B8G8R8Uscaled
        } else if code == sys::VK_FORMAT_B8G8R8_SSCALED {
            Format::B8G8R8Sscaled
        } else if code == sys::VK_FORMAT_B8G8R8_UINT {
            Format::B8G8R8Uint
        } else if code == sys::VK_FORMAT_B8G8R8_SINT {
            Format::B8G8R8Sint
        } else if code == sys::VK_FORMAT_B8G8R8_SRGB {
            Format::B8G8R8Srgb
        } else if code == sys::VK_FORMAT_R8G8B8A8_UNORM {
            Format::R8G8B8A8Unorm
        } else if code == sys::VK_FORMAT_R8G8B8A8_SNORM {
            Format::R8G8B8A8Snorm
        } else if code == sys::VK_FORMAT_R8G8B8A8_USCALED {
            Format::R8G8B8A8Uscaled
        } else if code == sys::VK_FORMAT_R8G8B8A8_SSCALED {
            Format::R8G8B8A8Sscaled
        } else if code == sys::VK_FORMAT_R8G8B8A8_UINT {
            Format::R8G8B8A8Uint
        } else if code == sys::VK_FORMAT_R8G8B8A8_SINT {
            Format::R8G8B8A8Sint
        } else if code == sys::VK_FORMAT_R8G8B8A8_SRGB {
            Format::R8G8B8A8Srgb
        } else if code == sys::VK_FORMAT_B8G8R8A8_UNORM {
            Format::B8G8R8A8Unorm
        } else if code == sys::VK_FORMAT_B8G8R8A8_SNORM {
            Format::B8G8R8A8Snorm
        } else if code == sys::VK_FORMAT_B8G8R8A8_USCALED {
            Format::B8G8R8A8Uscaled
        } else if code == sys::VK_FORMAT_B8G8R8A8_SSCALED {
            Format::B8G8R8A8Sscaled
        } else if code == sys::VK_FORMAT_B8G8R8A8_UINT {
            Format::B8G8R8A8Uint
        } else if code == sys::VK_FORMAT_B8G8R8A8_SINT {
            Format::B8G8R8A8Sint
        } else if code == sys::VK_FORMAT_B8G8R8A8_SRGB {
            Format::B8G8R8A8Srgb
        } else if code == sys::VK_FORMAT_A8B8G8R8_UNORM_PACK32 {
            Format::A8B8G8R8UnormPack32
        } else if code == sys::VK_FORMAT_A8B8G8R8_SNORM_PACK32 {
            Format::A8B8G8R8SnormPack32
        } else if code == sys::VK_FORMAT_A8B8G8R8_USCALED_PACK32 {
            Format::A8B8G8R8UscaledPack32
        } else if code == sys::VK_FORMAT_A8B8G8R8_SSCALED_PACK32 {
            Format::A8B8G8R8SscaledPack32
        } else if code == sys::VK_FORMAT_A8B8G8R8_UINT_PACK32 {
            Format::A8B8G8R8UintPack32
        } else if code == sys::VK_FORMAT_A8B8G8R8_SINT_PACK32 {
            Format::A8B8G8R8SintPack32
        } else if code == sys::VK_FORMAT_A8B8G8R8_SRGB_PACK32 {
            Format::A8B8G8R8SrgbPack32
        } else if code == sys::VK_FORMAT_A2R10G10B10_UNORM_PACK32 {
            Format::A2R10G10B10UnormPack32
        } else if code == sys::VK_FORMAT_A2R10G10B10_SNORM_PACK32 {
            Format::A2R10G10B10SnormPack32
        } else if code == sys::VK_FORMAT_A2R10G10B10_USCALED_PACK32 {
            Format::A2R10G10B10UscaledPack32
        } else if code == sys::VK_FORMAT_A2R10G10B10_SSCALED_PACK32 {
            Format::A2R10G10B10SscaledPack32
        } else if code == sys::VK_FORMAT_A2R10G10B10_UINT_PACK32 {
            Format::A2R10G10B10UintPack32
        } else if code == sys::VK_FORMAT_A2R10G10B10_SINT_PACK32 {
            Format::A2R10G10B10SintPack32
        } else if code == sys::VK_FORMAT_A2B10G10R10_UNORM_PACK32 {
            Format::A2B10G10R10UnormPack32
        } else if code == sys::VK_FORMAT_A2B10G10R10_SNORM_PACK32 {
            Format::A2B10G10R10SnormPack32
        } else if code == sys::VK_FORMAT_A2B10G10R10_USCALED_PACK32 {
            Format::A2B10G10R10UscaledPack32
        } else if code == sys::VK_FORMAT_A2B10G10R10_SSCALED_PACK32 {
            Format::A2B10G10R10SscaledPack32
        } else if code == sys::VK_FORMAT_A2B10G10R10_UINT_PACK32 {
            Format::A2B10G10R10UintPack32
        } else if code == sys::VK_FORMAT_A2B10G10R10_SINT_PACK32 {
            Format::A2B10G10R10SintPack32
        } else if code == sys::VK_FORMAT_R16_UNORM {
            Format::R16Unorm
        } else if code == sys::VK_FORMAT_R16_SNORM {
            Format::R16Snorm
        } else if code == sys::VK_FORMAT_R16_USCALED {
            Format::R16Uscaled
        } else if code == sys::VK_FORMAT_R16_SSCALED {
            Format::R16Sscaled
        } else if code == sys::VK_FORMAT_R16_UINT {
            Format::R16Uint
        } else if code == sys::VK_FORMAT_R16_SINT {
            Format::R16Sint
        } else if code == sys::VK_FORMAT_R16_SFLOAT {
            Format::R16Sfloat
        } else if code == sys::VK_FORMAT_R16G16_UNORM {
            Format::R16G16Unorm
        } else if code == sys::VK_FORMAT_R16G16_SNORM {
            Format::R16G16Snorm
        } else if code == sys::VK_FORMAT_R16G16_USCALED {
            Format::R16G16Uscaled
        } else if code == sys::VK_FORMAT_R16G16_SSCALED {
            Format::R16G16Sscaled
        } else if code == sys::VK_FORMAT_R16G16_UINT {
            Format::R16G16Uint
        } else if code == sys::VK_FORMAT_R16G16_SINT {
            Format::R16G16Sint
        } else if code == sys::VK_FORMAT_R16G16_SFLOAT {
            Format::R16G16Sfloat
        } else if code == sys::VK_FORMAT_R16G16B16_UNORM {
            Format::R16G16B16Unorm
        } else if code == sys::VK_FORMAT_R16G16B16_SNORM {
            Format::R16G16B16Snorm
        } else if code == sys::VK_FORMAT_R16G16B16_USCALED {
            Format::R16G16B16Uscaled
        } else if code == sys::VK_FORMAT_R16G16B16_SSCALED {
            Format::R16G16B16Sscaled
        } else if code == sys::VK_FORMAT_R16G16B16_UINT {
            Format::R16G16B16Uint
        } else if code == sys::VK_FORMAT_R16G16B16_SINT {
            Format::R16G16B16Sint
        } else if code == sys::VK_FORMAT_R16G16B16_SFLOAT {
            Format::R16G16B16Sfloat
        } else if code == sys::VK_FORMAT_R16G16B16A16_UNORM {
            Format::R16G16B16A16Unorm
        } else if code == sys::VK_FORMAT_R16G16B16A16_SNORM {
            Format::R16G16B16A16Snorm
        } else if code == sys::VK_FORMAT_R16G16B16A16_USCALED {
            Format::R16G16B16A16Uscaled
        } else if code == sys::VK_FORMAT_R16G16B16A16_SSCALED {
            Format::R16G16B16A16Sscaled
        } else if code == sys::VK_FORMAT_R16G16B16A16_UINT {
            Format::R16G16B16A16Uint
        } else if code == sys::VK_FORMAT_R16G16B16A16_SINT {
            Format::R16G16B16A16Sint
        } else if code == sys::VK_FORMAT_R16G16B16A16_SFLOAT {
            Format::R16G16B16A16Sfloat
        } else if code == sys::VK_FORMAT_R32_UINT {
            Format::R32Uint
        } else if code == sys::VK_FORMAT_R32_SINT {
            Format::R32Sint
        } else if code == sys::VK_FORMAT_R32_SFLOAT {
            Format::R32Sfloat
        } else if code == sys::VK_FORMAT_R32G32_UINT {
            Format::R32G32Uint
        } else if code == sys::VK_FORMAT_R32G32_SINT {
            Format::R32G32Sint
        } else if code == sys::VK_FORMAT_R32G32_SFLOAT {
            Format::R32G32Sfloat
        } else if code == sys::VK_FORMAT_R32G32B32_UINT {
            Format::R32G32B32Uint
        } else if code == sys::VK_FORMAT_R32G32B32_SINT {
            Format::R32G32B32Sint
        } else if code == sys::VK_FORMAT_R32G32B32_SFLOAT {
            Format::R32G32B32Sfloat
        } else if code == sys::VK_FORMAT_R32G32B32A32_UINT {
            Format::R32G32B32A32Uint
        } else if code == sys::VK_FORMAT_R32G32B32A32_SINT {
            Format::R32G32B32A32Sint
        } else if code == sys::VK_FORMAT_R32G32B32A32_SFLOAT {
            Format::R32G32B32A32Sfloat
        } else if code == sys::VK_FORMAT_R64_UINT {
            Format::R64Uint
        } else if code == sys::VK_FORMAT_R64_SINT {
            Format::R64Sint
        } else if code == sys::VK_FORMAT_R64_SFLOAT {
            Format::R64Sfloat
        } else if code == sys::VK_FORMAT_R64G64_UINT {
            Format::R64G64Uint
        } else if code == sys::VK_FORMAT_R64G64_SINT {
            Format::R64G64Sint
        } else if code == sys::VK_FORMAT_R64G64_SFLOAT {
            Format::R64G64Sfloat
        } else if code == sys::VK_FORMAT_R64G64B64_UINT {
            Format::R64G64B64Uint
        } else if code == sys::VK_FORMAT_R64G64B64_SINT {
            Format::R64G64B64Sint
        } else if code == sys::VK_FORMAT_R64G64B64_SFLOAT {
            Format::R64G64B64Sfloat
        } else if code == sys::VK_FORMAT_R64G64B64A64_UINT {
            Format::R64G64B64A64Uint
        } else if code == sys::VK_FORMAT_R64G64B64A64_SINT {
            Format::R64G64B64A64Sint
        } else if code == sys::VK_FORMAT_R64G64B64A64_SFLOAT {
            Format::R64G64B64A64Sfloat
        } else if code == sys::VK_FORMAT_B10G11R11_UFLOAT_PACK32 {
            Format::B10G11R11UfloatPack32
        } else if code == sys::VK_FORMAT_E5B9G9R9_UFLOAT_PACK32 {
            Format::E5B9G9R9UfloatPack32
        } else if code == sys::VK_FORMAT_D16_UNORM {
            Format::D16Unorm
        } else if code == sys::VK_FORMAT_X8_D24_UNORM_PACK32 {
            Format::X8_D24UnormPack32
        } else if code == sys::VK_FORMAT_D32_SFLOAT {
            Format::D32Sfloat
        } else if code == sys::VK_FORMAT_S8_UINT {
            Format::S8Uint
        } else if code == sys::VK_FORMAT_D16_UNORM_S8_UINT {
            Format::D16Unorm_S8Uint
        } else if code == sys::VK_FORMAT_D24_UNORM_S8_UINT {
            Format::D24Unorm_S8Uint
        } else if code == sys::VK_FORMAT_D32_SFLOAT_S8_UINT {
            Format::D32Sfloat_S8Uint
        } else if code == sys::VK_FORMAT_BC1_RGB_UNORM_BLOCK {
            Format::BC1_RGBUnormBlock
        } else if code == sys::VK_FORMAT_BC1_RGB_SRGB_BLOCK {
            Format::BC1_RGBSrgbBlock
        } else if code == sys::VK_FORMAT_BC1_RGBA_UNORM_BLOCK {
            Format::BC1_RGBAUnormBlock
        } else if code == sys::VK_FORMAT_BC1_RGBA_SRGB_BLOCK {
            Format::BC1_RGBASrgbBlock
        } else if code == sys::VK_FORMAT_BC2_UNORM_BLOCK {
            Format::BC2UnormBlock
        } else if code == sys::VK_FORMAT_BC2_SRGB_BLOCK {
            Format::BC2SrgbBlock
        } else if code == sys::VK_FORMAT_BC3_UNORM_BLOCK {
            Format::BC3UnormBlock
        } else if code == sys::VK_FORMAT_BC3_SRGB_BLOCK {
            Format::BC3SrgbBlock
        } else if code == sys::VK_FORMAT_BC4_UNORM_BLOCK {
            Format::BC4UnormBlock
        } else if code == sys::VK_FORMAT_BC4_SNORM_BLOCK {
            Format::BC4SnormBlock
        } else if code == sys::VK_FORMAT_BC5_UNORM_BLOCK {
            Format::BC5UnormBlock
        } else if code == sys::VK_FORMAT_BC5_SNORM_BLOCK {
            Format::BC5SnormBlock
        } else if code == sys::VK_FORMAT_BC6H_UFLOAT_BLOCK {
            Format::BC6HUfloatBlock
        } else if code == sys::VK_FORMAT_BC6H_SFLOAT_BLOCK {
            Format::BC6HSfloatBlock
        } else if code == sys::VK_FORMAT_BC7_UNORM_BLOCK {
            Format::BC7UnormBlock
        } else if code == sys::VK_FORMAT_BC7_SRGB_BLOCK {
            Format::BC7SrgbBlock
        } else if code == sys::VK_FORMAT_ETC2_R8G8B8_UNORM_BLOCK {
            Format::ETC2_R8G8B8UnormBlock
        } else if code == sys::VK_FORMAT_ETC2_R8G8B8_SRGB_BLOCK {
            Format::ETC2_R8G8B8SrgbBlock
        } else if code == sys::VK_FORMAT_ETC2_R8G8B8A1_UNORM_BLOCK {
            Format::ETC2_R8G8B8A1UnormBlock
        } else if code == sys::VK_FORMAT_ETC2_R8G8B8A1_SRGB_BLOCK {
            Format::ETC2_R8G8B8A1SrgbBlock
        } else if code == sys::VK_FORMAT_ETC2_R8G8B8A8_UNORM_BLOCK {
            Format::ETC2_R8G8B8A8UnormBlock
        } else if code == sys::VK_FORMAT_ETC2_R8G8B8A8_SRGB_BLOCK {
            Format::ETC2_R8G8B8A8SrgbBlock
        } else if code == sys::VK_FORMAT_EAC_R11_UNORM_BLOCK {
            Format::EAC_R11UnormBlock
        } else if code == sys::VK_FORMAT_EAC_R11_SNORM_BLOCK {
            Format::EAC_R11SnormBlock
        } else if code == sys::VK_FORMAT_EAC_R11G11_UNORM_BLOCK {
            Format::EAC_R11G11UnormBlock
        } else if code == sys::VK_FORMAT_EAC_R11G11_SNORM_BLOCK {
            Format::EAC_R11G11SnormBlock
        } else if code == sys::VK_FORMAT_ASTC_4x4_UNORM_BLOCK {
            Format::ASTC_4x4UnormBlock
        } else if code == sys::VK_FORMAT_ASTC_4x4_SRGB_BLOCK {
            Format::ASTC_4x4SrgbBlock
        } else if code == sys::VK_FORMAT_ASTC_5x4_UNORM_BLOCK {
            Format::ASTC_5x4UnormBlock
        } else if code == sys::VK_FORMAT_ASTC_5x4_SRGB_BLOCK {
            Format::ASTC_5x4SrgbBlock
        } else if code == sys::VK_FORMAT_ASTC_5x5_UNORM_BLOCK {
            Format::ASTC_5x5UnormBlock
        } else if code == sys::VK_FORMAT_ASTC_5x5_SRGB_BLOCK {
            Format::ASTC_5x5SrgbBlock
        } else if code == sys::VK_FORMAT_ASTC_6x5_UNORM_BLOCK {
            Format::ASTC_6x5UnormBlock
        } else if code == sys::VK_FORMAT_ASTC_6x5_SRGB_BLOCK {
            Format::ASTC_6x5SrgbBlock
        } else if code == sys::VK_FORMAT_ASTC_6x6_UNORM_BLOCK {
            Format::ASTC_6x6UnormBlock
        } else if code == sys::VK_FORMAT_ASTC_6x6_SRGB_BLOCK {
            Format::ASTC_6x6SrgbBlock
        } else if code == sys::VK_FORMAT_ASTC_8x5_UNORM_BLOCK {
            Format::ASTC_8x5UnormBlock
        } else if code == sys::VK_FORMAT_ASTC_8x5_SRGB_BLOCK {
            Format::ASTC_8x5SrgbBlock
        } else if code == sys::VK_FORMAT_ASTC_8x6_UNORM_BLOCK {
            Format::ASTC_8x6UnormBlock
        } else if code == sys::VK_FORMAT_ASTC_8x6_SRGB_BLOCK {
            Format::ASTC_8x6SrgbBlock
        } else if code == sys::VK_FORMAT_ASTC_8x8_UNORM_BLOCK {
            Format::ASTC_8x8UnormBlock
        } else if code == sys::VK_FORMAT_ASTC_8x8_SRGB_BLOCK {
            Format::ASTC_8x8SrgbBlock
        } else if code == sys::VK_FORMAT_ASTC_10x5_UNORM_BLOCK {
            Format::ASTC_10x5UnormBlock
        } else if code == sys::VK_FORMAT_ASTC_10x5_SRGB_BLOCK {
            Format::ASTC_10x5SrgbBlock
        } else if code == sys::VK_FORMAT_ASTC_10x6_UNORM_BLOCK {
            Format::ASTC_10x6UnormBlock
        } else if code == sys::VK_FORMAT_ASTC_10x6_SRGB_BLOCK {
            Format::ASTC_10x6SrgbBlock
        } else if code == sys::VK_FORMAT_ASTC_10x8_UNORM_BLOCK {
            Format::ASTC_10x8UnormBlock
        } else if code == sys::VK_FORMAT_ASTC_10x8_SRGB_BLOCK {
            Format::ASTC_10x8SrgbBlock
        } else if code == sys::VK_FORMAT_ASTC_10x10_UNORM_BLOCK {
            Format::ASTC_10x10UnormBlock
        } else if code == sys::VK_FORMAT_ASTC_10x10_SRGB_BLOCK {
            Format::ASTC_10x10SrgbBlock
        } else if code == sys::VK_FORMAT_ASTC_12x10_UNORM_BLOCK {
            Format::ASTC_12x10UnormBlock
        } else if code == sys::VK_FORMAT_ASTC_12x10_SRGB_BLOCK {
            Format::ASTC_12x10SrgbBlock
        } else if code == sys::VK_FORMAT_ASTC_12x12_UNORM_BLOCK {
            Format::ASTC_12x12UnormBlock
        } else if code == sys::VK_FORMAT_ASTC_12x12_SRGB_BLOCK {
            Format::ASTC_12x12SrgbBlock
        } else {
            Format::Other(code)
        }
    }

    /// Raw to semantic to raw gives the raw code back, for every 32-bit code,
    /// those without a case of their own included.
    #[verifier::rlimit(40)]
    #[verifier::spinoff_prover]
    pub proof fn lemma_raw_round_trip(code: i32)
        ensures
            Format::of_code(code).wf(),
            Format::of_code(code).code() == code,
            !(0 <= code < sys::VK_FORMAT_NAMED_END) ==> Format::of_code(code) == Format::Other(
                code,
            ),
    {
    }

    /// Semantic to raw to semantic gives the format back, for every
    /// well-formed format.
    pub proof fn lemma_semantic_round_trip(format: Format)
        requires
            format.wf(),
        ensures
            Format::of_code(format.code()) == format,
    {
    }

    /// Two well-formed formats with the same raw code are the same format.
    pub proof fn lemma_code_is_injective(a: Format, b: Format)
        requires
            a.wf(),
            b.wf(),
            a.code() == b.code(),
        ensures
            a == b,
    {
        Format::lemma_semantic_round_trip(a);
        Format::lemma_semantic_round_trip(b);
    }
}

impl From<sys::VkFormat> for Format {
    /// Reads a raw format code.
    fn from(raw: sys::VkFormat) -> (r: Format)
        ensures
            r.wf(),
    {
        match raw.0 {
            0 => Format::Unknown,
            1 => Format::R4G4UnormPack8,
            2 => Format::R4G4B4A4UnormPack16,
            3 => Format::B4G4R4A4UnormPack16,
            4 => Format::R5G6B5UnormPack16,
            5 => Format::B5G6R5UnormPack16,
            6 => Format::R5G5B5A1UnormPack16,
            7 => Format::B5G5R5A1UnormPack16,
            8 => Format::A1R5G5B5UnormPack16,
            9 => Format::R8Unorm,
            10 => Format::R8Snorm,
            11 => Format::R8Uscaled,
            12 => Format::R8Sscaled,
            13 => Format::R8Uint,
            14 => Format::R8Sint,
            15 => Format::R8Srgb,
            16 => Format::R8G8Unorm,
            17 => Format::R8G8Snorm,
            18 => Format::R8G8Uscaled,
            19 => Format::R8G8Sscaled,
            20 => Format::R8G8Uint,
            21 => Format::R8G8Sint,
            22 => Format::R8G8Srgb,
            23 => Format::R8G8B8Unorm,
            24 => Format::R8G8B8Snorm,
            25 => Format::R8G8B8Uscaled,
            26 => Format::R8G8B8Sscaled,
            27 => Format::R8G8B8Uint,
            28 => Format::R8G8B8Sint,
            29 => Format::R8G8B8Srgb,
            30 => Format::B8G8R8Unorm,
            31 => Format::B8G8R8Snorm,
            32 => Format::B8G8R8Uscaled,
            33 => Format::B8G8R8Sscaled,
            34 => Format::B8G8R8Uint,
            35 => Format::B8G8R8Sint,
            36 => Format::B8G8R8Srgb,
            37 => Format::R8G8B8A8Unorm,
            38 => Format::R8G8B8A8Snorm,
            39 => Format::R8G8B8A8Uscaled,
            40 => Format::R8G8B8A8Sscaled,
            41 => Format::R8G8B8A8Uint,
            42 => Format::R8G8B8A8Sint,
            43 => Format::R8G8B8A8Srgb,
            44 => Format::B8G8R8A8Unorm,
            45 => Format::B8G8R8A8Snorm,
            46 => Format::B8G8R8A8Uscaled,
            47 => Format::B8G8R8A8Sscaled,
            48 => Format::B8G8R8A8Uint,
            49 => Format::B8G8R8A8Sint,
            50 => Format::B8G8R8A8Srgb,
            51 => Format::A8B8G8R8UnormPack32,
            52 => Format::A8B8G8R8SnormPack32,
            53 => Format::A8B8G8R8UscaledPack32,
            54 => Format::A8B8G8R8SscaledPack32,
            55 => Format::A8B8G8R8UintPack32,
            56 => Format::A8B8G8R8SintPack32,
            57 => Format::A8B8G8R8SrgbPack32,
            58 => Format::A2R10G10B10UnormPack32,
            59 => Format::A2R10G10B10SnormPack32,
            60 => Format::A2R10G10B10UscaledPack32,
            61 => Format::A2R10G10B10SscaledPack32,
            62 => Format::A2R10G10B10UintPack32,
            63 => Format::A2R10G10B10SintPack32,
            64 => Format::A2B10G10R10UnormPack32,
            65 => Format::A2B10G10R10SnormPack32,
            66 => Format::A2B10G10R10UscaledPack32,
            67 => Format::A2B10G10R10SscaledPack32,
            68 => Format::A2B10G10R10UintPack32,
            69 => Format::A2B10G10R10SintPack32,
            70 => Format::R16Unorm,
            71 => Format::R16Snorm,
            72 => Format::R16Uscaled,
            73 => Format::R16Sscaled,
            74 => Format::R16Uint,
            75 => Format::R16Sint,
            76 => Format::R16Sfloat,
            77 => Format::R16G16Unorm,
            78 => Format::R16G16Snorm,
            79 => Format::R16G16Uscaled,
            80 => Format::R16G16Sscaled,
            81 => Format::R16G16Uint,
            82 => Format::R16G16Sint,
            83 => Format::R16G16Sfloat,
            84 => Format::R16G16B16Unorm,
            85 => Format::R16G16B16Snorm,
            86 => Format::R16G16B16Uscaled,
            87 => Format::R16G16B16Sscaled,
            88 => Format::R16G16B16Uint,
            89 => Format::R16G16B16Sint,
            90 => Format::R16G16B16Sfloat,
            91 => Format::R16G16B16A16Unorm,
            92 => Format::R16G16B16A16Snorm,
            93 => Format::R16G16B16A16Uscaled,
            94 => Format::R16G16B16A16Sscaled,
            95 => Format::R16G16B16A16Uint,
            96 => Format::R16G16B16A16Sint,
            97 => Format::R16G16B16A16Sfloat,
            98 => Format::R32Uint,
            99 => Format::R32Sint,
            100 => Format::R32Sfloat,
            101 => Format::R32G32Uint,
            102 => Format::R32G32Sint,
            103 => Format::R32G32Sfloat,
            104 => Format::R32G32B32Uint,
            105 => Format::R32G32B32Sint,
            106 => Format::R32G32B32Sfloat,
            107 => Format::R32G32B32A32Uint,
            108 => Format::R32G32B32A32Sint,
            109 => Format::R32G32B32A32Sfloat,
            110 => Format::R64Uint,
            111 => Format::R64Sint,
            112 => Format::R64Sfloat,
            113 => Format::R64G64Uint,
            114 => Format::R64G64Sint,
            115 => Format::R64G64Sfloat,
            116 => Format::R64G64B64Uint,
            117 => Format::R64G64B64Sint,
            118 => Format::R64G64B64Sfloat,
            119 => Format::R64G64B64A64Uint,
            120 => Format::R64G64B64A64Sint,
            121 => Format::R64G64B64A64Sfloat,
            122 => Format::B10G11R11UfloatPack32,
            123 => Format::E5B9G9R9UfloatPack32,
            124 => Format::D16Unorm,
            125 => Format::X8_D24UnormPack32,
            126 => Format::D32Sfloat,
            127 => Format::S8Uint,
            128 => Format::D16Unorm_S8Uint,
            129 => Format::D24Unorm_S8Uint,
            130 => Format::D32Sfloat_S8Uint,
            131 => Format::BC1_RGBUnormBlock,
            132 => Format::BC1_RGBSrgbBlock,
            133 => Format::BC1_RGBAUnormBlock,
            134 => Format::BC1_RGBASrgbBlock,
            135 => Format::BC2UnormBlock,
            136 => Format::BC2SrgbBlock,
            137 => Format::BC3UnormBlock,
            138 => Format::BC3SrgbBlock,
            139 => Format::BC4UnormBlock,
            140 => Format::BC4SnormBlock,
            141 => Format::BC5UnormBlock,
            142 => Format::BC5SnormBlock,
            143 => Format::BC6HUfloatBlock,
            144 => Format::BC6HSfloatBlock,
            145 => Format::BC7UnormBlock,
            146 => Format::BC7SrgbBlock,
            147 => Format::ETC2_R8G8B8UnormBlock,
            148 => Format::ETC2_R8G8B8SrgbBlock,
            149 => Format::ETC2_R8G8B8A1UnormBlock,
            150 => Format::ETC2_R8G8B8A1SrgbBlock,
            151 => Format::ETC2_R8G8B8A8UnormBlock,
            152 => Format::ETC2_R8G8B8A8SrgbBlock,
            153 => Format::EAC_R11UnormBlock,
            154 => Format::EAC_R11SnormBlock,
            155 => Format::EAC_R11G11UnormBlock,
            156 => Format::EAC_R11G11SnormBlock,
            157 => Format::ASTC_4x4UnormBlock,
            158 => Format::ASTC_4x4SrgbBlock,
            159 => Format::ASTC_5x4UnormBlock,
            160 => Format::ASTC_5x4SrgbBlock,
            161 => Format::ASTC_5x5UnormBlock,
            162 => Format::ASTC_5x5SrgbBlock,
            163 => Format::ASTC_6x5UnormBlock,
            164 => Format::ASTC_6x5SrgbBlock,
            165 => Format::ASTC_6x6UnormBlock,
            166 => Format::ASTC_6x6SrgbBlock,
            167 => Format::ASTC_8x5UnormBlock,
            168 => Format::ASTC_8x5SrgbBlock,
            169 => Format::ASTC_8x6UnormBlock,
            170 => Format::ASTC_8x6SrgbBlock,
            171 => Format::ASTC_8x8UnormBlock,
            172 => Format::ASTC_8x8SrgbBlock,
            173 => Format::ASTC_10x5UnormBlock,
            174 => Format::ASTC_10x5SrgbBlock,
            175 => Format::ASTC_10x6UnormBlock,
            176 => Format::ASTC_10x6SrgbBlock,
            177 => Format::ASTC_10x8UnormBlock,
            178 => Format::ASTC_10x8SrgbBlock,
            179 => Format::ASTC_10x10UnormBlock,
            180 => Format::ASTC_10x10SrgbBlock,
            181 => Format::ASTC_12x10UnormBlock,
            182 => Format::ASTC_12x10SrgbBlock,
            183 => Format::ASTC_12x12UnormBlock,
            184 => Format::ASTC_12x12SrgbBlock,
            other => Format::Other(other),
        }
    }
}

impl vstd::std_specs::convert::FromSpecImpl<sys::VkFormat> for Format {
    open spec fn obeys_from_spec() -> bool {
        true
    }

    open spec fn from_spec(raw: sys::VkFormat) -> Format {
        Format::of_code(raw.0)
    }
}

impl From<Format> for sys::VkFormat {
    /// Writes the format as its raw code.
    fn from(format: Format) -> (r: sys::VkFormat) {
        match format {
            Format::Unknown => sys::VkFormat(sys::VK_FORMAT_UNDEFINED),
            Format::R4G4UnormPack8 => sys::VkFormat(sys::VK_FORMAT_R4G4_UNORM_PACK8),
            Format::R4G4B4A4UnormPack16 => sys::VkFormat(sys::VK_FORMAT_R4G4B4A4_UNORM_PACK16),
            Format::B4G4R4A4UnormPack16 => sys::VkFormat(sys::VK_FORMAT_B4G4R4A4_UNORM_PACK16),
            Format::R5G6B5UnormPack16 => sys::VkFormat(sys::VK_FORMAT_R5G6B5_UNORM_PACK16),
            Format::B5G6R5UnormPack16 => sys::VkFormat(sys::VK_FORMAT_B5G6R5_UNORM_PACK16),
            Format::R5G5B5A1UnormPack16 => sys::VkFormat(sys::VK_FORMAT_R5G5B5A1_UNORM_PACK16),
            Format::B5G5R5A1UnormPack16 => sys::VkFormat(sys::VK_FORMAT_B5G5R5A1_UNORM_PACK16),
            Format::A1R5G5B5UnormPack16 => sys::VkFormat(sys::VK_FORMAT_A1R5G5B5_UNORM_PACK16),
            Format::R8Unorm => sys::VkFormat(sys::VK_FORMAT_R8_UNORM),
            Format::R8Snorm => sys::VkFormat(sys::VK_FORMAT_R8_SNORM),
            Format::R8Uscaled => sys::VkFormat(sys::VK_FORMAT_R8_USCALED),
            Format::R8Sscaled => sys::VkFormat(sys::VK_FORMAT_R8_SSCALED),
            Format::R8Uint => sys::VkFormat(sys::VK_FORMAT_R8_UINT),
            Format::R8Sint => sys::VkFormat(sys::VK_FORMAT_R8_SINT),
            Format::R8Srgb => sys::VkFormat(sys::VK_FORMAT_R8_SRGB),
            Format::R8G8Unorm => sys::VkFormat(sys::VK_FORMAT_R8G8_UNORM),
            Format::R8G8Snorm => sys::VkFormat(sys::VK_FORMAT_R8G8_SNORM),
            Format::R8G8Uscaled => sys::VkFormat(sys::VK_FORMAT_R8G8_USCALED),
            Format::R8G8Sscaled => sys::VkFormat(sys::VK_FORMAT_R8G8_SSCALED),
            Format::R8G8Uint => sys::VkFormat(sys::VK_FORMAT_R8G8_UINT),
            Format::R8G8Sint => sys::VkFormat(sys::VK_FORMAT_R8G8_SINT),
            Format::R8G8Srgb => sys::VkFormat(sys::VK_FORMAT_R8G8_SRGB),
            Format::R8G8B8Unorm => sys::VkFormat(sys::VK_FORMAT_R8G8B8_UNORM),
            Format::R8G8B8Snorm => sys::VkFormat(sys::VK_FORMAT_R8G8B8_SNORM),
            Format::R8G8B8Uscaled => sys::VkFormat(sys::VK_FORMAT_R8G8B8_USCALED),
            Format::R8G8B8Sscaled => sys::VkFormat(sys::VK_FORMAT_R8G8B8_SSCALED),
            Format::R8G8B8Uint => sys::VkFormat(sys::VK_FORMAT_R8G8B8_UINT),
            Format::R8G8B8Sint => sys::VkFormat(sys::VK_FORMAT_R8G8B8_SINT),
            Format::R8G8B8Srgb => sys::VkFormat(sys::VK_FORMAT_R8G8B8_SRGB),
            Format::B8G8R8Unorm => sys::VkFormat(sys::VK_FORMAT_B8G8R8_UNORM),
            Format::B8G8R8Snorm => sys::VkFormat(sys::VK_FORMAT_B8G8R8_SNORM),
            Format::B8G8R8Uscaled => sys::VkFormat(sys::VK_FORMAT_B8G8R8_USCALED),
            Format::B8G8R8Sscaled => sys::VkFormat(sys::VK_FORMAT_B8G8R8_SSCALED),
            Format::B8G8R8Uint => sys::VkFormat(sys::VK_FORMAT_B8G8R8_UINT),
            Format::B8G8R8Sint => sys::VkFormat(sys::VK_FORMAT_B8G8R8_SINT),
            Format::B8G8R8Srgb => sys::VkFormat(sys::VK_FORMAT_B8G8R8_SRGB),
            Format::R8G8B8A8Unorm => sys::VkFormat(sys::VK_FORMAT_R8G8B8A8_UNORM),
            Format::R8G8B8A8Snorm => sys::VkFormat(sys::VK_FORMAT_R8G8B8A8_SNORM),
            Format::R8G8B8A8Uscaled => sys::VkFormat(sys::VK_FORMAT_R8G8B8A8_USCALED),
            Format::R8G8B8A8Sscaled => sys::VkFormat(sys::VK_FORMAT_R8G8B8A8_SSCALED),
            Format::R8G8B8A8Uint => sys::VkFormat(sys::VK_FORMAT_R8G8B8A8_UINT),
            Format::R8G8B8A8Sint => sys::VkFormat(sys::VK_FORMAT_R8G8B8A8_SINT),
            Format::R8G8B8A8Srgb => sys::VkFormat(sys::VK_FORMAT_R8G8B8A8_SRGB),
            Format::B8G8R8A8Unorm => sys::VkFormat(sys::VK_FORMAT_B8G8R8A8_UNORM),
            Format::B8G8R8A8Snorm => sys::VkFormat(sys::VK_FORMAT_B8G8R8A8_SNORM),
            Format::B8G8R8A8Uscaled => sys::VkFormat(sys::VK_FORMAT_B8G8R8A8_USCALED),
            Format::B8G8R8A8Sscaled => sys::VkFormat(sys::VK_FORMAT_B8G8R8A8_SSCALED),
            Format::B8G8R8A8Uint => sys::VkFormat(sys::VK_FORMAT_B8G8R8A8_UINT),
            Format::B8G8R8A8Sint => sys::VkFormat(sys::VK_FORMAT_B8G8R8A8_SINT),
            Format::B8G8R8A8Srgb => sys::VkFormat(sys::VK_FORMAT_B8G8R8A8_SRGB),
            Format::A8B8G8R8UnormPack32 => sys::VkFormat(sys::VK_FORMAT_A8B8G8R8_UNORM_PACK32),
            Format::A8B8G8R8SnormPack32 => sys::VkFormat(sys::VK_FORMAT_A8B8G8R8_SNORM_PACK32),
            Format::A8B8G8R8UscaledPack32 => sys::VkFormat(sys::VK_FORMAT_A8B8G8R8_USCALED_PACK32),
            Format::A8B8G8R8SscaledPack32 => sys::VkFormat(sys::VK_FORMAT_A8B8G8R8_SSCALED_PACK32),
            Format::A8B8G8R8UintPack32 => sys::VkFormat(sys::VK_FORMAT_A8B8G8R8_UINT_PACK32),
            Format::A8B8G8R8SintPack32 => sys::VkFormat(sys::VK_FORMAT_A8B8G8R8_SINT_PACK32),
            Format::A8B8G8R8SrgbPack32 => sys::VkFormat(sys::VK_FORMAT_A8B8G8R8_SRGB_PACK32),
            Format::A2R10G10B10UnormPack32 => sys::VkFormat(sys::VK_FORMAT_A2R10G10B10_UNORM_PACK32),
            Format::A2R10G10B10SnormPack32 => sys::VkFormat(sys::VK_FORMAT_A2R10G10B10_SNORM_PACK32),
            Format::A2R10G10B10UscaledPack32 => sys::VkFormat(sys::VK_FORMAT_A2R10G10B10_USCALED_PACK32),
            Format::A2R10G10B10SscaledPack32 => sys::VkFormat(sys::VK_FORMAT_A2R10G10B10_SSCALED_PACK32),
            Format::A2R10G10B10UintPack32 => sys::VkFormat(sys::VK_FORMAT_A2R10G10B10_UINT_PACK32),
            Format::A2R10G10B10SintPack32 => sys::VkFormat(sys::VK_FORMAT_A2R10G10B10_SINT_PACK32),
            Format::A2B10G10R10UnormPack32 => sys::VkFormat(sys::VK_FORMAT_A2B10G10R10_UNORM_PACK32),
            Format::A2B10G10R10SnormPack32 => sys::VkFormat(sys::VK_FORMAT_A2B10G10R10_SNORM_PACK32),
            Format::A2B10G10R10UscaledPack32 => sys::VkFormat(sys::VK_FORMAT_A2B10G10R10_USCALED_PACK32),
            Format::A2B10G10R10SscaledPack32 => sys::VkFormat(sys::VK_FORMAT_A2B10G10R10_SSCALED_PACK32),
            Format::A2B10G10R10UintPack32 => sys::VkFormat(sys::VK_FORMAT_A2B10G10R10_UINT_PACK32),
            Format::A2B10G10R10SintPack32 => sys::VkFormat(sys::VK_FORMAT_A2B10G10R10_SINT_PACK32),
            Format::R16Unorm => sys::VkFormat(sys::VK_FORMAT_R16_UNORM),
            Format::R16Snorm => sys::VkFormat(sys::VK_FORMAT_R16_SNORM),
            Format::R16Uscaled => sys::VkFormat(sys::VK_FORMAT_R16_USCALED),
            Format::R16Sscaled => sys::VkFormat(sys::VK_FORMAT_R16_SSCALED),
            Format::R16Uint => sys::VkFormat(sys::VK_FORMAT_R16_UINT),
            Format::R16Sint => sys::VkFormat(sys::VK_FORMAT_R16_SINT),
            Format::R16Sfloat => sys::VkFormat(sys::VK_FORMAT_R16_SFLOAT),
            Format::R16G16Unorm => sys::VkFormat(sys::VK_FORMAT_R16G16_UNORM),
            Format::R16G16Snorm => sys::VkFormat(sys::VK_FORMAT_R16G16_SNORM),
            Format::R16G16Uscaled => sys::VkFormat(sys::VK_FORMAT_R16G16_USCALED),
            Format::R16G16Sscaled => sys::VkFormat(sys::VK_FORMAT_R16G16_SSCALED),
            Format::R16G16Uint => sys::VkFormat(sys::VK_FORMAT_R16G16_UINT),
            Format::R16G16Sint => sys::VkFormat(sys::VK_FORMAT_R16G16_SINT),
            Format::R16G16Sfloat => sys::VkFormat(sys::VK_FORMAT_R16G16_SFLOAT),
            Format::R16G16B16Unorm => sys::VkFormat(sys::VK_FORMAT_R16G16B16_UNORM),
            Format::R16G16B16Snorm => sys::VkFormat(sys::VK_FORMAT_R16G16B16_SNORM),
            Format::R16G16B16Uscaled => sys::VkFormat(sys::VK_FORMAT_R16G16B16_USCALED),
            Format::R16G16B16Sscaled => sys::VkFormat(sys::VK_FORMAT_R16G16B16_SSCALED),
            Format::R16G16B16Uint => sys::VkFormat(sys::VK_FORMAT_R16G16B16_UINT),
            Format::R16G16B16Sint => sys::VkFormat(sys::VK_FORMAT_R16G16B16_SINT),
            Format::R16G16B16Sfloat => sys::VkFormat(sys::VK_FORMAT_R16G16B16_SFLOAT),
            Format::R16G16B16A16Unorm => sys::VkFormat(sys::VK_FORMAT_R16G16B16A16_UNORM),
            Format::R16G16B16A16Snorm => sys::VkFormat(sys::VK_FORMAT_R16G16B16A16_SNORM),
            Format::R16G16B16A16Uscaled => sys::VkFormat(sys::VK_FORMAT_R16G16B16A16_USCALED),
            Format::R16G16B16A16Sscaled => sys::VkFormat(sys::VK_FORMAT_R16G16B16A16_SSCALED),
            Format::R16G16B16A16Uint => sys::VkFormat(sys::VK_FORMAT_R16G16B16A16_UINT),
            Format::R16G16B16A16Sint => sys::VkFormat(sys::VK_FORMAT_R16G16B16A16_SINT),
            Format::R16G16B16A16Sfloat => sys::VkFormat(sys::VK_FORMAT_R16G16B16A16_SFLOAT),
            Format::R32Uint => sys::VkFormat(sys::VK_FORMAT_R32_UINT),
            Format::R32Sint => sys::VkFormat(sys::VK_FORMAT_R32_SINT),
            Format::R32Sfloat => sys::VkFormat(sys::VK_FORMAT_R32_SFLOAT),
            Format::R32G32Uint => sys::VkFormat(sys::VK_FORMAT_R32G32_UINT),
            Format::R32G32Sint => sys::VkFormat(sys::VK_FORMAT_R32G32_SINT),
            Format::R32G32Sfloat => sys::VkFormat(sys::VK_FORMAT_R32G32_SFLOAT),
            Format::R32G32B32Uint => sys::VkFormat(sys::VK_FORMAT_R32G32B32_UINT),
            Format::R32G32B32Sint => sys::VkFormat(sys::VK_FORMAT_R32G32B32_SINT),
            Format::R32G32B32Sfloat => sys::VkFormat(sys::VK_FORMAT_R32G32B32_SFLOAT),
            Format::R32G32B32A32Uint => sys::VkFormat(sys::VK_FORMAT_R32G32B32A32_UINT),
            Format::R32G32B32A32Sint => sys::VkFormat(sys::VK_FORMAT_R32G32B32A32_SINT),
            Format::R32G32B32A32Sfloat => sys::VkFormat(sys::VK_FORMAT_R32G32B32A32_SFLOAT),
            Format::R64Uint => sys::VkFormat(sys::VK_FORMAT_R64_UINT),
            Format::R64Sint => sys::VkFormat(sys::VK_FORMAT_R64_SINT),
            Format::R64Sfloat => sys::VkFormat(sys::VK_FORMAT_R64_SFLOAT),
            Format::R64G64Uint => sys::VkFormat(sys::VK_FORMAT_R64G64_UINT),
            Format::R64G64Sint => sys::VkFormat(sys::VK_FORMAT_R64G64_SINT),
            Format::R64G64Sfloat => sys::VkFormat(sys::VK_FORMAT_R64G64_SFLOAT),
            Format::R64G64B64Uint => sys::VkFormat(sys::VK_FORMAT_R64G64B64_UINT),
            Format::R64G64B64Sint => sys::VkFormat(sys::VK_FORMAT_R64G64B64_SINT),
            Format::R64G64B64Sfloat => sys::VkFormat(sys::VK_FORMAT_R64G64B64_SFLOAT),
            Format::R64G64B64A64Uint => sys::VkFormat(sys::VK_FORMAT_R64G64B64A64_UINT),
            Format::R64G64B64A64Sint => sys::VkFormat(sys::VK_FORMAT_R64G64B64A64_SINT),
            Format::R64G64B64A64Sfloat => sys::VkFormat(sys::VK_FORMAT_R64G64B64A64_SFLOAT),
            Format::B10G11R11UfloatPack32 => sys::VkFormat(sys::VK_FORMAT_B10G11R11_UFLOAT_PACK32),
            Format::E5B9G9R9UfloatPack32 => sys::VkFormat(sys::VK_FORMAT_E5B9G9R9_UFLOAT_PACK32),
            Format::D16Unorm => sys::VkFormat(sys::VK_FORMAT_D16_UNORM),
            Format::X8_D24UnormPack32 => sys::VkFormat(sys::VK_FORMAT_X8_D24_UNORM_PACK32),
            Format::D32Sfloat => sys::VkFormat(sys::VK_FORMAT_D32_SFLOAT),
            Format::S8Uint => sys::VkFormat(sys::VK_FORMAT_S8_UINT),
            Format::D16Unorm_S8Uint => sys::VkFormat(sys::VK_FORMAT_D16_UNORM_S8_UINT),
            Format::D24Unorm_S8Uint => sys::VkFormat(sys::VK_FORMAT_D24_UNORM_S8_UINT),
            Format::D32Sfloat_S8Uint => sys::VkFormat(sys::VK_FORMAT_D32_SFLOAT_S8_UINT),
            Format::BC1_RGBUnormBlock => sys::VkFormat(sys::VK_FORMAT_BC1_RGB_UNORM_BLOCK),
            Format::BC1_RGBSrgbBlock => sys::VkFormat(sys::VK_FORMAT_BC1_RGB_SRGB_BLOCK),
            Format::BC1_RGBAUnormBlock => sys::VkFormat(sys::VK_FORMAT_BC1_RGBA_UNORM_BLOCK),
            Format::BC1_RGBASrgbBlock => sys::VkFormat(sys::VK_FORMAT_BC1_RGBA_SRGB_BLOCK),
            Format::BC2UnormBlock => sys::VkFormat(sys::VK_FORMAT_BC2_UNORM_BLOCK),
            Format::BC2SrgbBlock => sys::VkFormat(sys::VK_FORMAT_BC2_SRGB_BLOCK),
            Format::BC3UnormBlock => sys::VkFormat(sys::VK_FORMAT_BC3_UNORM_BLOCK),
            Format::BC3SrgbBlock => sys::VkFormat(sys::VK_FORMAT_BC3_SRGB_BLOCK),
            Format::BC4UnormBlock => sys::VkFormat(sys::VK_FORMAT_BC4_UNORM_BLOCK),
            Format::BC4SnormBlock => sys::VkFormat(sys::VK_FORMAT_BC4_SNORM_BLOCK),
            Format::BC5UnormBlock => sys::VkFormat(sys::VK_FORMAT_BC5_UNORM_BLOCK),
            Format::BC5SnormBlock => sys::VkFormat(sys::VK_FORMAT_BC5_SNORM_BLOCK),
            Format::BC6HUfloatBlock => sys::VkFormat(sys::VK_FORMAT_BC6H_UFLOAT_BLOCK),
            Format::BC6HSfloatBlock => sys::VkFormat(sys::VK_FORMAT_BC6H_SFLOAT_BLOCK),
            Format::BC7UnormBlock => sys::VkFormat(sys::VK_FORMAT_BC7_UNORM_BLOCK),
            Format::BC7SrgbBlock => sys::VkFormat(sys::VK_FORMAT_BC7_SRGB_BLOCK),
            Format::ETC2_R8G8B8UnormBlock => sys::VkFormat(sys::VK_FORMAT_ETC2_R8G8B8_UNORM_BLOCK),
            Format::ETC2_R8G8B8SrgbBlock => sys::VkFormat(sys::VK_FORMAT_ETC2_R8G8B8_SRGB_BLOCK),
            Format::ETC2_R8G8B8A1UnormBlock => sys::VkFormat(sys::VK_FORMAT_ETC2_R8G8B8A1_UNORM_BLOCK),
            Format::ETC2_R8G8B8A1SrgbBlock => sys::VkFormat(sys::VK_FORMAT_ETC2_R8G8B8A1_SRGB_BLOCK),
            Format::ETC2_R8G8B8A8UnormBlock => sys::VkFormat(sys::VK_FORMAT_ETC2_R8G8B8A8_UNORM_BLOCK),
            Format::ETC2_R8G8B8A8SrgbBlock => sys::VkFormat(sys::VK_FORMAT_ETC2_R8G8B8A8_SRGB_BLOCK),
            Format::EAC_R11UnormBlock => sys::VkFormat(sys::VK_FORMAT_EAC_R11_UNORM_BLOCK),
            Format::EAC_R11SnormBlock => sys::VkFormat(sys::VK_FORMAT_EAC_R11_SNORM_BLOCK),
            Format::EAC_R11G11UnormBlock => sys::VkFormat(sys::VK_FORMAT_EAC_R11G11_UNORM_BLOCK),
            Format::EAC_R11G11SnormBlock => sys::VkFormat(sys::VK_FORMAT_EAC_R11G11_SNORM_BLOCK),
            Format::ASTC_4x4UnormBlock => sys::VkFormat(sys::VK_FORMAT_ASTC_4x4_UNORM_BLOCK),
            Format::ASTC_4x4SrgbBlock => sys::VkFormat(sys::VK_FORMAT_ASTC_4x4_SRGB_BLOCK),
            Format::ASTC_5x4UnormBlock => sys::VkFormat(sys::VK_FORMAT_ASTC_5x4_UNORM_BLOCK),
            Format::ASTC_5x4SrgbBlock => sys::VkFormat(sys::VK_FORMAT_ASTC_5x4_SRGB_BLOCK),
            Format::ASTC_5x5UnormBlock => sys::VkFormat(sys::VK_FORMAT_ASTC_5x5_UNORM_BLOCK),
            Format::ASTC_5x5SrgbBlock => sys::VkFormat(sys::VK_FORMAT_ASTC_5x5_SRGB_BLOCK),
            Format::ASTC_6x5UnormBlock => sys::VkFormat(sys::VK_FORMAT_ASTC_6x5_UNORM_BLOCK),
            Format::ASTC_6x5SrgbBlock => sys::VkFormat(sys::VK_FORMAT_ASTC_6x5_SRGB_BLOCK),
            Format::ASTC_6x6UnormBlock => sys::VkFormat(sys::VK_FORMAT_ASTC_6x6_UNORM_BLOCK),
            Format::ASTC_6x6SrgbBlock => sys::VkFormat(sys::VK_FORMAT_ASTC_6x6_SRGB_BLOCK),
            Format::ASTC_8x5UnormBlock => sys::VkFormat(sys::VK_FORMAT_ASTC_8x5_UNORM_BLOCK),
            Format::ASTC_8x5SrgbBlock => sys::VkFormat(sys::VK_FORMAT_ASTC_8x5_SRGB_BLOCK),
            Format::ASTC_8x6UnormBlock => sys::VkFormat(sys::VK_FORMAT_ASTC_8x6_UNORM_BLOCK),
            Format::ASTC_8x6SrgbBlock => sys::VkFormat(sys::VK_FORMAT_ASTC_8x6_SRGB_BLOCK),
            Format::ASTC_8x8UnormBlock => sys::VkFormat(sys::VK_FORMAT_ASTC_8x8_UNORM_BLOCK),
            Format::ASTC_8x8SrgbBlock => sys::VkFormat(sys::VK_FORMAT_ASTC_8x8_SRGB_BLOCK),
            Format::ASTC_10x5UnormBlock => sys::VkFormat(sys::VK_FORMAT_ASTC_10x5_UNORM_BLOCK),
            Format::ASTC_10x5SrgbBlock => sys::VkFormat(sys::VK_FORMAT_ASTC_10x5_SRGB_BLOCK),
            Format::ASTC_10x6UnormBlock => sys::VkFormat(sys::VK_FORMAT_ASTC_10x6_UNORM_BLOCK),
            Format::ASTC_10x6SrgbBlock => sys::VkFormat(sys::VK_FORMAT_ASTC_10x6_SRGB_BLOCK),
            Format::ASTC_10x8UnormBlock => sys::VkFormat(sys::VK_FORMAT_ASTC_10x8_UNORM_BLOCK),
            Format::ASTC_10x8SrgbBlock => sys::VkFormat(sys::VK_FORMAT_ASTC_10x8_SRGB_BLOCK),
            Format::ASTC_10x10UnormBlock => sys::VkFormat(sys::VK_FORMAT_ASTC_10x10_UNORM_BLOCK),
            Format::ASTC_10x10SrgbBlock => sys::VkFormat(sys::VK_FORMAT_ASTC_10x10_SRGB_BLOCK),
            Format::ASTC_12x10UnormBlock => sys::VkFormat(sys::VK_FORMAT_ASTC_12x10_UNORM_BLOCK),
            Format::ASTC_12x10SrgbBlock => sys::VkFormat(sys::VK_FORMAT_ASTC_12x10_SRGB_BLOCK),
            Format::ASTC_12x12UnormBlock => sys::VkFormat(sys::VK_FORMAT_ASTC_12x12_UNORM_BLOCK),
            Format::ASTC_12x12SrgbBlock => sys::VkFormat(sys::VK_FORMAT_ASTC_12x12_SRGB_BLOCK),
            Format::Other(other) => sys::VkFormat(other),
        }
    }
}

impl vstd::std_specs::convert::FromSpecImpl<Format> for sys::VkFormat {
    open spec fn obeys_from_spec() -> bool {
        true
    }

    open spec fn from_spec(format: Format) -> sys::VkFormat {
        sys::VkFormat(format.code())
    }
}

} // verus!
