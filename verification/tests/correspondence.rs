use vk_middle::data::{
    read_bool, write_bool, Error, Extent3D, FormatProperties, MemoryRequirements,
    PhysicalDeviceFeatures, SparseImageFormatProperties, SparseImageMemoryRequirements,
    SubresourceLayout,
};
use vk_middle::flags::{
    FormatFeatureFlags, ImageAspectFlags, MemoryMapFlags, QueryResultFlags,
    SparseImageFormatFlags,
};
use vk_middle::format::Format;
use vk_middle::sys;

#[test]
fn result_codes_are_the_wire_integers() {
    assert_eq!(sys::VkResult::VK_SUCCESS.code(), 0);
    assert_eq!(sys::VkResult::VK_NOT_READY.code(), 1);
    assert_eq!(sys::VkResult::VK_TIMEOUT.code(), 2);
    assert_eq!(sys::VkResult::VK_EVENT_SET.code(), 3);
    assert_eq!(sys::VkResult::VK_EVENT_RESET.code(), 4);
    assert_eq!(sys::VkResult::VK_INCOMPLETE.code(), 5);
    assert_eq!(sys::VkResult::VK_ERROR_OUT_OF_HOST_MEMORY.code(), -1);
    assert_eq!(sys::VkResult::VK_ERROR_INITIALIZATION_FAILED.code(), -3);
    assert_eq!(sys::VkResult::VK_ERROR_FORMAT_NOT_SUPPORTED.code(), -11);
}

#[test]
fn result_codes_round_trip() {
    for code in -20..20 {
        match sys::VkResult::from_code(code) {
            Some(result) => {
                assert_eq!(result.code(), code);
                assert!((-11..=5).contains(&code));
            }
            None => assert!(code < -11 || code > 5),
        }
    }
    assert_eq!(sys::VkResult::from_code(5), Some(sys::VkResult::VK_INCOMPLETE));
    assert_eq!(sys::VkResult::from_code(6), None);
    assert_eq!(sys::VkResult::from_code(-12), None);
    assert_eq!(sys::VkResult::from_code(i32::MIN), None);
}

#[test]
fn errors_map_to_their_own_outcomes() {
    assert_eq!(sys::VkResult::from(Error::NotReady), sys::VkResult::VK_NOT_READY);
    assert_eq!(Error::NotReady.code(), 1);
    assert_eq!(sys::VkResult::from(Error::Timeout), sys::VkResult::VK_TIMEOUT);
    assert_eq!(
        sys::VkResult::from(Error::InitializationFailed),
        sys::VkResult::VK_ERROR_INITIALIZATION_FAILED
    );
    assert_eq!(Error::InitializationFailed.code(), -3);
    let all = [
        Error::NotReady,
        Error::Timeout,
        Error::OutOfHostMemory,
        Error::OutOfDeviceMemory,
        Error::InitializationFailed,
        Error::DeviceLost,
        Error::MemoryMapFailed,
        Error::LayerNotPresent,
        Error::ExtensionNotPresent,
        Error::FeatureNotPresent,
        Error::IncompatibleDriver,
        Error::TooManyObjects,
        Error::FormatNotSupported,
    ];
    for (i, a) in all.iter().enumerate() {
        assert_ne!(sys::VkResult::from(*a), sys::VkResult::VK_SUCCESS);
        assert_ne!(sys::VkResult::from(*a), sys::VkResult::VK_INCOMPLETE);
        for b in all[i + 1..].iter() {
            assert_ne!(a.code(), b.code());
        }
    }
}

#[test]
fn every_error_has_its_wire_integer() {
    let codes = [
        (Error::NotReady, 1),
        (Error::Timeout, 2),
        (Error::OutOfHostMemory, -1),
        (Error::OutOfDeviceMemory, -2),
        (Error::InitializationFailed, -3),
        (Error::DeviceLost, -4),
        (Error::MemoryMapFailed, -5),
        (Error::LayerNotPresent, -6),
        (Error::ExtensionNotPresent, -7),
        (Error::FeatureNotPresent, -8),
        (Error::IncompatibleDriver, -9),
        (Error::TooManyObjects, -10),
        (Error::FormatNotSupported, -11),
    ];
    for (error, code) in codes.iter() {
        assert_eq!(error.code(), *code);
        assert_eq!(sys::VkResult::from(*error).code(), *code);
        assert_eq!(sys::VkResult::from_code(*code), Some(sys::VkResult::from(*error)));
    }
}

#[test]
fn named_formats_round_trip() {
    for code in 0..sys::VK_FORMAT_NAMED_END {
        let format = Format::from(sys::VkFormat(code));
        assert!(!matches!(format, Format::Other(_)));
        assert_eq!(sys::VkFormat::from(format), sys::VkFormat(code));
    }
    assert_eq!(sys::VK_FORMAT_NAMED_END, 185);
}

#[test]
fn formats_have_their_table_codes() {
    assert_eq!(Format::from(sys::VkFormat(0)), Format::Unknown);
    assert_eq!(Format::from(sys::VkFormat(sys::VK_FORMAT_UNDEFINED)), Format::Unknown);
    assert_eq!(Format::from(sys::VkFormat(9)), Format::R8Unorm);
    assert_eq!(Format::from(sys::VkFormat(37)), Format::R8G8B8A8Unorm);
    assert_eq!(Format::from(sys::VkFormat(44)), Format::B8G8R8A8Unorm);
    assert_eq!(Format::from(sys::VkFormat(109)), Format::R32G32B32A32Sfloat);
    assert_eq!(Format::from(sys::VkFormat(126)), Format::D32Sfloat);
    assert_eq!(Format::from(sys::VkFormat(130)), Format::D32Sfloat_S8Uint);
    assert_eq!(Format::from(sys::VkFormat(184)), Format::ASTC_12x12SrgbBlock);
    assert_eq!(sys::VkFormat::from(Format::BC7SrgbBlock), sys::VkFormat(146));
    assert_eq!(sys::VkFormat::from(Format::R8Unorm).0, sys::VK_FORMAT_R8_UNORM);
    assert_eq!(sys::VK_FORMAT_ASTC_12x12_SRGB_BLOCK, 184);
    assert_eq!(sys::VK_FORMAT_D16_UNORM, 124);
}

#[test]
fn unnamed_format_codes_round_trip_through_the_fallback() {
    let codes = [185, 186, 1000054000, 1000156000, -1, i32::MAX, i32::MIN];
    for code in codes.iter() {
        let format = Format::from(sys::VkFormat(*code));
        assert_eq!(format, Format::Other(*code));
        assert_eq!(sys::VkFormat::from(format), sys::VkFormat(*code));
    }
}

#[test]
fn default_records_are_all_clear() {
    let features = PhysicalDeviceFeatures::default();
    assert!(!features.robust_buffer_access);
    assert!(!features.inherited_queries);
    let raw = sys::VkPhysicalDeviceFeatures::from(features);
    assert_eq!(raw, sys::VkPhysicalDeviceFeatures::default());
    assert_eq!(raw.geometryShader, 0);
    assert_eq!(FormatProperties::default().buffer_features, FormatFeatureFlags::empty());
}

#[test]
fn raw_booleans_read_and_write() {
    assert!(read_bool(sys::VK_TRUE));
    assert!(!read_bool(sys::VK_FALSE));
    assert_eq!(write_bool(true), 1);
    assert_eq!(write_bool(false), 0);
    assert_eq!(write_bool(read_bool(1)), 1);
    assert_eq!(write_bool(read_bool(0)), 0);
    // Any raw value but 1 reads as false, so it is written back as 0.
    assert!(!read_bool(2));
    assert_eq!(write_bool(read_bool(2)), 0);
    assert!(!read_bool(u32::MAX));
}

#[test]
fn flag_sets_keep_named_bits() {
    let flags = FormatFeatureFlags::from_bits_truncate(0x0001_0081);
    assert_eq!(flags.bits(), 0x0001_0081);
    assert_eq!(FormatFeatureFlags::from_bits_truncate(flags.bits()), flags);
    assert_eq!(FormatFeatureFlags::from_bits(0x0001_0081), Some(flags));
    assert!(flags.contains(FormatFeatureFlags::from_bits_truncate(
        sys::VK_FORMAT_FEATURE_COLOR_ATTACHMENT_BIT
    )));
    assert!(!flags.contains(FormatFeatureFlags::from_bits_truncate(
        sys::VK_FORMAT_FEATURE_BLIT_SRC_BIT
    )));
    assert_eq!(FormatFeatureFlags::all().bits(), 0x7FFF_FFFF);
    assert_eq!(FormatFeatureFlags::empty().bits(), 0);
    assert!(FormatFeatureFlags::empty().is_empty());
    assert!(!flags.is_empty());
    assert_eq!(ImageAspectFlags::from_bits_truncate(0xF).bits(), 0xF);
    assert_eq!(SparseImageFormatFlags::from_bits_truncate(0x7).bits(), 0x7);
    assert_eq!(QueryResultFlags::from_bits_truncate(0x9).bits(), 0x9);
    assert_eq!(MemoryMapFlags::from_bits_truncate(0).bits(), 0);
    assert_eq!(sys::VK_FORMAT_FEATURE_SAMPLED_IMAGE_FILTER_MINMAX_BIT_EXT, 0x0001_0000);
    assert_eq!(sys::VK_IMAGE_ASPECT_METADATA_BIT, 8);
}

#[test]
fn flag_sets_drop_bits_without_a_name() {
    assert_eq!(FormatFeatureFlags::from_bits_truncate(0x8000_0001).bits(), 1);
    assert_eq!(FormatFeatureFlags::from_bits_truncate(0xFFFF_FFFF).bits(), 0x7FFF_FFFF);
    assert_eq!(FormatFeatureFlags::from_bits(0x8000_0001), None);
    assert_eq!(ImageAspectFlags::from_bits_truncate(0x8000_0000).bits(), 0);
    assert_eq!(ImageAspectFlags::from_bits(0x8000_0000), None);
    assert_eq!(SparseImageFormatFlags::from_bits(0xFFFF_FFFF), None);
    assert_eq!(QueryResultFlags::from_bits(0x8000_0002), None);
    assert_eq!(MemoryMapFlags::from_bits(0x8000_0000), None);
    assert_eq!(MemoryMapFlags::from_bits(0x7FFF_FFFF), Some(MemoryMapFlags::all()));
}

#[test]
fn memory_requirements_round_trip() {
    let raw = sys::VkMemoryRequirements { size: 4096, alignment: 256, memoryTypeBits: 0b1011 };
    let value = MemoryRequirements::from(raw);
    assert_eq!(value, MemoryRequirements { size: 4096, alignment: 256, memory_types: 0b1011 });
    assert_eq!(sys::VkMemoryRequirements::from(value), raw);
    let extreme = sys::VkMemoryRequirements {
        size: u64::MAX,
        alignment: 0,
        memoryTypeBits: u32::MAX,
    };
    assert_eq!(sys::VkMemoryRequirements::from(MemoryRequirements::from(extreme)), extreme);
}

#[test]
fn extent_and_layout_round_trip() {
    let raw = sys::VkExtent3D { width: 640, height: 480, depth: 1 };
    let value = Extent3D::from(raw);
    assert_eq!(value, Extent3D { width: 640, height: 480, depth: 1 });
    assert_eq!(sys::VkExtent3D::from(value), raw);
    let layout = sys::VkSubresourceLayout {
        offset: 1,
        size: 2,
        rowPitch: 3,
        arrayPitch: 4,
        depthPitch: 5,
    };
    let value = SubresourceLayout::from(layout);
    assert_eq!(
        value,
        SubresourceLayout { offset: 1, size: 2, row_pitch: 3, array_pitch: 4, depth_pitch: 5 }
    );
    assert_eq!(sys::VkSubresourceLayout::from(value), layout);
}

#[test]
fn format_properties_round_trip_and_truncate() {
    let raw = sys::VkFormatProperties {
        linearTilingFeatures: 0x1,
        optimalTilingFeatures: 0x1FFFF,
        bufferFeatures: 0x48,
    };
    let value = FormatProperties::from(raw);
    assert_eq!(value.linear_tiling_features.bits(), 0x1);
    assert_eq!(value.optimal_tiling_features.bits(), 0x1FFFF);
    assert_eq!(value.buffer_features.bits(), 0x48);
    assert_eq!(sys::VkFormatProperties::from(value), raw);
    assert_eq!(FormatProperties::from(sys::VkFormatProperties::from(value)), value);
    let with_unnamed = sys::VkFormatProperties {
        linearTilingFeatures: 0x8000_0001,
        optimalTilingFeatures: 0,
        bufferFeatures: 0x8000_0000,
    };
    let back = sys::VkFormatProperties::from(FormatProperties::from(with_unnamed));
    assert_eq!(back.linearTilingFeatures, 1);
    assert_eq!(back.bufferFeatures, 0);
}

#[test]
fn sparse_requirements_round_trip_through_nested_records() {
    let raw = sys::VkSparseImageMemoryRequirements {
        formatProperties: sys::VkSparseImageFormatProperties {
            aspectMask: 0x3,
            imageGranularity: sys::VkExtent3D { width: 64, height: 64, depth: 4 },
            flags: 0x5,
        },
        imageMipTailFirstLod: 7,
        imageMipTailSize: 65536,
        imageMipTailOffset: 1 << 40,
        imageMipTailStride: 12,
    };
    let value = SparseImageMemoryRequirements::from(raw);
    assert_eq!(value.format_properties.aspect_mask.bits(), 0x3);
    assert_eq!(value.format_properties.image_granularity, Extent3D { width: 64, height: 64, depth: 4 });
    assert_eq!(value.format_properties.flags.bits(), 0x5);
    assert_eq!(value.mip_tail_first_lod, 7);
    assert_eq!(value.mip_tail_size, 65536);
    assert_eq!(value.mip_tail_offset, 1 << 40);
    assert_eq!(value.mip_tail_stride, 12);
    assert_eq!(sys::VkSparseImageMemoryRequirements::from(value), raw);
    let inner = SparseImageFormatProperties::from(raw.formatProperties);
    assert_eq!(inner, value.format_properties);
    assert_eq!(sys::VkSparseImageFormatProperties::from(inner), raw.formatProperties);
}

#[test]
fn features_round_trip_field_by_field() {
    let semantic = PhysicalDeviceFeatures {
        robust_buffer_access: true,
        full_draw_index_uint32: false,
        image_cube_array: true,
        independent_blend: false,
        geometry_shader: true,
        tessellation_shader: false,
        sample_rate_shading: false,
        dual_src_blend: false,
        login_op: true,
        multi_draw_indirect: false,
        draw_indirect_first_instance: false,
        depth_clamp: false,
        depth_bias_clamp: false,
        fill_mode_non_solid: false,
        depth_bounds: false,
        wide_linex: true,
        large_points: false,
        alpha_to_one: false,
        multi_viewport: false,
        sampler_anisotropy: false,
        texture_compression_etc2: false,
        texture_compression_astc_ldr: true,
        texture_compression_bc: false,
        occlusion_query_precise: false,
        pipeline_statistics_query: false,
        vertex_pipeline_stores_and_atomics: false,
        fragment_stores_and_atomics: false,
        shader_tesselation_and_geometry_point_size: true,
        shader_image_gather_extended: false,
        shader_storage_image_extended_formats: false,
        shader_storage_image_multisample: false,
        shader_storage_image_read_without_format: false,
        shader_storage_image_write_without_format: false,
        shader_uniform_buffer_array_dynamic_indexing: false,
        shader_sampled_image_array_dynamic_indexing: false,
        shader_storage_buffer_array_dynamic_indexing: false,
        shader_storage_image_array_dynamic_indexing: false,
        shader_clip_distance: false,
        shader_cull_distance: false,
        shader_float64: false,
        shader_int64: true,
        shader_int16: false,
        shader_resource_residency: false,
        shader_resources_min_lod: true,
        sparse_binding: false,
        sparse_residency_buffer: false,
        sparse_residency_image_2d: false,
        sparse_residency_image_3d: false,
        sparse_residency_2_samples: false,
        sparse_residency_4_sample: false,
        sparse_residency_8_sample: false,
        sparse_residency_16_sample: false,
        sparse_residency_aliased: false,
        variable_multisample_rate: false,
        inherited_queries: true,
    };
    let raw = sys::VkPhysicalDeviceFeatures::from(semantic);
    assert_eq!(raw.robustBufferAccess, 1);
    assert_eq!(raw.fullDrawIndexUint32, 0);
    assert_eq!(raw.imageCubeArray, 1);
    assert_eq!(raw.logicOp, 1);
    assert_eq!(raw.wideLines, 1);
    assert_eq!(raw.textureCompressionASTC_LDR, 1);
    assert_eq!(raw.shaderTessellationAndGeometryPointSize, 1);
    assert_eq!(raw.shaderInt64, 1);
    assert_eq!(raw.shaderInt16, 0);
    assert_eq!(raw.shaderResourceMinLod, 1);
    assert_eq!(raw.inheritedQueries, 1);
    assert_eq!(raw.variableMultisampleRate, 0);
    assert_eq!(PhysicalDeviceFeatures::from(raw), semantic);
    assert_eq!(sys::VkPhysicalDeviceFeatures::from(PhysicalDeviceFeatures::from(raw)), raw);
}

#[test]
fn a_raw_boolean_other_than_one_reads_as_false() {
    let mut raw = sys::VkPhysicalDeviceFeatures::from(PhysicalDeviceFeatures::from(
        sys::VkPhysicalDeviceFeatures::from(all_true()),
    ));
    assert_eq!(raw.depthClamp, 1);
    raw.depthClamp = 2;
    let value = PhysicalDeviceFeatures::from(raw);
    assert!(!value.depth_clamp);
    assert!(value.depth_bounds);
    assert_eq!(sys::VkPhysicalDeviceFeatures::from(value).depthClamp, 0);
}

fn all_true() -> PhysicalDeviceFeatures {
    PhysicalDeviceFeatures {
        robust_buffer_access: true,
        full_draw_index_uint32: true,
        image_cube_array: true,
        independent_blend: true,
        geometry_shader: true,
        tessellation_shader: true,
        sample_rate_shading: true,
        dual_src_blend: true,
        login_op: true,
        multi_draw_indirect: true,
        draw_indirect_first_instance: true,
        depth_clamp: true,
        depth_bias_clamp: true,
        fill_mode_non_solid: true,
        depth_bounds: true,
        wide_linex: true,
        large_points: true,
        alpha_to_one: true,
        multi_viewport: true,
        sampler_anisotropy: true,
        texture_compression_etc2: true,
        texture_compression_astc_ldr: true,
        texture_compression_bc: true,
        occlusion_query_precise: true,
        pipeline_statistics_query: true,
        vertex_pipeline_stores_and_atomics: true,
        fragment_stores_and_atomics: true,
        shader_tesselation_and_geometry_point_size: true,
        shader_image_gather_extended: true,
        shader_storage_image_extended_formats: true,
        shader_storage_image_multisample: true,
        shader_storage_image_read_without_format: true,
        shader_storage_image_write_without_format: true,
        shader_uniform_buffer_array_dynamic_indexing: true,
        shader_sampled_image_array_dynamic_indexing: true,
        shader_storage_buffer_array_dynamic_indexing: true,
        shader_storage_image_array_dynamic_indexing: true,
        shader_clip_distance: true,
        shader_cull_distance: true,
        shader_float64: true,
        shader_int64: true,
        shader_int16: true,
        shader_resource_residency: true,
        shader_resources_min_lod: true,
        sparse_binding: true,
        sparse_residency_buffer: true,
        sparse_residency_image_2d: true,
        sparse_residency_image_3d: true,
        sparse_residency_2_samples: true,
        sparse_residency_4_sample: true,
        sparse_residency_8_sample: true,
        sparse_residency_16_sample: true,
        sparse_residency_aliased: true,
        variable_multisample_rate: true,
        inherited_queries: true,
    }
}
