//! Semantic domain types, their correspondence with the raw wire records, and
//! the borrowed views through which a backend reads a request.
use crate::flags::{
    lemma_truncated, within, FormatFeatureFlags, ImageAspectFlags, SparseImageFormatFlags,
};
use crate::sys;
use vstd::prelude::*;

verus! {

/// Whether a raw boolean is one of the two encodings that the wire format
/// defines.
pub open spec fn is_raw_bool(raw: u32) -> bool {
    raw == sys::VK_TRUE || raw == sys::VK_FALSE
}

/// The boolean that a raw 32-bit boolean stands for: true for `VK_TRUE`, false
/// for every other value.
pub open spec fn bool_of_raw(raw: u32) -> bool {
    raw == sys::VK_TRUE
}

/// The raw encoding of a boolean.
pub open spec fn raw_of_bool(value: bool) -> u32 {
    if value {
        sys::VK_TRUE
    } else {
        sys::VK_FALSE
    }
}

/// Reads a raw 32-bit boolean.
pub fn read_bool(raw: u32) -> (r: bool)
    ensures
        r == bool_of_raw(raw),
{
    raw == sys::VK_TRUE
}

/// Writes a boolean in its raw encoding.
pub fn write_bool(value: bool) -> (r: u32)
    ensures
        r == raw_of_bool(value),
        is_raw_bool(r),
{
    if value {
        sys::VK_TRUE
    } else {
        sys::VK_FALSE
    }
}

/// A boolean survives semantic to raw to semantic; a raw boolean survives raw
/// to semantic to raw exactly when it is 0 or 1.
pub proof fn lemma_bool_round_trip(value: bool, raw: u32)
    ensures
        bool_of_raw(raw_of_bool(value)) == value,
        is_raw_bool(raw) <==> raw_of_bool(bool_of_raw(raw)) == raw,
{
}


/// A failure of a driver operation.
#[derive(Clone, Copy, PartialEq, Eq, Debug, Structural)]
pub enum Error {
    /// A fence or query has not completed yet.
    NotReady,
    /// A wait ran out of time.
    Timeout,
    /// A host memory allocation failed.
    OutOfHostMemory,
    /// A device memory allocation failed.
    OutOfDeviceMemory,
    /// An object could not be initialised.
    InitializationFailed,
    /// The device was lost.
    DeviceLost,
    /// Mapping a memory object failed.
    MemoryMapFailed,
    /// A requested layer is missing.
    LayerNotPresent,
    /// A requested extension is missing.
    ExtensionNotPresent,
    /// A requested feature is missing.
    FeatureNotPresent,
    /// The driver does not serve the requested version.
    IncompatibleDriver,
    /// Too many objects of one kind exist.
    TooManyObjects,
    /// The format is not supported.
    FormatNotSupported,
}

impl Error {
    /// The outcome by which the failure is reported to the caller.
    pub open spec fn result(self) -> sys::VkResult {
        match self {
            Error::NotReady => sys::VkResult::VK_NOT_READY,
            Error::Timeout => sys::VkResult::VK_TIMEOUT,
            Error::OutOfHostMemory => sys::VkResult::VK_ERROR_OUT_OF_HOST_MEMORY,
            Error::OutOfDeviceMemory => sys::VkResult::VK_ERROR_OUT_OF_DEVICE_MEMORY,
            Error::InitializationFailed => sys::VkResult::VK_ERROR_INITIALIZATION_FAILED,
            Error::DeviceLost => sys::VkResult::VK_ERROR_DEVICE_LOST,
            Error::MemoryMapFailed => sys::VkResult::VK_ERROR_MEMORY_MAP_FAILED,
            Error::LayerNotPresent => sys::VkResult::VK_ERROR_LAYER_NOT_PRESENT,
            Error::ExtensionNotPresent => sys::VkResult::VK_ERROR_EXTENSION_NOT_PRESENT,
            Error::FeatureNotPresent => sys::VkResult::VK_ERROR_FEATURE_NOT_PRESENT,
            Error::IncompatibleDriver => sys::VkResult::VK_ERROR_INCOMPATIBLE_DRIVER,
            Error::TooManyObjects => sys::VkResult::VK_ERROR_TOO_MANY_OBJECTS,
            Error::FormatNotSupported => sys::VkResult::VK_ERROR_FORMAT_NOT_SUPPORTED,
        }
    }

    /// The failure that an outcome reports, if it reports one.
    pub open spec fn of_result(result: sys::VkResult) -> Option<Error> {
        match result {
            sys::VkResult::VK_NOT_READY => Some(Error::NotReady),
            sys::VkResult::VK_TIMEOUT => Some(Error::Timeout),
            sys::VkResult::VK_ERROR_OUT_OF_HOST_MEMORY => Some(Error::OutOfHostMemory),
            sys::VkResult::VK_ERROR_OUT_OF_DEVICE_MEMORY => Some(Error::OutOfDeviceMemory),
            sys::VkResult::VK_ERROR_INITIALIZATION_FAILED => Some(Error::InitializationFailed),
            sys::VkResult::VK_ERROR_DEVICE_LOST => Some(Error::DeviceLost),
            sys::VkResult::VK_ERROR_MEMORY_MAP_FAILED => Some(Error::MemoryMapFailed),
            sys::VkResult::VK_ERROR_LAYER_NOT_PRESENT => Some(Error::LayerNotPresent),
            sys::VkResult::VK_ERROR_EXTENSION_NOT_PRESENT => Some(Error::ExtensionNotPresent),
            sys::VkResult::VK_ERROR_FEATURE_NOT_PRESENT => Some(Error::FeatureNotPresent),
            sys::VkResult::VK_ERROR_INCOMPATIBLE_DRIVER => Some(Error::IncompatibleDriver),
            sys::VkResult::VK_ERROR_TOO_MANY_OBJECTS => Some(Error::TooManyObjects),
            sys::VkResult::VK_ERROR_FORMAT_NOT_SUPPORTED => Some(Error::FormatNotSupported),
            _ => None,
        }
    }

    /// The wire integer of the failure.
    pub open spec fn spec_code(self) -> i32 {
        self.result().spec_code()
    }

    /// The wire integer of the failure.
    #[verifier::when_used_as_spec(spec_code)]
    pub fn code(self) -> (r: i32)
        ensures
            r == self.spec_code(),
    {
        sys::VkResult::from(self).code()
    }

    /// Failures and the outcomes that report them correspond one to one: no
    /// failure is reported as success or as a truncated enumeration, and two
    /// failures never share an outcome or a wire integer.
    pub proof fn lemma_result_is_one_to_one(a: Error, b: Error)
        ensures
            Error::of_result(a.result()) == Some(a),
            a.result() != sys::VkResult::VK_SUCCESS,
            a.result() != sys::VkResult::VK_INCOMPLETE,
            a.result() == b.result() ==> a == b,
            a.spec_code() == b.spec_code() ==> a == b,
            a.spec_code() != 0,
    {
    }
}

impl From<Error> for sys::VkResult {
    /// Reports a failure as its outcome.
    fn from(err: Error) -> (r: sys::VkResult) {
        match err {
            Error::NotReady => sys::VkResult::VK_NOT_READY,
            Error::Timeout => sys::VkResult::VK_TIMEOUT,
            Error::OutOfHostMemory => sys::VkResult::VK_ERROR_OUT_OF_HOST_MEMORY,
            Error::OutOfDeviceMemory => sys::VkResult::VK_ERROR_OUT_OF_DEVICE_MEMORY,
            Error::InitializationFailed => sys::VkResult::VK_ERROR_INITIALIZATION_FAILED,
            Error::DeviceLost => sys::VkResult::VK_ERROR_DEVICE_LOST,
            Error::MemoryMapFailed => sys::VkResult::VK_ERROR_MEMORY_MAP_FAILED,
            Error::LayerNotPresent => sys::VkResult::VK_ERROR_LAYER_NOT_PRESENT,
            Error::ExtensionNotPresent => sys::VkResult::VK_ERROR_EXTENSION_NOT_PRESENT,
            Error::FeatureNotPresent => sys::VkResult::VK_ERROR_FEATURE_NOT_PRESENT,
            Error::IncompatibleDriver => sys::VkResult::VK_ERROR_INCOMPATIBLE_DRIVER,
            Error::TooManyObjects => sys::VkResult::VK_ERROR_TOO_MANY_OBJECTS,
            Error::FormatNotSupported => sys::VkResult::VK_ERROR_FORMAT_NOT_SUPPORTED,
        }
    }
}

impl vstd::std_specs::convert::FromSpecImpl<Error> for sys::VkResult {
    open spec fn obeys_from_spec() -> bool {
        true
    }

    open spec fn from_spec(err: Error) -> sys::VkResult {
        err.result()
    }
}

/// Memory that a buffer or an image needs.
#[derive(Clone, Copy, PartialEq, Eq, Debug, Default)]
pub struct MemoryRequirements {
    pub size: u64,
    pub alignment: u64,
    pub memory_types: u32,
}

impl MemoryRequirements {
    /// The value that a raw record stands for.
    pub open spec fn of_raw(raw: sys::VkMemoryRequirements) -> MemoryRequirements {
        MemoryRequirements {
            size: raw.size,
            alignment: raw.alignment,
            memory_types: raw.memoryTypeBits,
        }
    }

    /// The raw record that stands for the value.
    pub open spec fn raw(self) -> sys::VkMemoryRequirements {
        sys::VkMemoryRequirements {
            size: self.size,
            alignment: self.alignment,
            memoryTypeBits: self.memory_types,
        }
    }

    /// Reads the raw record field by field.
    pub fn from_raw(raw: sys::VkMemoryRequirements) -> (r: MemoryRequirements)
        ensures
            r == Self::of_raw(raw),
    {
        MemoryRequirements {
            size: raw.size,
            alignment: raw.alignment,
            memory_types: raw.memoryTypeBits,
        }
    }

    /// Writes the value as its raw record, field by field.
    pub fn into_raw(self) -> (r: sys::VkMemoryRequirements)
        ensures
            r == self.raw(),
    {
        sys::VkMemoryRequirements {
            size: self.size,
            alignment: self.alignment,
            memoryTypeBits: self.memory_types,
        }
    }

    /// Raw to semantic to raw gives every record back.
    pub proof fn lemma_raw_round_trip(raw: sys::VkMemoryRequirements)
        ensures
            Self::of_raw(raw).raw() == raw,
    {
    }

    /// Semantic to raw to semantic gives every value back.
    pub proof fn lemma_semantic_round_trip(value: MemoryRequirements)
        ensures
            Self::of_raw(value.raw()) == value,
    {
    }
}

impl From<sys::VkMemoryRequirements> for MemoryRequirements {
    /// Reads the raw record field by field.
    fn from(raw: sys::VkMemoryRequirements) -> (r: MemoryRequirements) {
        MemoryRequirements::from_raw(raw)
    }
}

impl vstd::std_specs::convert::FromSpecImpl<sys::VkMemoryRequirements> for MemoryRequirements {
    open spec fn obeys_from_spec() -> bool {
        true
    }

    open spec fn from_spec(raw: sys::VkMemoryRequirements) -> MemoryRequirements {
        MemoryRequirements::of_raw(raw)
    }
}

impl From<MemoryRequirements> for sys::VkMemoryRequirements {
    /// Writes the value as its raw record, field by field.
    fn from(value: MemoryRequirements) -> (r: sys::VkMemoryRequirements) {
        value.into_raw()
    }
}

impl vstd::std_specs::convert::FromSpecImpl<MemoryRequirements> for sys::VkMemoryRequirements {
    open spec fn obeys_from_spec() -> bool {
        true
    }

    open spec fn from_spec(value: MemoryRequirements) -> sys::VkMemoryRequirements {
        value.raw()
    }
}

/// Optional features of a physical device.
#[derive(Clone, Copy, PartialEq, Eq, Debug, Default)]
pub struct PhysicalDeviceFeatures {
    pub robust_buffer_access: bool,
    pub full_draw_index_uint32: bool,
    pub image_cube_array: bool,
    pub independent_blend: bool,
    pub geometry_shader: bool,
    pub tessellation_shader: bool,
    pub sample_rate_shading: bool,
    pub dual_src_blend: bool,
    pub login_op: bool,
    pub multi_draw_indirect: bool,
    pub draw_indirect_first_instance: bool,
    pub depth_clamp: bool,
    pub depth_bias_clamp: bool,
    pub fill_mode_non_solid: bool,
    pub depth_bounds: bool,
    pub wide_linex: bool,
    pub large_points: bool,
    pub alpha_to_one: bool,
    pub multi_viewport: bool,
    pub sampler_anisotropy: bool,
    pub texture_compression_etc2: bool,
    pub texture_compression_astc_ldr: bool,
    pub texture_compression_bc: bool,
    pub occlusion_query_precise: bool,
    pub pipeline_statistics_query: bool,
    pub vertex_pipeline_stores_and_atomics: bool,
    pub fragment_stores_and_atomics: bool,
    pub shader_tesselation_and_geometry_point_size: bool,
    pub shader_image_gather_extended: bool,
    pub shader_storage_image_extended_formats: bool,
    pub shader_storage_image_multisample: bool,
    pub shader_storage_image_read_without_format: bool,
    pub shader_storage_image_write_without_format: bool,
    pub shader_uniform_buffer_array_dynamic_indexing: bool,
    pub shader_sampled_image_array_dynamic_indexing: bool,
    pub shader_storage_buffer_array_dynamic_indexing: bool,
    pub shader_storage_image_array_dynamic_indexing: bool,
    pub shader_clip_distance: bool,
    pub shader_cull_distance: bool,
    pub shader_float64: bool,
    pub shader_int64: bool,
    pub shader_int16: bool,
    pub shader_resource_residency: bool,
    pub shader_resources_min_lod: bool,
    pub sparse_binding: bool,
    pub sparse_residency_buffer: bool,
    pub sparse_residency_image_2d: bool,
    pub sparse_residency_image_3d: bool,
    pub sparse_residency_2_samples: bool,
    pub sparse_residency_4_sample: bool,
    pub sparse_residency_8_sample: bool,
    pub sparse_residency_16_sample: bool,
    pub sparse_residency_aliased: bool,
    pub variable_multisample_rate: bool,
    pub inherited_queries: bool,
}

impl PhysicalDeviceFeatures {
    /// Whether the raw record is carried over without loss: each of its
    /// booleans is 0 or 1.
    pub open spec fn exact(raw: sys::VkPhysicalDeviceFeatures) -> bool {
        &&& is_raw_bool(raw.robustBufferAccess)
        &&& is_raw_bool(raw.fullDrawIndexUint32)
        &&& is_raw_bool(raw.imageCubeArray)
        &&& is_raw_bool(raw.independentBlend)
        &&& is_raw_bool(raw.geometryShader)
        &&& is_raw_bool(raw.tessellationShader)
        &&& is_raw_bool(raw.sampleRateShading)
        &&& is_raw_bool(raw.dualSrcBlend)
        &&& is_raw_bool(raw.logicOp)
        &&& is_raw_bool(raw.multiDrawIndirect)
        &&& is_raw_bool(raw.drawIndirectFirstInstance)
        &&& is_raw_bool(raw.depthClamp)
        &&& is_raw_bool(raw.depthBiasClamp)
        &&& is_raw_bool(raw.fillModeNonSolid)
        &&& is_raw_bool(raw.depthBounds)
        &&& is_raw_bool(raw.wideLines)
        &&& is_raw_bool(raw.largePoints)
        &&& is_raw_bool(raw.alphaToOne)
        &&& is_raw_bool(raw.multiViewport)
        &&& is_raw_bool(raw.samplerAnisotropy)
        &&& is_raw_bool(raw.textureCompressionETC2)
        &&& is_raw_bool(raw.textureCompressionASTC_LDR)
        &&& is_raw_bool(raw.textureCompressionBC)
        &&& is_raw_bool(raw.occlusionQueryPrecise)
        &&& is_raw_bool(raw.pipelineStatisticsQuery)
        &&& is_raw_bool(raw.vertexPipelineStoresAndAtomics)
        &&& is_raw_bool(raw.fragmentStoresAndAtomics)
        &&& is_raw_bool(raw.shaderTessellationAndGeometryPointSize)
        &&& is_raw_bool(raw.shaderImageGatherExtended)
        &&& is_raw_bool(raw.shaderStorageImageExtendedFormats)
        &&& is_raw_bool(raw.shaderStorageImageMultisample)
        &&& is_raw_bool(raw.shaderStorageImageReadWithoutFormat)
        &&& is_raw_bool(raw.shaderStorageImageWriteWithoutFormat)
        &&& is_raw_bool(raw.shaderUniformBufferArrayDynamicIndexing)
        &&& is_raw_bool(raw.shaderSampledImageArrayDynamicIndexing)
        &&& is_raw_bool(raw.shaderStorageBufferArrayDynamicIndexing)
        &&& is_raw_bool(raw.shaderStorageImageArrayDynamicIndexing)
        &&& is_raw_bool(raw.shaderClipDistance)
        &&& is_raw_bool(raw.shaderCullDistance)
        &&& is_raw_bool(raw.shaderFloat64)
        &&& is_raw_bool(raw.shaderInt64)
        &&& is_raw_bool(raw.shaderInt16)
        &&& is_raw_bool(raw.shaderResourceResidency)
        &&& is_raw_bool(raw.shaderResourceMinLod)
        &&& is_raw_bool(raw.sparseBinding)
        &&& is_raw_bool(raw.sparseResidencyBuffer)
        &&& is_raw_bool(raw.sparseResidencyImage2D)
        &&& is_raw_bool(raw.sparseResidencyImage3D)
        &&& is_raw_bool(raw.sparseResidency2Samples)
        &&& is_raw_bool(raw.sparseResidency4Samples)
        &&& is_raw_bool(raw.sparseResidency8Samples)
        &&& is_raw_bool(raw.sparseResidency16Samples)
        &&& is_raw_bool(raw.sparseResidencyAliased)
        &&& is_raw_bool(raw.variableMultisampleRate)
        &&& is_raw_bool(raw.inheritedQueries)
    }

    /// The value that a raw record stands for.
    pub open spec fn of_raw(raw: sys::VkPhysicalDeviceFeatures) -> PhysicalDeviceFeatures {
        PhysicalDeviceFeatures {
            robust_buffer_access: bool_of_raw(raw.robustBufferAccess),
            full_draw_index_uint32: bool_of_raw(raw.fullDrawIndexUint32),
            image_cube_array: bool_of_raw(raw.imageCubeArray),
            independent_blend: bool_of_raw(raw.independentBlend),
            geometry_shader: bool_of_raw(raw.geometryShader),
            tessellation_shader: bool_of_raw(raw.tessellationShader),
            sample_rate_shading: bool_of_raw(raw.sampleRateShading),
            dual_src_blend: bool_of_raw(raw.dualSrcBlend),
            login_op: bool_of_raw(raw.logicOp),
            multi_draw_indirect: bool_of_raw(raw.multiDrawIndirect),
            draw_indirect_first_instance: bool_of_raw(raw.drawIndirectFirstInstance),
            depth_clamp: bool_of_raw(raw.depthClamp),
            depth_bias_clamp: bool_of_raw(raw.depthBiasClamp),
            fill_mode_non_solid: bool_of_raw(raw.fillModeNonSolid),
            depth_bounds: bool_of_raw(raw.depthBounds),
            wide_linex: bool_of_raw(raw.wideLines),
            large_points: bool_of_raw(raw.largePoints),
            alpha_to_one: bool_of_raw(raw.alphaToOne),
            multi_viewport: bool_of_raw(raw.multiViewport),
            sampler_anisotropy: bool_of_raw(raw.samplerAnisotropy),
            texture_compression_etc2: bool_of_raw(raw.textureCompressionETC2),
            texture_compression_astc_ldr: bool_of_raw(raw.textureCompressionASTC_LDR),
            texture_compression_bc: bool_of_raw(raw.textureCompressionBC),
            occlusion_query_precise: bool_of_raw(raw.occlusionQueryPrecise),
            pipeline_statistics_query: bool_of_raw(raw.pipelineStatisticsQuery),
            vertex_pipeline_stores_and_atomics: bool_of_raw(raw.vertexPipelineStoresAndAtomics),
            fragment_stores_and_atomics: bool_of_raw(raw.fragmentStoresAndAtomics),
            shader_tesselation_and_geometry_point_size: bool_of_raw(
                raw.shaderTessellationAndGeometryPointSize,
            ),
            shader_image_gather_extended: bool_of_raw(raw.shaderImageGatherExtended),
            shader_storage_image_extended_formats: bool_of_raw(
                raw.shaderStorageImageExtendedFormats,
            ),
            shader_storage_image_multisample: bool_of_raw(raw.shaderStorageImageMultisample),
            shader_storage_image_read_without_format: bool_of_raw(
                raw.shaderStorageImageReadWithoutFormat,
            ),
            shader_storage_image_write_without_format: bool_of_raw(
                raw.shaderStorageImageWriteWithoutFormat,
            ),
            shader_uniform_buffer_array_dynamic_indexing: bool_of_raw(
                raw.shaderUniformBufferArrayDynamicIndexing,
            ),
            shader_sampled_image_array_dynamic_indexing: bool_of_raw(
                raw.shaderSampledImageArrayDynamicIndexing,
            ),
            shader_storage_buffer_array_dynamic_indexing: bool_of_raw(
                raw.shaderStorageBufferArrayDynamicIndexing,
            ),
            shader_storage_image_array_dynamic_indexing: bool_of_raw(
                raw.shaderStorageImageArrayDynamicIndexing,
            ),
            shader_clip_distance: bool_of_raw(raw.shaderClipDistance),
            shader_cull_distance: bool_of_raw(raw.shaderCullDistance),
            shader_float64: bool_of_raw(raw.shaderFloat64),
            shader_int64: bool_of_raw(raw.shaderInt64),
            shader_int16: bool_of_raw(raw.shaderInt16),
            shader_resource_residency: bool_of_raw(raw.shaderResourceResidency),
            shader_resources_min_lod: bool_of_raw(raw.shaderResourceMinLod),
            sparse_binding: bool_of_raw(raw.sparseBinding),
            sparse_residency_buffer: bool_of_raw(raw.sparseResidencyBuffer),
            sparse_residency_image_2d: bool_of_raw(raw.sparseResidencyImage2D),
            sparse_residency_image_3d: bool_of_raw(raw.sparseResidencyImage3D),
            sparse_residency_2_samples: bool_of_raw(raw.sparseResidency2Samples),
            sparse_residency_4_sample: bool_of_raw(raw.sparseResidency4Samples),
            sparse_residency_8_sample: bool_of_raw(raw.sparseResidency8Samples),
            sparse_residency_16_sample: bool_of_raw(raw.sparseResidency16Samples),
            sparse_residency_aliased: bool_of_raw(raw.sparseResidencyAliased),
            variable_multisample_rate: bool_of_raw(raw.variableMultisampleRate),
            inherited_queries: bool_of_raw(raw.inheritedQueries),
        }
    }

    /// The raw record that stands for the value.
    pub open spec fn raw(self) -> sys::VkPhysicalDeviceFeatures {
        sys::VkPhysicalDeviceFeatures {
            robustBufferAccess: raw_of_bool(self.robust_buffer_access),
            fullDrawIndexUint32: raw_of_bool(self.full_draw_index_uint32),
            imageCubeArray: raw_of_bool(self.image_cube_array),
            independentBlend: raw_of_bool(self.independent_blend),
            geometryShader: raw_of_bool(self.geometry_shader),
            tessellationShader: raw_of_bool(self.tessellation_shader),
            sampleRateShading: raw_of_bool(self.sample_rate_shading),
            dualSrcBlend: raw_of_bool(self.dual_src_blend),
            logicOp: raw_of_bool(self.login_op),
            multiDrawIndirect: raw_of_bool(self.multi_draw_indirect),
            drawIndirectFirstInstance: raw_of_bool(self.draw_indirect_first_instance),
            depthClamp: raw_of_bool(self.depth_clamp),
            depthBiasClamp: raw_of_bool(self.depth_bias_clamp),
            fillModeNonSolid: raw_of_bool(self.fill_mode_non_solid),
            depthBounds: raw_of_bool(self.depth_bounds),
            wideLines: raw_of_bool(self.wide_linex),
            largePoints: raw_of_bool(self.large_points),
            alphaToOne: raw_of_bool(self.alpha_to_one),
            multiViewport: raw_of_bool(self.multi_viewport),
            samplerAnisotropy: raw_of_bool(self.sampler_anisotropy),
            textureCompressionETC2: raw_of_bool(self.texture_compression_etc2),
            textureCompressionASTC_LDR: raw_of_bool(self.texture_compression_astc_ldr),
            textureCompressionBC: raw_of_bool(self.texture_compression_bc),
            occlusionQueryPrecise: raw_of_bool(self.occlusion_query_precise),
            pipelineStatisticsQuery: raw_of_bool(self.pipeline_statistics_query),
            vertexPipelineStoresAndAtomics: raw_of_bool(self.vertex_pipeline_stores_and_atomics),
            fragmentStoresAndAtomics: raw_of_bool(self.fragment_stores_and_atomics),
            shaderTessellationAndGeometryPointSize: raw_of_bool(
                self.shader_tesselation_and_geometry_point_size,
            ),
            shaderImageGatherExtended: raw_of_bool(self.shader_image_gather_extended),
            shaderStorageImageExtendedFormats: raw_of_bool(
                self.shader_storage_image_extended_formats,
            ),
            shaderStorageImageMultisample: raw_of_bool(self.shader_storage_image_multisample),
            shaderStorageImageReadWithoutFormat: raw_of_bool(
                self.shader_storage_image_read_without_format,
            ),
            shaderStorageImageWriteWithoutFormat: raw_of_bool(
                self.shader_storage_image_write_without_format,
            ),
            shaderUniformBufferArrayDynamicIndexing: raw_of_bool(
                self.shader_uniform_buffer_array_dynamic_indexing,
            ),
            shaderSampledImageArrayDynamicIndexing: raw_of_bool(
                self.shader_sampled_image_array_dynamic_indexing,
            ),
            shaderStorageBufferArrayDynamicIndexing: raw_of_bool(
                self.shader_storage_buffer_array_dynamic_indexing,
            ),
            shaderStorageImageArrayDynamicIndexing: raw_of_bool(
                self.shader_storage_image_array_dynamic_indexing,
            ),
            shaderClipDistance: raw_of_bool(self.shader_clip_distance),
            shaderCullDistance: raw_of_bool(self.shader_cull_distance),
            shaderFloat64: raw_of_bool(self.shader_float64),
            shaderInt64: raw_of_bool(self.shader_int64),
            shaderInt16: raw_of_bool(self.shader_int16),
            shaderResourceResidency: raw_of_bool(self.shader_resource_residency),
            shaderResourceMinLod: raw_of_bool(self.shader_resources_min_lod),
            sparseBinding: raw_of_bool(self.sparse_binding),
            sparseResidencyBuffer: raw_of_bool(self.sparse_residency_buffer),
            sparseResidencyImage2D: raw_of_bool(self.sparse_residency_image_2d),
            sparseResidencyImage3D: raw_of_bool(self.sparse_residency_image_3d),
            sparseResidency2Samples: raw_of_bool(self.sparse_residency_2_samples),
            sparseResidency4Samples: raw_of_bool(self.sparse_residency_4_sample),
            sparseResidency8Samples: raw_of_bool(self.sparse_residency_8_sample),
            sparseResidency16Samples: raw_of_bool(self.sparse_residency_16_sample),
            sparseResidencyAliased: raw_of_bool(self.sparse_residency_aliased),
            variableMultisampleRate: raw_of_bool(self.variable_multisample_rate),
            inheritedQueries: raw_of_bool(self.inherited_queries),
        }
    }

    /// Reads the raw record field by field.
    pub fn from_raw(raw: sys::VkPhysicalDeviceFeatures) -> (r: PhysicalDeviceFeatures)
        ensures
            r == Self::of_raw(raw),
    {
        PhysicalDeviceFeatures {
            robust_buffer_access: read_bool(raw.robustBufferAccess),
            full_draw_index_uint32: read_bool(raw.fullDrawIndexUint32),
            image_cube_array: read_bool(raw.imageCubeArray),
            independent_blend: read_bool(raw.independentBlend),
            geometry_shader: read_bool(raw.geometryShader),
            tessellation_shader: read_bool(raw.tessellationShader),
            sample_rate_shading: read_bool(raw.sampleRateShading),
            dual_src_blend: read_bool(raw.dualSrcBlend),
            login_op: read_bool(raw.logicOp),
            multi_draw_indirect: read_bool(raw.multiDrawIndirect),
            draw_indirect_first_instance: read_bool(raw.drawIndirectFirstInstance),
            depth_clamp: read_bool(raw.depthClamp),
            depth_bias_clamp: read_bool(raw.depthBiasClamp),
            fill_mode_non_solid: read_bool(raw.fillModeNonSolid),
            depth_bounds: read_bool(raw.depthBounds),
            wide_linex: read_bool(raw.wideLines),
            large_points: read_bool(raw.largePoints),
            alpha_to_one: read_bool(raw.alphaToOne),
            multi_viewport: read_bool(raw.multiViewport),
            sampler_anisotropy: read_bool(raw.samplerAnisotropy),
            texture_compression_etc2: read_bool(raw.textureCompressionETC2),
            texture_compression_astc_ldr: read_bool(raw.textureCompressionASTC_LDR),
            texture_compression_bc: read_bool(raw.textureCompressionBC),
            occlusion_query_precise: read_bool(raw.occlusionQueryPrecise),
            pipeline_statistics_query: read_bool(raw.pipelineStatisticsQuery),
            vertex_pipeline_stores_and_atomics: read_bool(raw.vertexPipelineStoresAndAtomics),
            fragment_stores_and_atomics: read_bool(raw.fragmentStoresAndAtomics),
            shader_tesselation_and_geometry_point_size: read_bool(
                raw.shaderTessellationAndGeometryPointSize,
            ),
            shader_image_gather_extended: read_bool(raw.shaderImageGatherExtended),
            shader_storage_image_extended_formats: read_bool(raw.shaderStorageImageExtendedFormats),
            shader_storage_image_multisample: read_bool(raw.shaderStorageImageMultisample),
            shader_storage_image_read_without_format: read_bool(
                raw.shaderStorageImageReadWithoutFormat,
            ),
            shader_storage_image_write_without_format: read_bool(
                raw.shaderStorageImageWriteWithoutFormat,
            ),
            shader_uniform_buffer_array_dynamic_indexing: read_bool(
                raw.shaderUniformBufferArrayDynamicIndexing,
            ),
            shader_sampled_image_array_dynamic_indexing: read_bool(
                raw.shaderSampledImageArrayDynamicIndexing,
            ),
            shader_storage_buffer_array_dynamic_indexing: read_bool(
                raw.shaderStorageBufferArrayDynamicIndexing,
            ),
            shader_storage_image_array_dynamic_indexing: read_bool(
                raw.shaderStorageImageArrayDynamicIndexing,
            ),
            shader_clip_distance: read_bool(raw.shaderClipDistance),
            shader_cull_distance: read_bool(raw.shaderCullDistance),
            shader_float64: read_bool(raw.shaderFloat64),
            shader_int64: read_bool(raw.shaderInt64),
            shader_int16: read_bool(raw.shaderInt16),
            shader_resource_residency: read_bool(raw.shaderResourceResidency),
            shader_resources_min_lod: read_bool(raw.shaderResourceMinLod),
            sparse_binding: read_bool(raw.sparseBinding),
            sparse_residency_buffer: read_bool(raw.sparseResidencyBuffer),
            sparse_residency_image_2d: read_bool(raw.sparseResidencyImage2D),
            sparse_residency_image_3d: read_bool(raw.sparseResidencyImage3D),
            sparse_residency_2_samples: read_bool(raw.sparseResidency2Samples),
            sparse_residency_4_sample: read_bool(raw.sparseResidency4Samples),
            sparse_residency_8_sample: read_bool(raw.sparseResidency8Samples),
            sparse_residency_16_sample: read_bool(raw.sparseResidency16Samples),
            sparse_residency_aliased: read_bool(raw.sparseResidencyAliased),
            variable_multisample_rate: read_bool(raw.variableMultisampleRate),
            inherited_queries: read_bool(raw.inheritedQueries),
        }
    }

    /// Writes the value as its raw record, field by field.
    pub fn into_raw(self) -> (r: sys::VkPhysicalDeviceFeatures)
        ensures
            r == self.raw(),
    {
        sys::VkPhysicalDeviceFeatures {
            robustBufferAccess: write_bool(self.robust_buffer_access),
            fullDrawIndexUint32: write_bool(self.full_draw_index_uint32),
            imageCubeArray: write_bool(self.image_cube_array),
            independentBlend: write_bool(self.independent_blend),
            geometryShader: write_bool(self.geometry_shader),
            tessellationShader: write_bool(self.tessellation_shader),
            sampleRateShading: write_bool(self.sample_rate_shading),
            dualSrcBlend: write_bool(self.dual_src_blend),
            logicOp: write_bool(self.login_op),
            multiDrawIndirect: write_bool(self.multi_draw_indirect),
            drawIndirectFirstInstance: write_bool(self.draw_indirect_first_instance),
            depthClamp: write_bool(self.depth_clamp),
            depthBiasClamp: write_bool(self.depth_bias_clamp),
            fillModeNonSolid: write_bool(self.fill_mode_non_solid),
            depthBounds: write_bool(self.depth_bounds),
            wideLines: write_bool(self.wide_linex),
            largePoints: write_bool(self.large_points),
            alphaToOne: write_bool(self.alpha_to_one),
            multiViewport: write_bool(self.multi_viewport),
            samplerAnisotropy: write_bool(self.sampler_anisotropy),
            textureCompressionETC2: write_bool(self.texture_compression_etc2),
            textureCompressionASTC_LDR: write_bool(self.texture_compression_astc_ldr),
            textureCompressionBC: write_bool(self.texture_compression_bc),
            occlusionQueryPrecise: write_bool(self.occlusion_query_precise),
            pipelineStatisticsQuery: write_bool(self.pipeline_statistics_query),
            vertexPipelineStoresAndAtomics: write_bool(self.vertex_pipeline_stores_and_atomics),
            fragmentStoresAndAtomics: write_bool(self.fragment_stores_and_atomics),
            shaderTessellationAndGeometryPointSize: write_bool(
                self.shader_tesselation_and_geometry_point_size,
            ),
            shaderImageGatherExtended: write_bool(self.shader_image_gather_extended),
            shaderStorageImageExtendedFormats: write_bool(
                self.shader_storage_image_extended_formats,
            ),
            shaderStorageImageMultisample: write_bool(self.shader_storage_image_multisample),
            shaderStorageImageReadWithoutFormat: write_bool(
                self.shader_storage_image_read_without_format,
            ),
            shaderStorageImageWriteWithoutFormat: write_bool(
                self.shader_storage_image_write_without_format,
            ),
            shaderUniformBufferArrayDynamicIndexing: write_bool(
                self.shader_uniform_buffer_array_dynamic_indexing,
            ),
            shaderSampledImageArrayDynamicIndexing: write_bool(
                self.shader_sampled_image_array_dynamic_indexing,
            ),
            shaderStorageBufferArrayDynamicIndexing: write_bool(
                self.shader_storage_buffer_array_dynamic_indexing,
            ),
            shaderStorageImageArrayDynamicIndexing: write_bool(
                self.shader_storage_image_array_dynamic_indexing,
            ),
            shaderClipDistance: write_bool(self.shader_clip_distance),
            shaderCullDistance: write_bool(self.shader_cull_distance),
            shaderFloat64: write_bool(self.shader_float64),
            shaderInt64: write_bool(self.shader_int64),
            shaderInt16: write_bool(self.shader_int16),
            shaderResourceResidency: write_bool(self.shader_resource_residency),
            shaderResourceMinLod: write_bool(self.shader_resources_min_lod),
            sparseBinding: write_bool(self.sparse_binding),
            sparseResidencyBuffer: write_bool(self.sparse_residency_buffer),
            sparseResidencyImage2D: write_bool(self.sparse_residency_image_2d),
            sparseResidencyImage3D: write_bool(self.sparse_residency_image_3d),
            sparseResidency2Samples: write_bool(self.sparse_residency_2_samples),
            sparseResidency4Samples: write_bool(self.sparse_residency_4_sample),
            sparseResidency8Samples: write_bool(self.sparse_residency_8_sample),
            sparseResidency16Samples: write_bool(self.sparse_residency_16_sample),
            sparseResidencyAliased: write_bool(self.sparse_residency_aliased),
            variableMultisampleRate: write_bool(self.variable_multisample_rate),
            inheritedQueries: write_bool(self.inherited_queries),
        }
    }

    /// Raw to semantic to raw gives an exact record back.
    pub proof fn lemma_raw_round_trip(raw: sys::VkPhysicalDeviceFeatures)
        requires
            Self::exact(raw),
        ensures
            Self::of_raw(raw).raw() == raw,
    {
    }

    /// Semantic to raw to semantic gives every value back, and the raw
    /// record in between is exact.
    pub proof fn lemma_semantic_round_trip(value: PhysicalDeviceFeatures)
        ensures
            Self::exact(value.raw()),
            Self::of_raw(value.raw()) == value,
    {
    }

    /// Whatever a raw record loses when it is read, it loses once: the
    /// record written back is exact and reads as the same value.
    pub proof fn lemma_reading_is_stable(raw: sys::VkPhysicalDeviceFeatures)
        ensures
            Self::exact(Self::of_raw(raw).raw()),
            Self::of_raw(Self::of_raw(raw).raw()) == Self::of_raw(raw),
    {
    }
}

impl From<sys::VkPhysicalDeviceFeatures> for PhysicalDeviceFeatures {
    /// Reads the raw record field by field.
    fn from(raw: sys::VkPhysicalDeviceFeatures) -> (r: PhysicalDeviceFeatures) {
        PhysicalDeviceFeatures::from_raw(raw)
    }
}

impl vstd::std_specs::convert::FromSpecImpl<sys::VkPhysicalDeviceFeatures> for PhysicalDeviceFeatures {
    open spec fn obeys_from_spec() -> bool {
        true
    }

    open spec fn from_spec(raw: sys::VkPhysicalDeviceFeatures) -> PhysicalDeviceFeatures {
        PhysicalDeviceFeatures::of_raw(raw)
    }
}

impl From<PhysicalDeviceFeatures> for sys::VkPhysicalDeviceFeatures {
    /// Writes the value as its raw record, field by field.
    fn from(value: PhysicalDeviceFeatures) -> (r: sys::VkPhysicalDeviceFeatures) {
        value.into_raw()
    }
}

impl vstd::std_specs::convert::FromSpecImpl<PhysicalDeviceFeatures> for sys::VkPhysicalDeviceFeatures {
    open spec fn obeys_from_spec() -> bool {
        true
    }

    open spec fn from_spec(value: PhysicalDeviceFeatures) -> sys::VkPhysicalDeviceFeatures {
        value.raw()
    }
}

/// What a format can be used for, per tiling and for buffers.
#[derive(Clone, Copy, PartialEq, Eq, Debug, Default)]
pub struct FormatProperties {
    pub linear_tiling_features: FormatFeatureFlags,
    pub optimal_tiling_features: FormatFeatureFlags,
    pub buffer_features: FormatFeatureFlags,
}

impl FormatProperties {
    /// Whether every flag set in the value holds named bits only.
    pub open spec fn wf(self) -> bool {
        &&& self.linear_tiling_features.wf()
        &&& self.optimal_tiling_features.wf()
        &&& self.buffer_features.wf()
    }

    /// Whether the raw record is carried over without loss: its masks
    /// hold named bits only.
    pub open spec fn exact(raw: sys::VkFormatProperties) -> bool {
        &&& within(raw.linearTilingFeatures, FormatFeatureFlags::known())
        &&& within(raw.optimalTilingFeatures, FormatFeatureFlags::known())
        &&& within(raw.bufferFeatures, FormatFeatureFlags::known())
    }

    /// The value that a raw record stands for.
    pub open spec fn of_raw(raw: sys::VkFormatProperties) -> FormatProperties {
        FormatProperties {
            linear_tiling_features: FormatFeatureFlags::of_bits(raw.linearTilingFeatures),
            optimal_tiling_features: FormatFeatureFlags::of_bits(raw.optimalTilingFeatures),
            buffer_features: FormatFeatureFlags::of_bits(raw.bufferFeatures),
        }
    }

    /// The raw record that stands for the value.
    pub open spec fn raw(self) -> sys::VkFormatProperties {
        sys::VkFormatProperties {
            linearTilingFeatures: self.linear_tiling_features.bits,
            optimalTilingFeatures: self.optimal_tiling_features.bits,
            bufferFeatures: self.buffer_features.bits,
        }
    }

    /// Reads the raw record field by field.
    pub fn from_raw(raw: sys::VkFormatProperties) -> (r: FormatProperties)
        ensures
            r == Self::of_raw(raw),
            r.wf(),
    {
        proof {
            lemma_truncated(raw.linearTilingFeatures, FormatFeatureFlags::known());
        }
        proof {
            lemma_truncated(raw.optimalTilingFeatures, FormatFeatureFlags::known());
        }
        proof {
            lemma_truncated(raw.bufferFeatures, FormatFeatureFlags::known());
        }
        FormatProperties {
            linear_tiling_features: FormatFeatureFlags::from_bits_truncate(
                raw.linearTilingFeatures,
            ),
            optimal_tiling_features: FormatFeatureFlags::from_bits_truncate(
                raw.optimalTilingFeatures,
            ),
            buffer_features: FormatFeatureFlags::from_bits_truncate(raw.bufferFeatures),
        }
    }

    /// Writes the value as its raw record, field by field.
    pub fn into_raw(self) -> (r: sys::VkFormatProperties)
        ensures
            r == self.raw(),
    {
        sys::VkFormatProperties {
            linearTilingFeatures: self.linear_tiling_features.bits(),
            optimalTilingFeatures: self.optimal_tiling_features.bits(),
            bufferFeatures: self.buffer_features.bits(),
        }
    }

    /// Raw to semantic to raw gives an exact record back.
    pub proof fn lemma_raw_round_trip(raw: sys::VkFormatProperties)
        requires
            Self::exact(raw),
        ensures
            Self::of_raw(raw).wf(),
            Self::of_raw(raw).raw() == raw,
    {
        lemma_truncated(raw.linearTilingFeatures, FormatFeatureFlags::known());
        lemma_truncated(raw.optimalTilingFeatures, FormatFeatureFlags::known());
        lemma_truncated(raw.bufferFeatures, FormatFeatureFlags::known());
    }

    /// Semantic to raw to semantic gives a well-formed value back, and the
    /// raw record in between is exact.
    pub proof fn lemma_semantic_round_trip(value: FormatProperties)
        requires
            value.wf(),
        ensures
            Self::exact(value.raw()),
            Self::of_raw(value.raw()) == value,
    {
        lemma_truncated(value.linear_tiling_features.bits, FormatFeatureFlags::known());
        lemma_truncated(value.optimal_tiling_features.bits, FormatFeatureFlags::known());
        lemma_truncated(value.buffer_features.bits, FormatFeatureFlags::known());
    }

    /// Whatever a raw record loses when it is read, it loses once: the
    /// record written back is exact and reads as the same value.
    pub proof fn lemma_reading_is_stable(raw: sys::VkFormatProperties)
        ensures
            Self::exact(Self::of_raw(raw).raw()),
            Self::of_raw(Self::of_raw(raw).raw()) == Self::of_raw(raw),
    {
        lemma_truncated(raw.linearTilingFeatures, FormatFeatureFlags::known());
        lemma_truncated(raw.optimalTilingFeatures, FormatFeatureFlags::known());
        lemma_truncated(raw.bufferFeatures, FormatFeatureFlags::known());
    }
}

impl From<sys::VkFormatProperties> for FormatProperties {
    /// Reads the raw record field by field.
    fn from(raw: sys::VkFormatProperties) -> (r: FormatProperties)
        ensures
            r.wf(),
    {
        FormatProperties::from_raw(raw)
    }
}

impl vstd::std_specs::convert::FromSpecImpl<sys::VkFormatProperties> for FormatProperties {
    open spec fn obeys_from_spec() -> bool {
        true
    }

    open spec fn from_spec(raw: sys::VkFormatProperties) -> FormatProperties {
        FormatProperties::of_raw(raw)
    }
}

impl From<FormatProperties> for sys::VkFormatProperties {
    /// Writes the value as its raw record, field by field.
    fn from(value: FormatProperties) -> (r: sys::VkFormatProperties) {
        value.into_raw()
    }
}

impl vstd::std_specs::convert::FromSpecImpl<FormatProperties> for sys::VkFormatProperties {
    open spec fn obeys_from_spec() -> bool {
        true
    }

    open spec fn from_spec(value: FormatProperties) -> sys::VkFormatProperties {
        value.raw()
    }
}

/// A size in three dimensions.
#[derive(Clone, Copy, PartialEq, Eq, Debug, Default)]
pub struct Extent3D {
    pub width: u32,
    pub height: u32,
    pub depth: u32,
}

impl Extent3D {
    /// The value that a raw record stands for.
    pub open spec fn of_raw(raw: sys::VkExtent3D) -> Extent3D {
        Extent3D {
            width: raw.width,
            height: raw.height,
            depth: raw.depth,
        }
    }

    /// The raw record that stands for the value.
    pub open spec fn raw(self) -> sys::VkExtent3D {
        sys::VkExtent3D {
            width: self.width,
            height: self.height,
            depth: self.depth,
        }
    }

    /// Reads the raw record field by field.
    pub fn from_raw(raw: sys::VkExtent3D) -> (r: Extent3D)
        ensures
            r == Self::of_raw(raw),
    {
        Extent3D {
            width: raw.width,
            height: raw.height,
            depth: raw.depth,
        }
    }

    /// Writes the value as its raw record, field by field.
    pub fn into_raw(self) -> (r: sys::VkExtent3D)
        ensures
            r == self.raw(),
    {
        sys::VkExtent3D {
            width: self.width,
            height: self.height,
            depth: self.depth,
        }
    }

    /// Raw to semantic to raw gives every record back.
    pub proof fn lemma_raw_round_trip(raw: sys::VkExtent3D)
        ensures
            Self::of_raw(raw).raw() == raw,
    {
    }

    /// Semantic to raw to semantic gives every value back.
    pub proof fn lemma_semantic_round_trip(value: Extent3D)
        ensures
            Self::of_raw(value.raw()) == value,
    {
    }
}

impl From<sys::VkExtent3D> for Extent3D {
    /// Reads the raw record field by field.
    fn from(raw: sys::VkExtent3D) -> (r: Extent3D) {
        Extent3D::from_raw(raw)
    }
}

impl vstd::std_specs::convert::FromSpecImpl<sys::VkExtent3D> for Extent3D {
    open spec fn obeys_from_spec() -> bool {
        true
    }

    open spec fn from_spec(raw: sys::VkExtent3D) -> Extent3D {
        Extent3D::of_raw(raw)
    }
}

impl From<Extent3D> for sys::VkExtent3D {
    /// Writes the value as its raw record, field by field.
    fn from(value: Extent3D) -> (r: sys::VkExtent3D) {
        value.into_raw()
    }
}

impl vstd::std_specs::convert::FromSpecImpl<Extent3D> for sys::VkExtent3D {
    open spec fn obeys_from_spec() -> bool {
        true
    }

    open spec fn from_spec(value: Extent3D) -> sys::VkExtent3D {
        value.raw()
    }
}

/// Where one subresource of an image lies in memory.
#[derive(Clone, Copy, PartialEq, Eq, Debug, Default)]
pub struct SubresourceLayout {
    pub offset: u64,
    pub size: u64,
    pub row_pitch: u64,
    pub array_pitch: u64,
    pub depth_pitch: u64,
}

impl SubresourceLayout {
    /// The value that a raw record stands for.
    pub open spec fn of_raw(raw: sys::VkSubresourceLayout) -> SubresourceLayout {
        SubresourceLayout {
            offset: raw.offset,
            size: raw.size,
            row_pitch: raw.rowPitch,
            array_pitch: raw.arrayPitch,
            depth_pitch: raw.depthPitch,
        }
    }

    /// The raw record that stands for the value.
    pub open spec fn raw(self) -> sys::VkSubresourceLayout {
        sys::VkSubresourceLayout {
            offset: self.offset,
            size: self.size,
            rowPitch: self.row_pitch,
            arrayPitch: self.array_pitch,
            depthPitch: self.depth_pitch,
        }
    }

    /// Reads the raw record field by field.
    pub fn from_raw(raw: sys::VkSubresourceLayout) -> (r: SubresourceLayout)
        ensures
            r == Self::of_raw(raw),
    {
        SubresourceLayout {
            offset: raw.offset,
            size: raw.size,
            row_pitch: raw.rowPitch,
            array_pitch: raw.arrayPitch,
            depth_pitch: raw.depthPitch,
        }
    }

    /// Writes the value as its raw record, field by field.
    pub fn into_raw(self) -> (r: sys::VkSubresourceLayout)
        ensures
            r == self.raw(),
    {
        sys::VkSubresourceLayout {
            offset: self.offset,
            size: self.size,
            rowPitch: self.row_pitch,
            arrayPitch: self.array_pitch,
            depthPitch: self.depth_pitch,
        }
    }

    /// Raw to semantic to raw gives every record back.
    pub proof fn lemma_raw_round_trip(raw: sys::VkSubresourceLayout)
        ensures
            Self::of_raw(raw).raw() == raw,
    {
    }

    /// Semantic to raw to semantic gives every value back.
    pub proof fn lemma_semantic_round_trip(value: SubresourceLayout)
        ensures
            Self::of_raw(value.raw()) == value,
    {
    }
}

impl From<sys::VkSubresourceLayout> for SubresourceLayout {
    /// Reads the raw record field by field.
    fn from(raw: sys::VkSubresourceLayout) -> (r: SubresourceLayout) {
        SubresourceLayout::from_raw(raw)
    }
}

impl vstd::std_specs::convert::FromSpecImpl<sys::VkSubresourceLayout> for SubresourceLayout {
    open spec fn obeys_from_spec() -> bool {
        true
    }

    open spec fn from_spec(raw: sys::VkSubresourceLayout) -> SubresourceLayout {
        SubresourceLayout::of_raw(raw)
    }
}

impl From<SubresourceLayout> for sys::VkSubresourceLayout {
    /// Writes the value as its raw record, field by field.
    fn from(value: SubresourceLayout) -> (r: sys::VkSubresourceLayout) {
        value.into_raw()
    }
}

impl vstd::std_specs::convert::FromSpecImpl<SubresourceLayout> for sys::VkSubresourceLayout {
    open spec fn obeys_from_spec() -> bool {
        true
    }

    open spec fn from_spec(value: SubresourceLayout) -> sys::VkSubresourceLayout {
        value.raw()
    }
}

/// Sparse properties of an image format.
#[derive(Clone, Copy, PartialEq, Eq, Debug, Default)]
pub struct SparseImageFormatProperties {
    pub aspect_mask: ImageAspectFlags,
    pub image_granularity: Extent3D,
    pub flags: SparseImageFormatFlags,
}

impl SparseImageFormatProperties {
    /// Whether every flag set in the value holds named bits only.
    pub open spec fn wf(self) -> bool {
        &&& self.aspect_mask.wf()
        &&& self.flags.wf()
    }

    /// Whether the raw record is carried over without loss: its masks
    /// hold named bits only.
    pub open spec fn exact(raw: sys::VkSparseImageFormatProperties) -> bool {
        &&& within(raw.aspectMask, ImageAspectFlags::known())
        &&& within(raw.flags, SparseImageFormatFlags::known())
    }

    /// The value that a raw record stands for.
    pub open spec fn of_raw(raw: sys::VkSparseImageFormatProperties) -> SparseImageFormatProperties {
        SparseImageFormatProperties {
            aspect_mask: ImageAspectFlags::of_bits(raw.aspectMask),
            image_granularity: Extent3D::of_raw(raw.imageGranularity),
            flags: SparseImageFormatFlags::of_bits(raw.flags),
        }
    }

    /// The raw record that stands for the value.
    pub open spec fn raw(self) -> sys::VkSparseImageFormatProperties {
        sys::VkSparseImageFormatProperties {
            aspectMask: self.aspect_mask.bits,
            imageGranularity: self.image_granularity.raw(),
            flags: self.flags.bits,
        }
    }

    /// Reads the raw record field by field.
    pub fn from_raw(raw: sys::VkSparseImageFormatProperties) -> (r: SparseImageFormatProperties)
        ensures
            r == Self::of_raw(raw),
            r.wf(),
    {
        proof {
            lemma_truncated(raw.aspectMask, ImageAspectFlags::known());
        }
        proof {
            lemma_truncated(raw.flags, SparseImageFormatFlags::known());
        }
        SparseImageFormatProperties {
            aspect_mask: ImageAspectFlags::from_bits_truncate(raw.aspectMask),
            image_granularity: Extent3D::from_raw(raw.imageGranularity),
            flags: SparseImageFormatFlags::from_bits_truncate(raw.flags),
        }
    }

    /// Writes the value as its raw record, field by field.
    pub fn into_raw(self) -> (r: sys::VkSparseImageFormatProperties)
        ensures
            r == self.raw(),
    {
        sys::VkSparseImageFormatProperties {
            aspectMask: self.aspect_mask.bits(),
            imageGranularity: self.image_granularity.into_raw(),
            flags: self.flags.bits(),
        }
    }

    /// Raw to semantic to raw gives an exact record back.
    pub proof fn lemma_raw_round_trip(raw: sys::VkSparseImageFormatProperties)
        requires
            Self::exact(raw),
        ensures
            Self::of_raw(raw).wf(),
            Self::of_raw(raw).raw() == raw,
    {
        lemma_truncated(raw.aspectMask, ImageAspectFlags::known());
        Extent3D::lemma_raw_round_trip(raw.imageGranularity);
        lemma_truncated(raw.flags, SparseImageFormatFlags::known());
    }

    /// Semantic to raw to semantic gives a well-formed value back, and the
    /// raw record in between is exact.
    pub proof fn lemma_semantic_round_trip(value: SparseImageFormatProperties)
        requires
            value.wf(),
        ensures
            Self::exact(value.raw()),
            Self::of_raw(value.raw()) == value,
    {
        lemma_truncated(value.aspect_mask.bits, ImageAspectFlags::known());
        Extent3D::lemma_semantic_round_trip(value.image_granularity);
        lemma_truncated(value.flags.bits, SparseImageFormatFlags::known());
    }

    /// Whatever a raw record loses when it is read, it loses once: the
    /// record written back is exact and reads as the same value.
    pub proof fn lemma_reading_is_stable(raw: sys::VkSparseImageFormatProperties)
        ensures
            Self::exact(Self::of_raw(raw).raw()),
            Self::of_raw(Self::of_raw(raw).raw()) == Self::of_raw(raw),
    {
        lemma_truncated(raw.aspectMask, ImageAspectFlags::known());
        Extent3D::lemma_raw_round_trip(raw.imageGranularity);
        lemma_truncated(raw.flags, SparseImageFormatFlags::known());
    }
}

impl From<sys::VkSparseImageFormatProperties> for SparseImageFormatProperties {
    /// Reads the raw record field by field.
    fn from(raw: sys::VkSparseImageFormatProperties) -> (r: SparseImageFormatProperties)
        ensures
            r.wf(),
    {
        SparseImageFormatProperties::from_raw(raw)
    }
}

impl vstd::std_specs::convert::FromSpecImpl<sys::VkSparseImageFormatProperties> for SparseImageFormatProperties {
    open spec fn obeys_from_spec() -> bool {
        true
    }

    open spec fn from_spec(raw: sys::VkSparseImageFormatProperties) -> SparseImageFormatProperties {
        SparseImageFormatProperties::of_raw(raw)
    }
}

impl From<SparseImageFormatProperties> for sys::VkSparseImageFormatProperties {
    /// Writes the value as its raw record, field by field.
    fn from(value: SparseImageFormatProperties) -> (r: sys::VkSparseImageFormatProperties) {
        value.into_raw()
    }
}

impl vstd::std_specs::convert::FromSpecImpl<SparseImageFormatProperties> for sys::VkSparseImageFormatProperties {
    open spec fn obeys_from_spec() -> bool {
        true
    }

    open spec fn from_spec(value: SparseImageFormatProperties) -> sys::VkSparseImageFormatProperties {
        value.raw()
    }
}

/// Sparse memory that an image needs.
#[derive(Clone, Copy, PartialEq, Eq, Debug, Default)]
pub struct SparseImageMemoryRequirements {
    pub format_properties: SparseImageFormatProperties,
    pub mip_tail_first_lod: u32,
    pub mip_tail_size: u64,
    pub mip_tail_offset: u64,
    pub mip_tail_stride: u64,
}

impl SparseImageMemoryRequirements {
    /// Whether every flag set in the value holds named bits only.
    pub open spec fn wf(self) -> bool {
        &&& self.format_properties.wf()
    }

    /// Whether the raw record is carried over without loss: its masks
    /// hold named bits only.
    pub open spec fn exact(raw: sys::VkSparseImageMemoryRequirements) -> bool {
        &&& SparseImageFormatProperties::exact(raw.formatProperties)
    }

    /// The value that a raw record stands for.
    pub open spec fn of_raw(raw: sys::VkSparseImageMemoryRequirements) -> SparseImageMemoryRequirements {
        SparseImageMemoryRequirements {
            format_properties: SparseImageFormatProperties::of_raw(raw.formatProperties),
            mip_tail_first_lod: raw.imageMipTailFirstLod,
            mip_tail_size: raw.imageMipTailSize,
            mip_tail_offset: raw.imageMipTailOffset,
            mip_tail_stride: raw.imageMipTailStride,
        }
    }

    /// The raw record that stands for the value.
    pub open spec fn raw(self) -> sys::VkSparseImageMemoryRequirements {
        sys::VkSparseImageMemoryRequirements {
            formatProperties: self.format_properties.raw(),
            imageMipTailFirstLod: self.mip_tail_first_lod,
            imageMipTailSize: self.mip_tail_size,
            imageMipTailOffset: self.mip_tail_offset,
            imageMipTailStride: self.mip_tail_stride,
        }
    }

    /// Reads the raw record field by field.
    pub fn from_raw(raw: sys::VkSparseImageMemoryRequirements) -> (r: SparseImageMemoryRequirements)
        ensures
            r == Self::of_raw(raw),
            r.wf(),
    {
        SparseImageMemoryRequirements {
            format_properties: SparseImageFormatProperties::from_raw(raw.formatProperties),
            mip_tail_first_lod: raw.imageMipTailFirstLod,
            mip_tail_size: raw.imageMipTailSize,
            mip_tail_offset: raw.imageMipTailOffset,
            mip_tail_stride: raw.imageMipTailStride,
        }
    }

    /// Writes the value as its raw record, field by field.
    pub fn into_raw(self) -> (r: sys::VkSparseImageMemoryRequirements)
        ensures
            r == self.raw(),
    {
        sys::VkSparseImageMemoryRequirements {
            formatProperties: self.format_properties.into_raw(),
            imageMipTailFirstLod: self.mip_tail_first_lod,
            imageMipTailSize: self.mip_tail_size,
            imageMipTailOffset: self.mip_tail_offset,
            imageMipTailStride: self.mip_tail_stride,
        }
    }

    /// Raw to semantic to raw gives an exact record back.
    pub proof fn lemma_raw_round_trip(raw: sys::VkSparseImageMemoryRequirements)
        requires
            Self::exact(raw),
        ensures
            Self::of_raw(raw).wf(),
            Self::of_raw(raw).raw() == raw,
    {
        SparseImageFormatProperties::lemma_raw_round_trip(raw.formatProperties);
    }

    /// Semantic to raw to semantic gives a well-formed value back, and the
    /// raw record in between is exact.
    pub proof fn lemma_semantic_round_trip(value: SparseImageMemoryRequirements)
        requires
            value.wf(),
        ensures
            Self::exact(value.raw()),
            Self::of_raw(value.raw()) == value,
    {
        SparseImageFormatProperties::lemma_semantic_round_trip(value.format_properties);
    }

    /// Whatever a raw record loses when it is read, it loses once: the
    /// record written back is exact and reads as the same value.
    pub proof fn lemma_reading_is_stable(raw: sys::VkSparseImageMemoryRequirements)
        ensures
            Self::exact(Self::of_raw(raw).raw()),
            Self::of_raw(Self::of_raw(raw).raw()) == Self::of_raw(raw),
    {
        SparseImageFormatProperties::lemma_reading_is_stable(raw.formatProperties);
    }
}

impl From<sys::VkSparseImageMemoryRequirements> for SparseImageMemoryRequirements {
    /// Reads the raw record field by field.
    fn from(raw: sys::VkSparseImageMemoryRequirements) -> (r: SparseImageMemoryRequirements)
        ensures
            r.wf(),
    {
        SparseImageMemoryRequirements::from_raw(raw)
    }
}

impl vstd::std_specs::convert::FromSpecImpl<sys::VkSparseImageMemoryRequirements> for SparseImageMemoryRequirements {
    open spec fn obeys_from_spec() -> bool {
        true
    }

    open spec fn from_spec(raw: sys::VkSparseImageMemoryRequirements) -> SparseImageMemoryRequirements {
        SparseImageMemoryRequirements::of_raw(raw)
    }
}

impl From<SparseImageMemoryRequirements> for sys::VkSparseImageMemoryRequirements {
    /// Writes the value as its raw record, field by field.
    fn from(value: SparseImageMemoryRequirements) -> (r: sys::VkSparseImageMemoryRequirements) {
        value.into_raw()
    }
}

impl vstd::std_specs::convert::FromSpecImpl<SparseImageMemoryRequirements> for sys::VkSparseImageMemoryRequirements {
    open spec fn obeys_from_spec() -> bool {
        true
    }

    open spec fn from_spec(value: SparseImageMemoryRequirements) -> sys::VkSparseImageMemoryRequirements {
        value.raw()
    }
}

/// Borrowed view of a request to create an instance.
pub struct InstanceCreateInfo<'a>(pub &'a sys::VkInstanceCreateInfo);

/// Borrowed view of a request to open a device.
pub struct DeviceCreateInfo<'a>(pub &'a sys::VkDeviceCreateInfo);

/// Borrowed view of one queue request of a device request.
pub struct DeviceQueueCreateInfo<'a>(pub &'a sys::VkDeviceQueueCreateInfo);

/// Borrowed view of the batches of a queue submission.
pub struct SubmitInfos<'a>(pub &'a [sys::VkSubmitInfo]);

/// Borrowed view of a request to allocate device memory.
pub struct MemoryAllocateInfo<'a>(pub &'a sys::VkMemoryAllocateInfo);

/// Borrowed view of a list of mapped memory ranges.
pub struct MappedMemoryRanges<'a>(pub &'a [sys::VkMappedMemoryRange]);

/// Borrowed view of the batches of a sparse binding.
pub struct BindSparseInfos<'a>(pub &'a [sys::VkBindSparseInfo]);

/// Borrowed view of a request to create a buffer.
pub struct BufferCreateInfo<'a>(pub &'a sys::VkBufferCreateInfo);

/// Borrowed view of a request to create a buffer view.
pub struct BufferViewCreateInfo<'a>(pub &'a sys::VkBufferViewCreateInfo);

/// Borrowed view of a request to create an image.
pub struct ImageCreateInfo<'a>(pub &'a sys::VkImageCreateInfo);

/// Borrowed view of a request to create an image view.
pub struct ImageViewCreateInfo<'a>(pub &'a sys::VkImageViewCreateInfo);

/// Borrowed view of one subresource of an image.
pub struct ImageSubresource<'a>(pub &'a sys::VkImageSubresource);

/// Borrowed view of a request to create a shader module.
pub struct ShaderModuleCreateInfo<'a>(pub &'a sys::VkShaderModuleCreateInfo);

/// Borrowed view of a request to create a graphics pipeline.
pub struct GraphicsPipelineCreateInfo<'a>(pub &'a sys::VkGraphicsPipelineCreateInfo);

/// Borrowed view of a request to create a pipeline cache.
pub struct PipelineCacheCreateInfo<'a>(pub &'a sys::VkPipelineCacheCreateInfo);

/// Borrowed view of a request to create a fence.
pub struct FenceCreateInfo<'a>(pub &'a sys::VkFenceCreateInfo);

/// Borrowed view of a request to create a semaphore.
pub struct SemaphoreCreateInfo<'a>(pub &'a sys::VkSemaphoreCreateInfo);

/// Borrowed view of a request to create an event.
pub struct EventCreateInfo<'a>(pub &'a sys::VkEventCreateInfo);

/// Borrowed view of a request to create a pool of queries.
pub struct QueryPoolCreateInfo<'a>(pub &'a sys::VkQueryPoolCreateInfo);

impl<'a> DeviceCreateInfo<'a> {
    /// The queue requests of the device request, in the order given.
    pub fn queues(&self) -> (r: Vec<DeviceQueueCreateInfo<'a>>)
        ensures
            r@.len() == self.0.queueCreateInfos@.len(),
            forall|i: int| 0 <= i < r@.len() ==> *(#[trigger] r@[i]).0 == self.0.queueCreateInfos@[i],
    {
        let raw: &'a sys::VkDeviceCreateInfo = self.0;
        let mut views: Vec<DeviceQueueCreateInfo<'a>> = Vec::new();
        let mut i: usize = 0;
        while i < raw.queueCreateInfos.len()
            invariant
                i <= raw.queueCreateInfos@.len(),
                views@.len() == i,
                forall|j: int| 0 <= j < i ==> *(#[trigger] views@[j]).0 == raw.queueCreateInfos@[j],
            decreases raw.queueCreateInfos@.len() - i,
        {
            views.push(DeviceQueueCreateInfo(&raw.queueCreateInfos[i]));
            i = i + 1;
        }
        views
    }
}

impl<'a> DeviceQueueCreateInfo<'a> {
    /// The index of the queue family that the queues are asked from.
    pub fn family_index(&self) -> (r: u32)
        ensures
            r == self.0.queueFamilyIndex,
    {
        self.0.queueFamilyIndex
    }

    /// The number of queues asked for.
    pub fn count(&self) -> (r: u32)
        ensures
            r == self.0.queueCount,
    {
        self.0.queueCount
    }
}


} // verus!
