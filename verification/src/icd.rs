//! The contracts that a backend implements: one trait for each kind of
//! backend object, and the bundle that names the type chosen for each kind.
//!
//! A `destroy` consumes its receiver, so no operation can follow it.
use crate::data::{
    BindSparseInfos, BufferCreateInfo, BufferViewCreateInfo, DeviceCreateInfo, Error,
    EventCreateInfo, FenceCreateInfo, FormatProperties, GraphicsPipelineCreateInfo,
    ImageCreateInfo, ImageSubresource, ImageViewCreateInfo, InstanceCreateInfo,
    MappedMemoryRanges, MemoryAllocateInfo, MemoryRequirements, PhysicalDeviceFeatures,
    PipelineCacheCreateInfo, QueryPoolCreateInfo, SemaphoreCreateInfo, ShaderModuleCreateInfo,
    SparseImageMemoryRequirements, SubmitInfos, SubresourceLayout,
};
use crate::flags::{MemoryMapFlags, QueryResultFlags};
use crate::format::Format;
use crate::sys;
use vstd::prelude::*;

verus! {

/// Whether one queue request can be served from the given queue families,
/// each given by the number of queues it offers: the family exists and offers
/// at least as many queues as are asked for.
pub open spec fn request_fits(families: Seq<u32>, request: sys::VkDeviceQueueCreateInfo) -> bool {
    &&& request.queueFamilyIndex < families.len()
    &&& request.queueCount <= families[request.queueFamilyIndex as int]
}

/// Whether every queue request of a list can be served.
pub open spec fn requests_fit(
    families: Seq<u32>,
    requests: Seq<sys::VkDeviceQueueCreateInfo>,
) -> bool {
    forall|i: int| 0 <= i < requests.len() ==> request_fits(families, #[trigger] requests[i])
}

/// The types that a backend chooses, one for each kind of object.
pub trait Impl: Sized + Sync + 'static {
    type Instance: Instance<Self::PhysicalDevice>;

    type PhysicalDevice: PhysicalDevice<Self::Device>;

    type Device: Device<Self::DeviceMemory>;

    type Queue: Queue<Self::Fence>;

    type CommandBuffer: CommandBuffer;

    type DeviceMemory: DeviceMemory<Self::Device>;

    type Buffer: Buffer<Self::Device, Self::DeviceMemory>;

    type Image: Image<Self::Device, Self::DeviceMemory>;

    type Fence: Fence<Self::Device>;

    type PipelineCache: PipelineCache<Self::Device>;
}

/// An instance of the backend, which finds physical devices of type `P`.
pub trait Instance<P>: Sized + Send + Sync + 'static {
    /// Creates an instance.
    fn create(info: InstanceCreateInfo) -> (r: Result<Self, Error>);

    /// The number of physical devices that can be enumerated now.
    fn physical_device_count(&self) -> (r: Result<u32, Error>);

    /// The physical devices, at most `capacity` of them.
    fn enumerate_physical_devices(&self, capacity: u32) -> (r: Result<Vec<P>, Error>)
        ensures
            r matches Ok(devices) ==> devices@.len() <= capacity,
    ;
}

/// A physical device, which opens devices of type `D`.
pub trait PhysicalDevice<D>: Sized + Send + Sync + 'static {
    /// The features of the device. They belong to the device as it is, so a
    /// query has one answer. A verified backend says what they are; of any
    /// other it is only known that they are a function of the device.
    open spec fn features(&self) -> PhysicalDeviceFeatures {
        arbitrary::<spec_fn(Self) -> PhysicalDeviceFeatures>()(*self)
    }

    /// The properties of a format on the device.
    open spec fn format_properties(&self, format: Format) -> FormatProperties {
        arbitrary::<spec_fn(Self, Format) -> FormatProperties>()(*self, format)
    }

    /// The queue families of the device, each given by the number of queues
    /// that it offers.
    open spec fn queue_families(&self) -> Seq<u32> {
        arbitrary::<spec_fn(Self) -> Seq<u32>>()(*self)
    }

    /// Queries the features. The query cannot fail and changes nothing.
    fn get_features(&self) -> (r: PhysicalDeviceFeatures)
        ensures
            r == self.features(),
    ;

    /// Queries the properties of a format. The query cannot fail and changes
    /// nothing.
    fn get_format_properties(&self, format: Format) -> (r: FormatProperties)
        ensures
            r == self.format_properties(format),
    ;

    /// Opens a device with the requested queues. A request that names a
    /// family that the device does not have, or more queues than the family
    /// offers, fails with `InitializationFailed`.
    fn create_device(&self, create_info: DeviceCreateInfo) -> (r: Result<D, Error>)
        ensures
            !requests_fit(self.queue_families(), create_info.0.queueCreateInfos@) ==> r == Err::<
                D,
                Error,
            >(Error::InitializationFailed),
    ;
}

/// An open device, which allocates memory objects of type `M`.
pub trait Device<M>: Sized + Send + Sync + 'static {
    /// Blocks until the device is idle.
    fn wait_idle(&self) -> (r: Result<(), Error>);

    /// Allocates device memory.
    fn allocate_memory(&self, info: MemoryAllocateInfo) -> (r: Result<M, Error>);

    /// Makes host writes to the ranges visible to the device.
    fn flush_mapped_memory_ranges(&self, ranges: MappedMemoryRanges) -> (r: Result<(), Error>);

    /// Makes device writes to the ranges visible to the host.
    fn invalidate_mapped_memory_ranges(&self, ranges: MappedMemoryRanges) -> (r: Result<
        (),
        Error,
    >);
}

/// A queue of a device, which signals fences of type `F`.
pub trait Queue<F>: Sized + Send + Sync + 'static {
    /// Submits the batches. The fence, if one is given, is signaled when the
    /// batches have completed.
    fn submit(&mut self, submits: SubmitInfos, fence: Option<&mut F>);

    /// Blocks until the queue is idle.
    fn wait_idle(&self) -> (r: Result<(), Error>);

    /// Binds sparse memory. The fence, if one is given, is signaled when the
    /// bindings have completed.
    fn bind_sparse(&mut self, infos: BindSparseInfos, fence: Option<&mut F>);
}

/// A command buffer.
pub trait CommandBuffer: Sized + Send + 'static {

}

/// A device memory object of a device of type `D`. At most one mapping of a
/// memory object is active at a time.
pub trait DeviceMemory<D>: Sized + Send + Sync + 'static {
    /// Whether a mapping of the object is active.
    open spec fn is_mapped(&self) -> bool {
        arbitrary::<spec_fn(Self) -> bool>()(*self)
    }

    /// Maps a range of the object and returns the address of the mapping.
    /// While a mapping is active, another one is refused with
    /// `MemoryMapFailed` and the object stays as it is.
    fn map(&mut self, device: &D, offset: u64, size: u64, flags: MemoryMapFlags) -> (r: Result<
        usize,
        Error,
    >)
        ensures
            old(self).is_mapped() ==> r == Err::<usize, Error>(Error::MemoryMapFailed),
            r is Ok ==> final(self).is_mapped(),
            r is Err ==> final(self).is_mapped() == old(self).is_mapped(),
    ;

    /// Ends the active mapping, if there is one.
    fn unmap(&mut self, device: &D)
        ensures
            !final(self).is_mapped(),
    ;

    /// Queries the memory that is committed to the object.
    fn get_memory_commitment(&self, device: &D);

    /// Frees the object.
    fn destroy(self, _device: &D) {
    }
}

/// A buffer of a device of type `D`, bound to memory of type `M`.
pub trait Buffer<D, M>: Sized + Send + Sync + 'static {
    /// Whether memory is bound to the buffer.
    open spec fn is_bound(&self) -> bool {
        arbitrary::<spec_fn(Self) -> bool>()(*self)
    }

    /// Creates a buffer.
    fn new(device: &D, info: BufferCreateInfo) -> (r: Result<Self, Error>);

    /// Destroys the buffer.
    fn destroy(self, _device: &D) {
    }

    /// The memory that the buffer needs.
    fn get_memory_requirements(&self, device: &D) -> (r: MemoryRequirements);

    /// Binds memory to the buffer. A buffer that is bound already refuses,
    /// and a refusal leaves the binding as it was.
    fn bind_memory(&mut self, device: &D, memory: &M, offset: u64) -> (r: Result<(), Error>)
        ensures
            old(self).is_bound() ==> r is Err,
            r is Ok ==> final(self).is_bound(),
            r is Err ==> final(self).is_bound() == old(self).is_bound(),
    ;
}

/// An image of a device of type `D`, bound to memory of type `M`.
pub trait Image<D, M>: Sized + Send + Sync + 'static {
    /// Whether memory is bound to the image.
    open spec fn is_bound(&self) -> bool {
        arbitrary::<spec_fn(Self) -> bool>()(*self)
    }

    /// Creates an image.
    fn new(device: &D, info: ImageCreateInfo) -> (r: Result<Self, Error>);

    /// Destroys the image.
    fn destroy(self, _device: &D) {
    }

    /// The memory that the image needs.
    fn get_memory_requirements(&self, device: &D) -> (r: MemoryRequirements);

    /// The sparse memory that the image needs.
    fn get_sparse_memory_requirements(&self, device: &D, capacity: u32) -> (r: Vec<
        SparseImageMemoryRequirements,
    >);

    /// Binds memory to the image. An image that is bound already refuses, and
    /// a refusal leaves the binding as it was.
    fn bind_memory(&mut self, device: &D, memory: &M, offset: u64) -> (r: Result<(), Error>)
        ensures
            old(self).is_bound() ==> r is Err,
            r is Ok ==> final(self).is_bound(),
            r is Err ==> final(self).is_bound() == old(self).is_bound(),
    ;

    /// Where a subresource of the image lies in memory.
    fn get_subresource_layout(&self, subresource: ImageSubresource) -> (r: Result<
        SubresourceLayout,
        Error,
    >);
}

/// A fence of a device of type `D`.
pub trait Fence<D>: Sized + Send + Sync + 'static {
    /// Creates a fence.
    fn new(device: &D, info: FenceCreateInfo) -> (r: Result<Self, Error>);

    /// Destroys the fence.
    fn destroy(self, _device: &D) {
    }

    /// Resets the fences to unsignaled.
    fn reset(device: &D, fences: &mut Vec<Self>)
        ensures
            final(fences)@.len() == old(fences)@.len(),
    ;

    /// Blocks until the fences are signaled.
    fn wait(device: &D, fences: &[Self]);

    /// Whether the fence is signaled: `Ok` if it is, `NotReady` if not.
    fn get_status(&self, device: &D) -> (r: Result<(), Error>)
        ensures
            r matches Err(e) ==> e == Error::NotReady,
    ;
}

/// A pipeline cache of a device of type `D`.
pub trait PipelineCache<D>: Sized + Send + Sync + 'static {
    /// Creates a pipeline cache.
    fn new(device: &D, info: PipelineCacheCreateInfo) -> (r: Result<Self, Error>);

    /// Destroys the cache.
    fn destroy(self, _device: &D) {
    }

    /// The size in bytes of the cache's data.
    fn get_data_size(&self, device: &D) -> (r: Result<usize, Error>);

    /// Writes the cache's data to the front of `data` and returns the number
    /// of bytes written.
    fn get_data(&self, device: &D, data: &mut Vec<u8>) -> (r: Result<usize, Error>)
        ensures
            final(data)@.len() == old(data)@.len(),
            r matches Ok(written) ==> written <= old(data)@.len(),
    ;

    /// Merges the source caches into this one.
    fn merge(&self, device: &D, sources: &[Self]) -> (r: Result<(), Error>);
}

/// A view of a range of a buffer, on a device of type `D`.
pub trait BufferView<D>: Sized + Send + Sync + 'static {
    /// Creates a buffer view.
    fn new(device: &D, info: BufferViewCreateInfo) -> (r: Result<Self, Error>);

    /// Destroys the view.
    fn destroy(self, _device: &D) {
    }
}

/// A view of an image, on a device of type `D`.
pub trait ImageView<D>: Sized + Send + Sync + 'static {
    /// Creates an image view.
    fn new(device: &D, info: ImageViewCreateInfo) -> (r: Result<Self, Error>);

    /// Destroys the view.
    fn destroy(self, _device: &D) {
    }
}

/// A shader module of a device of type `D`.
pub trait ShaderModule<D>: Sized + Send + Sync + 'static {
    /// Creates a shader module.
    fn new(device: &D, info: ShaderModuleCreateInfo) -> (r: Result<Self, Error>);

    /// Destroys the module.
    fn destroy(self, _device: &D) {
    }
}

/// A pipeline of a device of type `D`, created with a cache of type `C`.
pub trait Pipeline<D, C>: Sized + Send + Sync + 'static {
    /// Creates graphics pipelines, one for each request.
    fn create_graphics(
        device: &D,
        pipeline_cache: Option<&C>,
        create_info: &[GraphicsPipelineCreateInfo],
    ) -> (r: Vec<Self>);

    /// Creates compute pipelines, one for each request.
    fn create_compute(
        device: &D,
        pipeline_cache: Option<&C>,
        create_info: &[GraphicsPipelineCreateInfo],
    ) -> (r: Vec<Self>);

    /// Destroys the pipeline.
    fn destroy(self, _device: &D) {
    }
}

/// A semaphore of a device of type `D`.
pub trait Semaphore<D>: Sized + Send + Sync + 'static {
    /// Creates a semaphore.
    fn new(device: &D, info: SemaphoreCreateInfo) -> (r: Result<Self, Error>);

    /// Destroys the semaphore.
    fn destroy(self, _device: &D) {
    }
}

/// An event of a device of type `D`.
pub trait Event<D>: Sized + Send + Sync + 'static {
    /// Creates an event.
    fn new(device: &D, info: EventCreateInfo) -> (r: Result<Self, Error>);

    /// Destroys the event.
    fn destroy(self, _device: &D) {
    }

    /// Whether the event is signaled.
    fn get_status(&self, device: &D) -> (r: Result<(), Error>);

    /// Signals the event.
    fn set(&mut self, device: &D) -> (r: Result<(), Error>);

    /// Resets the event to unsignaled.
    fn reset(&mut self, _device: &D) -> (r: Result<(), Error>);
}

/// A pool of queries of a device of type `D`.
pub trait QueryPool<D>: Sized + Send + Sync + 'static {
    /// Creates a pool of queries.
    fn new(device: &D, info: QueryPoolCreateInfo) -> (r: Result<Self, Error>);

    /// Destroys the pool.
    fn destroy(self, _device: &D) {
    }

    /// Writes the results of the queries in the range to `data`, `stride`
    /// bytes apart.
    fn get_results(
        &self,
        device: &D,
        queries: core::ops::Range<u32>,
        data: &mut Vec<u8>,
        stride: u64,
        flags: QueryResultFlags,
    ) -> (r: Result<(), Error>)
        ensures
            final(data)@.len() == old(data)@.len(),
    ;
}

} // verus!
