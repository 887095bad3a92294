use vk_middle::backend;
use vk_middle::data::{
    BindSparseInfos, BufferCreateInfo, DeviceCreateInfo, Error, FenceCreateInfo, FormatProperties,
    ImageCreateInfo, ImageSubresource, InstanceCreateInfo, MappedMemoryRanges, MemoryAllocateInfo,
    MemoryRequirements, PhysicalDeviceFeatures, PipelineCacheCreateInfo,
    SparseImageMemoryRequirements, SubmitInfos, SubresourceLayout,
};
use vk_middle::dispatch::Handle;
use vk_middle::entry::Driver;
use vk_middle::flags::{FormatFeatureFlags, MemoryMapFlags};
use vk_middle::format::Format;
use vk_middle::icd;
use vk_middle::sys;

// A backend over adapters that are described by plain values: each adapter
// is the list of its queue families, each family the number of its queues.
fn adapters() -> Vec<Vec<u32>> {
    vec![vec![1, 4], vec![], vec![2]]
}

struct Backend;

struct Instance {
    adapters: Vec<Vec<u32>>,
}

struct PhysicalDevice {
    families: Vec<u32>,
}

struct Device {
    queues: Vec<backend::QueueSelection>,
}

struct Queue;

struct CommandBuffer;

struct DeviceMemory {
    mapped: bool,
}

struct Buffer {
    bound: bool,
}

struct Image {
    bound: bool,
}

struct Fence {
    signaled: bool,
}

struct PipelineCache {
    data: Vec<u8>,
}

impl icd::Impl for Backend {
    type Instance = Instance;
    type PhysicalDevice = PhysicalDevice;
    type Device = Device;
    type Queue = Queue;
    type CommandBuffer = CommandBuffer;
    type DeviceMemory = DeviceMemory;
    type Buffer = Buffer;
    type Image = Image;
    type Fence = Fence;
    type PipelineCache = PipelineCache;
}

impl icd::Instance<PhysicalDevice> for Instance {
    fn create(info: InstanceCreateInfo) -> Result<Self, Error> {
        if info.0.apiVersion == 0 {
            return Err(Error::IncompatibleDriver);
        }
        Ok(Instance { adapters: adapters() })
    }

    fn physical_device_count(&self) -> Result<u32, Error> {
        Ok(backend::physical_device_count(self.adapters.len()))
    }

    fn enumerate_physical_devices(&self, capacity: u32) -> Result<Vec<PhysicalDevice>, Error> {
        let handed = backend::enumerate_physical_devices(self.adapters.clone(), capacity);
        Ok(handed.into_iter().map(|families| PhysicalDevice { families }).collect())
    }
}

fn features() -> PhysicalDeviceFeatures {
    let mut raw = sys::VkPhysicalDeviceFeatures::default();
    raw.geometryShader = sys::VK_TRUE;
    raw.inheritedQueries = sys::VK_TRUE;
    PhysicalDeviceFeatures::from(raw)
}

impl icd::PhysicalDevice<Device> for PhysicalDevice {
    fn get_features(&self) -> PhysicalDeviceFeatures {
        features()
    }

    fn get_format_properties(&self, format: Format) -> FormatProperties {
        let bits = match format {
            Format::R8Unorm => sys::VK_FORMAT_FEATURE_SAMPLED_IMAGE_BIT,
            Format::Other(code) => code as u32 & 0xFF,
            _ => 0,
        };
        FormatProperties {
            linear_tiling_features: FormatFeatureFlags::from_bits_truncate(bits),
            optimal_tiling_features: FormatFeatureFlags::empty(),
            buffer_features: FormatFeatureFlags::empty(),
        }
    }

    fn create_device(&self, create_info: DeviceCreateInfo) -> Result<Device, Error> {
        let queues = backend::create_device(&self.families, create_info)?;
        Ok(Device { queues })
    }
}

impl icd::Device<DeviceMemory> for Device {
    fn wait_idle(&self) -> Result<(), Error> {
        Ok(())
    }

    fn allocate_memory(&self, info: MemoryAllocateInfo) -> Result<DeviceMemory, Error> {
        if info.0.allocationSize == 0 {
            return Err(Error::OutOfDeviceMemory);
        }
        Ok(DeviceMemory { mapped: false })
    }

    fn flush_mapped_memory_ranges(&self, _ranges: MappedMemoryRanges) -> Result<(), Error> {
        Ok(())
    }

    fn invalidate_mapped_memory_ranges(&self, _ranges: MappedMemoryRanges) -> Result<(), Error> {
        Ok(())
    }
}

impl icd::Queue<Fence> for Queue {
    fn submit(&mut self, _submits: SubmitInfos, fence: Option<&mut Fence>) {
        if let Some(fence) = fence {
            fence.signaled = true;
        }
    }

    fn wait_idle(&self) -> Result<(), Error> {
        Ok(())
    }

    fn bind_sparse(&mut self, _infos: BindSparseInfos, fence: Option<&mut Fence>) {
        if let Some(fence) = fence {
            fence.signaled = true;
        }
    }
}

impl icd::CommandBuffer for CommandBuffer {}

impl icd::DeviceMemory<Device> for DeviceMemory {
    fn map(
        &mut self,
        _device: &Device,
        offset: u64,
        _size: u64,
        _flags: MemoryMapFlags,
    ) -> Result<usize, Error> {
        if self.mapped {
            return Err(Error::MemoryMapFailed);
        }
        self.mapped = true;
        Ok(0x1000 + offset as usize)
    }

    fn unmap(&mut self, _device: &Device) {
        self.mapped = false;
    }

    fn get_memory_commitment(&self, _device: &Device) {}
}

impl icd::Buffer<Device, DeviceMemory> for Buffer {
    fn new(_device: &Device, info: BufferCreateInfo) -> Result<Self, Error> {
        if info.0.size == 0 {
            return Err(Error::OutOfDeviceMemory);
        }
        Ok(Buffer { bound: false })
    }

    fn get_memory_requirements(&self, _device: &Device) -> MemoryRequirements {
        MemoryRequirements { size: 64, alignment: 16, memory_types: 1 }
    }

    fn bind_memory(&mut self, _device: &Device, _memory: &DeviceMemory, _offset: u64) -> Result<(), Error> {
        if self.bound {
            return Err(Error::InitializationFailed);
        }
        self.bound = true;
        Ok(())
    }
}

impl icd::Image<Device, DeviceMemory> for Image {
    fn new(_device: &Device, _info: ImageCreateInfo) -> Result<Self, Error> {
        Ok(Image { bound: false })
    }

    fn get_memory_requirements(&self, _device: &Device) -> MemoryRequirements {
        MemoryRequirements { size: 256, alignment: 64, memory_types: 3 }
    }

    fn get_sparse_memory_requirements(
        &self,
        _device: &Device,
        _capacity: u32,
    ) -> Vec<SparseImageMemoryRequirements> {
        Vec::new()
    }

    fn bind_memory(&mut self, _device: &Device, _memory: &DeviceMemory, _offset: u64) -> Result<(), Error> {
        if self.bound {
            return Err(Error::InitializationFailed);
        }
        self.bound = true;
        Ok(())
    }

    fn get_subresource_layout(&self, subresource: ImageSubresource) -> Result<SubresourceLayout, Error> {
        Ok(SubresourceLayout {
            offset: subresource.0.mipLevel as u64 * 1024,
            size: 1024,
            row_pitch: 64,
            array_pitch: 0,
            depth_pitch: 0,
        })
    }
}

impl icd::Fence<Device> for Fence {
    fn new(_device: &Device, info: FenceCreateInfo) -> Result<Self, Error> {
        Ok(Fence { signaled: info.0.flags & 1 == 1 })
    }

    fn reset(_device: &Device, fences: &mut Vec<Self>) {
        for fence in fences.iter_mut() {
            fence.signaled = false;
        }
    }

    fn wait(_device: &Device, _fences: &[Self]) {}

    fn get_status(&self, _device: &Device) -> Result<(), Error> {
        if self.signaled {
            Ok(())
        } else {
            Err(Error::NotReady)
        }
    }
}

impl icd::PipelineCache<Device> for PipelineCache {
    fn new(_device: &Device, info: PipelineCacheCreateInfo) -> Result<Self, Error> {
        Ok(PipelineCache { data: info.0.initialData.clone() })
    }

    fn get_data_size(&self, _device: &Device) -> Result<usize, Error> {
        Ok(self.data.len())
    }

    fn get_data(&self, _device: &Device, data: &mut Vec<u8>) -> Result<usize, Error> {
        let n = self.data.len().min(data.len());
        data[..n].copy_from_slice(&self.data[..n]);
        Ok(n)
    }

    fn merge(&self, _device: &Device, _sources: &[Self]) -> Result<(), Error> {
        Ok(())
    }
}

fn instance_info(api_version: u32) -> sys::VkInstanceCreateInfo {
    sys::VkInstanceCreateInfo {
        flags: 0,
        apiVersion: api_version,
        enabledLayerNames: Vec::new(),
        enabledExtensionNames: Vec::new(),
    }
}

fn device_info(requests: &[(u32, u32)]) -> sys::VkDeviceCreateInfo {
    sys::VkDeviceCreateInfo {
        flags: 0,
        queueCreateInfos: requests
            .iter()
            .map(|&(family, count)| sys::VkDeviceQueueCreateInfo {
                flags: 0,
                queueFamilyIndex: family,
                queueCount: count,
            })
            .collect(),
    }
}

fn driver_with_instance() -> (Driver<Backend>, Handle) {
    let mut driver: Driver<Backend> = Driver::new();
    let created = driver.create_instance(&instance_info(1));
    assert_eq!(created.result, sys::VkResult::VK_SUCCESS);
    let instance = created.handle.unwrap();
    (driver, instance)
}

#[test]
fn create_instance_gives_a_live_tagged_handle() {
    let (driver, instance) = driver_with_instance();
    assert!(driver.instances.contains(instance));
    assert_eq!(driver.instances.loader_tag(instance), Some(sys::ICD_LOADER_MAGIC));
    assert_eq!(sys::ICD_LOADER_MAGIC, 0x01CDC0DE);
}

#[test]
fn create_instance_failure_is_reported_and_forms_nothing() {
    let mut driver: Driver<Backend> = Driver::new();
    let created = driver.create_instance(&instance_info(0));
    assert_eq!(created.result, sys::VkResult::VK_ERROR_INCOMPATIBLE_DRIVER);
    assert_eq!(created.handle, None);
    assert!(!driver.instances.contains(Handle { index: 0, generation: 0 }));
}

#[test]
fn destroy_instance_ends_the_handle_for_good() {
    let (mut driver, instance) = driver_with_instance();
    driver.destroy_instance(instance);
    assert!(!driver.instances.contains(instance));
    let again = driver.create_instance(&instance_info(1)).handle.unwrap();
    assert_ne!(again, instance);
    assert!(driver.instances.contains(again));
    assert!(!driver.instances.contains(instance));
}

#[test]
fn enumerate_without_buffer_returns_the_count() {
    let (mut driver, instance) = driver_with_instance();
    let reply = driver.enumerate_physical_devices(instance, None);
    assert_eq!(reply.result, sys::VkResult::VK_SUCCESS);
    assert_eq!(reply.count, Some(3));
    assert!(reply.items.is_empty());
}

#[test]
fn enumerate_with_capacity_zero_returns_no_item() {
    let (mut driver, instance) = driver_with_instance();
    let reply = driver.enumerate_physical_devices(instance, Some(0));
    assert_eq!(reply.result, sys::VkResult::VK_INCOMPLETE);
    assert_eq!(reply.count, Some(0));
    assert!(reply.items.is_empty());
    let count = driver.enumerate_physical_devices(instance, None);
    assert_eq!(count.count, Some(3));
}

#[test]
fn enumerate_with_small_buffer_is_incomplete() {
    let (mut driver, instance) = driver_with_instance();
    let reply = driver.enumerate_physical_devices(instance, Some(2));
    assert_eq!(reply.result, sys::VkResult::VK_INCOMPLETE);
    assert_eq!(reply.count, Some(2));
    assert_eq!(reply.items.len(), 2);
    assert_ne!(reply.items[0], reply.items[1]);
    assert_eq!(driver.physical_devices.cast(reply.items[0]).unwrap().families, vec![1, 4]);
    assert_eq!(driver.physical_devices.cast(reply.items[1]).unwrap().families, Vec::<u32>::new());
}

#[test]
fn enumerate_with_exact_and_large_buffer_is_complete() {
    let (mut driver, instance) = driver_with_instance();
    let exact = driver.enumerate_physical_devices(instance, Some(3));
    assert_eq!(exact.result, sys::VkResult::VK_SUCCESS);
    assert_eq!(exact.count, Some(3));
    assert_eq!(exact.items.len(), 3);
    assert_eq!(driver.physical_devices.cast(exact.items[2]).unwrap().families, vec![2]);
    let large = driver.enumerate_physical_devices(instance, Some(10));
    assert_eq!(large.result, sys::VkResult::VK_SUCCESS);
    assert_eq!(large.count, Some(3));
    assert_eq!(large.items.len(), 3);
    for handle in large.items.iter() {
        assert!(!exact.items.contains(handle));
        assert_eq!(driver.physical_devices.loader_tag(*handle), Some(sys::ICD_LOADER_MAGIC));
    }
}

#[test]
fn feature_query_is_repeatable() {
    let (mut driver, instance) = driver_with_instance();
    let devices = driver.enumerate_physical_devices(instance, Some(1)).items;
    let first = driver.get_physical_device_features(devices[0]);
    let second = driver.get_physical_device_features(devices[0]);
    assert_eq!(first, second);
    assert_eq!(first.geometryShader, 1);
    assert_eq!(first.inheritedQueries, 1);
    assert_eq!(first.robustBufferAccess, 0);
    assert!(driver.physical_devices.contains(devices[0]));
}

#[test]
fn format_query_is_repeatable_and_reads_the_raw_format() {
    let (mut driver, instance) = driver_with_instance();
    let devices = driver.enumerate_physical_devices(instance, Some(1)).items;
    let format = sys::VkFormat(sys::VK_FORMAT_R8_UNORM);
    let first = driver.get_physical_device_format_properties(devices[0], format);
    let second = driver.get_physical_device_format_properties(devices[0], format);
    assert_eq!(first, second);
    assert_eq!(first.linearTilingFeatures, 1);
    assert_eq!(first.optimalTilingFeatures, 0);
    let other = driver.get_physical_device_format_properties(devices[0], sys::VkFormat(0x1234));
    assert_eq!(other.linearTilingFeatures, 0x34);
}

#[test]
fn create_device_with_one_queue_of_family_zero() {
    let (mut driver, instance) = driver_with_instance();
    let devices = driver.enumerate_physical_devices(instance, Some(3)).items;
    let created = driver.create_device(devices[0], &device_info(&[(0, 1)]));
    assert_eq!(created.result, sys::VkResult::VK_SUCCESS);
    let device = created.handle.unwrap();
    assert_eq!(
        driver.devices.cast(device).unwrap().queues,
        vec![backend::QueueSelection { family: 0, count: 1 }]
    );
    // The second adapter has no family 0.
    let missing = driver.create_device(devices[1], &device_info(&[(0, 1)]));
    assert_eq!(missing.result, sys::VkResult::VK_ERROR_INITIALIZATION_FAILED);
    assert_eq!(missing.handle, None);
}

#[test]
fn create_device_out_of_range_changes_nothing() {
    let (mut driver, instance) = driver_with_instance();
    let devices = driver.enumerate_physical_devices(instance, Some(3)).items;
    let good = driver.create_device(devices[2], &device_info(&[(0, 2)])).handle.unwrap();
    let failed = driver.create_device(devices[0], &device_info(&[(1, 4), (2, 1)]));
    assert_eq!(failed.result, sys::VkResult::VK_ERROR_INITIALIZATION_FAILED);
    assert_eq!(failed.result.code(), -3);
    assert_eq!(failed.handle, None);
    assert!(driver.devices.contains(good));
    assert!(!driver.devices.contains(Handle { index: 1, generation: 0 }));
    assert_eq!(driver.physical_devices.cast(devices[0]).unwrap().families, vec![1, 4]);
    let too_many = driver.create_device(devices[0], &device_info(&[(0, 2)]));
    assert_eq!(too_many.result, sys::VkResult::VK_ERROR_INITIALIZATION_FAILED);
    let next = driver.create_device(devices[0], &device_info(&[(1, 4), (0, 1)])).handle.unwrap();
    assert_eq!(next, Handle { index: 1, generation: 0 });
}

#[test]
fn memory_mapping_is_exclusive() {
    let device = Device { queues: Vec::new() };
    let info = sys::VkMemoryAllocateInfo { allocationSize: 64, memoryTypeIndex: 0 };
    let mut memory = icd::Device::allocate_memory(&device, MemoryAllocateInfo(&info)).unwrap();
    let flags = MemoryMapFlags::empty();
    assert_eq!(icd::DeviceMemory::map(&mut memory, &device, 16, 8, flags), Ok(0x1010));
    assert_eq!(icd::DeviceMemory::map(&mut memory, &device, 0, 8, flags), Err(Error::MemoryMapFailed));
    icd::DeviceMemory::unmap(&mut memory, &device);
    assert_eq!(icd::DeviceMemory::map(&mut memory, &device, 0, 8, flags), Ok(0x1000));
    icd::DeviceMemory::destroy(memory, &device);
}

#[test]
fn fence_status_is_ok_or_not_ready() {
    let device = Device { queues: Vec::new() };
    let info = sys::VkFenceCreateInfo { flags: 0 };
    let mut fence = <Fence as icd::Fence<Device>>::new(&device, FenceCreateInfo(&info)).unwrap();
    assert_eq!(icd::Fence::get_status(&fence, &device), Err(Error::NotReady));
    assert_eq!(sys::VkResult::from(Error::NotReady).code(), 1);
    let mut queue = Queue;
    icd::Queue::submit(&mut queue, SubmitInfos(&[]), Some(&mut fence));
    assert_eq!(icd::Fence::get_status(&fence, &device), Ok(()));
    let mut fences = vec![fence];
    <Fence as icd::Fence<Device>>::reset(&device, &mut fences);
    assert_eq!(fences.len(), 1);
    assert_eq!(icd::Fence::get_status(&fences[0], &device), Err(Error::NotReady));
}
