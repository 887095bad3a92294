use vk_middle::backend;
use vk_middle::data::{DeviceCreateInfo, Error};
use vk_middle::dispatch::HandleTable;
use vk_middle::entry::{count_reply, failure_reply, fill_reply, form_created, status, Enumeration};
use vk_middle::sys;

fn requests(list: &[(u32, u32)]) -> sys::VkDeviceCreateInfo {
    sys::VkDeviceCreateInfo {
        flags: 0,
        queueCreateInfos: list
            .iter()
            .map(|&(family, count)| sys::VkDeviceQueueCreateInfo {
                flags: 0,
                queueFamilyIndex: family,
                queueCount: count,
            })
            .collect(),
    }
}

#[test]
fn count_query_reports_the_total() {
    let reply: Enumeration<u8> = count_reply(5);
    assert_eq!(reply.result, sys::VkResult::VK_SUCCESS);
    assert_eq!(reply.count, Some(5));
    assert!(reply.items.is_empty());
    let none: Enumeration<u8> = count_reply(0);
    assert_eq!(none.count, Some(0));
}

#[test]
fn small_buffer_is_filled_and_incomplete() {
    let total = 5;
    let capacity = 2;
    let handed = backend::enumerate_physical_devices(vec![1, 2, 3, 4, 5], capacity);
    assert_eq!(handed, vec![1, 2]);
    let reply = fill_reply(total, capacity, handed);
    assert_eq!(reply.result, sys::VkResult::VK_INCOMPLETE);
    assert_eq!(reply.count, Some(2));
    assert_eq!(reply.items, vec![1, 2]);
}

#[test]
fn exact_buffer_is_complete() {
    let handed = backend::enumerate_physical_devices(vec![1, 2, 3], 3);
    let reply = fill_reply(3, 3, handed);
    assert_eq!(reply.result, sys::VkResult::VK_SUCCESS);
    assert_eq!(reply.count, Some(3));
    assert_eq!(reply.items, vec![1, 2, 3]);
}

#[test]
fn large_buffer_receives_all_items() {
    let handed = backend::enumerate_physical_devices(vec![1, 2, 3], 8);
    assert_eq!(handed, vec![1, 2, 3]);
    let reply = fill_reply(3, 8, handed);
    assert_eq!(reply.result, sys::VkResult::VK_SUCCESS);
    assert_eq!(reply.count, Some(3));
    assert_eq!(reply.items, vec![1, 2, 3]);
}

#[test]
fn empty_buffer_and_empty_backend() {
    let reply = fill_reply(3, 0, backend::enumerate_physical_devices(vec![1, 2, 3], 0));
    assert_eq!(reply.result, sys::VkResult::VK_INCOMPLETE);
    assert_eq!(reply.count, Some(0));
    assert!(reply.items.is_empty());
    let nothing: Enumeration<u8> = fill_reply(0, 0, Vec::new());
    assert_eq!(nothing.result, sys::VkResult::VK_SUCCESS);
    assert_eq!(nothing.count, Some(0));
}

#[test]
fn items_beyond_the_buffer_are_left_out() {
    let reply = fill_reply(4, 2, vec![9, 8, 7, 6]);
    assert_eq!(reply.result, sys::VkResult::VK_INCOMPLETE);
    assert_eq!(reply.count, Some(2));
    assert_eq!(reply.items, vec![9, 8]);
}

#[test]
fn backend_failure_writes_nothing() {
    let reply: Enumeration<u8> = failure_reply(Error::OutOfHostMemory);
    assert_eq!(reply.result, sys::VkResult::VK_ERROR_OUT_OF_HOST_MEMORY);
    assert_eq!(reply.count, None);
    assert!(reply.items.is_empty());
}

#[test]
fn status_reports_each_result() {
    let ok: Result<u8, Error> = Ok(1);
    assert_eq!(status(&ok), sys::VkResult::VK_SUCCESS);
    let lost: Result<u8, Error> = Err(Error::DeviceLost);
    assert_eq!(status(&lost), sys::VkResult::VK_ERROR_DEVICE_LOST);
    assert_eq!(status(&lost).code(), -4);
}

#[test]
fn created_objects_get_handles_and_failures_do_not() {
    let mut table: HandleTable<u32> = HandleTable::new();
    let made = form_created(&mut table, Ok(5));
    assert_eq!(made.result, sys::VkResult::VK_SUCCESS);
    let handle = made.handle.unwrap();
    assert_eq!(table.cast(handle), Some(&5));
    let failed = form_created(&mut table, Err(Error::TooManyObjects));
    assert_eq!(failed.result, sys::VkResult::VK_ERROR_TOO_MANY_OBJECTS);
    assert_eq!(failed.handle, None);
    assert_eq!(table.cast(handle), Some(&5));
}

#[test]
fn reported_count_is_the_number_of_adapters() {
    assert_eq!(backend::physical_device_count(0), 0);
    assert_eq!(backend::physical_device_count(3), 3);
    assert_eq!(backend::physical_device_count(u32::MAX as usize), u32::MAX);
}

#[test]
fn queue_requests_select_families_in_order() {
    let families = vec![1, 4, 2];
    let info = requests(&[(2, 2), (0, 1), (1, 3)]);
    let selected = backend::create_device(&families, DeviceCreateInfo(&info));
    assert_eq!(
        selected,
        Ok(vec![
            backend::QueueSelection { family: 2, count: 2 },
            backend::QueueSelection { family: 0, count: 1 },
            backend::QueueSelection { family: 1, count: 3 },
        ])
    );
    let none = requests(&[]);
    assert_eq!(backend::create_device(&families, DeviceCreateInfo(&none)), Ok(Vec::new()));
    assert_eq!(backend::create_device(&Vec::new(), DeviceCreateInfo(&none)), Ok(Vec::new()));
}

#[test]
fn queue_requests_out_of_range_fail() {
    let families = vec![1, 4];
    let index = requests(&[(0, 1), (2, 1)]);
    assert_eq!(
        backend::create_device(&families, DeviceCreateInfo(&index)),
        Err(Error::InitializationFailed)
    );
    let count = requests(&[(1, 5)]);
    assert_eq!(
        backend::create_device(&families, DeviceCreateInfo(&count)),
        Err(Error::InitializationFailed)
    );
    let huge = requests(&[(u32::MAX, 1)]);
    assert_eq!(
        backend::create_device(&families, DeviceCreateInfo(&huge)),
        Err(Error::InitializationFailed)
    );
    let one = requests(&[(0, 1)]);
    assert_eq!(
        backend::create_device(&Vec::new(), DeviceCreateInfo(&one)),
        Err(Error::InitializationFailed)
    );
    assert_eq!(
        backend::create_device(&vec![0], DeviceCreateInfo(&one)),
        Err(Error::InitializationFailed)
    );
    assert_eq!(
        backend::create_device(&vec![1], DeviceCreateInfo(&one)),
        Ok(vec![backend::QueueSelection { family: 0, count: 1 }])
    );
}

#[test]
fn device_request_views_read_the_raw_record() {
    let info = requests(&[(3, 7), (0, 1)]);
    let view = DeviceCreateInfo(&info);
    let queues = view.queues();
    assert_eq!(queues.len(), 2);
    assert_eq!(queues[0].family_index(), 3);
    assert_eq!(queues[0].count(), 7);
    assert_eq!(queues[1].family_index(), 0);
    assert_eq!(queues[1].count(), 1);
}
