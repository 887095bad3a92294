//! The call routines behind the wired entry points. Each one takes the raw
//! arguments of its entry point, with handles in place of addresses, calls
//! the backend through its contract and packs the answer for the caller.
use crate::backend::handed_out;
use crate::data::{DeviceCreateInfo, Error, InstanceCreateInfo};
use crate::dispatch::{Handle, HandleTable};
use crate::format::Format;
use crate::icd::{requests_fit, Impl, Instance, PhysicalDevice};
use crate::sys;
use vstd::prelude::*;

verus! {

/// The answer of a creating call: the outcome, and the handle of the new
/// object where there is one.
#[derive(Clone, Copy, PartialEq, Eq, Debug)]
pub struct Created {
    pub result: sys::VkResult,
    pub handle: Option<Handle>,
}

/// The answer of an enumerating call: the outcome, the count to report where
/// one is reported, and the items to write to the caller's buffer.
#[derive(Debug)]
pub struct Enumeration<T> {
    pub result: sys::VkResult,
    pub count: Option<u32>,
    pub items: Vec<T>,
}

/// The outcome that reports a backend result: success for `Ok`, and for each
/// failure the outcome of its own.
pub open spec fn status_of<T>(outcome: Result<T, Error>) -> sys::VkResult {
    match outcome {
        Ok(_) => sys::VkResult::VK_SUCCESS,
        Err(e) => e.result(),
    }
}

/// Whether an outcome reports a failure of the backend.
pub open spec fn is_failure(result: sys::VkResult) -> bool {
    Error::of_result(result) is Some
}

/// The number of items written when `available` items are at hand and the
/// caller's buffer holds `capacity`.
pub open spec fn written(capacity: u32, available: nat) -> u32 {
    if available < capacity {
        available as u32
    } else {
        capacity
    }
}

/// The outcome of filling a buffer of `capacity` items when `total` exist.
pub open spec fn fill_result(total: u32, capacity: u32) -> sys::VkResult {
    if capacity >= total {
        sys::VkResult::VK_SUCCESS
    } else {
        sys::VkResult::VK_INCOMPLETE
    }
}

/// Reports a backend result as an outcome.
pub fn status<T>(outcome: &Result<T, Error>) -> (r: sys::VkResult)
    ensures
        r == status_of(*outcome),
{
    match outcome {
        Ok(_) => sys::VkResult::VK_SUCCESS,
        Err(e) => sys::VkResult::from(*e),
    }
}

/// The answer to a query for the count alone: the total, and no item.
pub fn count_reply<T>(total: u32) -> (r: Enumeration<T>)
    ensures
        r.result == sys::VkResult::VK_SUCCESS,
        r.count == Some(total),
        r.items@.len() == 0,
{
    Enumeration { result: sys::VkResult::VK_SUCCESS, count: Some(total), items: Vec::new() }
}

/// The answer to a query with a buffer of `capacity` items, when `total`
/// items exist and the backend handed out `items`: the items that fit, their
/// number, and whether the buffer held them all.
pub fn fill_reply<T>(total: u32, capacity: u32, items: Vec<T>) -> (r: Enumeration<T>)
    ensures
        r.result == fill_result(total, capacity),
        r.count == Some(written(capacity, items@.len())),
        r.items@ == items@.take(written(capacity, items@.len()) as int),
{
    let mut items = items;
    if items.len() > capacity as usize {
        items.truncate(capacity as usize);
    } else {
        assert(items@.take(items@.len() as int) =~= items@);
    }
    let count: u32 = items.len() as u32;
    let result = if capacity >= total {
        sys::VkResult::VK_SUCCESS
    } else {
        sys::VkResult::VK_INCOMPLETE
    };
    Enumeration { result, count: Some(count), items }
}

/// The answer to a query that the backend failed: its outcome, and nothing
/// to write.
pub fn failure_reply<T>(error: Error) -> (r: Enumeration<T>)
    ensures
        r.result == error.result(),
        r.count is None,
        r.items@.len() == 0,
{
    Enumeration { result: sys::VkResult::from(error), count: None, items: Vec::new() }
}

/// The two phases of an enumeration over a backend that has `total` items
/// and hands out as many as the caller has room for. The count query reports
/// `total`. A buffer of fewer than `total` items is filled and the outcome is
/// `VK_INCOMPLETE`; a buffer of `total` items or more receives all of them
/// and the outcome is `VK_SUCCESS`.
pub proof fn lemma_two_phase_enumeration(total: u32, capacity: u32)
    ensures
        capacity < total ==> written(capacity, handed_out(total as nat, capacity)) == capacity
            && fill_result(total, capacity) == sys::VkResult::VK_INCOMPLETE,
        capacity >= total ==> written(capacity, handed_out(total as nat, capacity)) == total
            && fill_result(total, capacity) == sys::VkResult::VK_SUCCESS,
{
}

/// Takes what a creating backend call returned: a new object gets a record
/// and a handle of its own, a failure is reported and leaves the table as it
/// was.
pub fn form_created<T>(table: &mut HandleTable<T>, created: Result<T, Error>) -> (r: Created)
    requires
        old(table).wf(),
    ensures
        final(table).wf(),
        r.result == status_of(created),
        match created {
            Ok(object) => {
                &&& r.handle matches Some(handle)
                &&& !old(table).was_issued(handle)
                &&& final(table).live() == old(table).live().insert(handle, object)
                &&& final(table).issued() == old(table).issued().insert(handle)
            },
            Err(_) => r.handle is None && *final(table) == *old(table),
        },
{
    match created {
        Ok(object) => {
            let handle = table.form(object);
            Created { result: sys::VkResult::VK_SUCCESS, handle: Some(handle) }
        },
        Err(e) => Created { result: sys::VkResult::from(e), handle: None },
    }
}

/// The objects that the driver has handed to the caller, by kind.
pub struct Driver<I: Impl> {
    pub instances: HandleTable<I::Instance>,
    pub physical_devices: HandleTable<I::PhysicalDevice>,
    pub devices: HandleTable<I::Device>,
}

impl<I: Impl> Driver<I> {
    /// Every table is well formed.
    pub open spec fn wf(&self) -> bool {
        &&& self.instances.wf()
        &&& self.physical_devices.wf()
        &&& self.devices.wf()
    }

    /// A driver that has handed out nothing.
    pub fn new() -> (r: Self)
        ensures
            r.wf(),
            r.instances.live() == Map::<Handle, I::Instance>::empty(),
            r.instances.issued() == Set::<Handle>::empty(),
            r.physical_devices.live() == Map::<Handle, I::PhysicalDevice>::empty(),
            r.physical_devices.issued() == Set::<Handle>::empty(),
            r.devices.live() == Map::<Handle, I::Device>::empty(),
            r.devices.issued() == Set::<Handle>::empty(),
    {
        Driver {
            instances: HandleTable::new(),
            physical_devices: HandleTable::new(),
            devices: HandleTable::new(),
        }
    }

    /// Creates an instance. On success the answer holds a handle that was
    /// never issued before; on failure nothing changes.
    pub fn create_instance(&mut self, create_info: &sys::VkInstanceCreateInfo) -> (r: Created)
        requires
            old(self).wf(),
        ensures
            final(self).wf(),
            final(self).physical_devices == old(self).physical_devices,
            final(self).devices == old(self).devices,
            match r.handle {
                Some(handle) => {
                    &&& r.result == sys::VkResult::VK_SUCCESS
                    &&& !old(self).instances.was_issued(handle)
                    &&& final(self).instances.is_live(handle)
                    &&& final(self).instances.live().remove(handle) == old(self).instances.live()
                    &&& final(self).instances.issued() == old(self).instances.issued().insert(
                        handle,
                    )
                },
                None => is_failure(r.result) && final(self).instances == old(self).instances,
            },
    {
        let created = I::Instance::create(InstanceCreateInfo(create_info));
        proof {
            if let Err(e) = created {
                Error::lemma_result_is_one_to_one(e, e);
            }
        }
        let r = form_created(&mut self.instances, created);
        proof {
            if let Some(handle) = r.handle {
                old(self).instances.lemma_not_issued_is_not_live(handle);
                assert(self.instances.live().remove(handle) =~= old(self).instances.live());
                assert(self.instances.live().contains_key(handle));
            }
        }
        r
    }

    /// Destroys an instance: its record is released and its handle is never
    /// live again.
    pub fn destroy_instance(&mut self, instance: Handle)
        requires
            old(self).wf(),
            old(self).instances.is_live(instance),
        ensures
            final(self).wf(),
            final(self).physical_devices == old(self).physical_devices,
            final(self).devices == old(self).devices,
            !final(self).instances.is_live(instance),
            final(self).instances.live() == old(self).instances.live().remove(instance),
            final(self).instances.issued() == old(self).instances.issued(),
    {
        let _ = self.instances.release(instance);
    }

    /// Enumerates the physical devices of an instance.
    ///
    /// Without a buffer (`capacity` is `None`) the answer is the count alone.
    /// With a buffer of `capacity` items the answer holds a new handle for
    /// each device that the backend handed out and that fits, and the count
    /// is their number. A failure of the backend is reported with nothing
    /// written and nothing changed.
    pub fn enumerate_physical_devices(&mut self, instance: Handle, capacity: Option<u32>) -> (r:
        Enumeration<Handle>)
        requires
            old(self).wf(),
            old(self).instances.is_live(instance),
        ensures
            final(self).wf(),
            final(self).instances == old(self).instances,
            final(self).devices == old(self).devices,
            r.result == sys::VkResult::VK_SUCCESS || r.result == sys::VkResult::VK_INCOMPLETE
                || is_failure(r.result),
            is_failure(r.result) ==> r.count is None && r.items@.len() == 0
                && final(self).physical_devices == old(self).physical_devices,
            !is_failure(r.result) ==> r.count is Some,
            capacity is None ==> r.items@.len() == 0 && r.result != sys::VkResult::VK_INCOMPLETE
                && final(self).physical_devices == old(self).physical_devices,
            capacity matches Some(k) ==> r.items@.len() <= k,
            !is_failure(r.result) && capacity is Some ==> r.count == Some(r.items@.len() as u32),
            forall|i: int|
                0 <= i < r.items@.len() ==> {
                    &&& !old(self).physical_devices.issued().contains(#[trigger] r.items@[i])
                    &&& final(self).physical_devices.live().contains_key(r.items@[i])
                },
            forall|i: int, j: int|
                0 <= i < j < r.items@.len() ==> #[trigger] r.items@[i] != #[trigger] r.items@[j],
            forall|h: Handle| #[trigger]
                old(self).physical_devices.live().contains_key(h) ==> {
                    &&& final(self).physical_devices.live().contains_key(h)
                    &&& final(self).physical_devices.live()[h] == old(self).physical_devices.live()[h]
                },
            forall|h: Handle| #[trigger]
                final(self).physical_devices.live().contains_key(h) ==> {
                    ||| old(self).physical_devices.live().contains_key(h)
                    ||| r.items@.contains(h)
                },
            forall|h: Handle| #[trigger]
                final(self).physical_devices.issued().contains(h) <==> {
                    ||| old(self).physical_devices.issued().contains(h)
                    ||| r.items@.contains(h)
                },
    {
        let backend = self.instances.cast(instance).unwrap();
        let total: u32 = match backend.physical_device_count() {
            Ok(total) => total,
            Err(e) => {
                proof {
                    Error::lemma_result_is_one_to_one(e, e);
                }
                return failure_reply(e);
            },
        };
        match capacity {
            None => count_reply(total),
            Some(k) => {
                let devices = match backend.enumerate_physical_devices(k) {
                    Ok(devices) => devices,
                    Err(e) => {
                        proof {
                            Error::lemma_result_is_one_to_one(e, e);
                        }
                        return failure_reply(e);
                    },
                };
                let plan = fill_reply(total, k, devices);
                let handles = self.physical_devices.form_all(plan.items);
                Enumeration { result: plan.result, count: plan.count, items: handles }
            },
        }
    }

    /// Queries the features of a physical device, as a raw record. The query
    /// changes nothing, and its answer is a function of the device alone.
    pub fn get_physical_device_features(&self, physical_device: Handle) -> (r:
        sys::VkPhysicalDeviceFeatures)
        requires
            self.physical_devices.is_live(physical_device),
        ensures
            r == self.physical_devices.payload(physical_device).features().raw(),
    {
        self.physical_devices.cast(physical_device).unwrap().get_features().into_raw()
    }

    /// Queries the properties of a raw format on a physical device, as a raw
    /// record. The query changes nothing, and its answer is a function of the
    /// device and the format alone.
    pub fn get_physical_device_format_properties(
        &self,
        physical_device: Handle,
        format: sys::VkFormat,
    ) -> (r: sys::VkFormatProperties)
        requires
            self.physical_devices.is_live(physical_device),
        ensures
            r == self.physical_devices.payload(physical_device).format_properties(
                Format::of_code(format.0),
            ).raw(),
    {
        self.physical_devices.cast(physical_device).unwrap().get_format_properties(
            Format::from(format),
        ).into_raw()
    }

    /// Opens a device on a physical device.
    ///
    /// A request that the device's queue families cannot serve fails with
    /// `VK_ERROR_INITIALIZATION_FAILED`. Every failure leaves the driver as it
    /// was. On success the answer holds a handle that was never issued before.
    pub fn create_device(
        &mut self,
        physical_device: Handle,
        create_info: &sys::VkDeviceCreateInfo,
    ) -> (r: Created)
        requires
            old(self).wf(),
            old(self).physical_devices.is_live(physical_device),
        ensures
            final(self).wf(),
            final(self).instances == old(self).instances,
            final(self).physical_devices == old(self).physical_devices,
            !requests_fit(
                old(self).physical_devices.payload(physical_device).queue_families(),
                create_info.queueCreateInfos@,
            ) ==> r.result == sys::VkResult::VK_ERROR_INITIALIZATION_FAILED && r.handle is None,
            match r.handle {
                Some(handle) => {
                    &&& r.result == sys::VkResult::VK_SUCCESS
                    &&& !old(self).devices.was_issued(handle)
                    &&& final(self).devices.is_live(handle)
                    &&& final(self).devices.live().remove(handle) == old(self).devices.live()
                    &&& final(self).devices.issued() == old(self).devices.issued().insert(handle)
                },
                None => is_failure(r.result) && final(self).devices == old(self).devices,
            },
    {
        let backend = self.physical_devices.cast(physical_device).unwrap();
        let created = backend.create_device(DeviceCreateInfo(create_info));
        proof {
            if let Err(e) = created {
                Error::lemma_result_is_one_to_one(e, e);
            }
        }
        let r = form_created(&mut self.devices, created);
        proof {
            if let Some(handle) = r.handle {
                old(self).devices.lemma_not_issued_is_not_live(handle);
                assert(self.devices.live().remove(handle) =~= old(self).devices.live());
                assert(self.devices.live().contains_key(handle));
            }
        }
        r
    }
}

} // verus!
