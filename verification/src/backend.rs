//! What a backend computes on plain values when it serves an instance or
//! opens a device: how many adapters it reports, which of them it hands out,
//! and which queues of which families a device request selects.
use crate::data::{DeviceCreateInfo, Error};
use crate::icd::{request_fits, requests_fit};
use crate::sys;
use vstd::prelude::*;

verus! {

/// Queues selected from one family of an adapter.
#[derive(Clone, Copy, PartialEq, Eq, Debug, Structural)]
pub struct QueueSelection {
    /// The position of the family among the adapter's families.
    pub family: usize,
    /// The number of queues taken from the family.
    pub count: u32,
}

/// The selection that serves one queue request.
pub open spec fn selection_of(request: sys::VkDeviceQueueCreateInfo) -> QueueSelection {
    QueueSelection { family: request.queueFamilyIndex as usize, count: request.queueCount }
}

/// The selections that serve a list of queue requests, in their order.
pub open spec fn selections_of(requests: Seq<sys::VkDeviceQueueCreateInfo>) -> Seq<
    QueueSelection,
> {
    requests.map_values(|request: sys::VkDeviceQueueCreateInfo| selection_of(request))
}

/// The number of devices reported for `adapters` adapters: the count is kept
/// in 32 bits, so only its low 32 bits are reported.
pub open spec fn reported_count(adapters: usize) -> u32 {
    adapters as u32
}

/// The number of physical devices reported for a list of `adapters` adapters.
pub fn physical_device_count(adapters: usize) -> (r: u32)
    ensures
        r == reported_count(adapters),
        adapters <= u32::MAX ==> r == adapters,
{
    #[verifier::truncate]
    (adapters as u32)
}

/// The number of adapters handed out of `available` when the caller has room
/// for `capacity`.
pub open spec fn handed_out(available: nat, capacity: u32) -> nat {
    if capacity < available {
        capacity as nat
    } else {
        available
    }
}

/// Hands out the adapters that the caller has room for: the first `capacity`
/// of them, or all where there are fewer.
pub fn enumerate_physical_devices<T>(adapters: Vec<T>, capacity: u32) -> (r: Vec<T>)
    ensures
        r@ == adapters@.take(handed_out(adapters@.len(), capacity) as int),
        r@.len() <= capacity,
{
    let mut adapters = adapters;
    if (capacity as usize) < adapters.len() {
        adapters.truncate(capacity as usize);
    } else {
        assert(adapters@.take(adapters@.len() as int) =~= adapters@);
    }
    adapters
}

/// Translates the queue requests of a device request into selections from
/// the adapter's queue families, each family given by the number of queues
/// that it offers.
///
/// Succeeds exactly when every request names a family that exists and asks
/// for no more queues than the family offers; the selections then stand in
/// the order of the requests. Otherwise nothing is selected and the error is
/// `InitializationFailed`.
pub fn create_device(families: &Vec<u32>, create_info: DeviceCreateInfo) -> (r: Result<
    Vec<QueueSelection>,
    Error,
>)
    ensures
        match r {
            Ok(selected) => requests_fit(families@, create_info.0.queueCreateInfos@) && selected@
                == selections_of(create_info.0.queueCreateInfos@),
            Err(e) => !requests_fit(families@, create_info.0.queueCreateInfos@) && e
                == Error::InitializationFailed,
        },
{
    let requests = create_info.queues();
    let ghost raw = create_info.0.queueCreateInfos@;
    let mut selected: Vec<QueueSelection> = Vec::new();
    let mut i: usize = 0;
    while i < requests.len()
        invariant
            i <= requests@.len(),
            raw == create_info.0.queueCreateInfos@,
            requests@.len() == raw.len(),
            forall|j: int| 0 <= j < requests@.len() ==> *(#[trigger] requests@[j]).0 == raw[j],
            selected@.len() == i,
            forall|j: int| 0 <= j < i ==> request_fits(families@, #[trigger] raw[j]),
            forall|j: int| 0 <= j < i ==> #[trigger] selected@[j] == selection_of(raw[j]),
        decreases requests@.len() - i,
    {
        let family: usize = requests[i].family_index() as usize;
        let count: u32 = requests[i].count();
        if family >= families.len() || count > families[family] {
            assert(!request_fits(families@, raw[i as int]));
            return Err(Error::InitializationFailed);
        }
        selected.push(QueueSelection { family, count });
        i = i + 1;
    }
    assert(selected@ =~= selections_of(raw));
    Ok(selected)
}

} // verus!
