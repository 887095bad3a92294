use vk_middle::resolver::{get_instance_proc_addr, Diagnostic, EntryPoint};

#[test]
fn wired_names_resolve_to_their_entry_points() {
    assert_eq!(get_instance_proc_addr(b"vkCreateInstance"), Ok(EntryPoint::CreateInstance));
    assert_eq!(get_instance_proc_addr(b"vkDestroyInstance"), Ok(EntryPoint::DestroyInstance));
    assert_eq!(
        get_instance_proc_addr(b"vkEnumeratePhysicalDevices"),
        Ok(EntryPoint::EnumeratePhysicalDevices)
    );
    assert_eq!(
        get_instance_proc_addr(b"vkGetPhysicalDeviceFeatures"),
        Ok(EntryPoint::GetPhysicalDeviceFeatures)
    );
    assert_eq!(
        get_instance_proc_addr(b"vkGetPhysicalDeviceFormatProperties"),
        Ok(EntryPoint::GetPhysicalDeviceFormatProperties)
    );
    assert_eq!(get_instance_proc_addr(b"vkCreateDevice"), Ok(EntryPoint::CreateDevice));
}

#[test]
fn every_entry_point_resolves_from_its_own_name() {
    let all = [
        EntryPoint::CreateInstance,
        EntryPoint::DestroyInstance,
        EntryPoint::EnumeratePhysicalDevices,
        EntryPoint::GetPhysicalDeviceFeatures,
        EntryPoint::GetPhysicalDeviceFormatProperties,
        EntryPoint::CreateDevice,
    ];
    for entry in all.iter() {
        assert_eq!(get_instance_proc_addr(entry.name().as_bytes()), Ok(*entry));
    }
    assert_eq!(EntryPoint::CreateDevice.name(), "vkCreateDevice");
    assert_eq!(EntryPoint::GetPhysicalDeviceFormatProperties.name().len(), 35);
}

#[test]
fn names_that_are_not_wired_are_unknown() {
    let unwired: [&[u8]; 10] = [
        b"vkGetPhysicalDeviceImageFormatProperties",
        b"vkGetPhysicalDeviceProperties",
        b"vkGetPhysicalDeviceQueueFamilyProperties",
        b"vkGetPhysicalDeviceMemoryProperties",
        b"vkGetInstanceProcAddr",
        b"vkGetDeviceProcAddr",
        b"vkEnumerateInstanceExtensionProperties",
        b"vkDestroyDevice",
        b"vkQueueSubmit",
        b"vk_icdGetInstanceProcAddr",
    ];
    for name in unwired.iter() {
        assert_eq!(get_instance_proc_addr(name), Err(Diagnostic::UnknownName));
    }
}

#[test]
fn near_misses_are_unknown() {
    assert_eq!(get_instance_proc_addr(b""), Err(Diagnostic::UnknownName));
    assert_eq!(get_instance_proc_addr(b"vkCreateInstanc"), Err(Diagnostic::UnknownName));
    assert_eq!(get_instance_proc_addr(b"vkCreateInstance "), Err(Diagnostic::UnknownName));
    assert_eq!(get_instance_proc_addr(b"vkCreateInstance\0"), Err(Diagnostic::UnknownName));
    assert_eq!(get_instance_proc_addr(b"VkCreateInstance"), Err(Diagnostic::UnknownName));
    assert_eq!(get_instance_proc_addr(b"vkcreateinstance"), Err(Diagnostic::UnknownName));
    assert_eq!(get_instance_proc_addr(b"vkCreateDevicf"), Err(Diagnostic::UnknownName));
    assert_eq!(get_instance_proc_addr("vkCréateInstance".as_bytes()), Err(Diagnostic::UnknownName));
}

#[test]
fn names_that_are_not_text_are_reported_as_such() {
    assert_eq!(get_instance_proc_addr(&[0xFF]), Err(Diagnostic::InvalidUtf8));
    assert_eq!(get_instance_proc_addr(&[0x76, 0x6B, 0x80]), Err(Diagnostic::InvalidUtf8));
    assert_eq!(get_instance_proc_addr(&[0xC3]), Err(Diagnostic::InvalidUtf8));
    assert_eq!(get_instance_proc_addr(&[0xED, 0xA0, 0x80]), Err(Diagnostic::InvalidUtf8));
    let mut name = b"vkCreateInstance".to_vec();
    name.push(0xC0);
    assert_eq!(get_instance_proc_addr(&name), Err(Diagnostic::InvalidUtf8));
    // Well-formed text of more than one byte per character is only unknown.
    assert_eq!(get_instance_proc_addr(&[0xC3, 0xA9]), Err(Diagnostic::UnknownName));
}

#[test]
fn resolving_is_repeatable() {
    let first = get_instance_proc_addr(b"vkCreateDevice");
    let second = get_instance_proc_addr(b"vkCreateDevice");
    assert_eq!(first, second);
    let failed = get_instance_proc_addr(b"vkNothing");
    assert_eq!(failed, get_instance_proc_addr(b"vkNothing"));
}
