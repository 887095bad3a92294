//! The entry-point resolver: from a requested function name to the call
//! routine that serves it.
use vstd::prelude::*;
use vstd::utf8::{encode_utf8, is_ascii_chars, valid_utf8};

verus! {

/// The entry points that are wired to a call routine.
#[derive(Clone, Copy, PartialEq, Eq, Debug, Structural)]
pub enum EntryPoint {
    CreateInstance,
    DestroyInstance,
    EnumeratePhysicalDevices,
    GetPhysicalDeviceFeatures,
    GetPhysicalDeviceFormatProperties,
    CreateDevice,
}

/// Why a name was not resolved. Each failed lookup reports exactly one.
#[derive(Clone, Copy, PartialEq, Eq, Debug, Structural)]
pub enum Diagnostic {
    /// The name is not text.
    InvalidUtf8,
    /// The name is text, but no entry point of that name is wired.
    UnknownName,
}

impl EntryPoint {
    /// The exported name of the entry point.
    pub open spec fn spec_name(self) -> Seq<char> {
        match self {
            EntryPoint::CreateInstance => "vkCreateInstance"@,
            EntryPoint::DestroyInstance => "vkDestroyInstance"@,
            EntryPoint::EnumeratePhysicalDevices => "vkEnumeratePhysicalDevices"@,
            EntryPoint::GetPhysicalDeviceFeatures => "vkGetPhysicalDeviceFeatures"@,
            EntryPoint::GetPhysicalDeviceFormatProperties => "vkGetPhysicalDeviceFormatProperties"@,
            EntryPoint::CreateDevice => "vkCreateDevice"@,
        }
    }

    /// The bytes by which a caller asks for the entry point.
    pub open spec fn wire_name(self) -> Seq<u8> {
        encode_utf8(self.spec_name())
    }

    /// The exported name of the entry point.
    pub fn name(self) -> (r: &'static str)
        ensures
            r@ == self.spec_name(),
    {
        match self {
            EntryPoint::CreateInstance => "vkCreateInstance",
            EntryPoint::DestroyInstance => "vkDestroyInstance",
            EntryPoint::EnumeratePhysicalDevices => "vkEnumeratePhysicalDevices",
            EntryPoint::GetPhysicalDeviceFeatures => "vkGetPhysicalDeviceFeatures",
            EntryPoint::GetPhysicalDeviceFormatProperties => "vkGetPhysicalDeviceFormatProperties",
            EntryPoint::CreateDevice => "vkCreateDevice",
        }
    }
}

/// The entry point that a text name asks for, if one of that name is wired.
pub open spec fn lookup(name: Seq<u8>) -> Option<EntryPoint> {
    if name == EntryPoint::CreateInstance.wire_name() {
        Some(EntryPoint::CreateInstance)
    } else if name == EntryPoint::DestroyInstance.wire_name() {
        Some(EntryPoint::DestroyInstance)
    } else if name == EntryPoint::EnumeratePhysicalDevices.wire_name() {
        Some(EntryPoint::EnumeratePhysicalDevices)
    } else if name == EntryPoint::GetPhysicalDeviceFeatures.wire_name() {
        Some(EntryPoint::GetPhysicalDeviceFeatures)
    } else if name == EntryPoint::GetPhysicalDeviceFormatProperties.wire_name() {
        Some(EntryPoint::GetPhysicalDeviceFormatProperties)
    } else if name == EntryPoint::CreateDevice.wire_name() {
        Some(EntryPoint::CreateDevice)
    } else {
        None
    }
}

/// What a lookup answers: a name that is not text is reported as such, a text
/// name resolves to its entry point or is reported as unknown.
pub open spec fn resolution(name: Seq<u8>) -> Result<EntryPoint, Diagnostic> {
    if !valid_utf8(name) {
        Err(Diagnostic::InvalidUtf8)
    } else {
        match lookup(name) {
            Some(entry) => Ok(entry),
            None => Err(Diagnostic::UnknownName),
        }
    }
}

/// Whether the bytes are well-formed UTF-8, decided by `core::str::from_utf8`,
/// which is documented to succeed exactly on well-formed UTF-8. The contract
/// states that through vstd's definition of well-formed UTF-8.
#[verifier::external_body]
fn is_text(bytes: &[u8]) -> (r: bool)
    ensures
        r == valid_utf8(bytes@),
{
    core::str::from_utf8(bytes).is_ok()
}

/// Whether two byte strings are equal.
fn same_bytes(a: &[u8], b: &[u8]) -> (r: bool)
    ensures
        r == (a@ == b@),
{
    if a.len() != b.len() {
        return false;
    }
    let mut i: usize = 0;
    while i < a.len()
        invariant
            a@.len() == b@.len(),
            i <= a@.len(),
            forall|j: int| 0 <= j < i ==> a@[j] == b@[j],
        decreases a@.len() - i,
    {
        if a[i] != b[i] {
            return false;
        }
        i = i + 1;
    }
    assert(a@ =~= b@);
    true
}

/// Whether `name` asks for `entry`.
fn names(name: &[u8], entry: EntryPoint) -> (r: bool)
    ensures
        r == (name@ == entry.wire_name()),
{
    same_bytes(name, entry.name().as_bytes())
}

/// Resolves a requested name, given without its terminating NUL.
///
/// Returns the entry point of that name where one is wired. Otherwise it
/// returns the one diagnostic that the caller is to log: `InvalidUtf8` for a
/// name that is not text, `UnknownName` for any other.
pub fn get_instance_proc_addr(name: &[u8]) -> (r: Result<EntryPoint, Diagnostic>)
    ensures
        r == resolution(name@),
{
    if !is_text(name) {
        return Err(Diagnostic::InvalidUtf8);
    }
    if names(name, EntryPoint::CreateInstance) {
        Ok(EntryPoint::CreateInstance)
    } else if names(name, EntryPoint::DestroyInstance) {
        Ok(EntryPoint::DestroyInstance)
    } else if names(name, EntryPoint::EnumeratePhysicalDevices) {
        Ok(EntryPoint::EnumeratePhysicalDevices)
    } else if names(name, EntryPoint::GetPhysicalDeviceFeatures) {
        Ok(EntryPoint::GetPhysicalDeviceFeatures)
    } else if names(name, EntryPoint::GetPhysicalDeviceFormatProperties) {
        Ok(EntryPoint::GetPhysicalDeviceFormatProperties)
    } else if names(name, EntryPoint::CreateDevice) {
        Ok(EntryPoint::CreateDevice)
    } else {
        Err(Diagnostic::UnknownName)
    }
}

/// The length in bytes of an entry point's name.
pub open spec fn name_len(entry: EntryPoint) -> nat {
    match entry {
        EntryPoint::CreateInstance => 16,
        EntryPoint::DestroyInstance => 17,
        EntryPoint::EnumeratePhysicalDevices => 26,
        EntryPoint::GetPhysicalDeviceFeatures => 27,
        EntryPoint::GetPhysicalDeviceFormatProperties => 35,
        EntryPoint::CreateDevice => 14,
    }
}

/// Every entry point's name is ASCII text of the stated length.
pub proof fn lemma_names_are_ascii(entry: EntryPoint)
    ensures
        is_ascii_chars(entry.spec_name()),
        valid_utf8(entry.wire_name()),
        entry.wire_name().len() == name_len(entry),
{
    reveal_strlit("vkCreateInstance");
    reveal_strlit("vkDestroyInstance");
    reveal_strlit("vkEnumeratePhysicalDevices");
    reveal_strlit("vkGetPhysicalDeviceFeatures");
    reveal_strlit("vkGetPhysicalDeviceFormatProperties");
    reveal_strlit("vkCreateDevice");
    vstd::utf8::encode_utf8_valid_utf8(entry.spec_name());
    assert(is_ascii_chars(entry.spec_name()));
    vstd::utf8::is_ascii_chars_encode_utf8(entry.spec_name());
}

/// A wired name resolves to its own entry point.
pub proof fn lemma_supported_name_resolves(entry: EntryPoint)
    ensures
        resolution(entry.wire_name()) == Ok::<EntryPoint, Diagnostic>(entry),
{
    lemma_names_are_ascii(EntryPoint::CreateInstance);
    lemma_names_are_ascii(EntryPoint::DestroyInstance);
    lemma_names_are_ascii(EntryPoint::EnumeratePhysicalDevices);
    lemma_names_are_ascii(EntryPoint::GetPhysicalDeviceFeatures);
    lemma_names_are_ascii(EntryPoint::GetPhysicalDeviceFormatProperties);
    lemma_names_are_ascii(EntryPoint::CreateDevice);
}

/// A name resolves only to the entry point that bears it: any name that no
/// wired entry point bears is answered with a diagnostic, and a name that is
/// not text with `InvalidUtf8`.
pub proof fn lemma_unsupported_name_is_reported(name: Seq<u8>)
    ensures
        resolution(name) matches Ok(entry) ==> name == entry.wire_name(),
        (forall|entry: EntryPoint| name != entry.wire_name()) ==> resolution(name) is Err,
        !valid_utf8(name) ==> resolution(name) == Err::<EntryPoint, Diagnostic>(
            Diagnostic::InvalidUtf8,
        ),
{
}

} // verus!
