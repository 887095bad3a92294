use vk_middle::dispatch::{Handle, HandleTable};
use vk_middle::sys;

#[test]
fn a_new_table_holds_nothing() {
    let table: HandleTable<u32> = HandleTable::new();
    assert!(!table.contains(Handle { index: 0, generation: 0 }));
    assert_eq!(table.cast(Handle { index: 0, generation: 0 }), None);
    assert_eq!(table.loader_tag(Handle { index: 0, generation: 0 }), None);
}

#[test]
fn formed_handles_own_their_objects() {
    let mut table: HandleTable<String> = HandleTable::new();
    let a = table.form(String::from("a"));
    let b = table.form(String::from("b"));
    assert_ne!(a, b);
    assert_eq!(a, Handle { index: 0, generation: 0 });
    assert_eq!(b, Handle { index: 1, generation: 0 });
    assert_eq!(table.cast(a), Some(&String::from("a")));
    assert_eq!(table.cast(b), Some(&String::from("b")));
    assert_eq!(table.loader_tag(a), Some(sys::ICD_LOADER_MAGIC));
    assert_eq!(table.loader_tag(b), Some(0x01CDC0DE));
}

#[test]
fn release_gives_the_object_back_once() {
    let mut table: HandleTable<String> = HandleTable::new();
    let a = table.form(String::from("a"));
    let b = table.form(String::from("b"));
    assert_eq!(table.release(a), Some(String::from("a")));
    assert!(!table.contains(a));
    assert_eq!(table.cast(a), None);
    assert_eq!(table.loader_tag(a), None);
    assert_eq!(table.release(a), None);
    assert_eq!(table.cast(b), Some(&String::from("b")));
}

#[test]
fn a_released_handle_never_names_a_later_object() {
    let mut table: HandleTable<u32> = HandleTable::new();
    let first = table.form(1);
    assert_eq!(table.release(first), Some(1));
    let second = table.form(2);
    assert_eq!(second, Handle { index: 0, generation: 1 });
    assert_ne!(first, second);
    assert_eq!(table.cast(first), None);
    assert_eq!(table.cast(second), Some(&2));
    assert_eq!(table.release(first), None);
    assert_eq!(table.cast(second), Some(&2));
}

#[test]
fn handles_of_other_slots_or_generations_are_not_live() {
    let mut table: HandleTable<u32> = HandleTable::new();
    let handle = table.form(7);
    assert!(table.contains(handle));
    assert!(!table.contains(Handle { index: 1, generation: 0 }));
    assert!(!table.contains(Handle { index: 0, generation: 1 }));
    assert!(!table.contains(Handle { index: usize::MAX, generation: u64::MAX }));
    assert_eq!(table.release(Handle { index: 5, generation: 0 }), None);
    assert_eq!(table.cast(handle), Some(&7));
}

#[test]
fn form_all_keeps_the_order_of_the_list() {
    let mut table: HandleTable<u32> = HandleTable::new();
    let old = table.form(100);
    let handles = table.form_all(vec![10, 20, 30]);
    assert_eq!(handles.len(), 3);
    assert_eq!(table.cast(handles[0]), Some(&10));
    assert_eq!(table.cast(handles[1]), Some(&20));
    assert_eq!(table.cast(handles[2]), Some(&30));
    assert_eq!(table.cast(old), Some(&100));
    for (i, a) in handles.iter().enumerate() {
        assert_ne!(*a, old);
        for b in handles[i + 1..].iter() {
            assert_ne!(a, b);
        }
    }
    assert!(table.form_all(Vec::new()).is_empty());
}

#[test]
fn freed_slots_are_used_again_under_a_new_generation() {
    let mut table: HandleTable<u32> = HandleTable::new();
    let handles = table.form_all(vec![1, 2, 3]);
    assert_eq!(table.release(handles[1]), Some(2));
    let again = table.form(4);
    assert_eq!(again.index, handles[1].index);
    assert_eq!(again.generation, handles[1].generation + 1);
    assert_eq!(table.cast(again), Some(&4));
    assert_eq!(table.cast(handles[1]), None);
    assert_eq!(table.cast(handles[0]), Some(&1));
    assert_eq!(table.cast(handles[2]), Some(&3));
}
