use raw_gpu_handle::memory::{select_memory_type, MemoryRequirements, MemoryType};

fn types(flags: &[u32]) -> Vec<MemoryType> {
    flags
        .iter()
        .enumerate()
        .map(|(index, flags)| MemoryType { property_flags: *flags, heap_index: index as u32 })
        .collect()
}

#[test]
fn first_device_local_type_is_selected() {
    assert_eq!(select_memory_type(&types(&[0x1])), Some(0));
    assert_eq!(select_memory_type(&types(&[0x6, 0x1])), Some(1));
    assert_eq!(select_memory_type(&types(&[0x6, 0xE, 0x0, 0x7, 0x1])), Some(3));
}

#[test]
fn later_device_local_types_are_not_considered() {
    assert_eq!(select_memory_type(&types(&[0x1, 0x1, 0x1])), Some(0));
    assert_eq!(select_memory_type(&types(&[0x2, 0x1, 0x7])), Some(1));
}

#[test]
fn device_local_is_the_lowest_bit_alone() {
    assert_eq!(select_memory_type(&types(&[0x2])), None);
    assert_eq!(select_memory_type(&types(&[0x4])), None);
    assert_eq!(select_memory_type(&types(&[0xFFFF_FFFE])), None);
    assert_eq!(select_memory_type(&types(&[0xFFFF_FFFF])), Some(0));
    assert_eq!(select_memory_type(&types(&[0x10, 0x11])), Some(1));
    assert_eq!(select_memory_type(&types(&[0x0, 0x3])), Some(1));
}

#[test]
fn no_device_local_type_means_no_selection() {
    assert_eq!(select_memory_type(&Vec::new()), None);
    assert_eq!(select_memory_type(&types(&[0x0])), None);
    assert_eq!(select_memory_type(&types(&[0x2, 0x6, 0xE, 0x10])), None);
}

#[test]
fn selection_reads_flags_as_ash_does() {
    let device_local = ash::vk::MemoryPropertyFlags::DEVICE_LOCAL;
    let host = ash::vk::MemoryPropertyFlags::HOST_VISIBLE | ash::vk::MemoryPropertyFlags::HOST_COHERENT;
    let list = types(&[host.as_raw(), (host | device_local).as_raw(), device_local.as_raw()]);
    assert_eq!(select_memory_type(&list), Some(1));
}

#[test]
fn full_memory_type_table_is_searched_to_its_end() {
    let mut flags = vec![0x2u32; 31];
    flags.push(0x1);
    assert_eq!(select_memory_type(&types(&flags)), Some(31));
}

#[test]
fn memory_records_compare_by_their_fields() {
    assert_eq!(
        MemoryRequirements { size: 64, alignment: 16 },
        MemoryRequirements { size: 64, alignment: 16 }
    );
    assert_ne!(
        MemoryRequirements { size: 64, alignment: 16 },
        MemoryRequirements { size: 64, alignment: 32 }
    );
    assert_ne!(
        MemoryType { property_flags: 1, heap_index: 0 },
        MemoryType { property_flags: 1, heap_index: 1 }
    );
}
