use paya::error::ErrorKind;
use paya::gpu_resources::GpuResourceId;
use paya::slot_arena::ResourceSlot;

#[test]
fn arena_churn() {
    let mut arena: ResourceSlot<&str> = ResourceSlot::new();
    let a = arena.insert_resource("A");
    let b = arena.insert_resource("B");
    let c = arena.insert_resource("C");
    assert_eq!((a.index(), a.version()), (0, 0));
    assert_eq!((b.index(), b.version()), (1, 0));
    assert_eq!((c.index(), c.version()), (2, 0));
    assert_eq!(arena.remove_resource(b), Ok("B"));
    assert_eq!(arena.free_slots(), vec![1]);
    let d = arena.insert_resource("D");
    assert_eq!((d.index(), d.version()), (1, 1));
    assert_eq!(arena.get_resource(b), Err(ErrorKind::InvalidHandle));
    assert_eq!(arena.get_resource(d), Ok(&"D"));
    assert_eq!(arena.get_resource(a), Ok(&"A"));
    assert_eq!(arena.get_resource(c), Ok(&"C"));
}

#[test]
fn new_arena_is_empty() {
    let arena: ResourceSlot<u8> = ResourceSlot::new();
    assert_eq!(arena.slot_count(), 0);
    assert_eq!(arena.free_slots(), Vec::<usize>::new());
    assert_eq!(arena.next_index(), 0);
    assert!(arena.can_insert());
}

#[test]
fn version_guard_after_reuse() {
    let mut arena: ResourceSlot<u32> = ResourceSlot::new();
    let h = arena.insert_resource(7);
    assert_eq!(arena.remove_resource(h), Ok(7));
    assert_eq!(arena.get_resource(h), Err(ErrorKind::InvalidHandle));
    let again = arena.insert_resource(8);
    assert_eq!(again.index(), h.index());
    assert_eq!(again.version(), 1);
    assert_eq!(arena.get_resource(h), Err(ErrorKind::InvalidHandle));
    assert_eq!(arena.get_resource(again), Ok(&8));
}

#[test]
fn free_list_stays_ascending() {
    let mut arena: ResourceSlot<usize> = ResourceSlot::new();
    let mut handles = Vec::new();
    for i in 0..8 {
        handles.push(arena.insert_resource(i));
    }
    for &i in &[5usize, 2, 7, 0, 3] {
        assert_eq!(arena.remove_resource(handles[i]), Ok(i));
    }
    assert_eq!(arena.free_slots(), vec![0, 2, 3, 5, 7]);
    let first = arena.insert_resource(100);
    assert_eq!((first.index(), first.version()), (0, 1));
    assert_eq!(arena.free_slots(), vec![2, 3, 5, 7]);
    assert_eq!(arena.remove_resource(handles[4]), Ok(4));
    assert_eq!(arena.free_slots(), vec![2, 3, 4, 5, 7]);
    assert_eq!(arena.remove_resource(handles[6]), Ok(6));
    assert_eq!(arena.free_slots(), vec![2, 3, 4, 5, 6, 7]);
    assert_eq!(arena.remove_resource(handles[1]), Ok(1));
    assert_eq!(arena.free_slots(), vec![1, 2, 3, 4, 5, 6, 7]);
    assert_eq!(arena.next_index(), 1);
}

#[test]
fn handles_are_unique_over_churn() {
    let mut arena: ResourceSlot<u32> = ResourceSlot::new();
    let mut issued: Vec<(u32, u16)> = Vec::new();
    let mut live: Vec<GpuResourceId> = Vec::new();
    for round in 0..50u32 {
        let h = arena.insert_resource(round);
        issued.push((h.index(), h.version()));
        live.push(h);
        if round % 3 != 0 {
            let victim = live.remove((round as usize * 7) % live.len());
            assert!(arena.remove_resource(victim).is_ok());
        }
    }
    for i in 0..issued.len() {
        for j in (i + 1)..issued.len() {
            assert_ne!(issued[i], issued[j]);
        }
    }
}

#[test]
fn version_wraps_after_65536_reuses() {
    let mut arena: ResourceSlot<u32> = ResourceSlot::new();
    let first = arena.insert_resource(0);
    assert_eq!((first.index(), first.version()), (0, 0));
    let mut last = first;
    for round in 0..65535u32 {
        assert!(arena.remove_resource(last).is_ok());
        last = arena.insert_resource(round);
        assert_eq!(last.index(), 0);
        assert_eq!(last.version() as u32, round + 1);
    }
    assert_eq!(last.version(), u16::MAX);
    assert!(arena.remove_resource(last).is_ok());
    let wrapped = arena.insert_resource(1);
    assert_eq!((wrapped.index(), wrapped.version()), (0, 0));
    assert_eq!(arena.get_resource(first), Ok(&1));
}

#[test]
fn invalid_handles_are_rejected() {
    let mut arena: ResourceSlot<u32> = ResourceSlot::new();
    let h = arena.insert_resource(1);
    let out_of_bounds = GpuResourceId::from_parts(5, 0);
    let wrong_version = GpuResourceId::from_parts(0, 9);
    assert_eq!(arena.get_resource(out_of_bounds), Err(ErrorKind::InvalidHandle));
    assert_eq!(arena.get_resource(wrong_version), Err(ErrorKind::InvalidHandle));
    assert_eq!(arena.remove_resource(out_of_bounds), Err(ErrorKind::InvalidHandle));
    assert_eq!(arena.remove_resource(wrong_version), Err(ErrorKind::InvalidHandle));
    assert_eq!(arena.remove_resource(h), Ok(1));
    assert_eq!(arena.remove_resource(h), Err(ErrorKind::InvalidHandle));
    assert_eq!(arena.free_slots(), vec![0]);
    assert_eq!(arena.slot_count(), 1);
}

#[test]
fn collect_existing_drains_in_slot_order() {
    let mut arena: ResourceSlot<&str> = ResourceSlot::new();
    let _a = arena.insert_resource("a");
    let b = arena.insert_resource("b");
    let _c = arena.insert_resource("c");
    let _d = arena.insert_resource("d");
    assert_eq!(arena.remove_resource(b), Ok("b"));
    assert_eq!(arena.collect_existing(), vec!["a", "c", "d"]);
    assert_eq!(arena.slot_count(), 0);
    assert_eq!(arena.free_slots(), Vec::<usize>::new());
    let fresh = arena.insert_resource("e");
    assert_eq!((fresh.index(), fresh.version()), (0, 0));
}

#[test]
fn packed_id_is_the_slot_index() {
    let id = GpuResourceId::from_parts(42, 3);
    assert_eq!(paya::gpu_resources::ImageId(id).pack().raw(), 42);
    assert_eq!(paya::gpu_resources::BufferId(id).pack().raw(), 42);
    assert_eq!(paya::gpu_resources::PackedGpuResourceId::new(id).raw(), 42);
    assert_eq!(paya::gpu_resources::GpuResourceType::Undefined.raw(), 0);
    assert_eq!(paya::gpu_resources::GpuResourceType::StorageImage.raw(), 1);
    assert_eq!(paya::gpu_resources::GpuResourceType::Buffer.raw(), 2);
}
