use vulkan_sandbox::descriptors::{DescriptorAllocator, PoolChoice};

#[test]
fn large_request_gets_pool_of_its_size() {
    let alloc = DescriptorAllocator::new(4);
    assert_eq!(alloc.next_pool(0, 10), PoolChoice::Create { set_count: 10 });
    assert_eq!(alloc.next_pool(0, 3), PoolChoice::Create { set_count: 4 });
}

#[test]
fn probes_open_pools_in_order() {
    let mut alloc = DescriptorAllocator::new(4);
    alloc.add_pool(11, 4, 1);
    alloc.add_pool(12, 4, 2);
    assert_eq!(alloc.next_pool(0, 1), PoolChoice::Probe { index: 0, handle: 11 });
    assert_eq!(alloc.next_pool(1, 1), PoolChoice::Probe { index: 1, handle: 12 });
    assert_eq!(alloc.next_pool(2, 1), PoolChoice::Create { set_count: 4 });
}

#[test]
fn full_pools_grow_by_exactly_one() {
    let mut alloc = DescriptorAllocator::new(2);
    alloc.add_pool(1, 2, 2);
    alloc.add_pool(2, 2, 2);
    assert_eq!(alloc.full_pool_count(), 2);
    assert_eq!(alloc.open_pool_count(), 0);
    match alloc.next_pool(0, 1) {
        PoolChoice::Create { set_count } => {
            assert_eq!(set_count, 2);
            alloc.add_pool(3, set_count, 1);
        }
        other => panic!("unexpected {:?}", other),
    }
    assert_eq!(alloc.total_pool_count(), 3);
    assert_eq!(alloc.next_pool(0, 1), PoolChoice::Probe { index: 0, handle: 3 });
}

#[test]
fn pool_reaching_capacity_moves_to_full_list() {
    let mut alloc = DescriptorAllocator::new(3);
    alloc.add_pool(7, 3, 1);
    alloc.record_allocation(0, 1);
    assert_eq!(alloc.full_pool_count(), 0);
    alloc.record_allocation(0, 1);
    assert_eq!(alloc.full_pool_count(), 1);
    assert_eq!(alloc.open_pool_count(), 0);
    assert_eq!(alloc.total_pool_count(), 1);
}

#[test]
fn reset_reopens_every_pool() {
    let mut alloc = DescriptorAllocator::new(2);
    alloc.add_pool(1, 2, 2);
    alloc.add_pool(2, 2, 1);
    alloc.add_pool(3, 2, 0);
    let used = alloc.reset();
    assert_eq!(used, vec![2, 1]);
    assert_eq!(alloc.full_pool_count(), 0);
    assert_eq!(alloc.open_pool_count(), 3);
    assert_eq!(alloc.next_pool(0, 1), PoolChoice::Probe { index: 0, handle: 2 });
    assert_eq!(alloc.reset(), Vec::<u64>::new());
}

#[test]
fn clear_hands_back_every_pool() {
    let mut alloc = DescriptorAllocator::new(2);
    alloc.add_pool(1, 2, 2);
    alloc.add_pool(2, 2, 1);
    assert_eq!(alloc.clear(), vec![2, 1]);
    assert_eq!(alloc.total_pool_count(), 0);
    assert_eq!(alloc.set_count(), 2);
}
