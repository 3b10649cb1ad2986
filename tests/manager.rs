use memory_manager::idle_or_default;
use memory_manager::MemoryManager;

#[test]
fn basic_allocation() {
    let manager = MemoryManager::<u32>::new(5);
    let block = manager.allocate();
    assert_eq!(manager.get_number_of_allocations(), 1);
    drop(block);
    assert_eq!(manager.get_number_of_allocations(), 0);
}

#[test]
fn test_allocation_count() {
    let manager = MemoryManager::<u32>::new(5);
    assert_eq!(manager.get_number_of_allocations(), 0);

    let _block = manager.allocate();
    assert_eq!(manager.get_number_of_allocations(), 1);
}

#[test]
fn test_pool_reuse() {
    let manager = MemoryManager::<String>::new(1);

    let block1 = manager.allocate();
    let _addr1: &String = &*block1;
    drop(block1);

    let block2 = manager.allocate();
    let _addr2: &String = &*block2;

    assert_eq!(manager.get_number_of_allocations(), 1);
}

#[test]
fn fresh_instance_is_default() {
    let manager = MemoryManager::<u32>::new(2);
    let block = manager.allocate();
    assert_eq!(*block, 0);
    let text_manager = MemoryManager::<String>::new(2);
    let text = text_manager.allocate();
    assert_eq!(*text, "");
}

#[test]
fn released_instance_is_handed_out_again() {
    let manager = MemoryManager::<u32>::new(1);
    let mut block = manager.allocate();
    *block = 7;
    drop(block);
    let again = manager.allocate();
    assert_eq!(*again, 7);
}

#[test]
fn zero_pool_size_discards_every_return() {
    let manager = MemoryManager::<u32>::new(0);
    let mut block = manager.allocate();
    *block = 9;
    drop(block);
    assert_eq!(manager.get_number_of_allocations(), 0);
    let again = manager.allocate();
    assert_eq!(*again, 0);
    assert_eq!(manager.get_number_of_allocations(), 1);
}

#[test]
fn allocate_release_allocate_counts() {
    let manager = MemoryManager::<u64>::new(5);
    let first = manager.allocate();
    assert_eq!(manager.get_number_of_allocations(), 1);
    drop(first);
    assert_eq!(manager.get_number_of_allocations(), 0);
    let second = manager.allocate();
    assert_eq!(manager.get_number_of_allocations(), 1);
    drop(second);
    assert_eq!(manager.get_number_of_allocations(), 0);
}

#[test]
fn two_outstanding_handles_then_both_released() {
    let manager = MemoryManager::<u32>::new(1);
    let mut a = manager.allocate();
    let mut b = manager.allocate();
    assert_eq!(manager.get_number_of_allocations(), 2);
    *a = 1;
    *b = 2;
    drop(a);
    drop(b);
    assert_eq!(manager.get_number_of_allocations(), 0);
    // The pool kept one instance; the next two allocations get it and a fresh one.
    let c = manager.allocate();
    let d = manager.allocate();
    assert_eq!(*c, 1);
    assert_eq!(*d, 0);
}

#[test]
fn count_follows_allocations_minus_releases() {
    let manager = MemoryManager::<u8>::new(3);
    let mut held = Vec::new();
    let mut allocated: usize = 0;
    let mut released: usize = 0;
    for round in 0..20usize {
        if round % 3 == 2 {
            if let Some(block) = held.pop() {
                drop(block);
                released += 1;
            }
        } else {
            held.push(manager.allocate());
            allocated += 1;
        }
        assert_eq!(manager.get_number_of_allocations(), allocated - released);
    }
    drop(held);
    assert_eq!(manager.get_number_of_allocations(), 0);
}

#[test]
fn moving_a_handle_releases_once() {
    let manager = MemoryManager::<u32>::new(2);
    let block = manager.allocate();
    let moved = block;
    let holder = vec![moved];
    assert_eq!(manager.get_number_of_allocations(), 1);
    drop(holder);
    assert_eq!(manager.get_number_of_allocations(), 0);
}

#[test]
fn allocate_array_counts_one_event() {
    let manager = MemoryManager::<u32>::new(2);
    let items = manager.allocate_array(10);
    assert_eq!(items.len(), 10);
    assert!(items.iter().all(|x| *x == 0));
    assert_eq!(manager.get_number_of_allocations(), 1);
    let none = manager.allocate_array(0);
    assert!(none.is_empty());
    assert_eq!(manager.get_number_of_allocations(), 2);
}

#[test]
fn idle_instance_is_preferred_over_default() {
    assert_eq!(idle_or_default(Some(3u32)), 3);
    assert_eq!(idle_or_default::<u32>(None), 0);
    assert_eq!(idle_or_default(Some(String::from("kept"))), "kept");
    assert_eq!(idle_or_default::<String>(None), "");
}
