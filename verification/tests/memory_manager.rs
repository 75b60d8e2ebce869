use kernel::memory_manager::{compute_next_power_of_two, MemoryManager};

#[test]
fn powers_of_two() {
    assert_eq!(compute_next_power_of_two(1), 1);
    assert_eq!(compute_next_power_of_two(5), 8);
    assert_eq!(compute_next_power_of_two(8), 8);
    assert_eq!(compute_next_power_of_two(0x1801), 0x2000);
}

#[test]
fn allocation_is_aligned_and_avoids_processes() {
    let manager = MemoryManager::new(0x2000_0000, 0x1_0000);
    let regions = [(0x2000_0000, 0x2000_1000), (0x2000_8000, 0x2000_9000)];
    // Both gaps leave the same room: the lower one wins.
    assert_eq!(manager.allocate(0x1800, &regions), Some((0x2000_2000, 0x2000)));
    // Empty and unused entries are ignored; the order does not matter.
    let regions = [(0, 0), (0x2000_8000, 0x2000_9000), (5, 5), (0x2000_0000, 0x2000_1000)];
    assert_eq!(manager.allocate(0x1800, &regions), Some((0x2000_2000, 0x2000)));
}

#[test]
fn allocation_takes_the_tightest_gap() {
    let manager = MemoryManager::new(0x2000_0000, 0x1_0000);
    let regions = [(0x2000_0000, 0x2000_1000), (0x2000_4000, 0x2000_5000)];
    assert_eq!(manager.allocate(0x1000, &regions), Some((0x2000_1000, 0x1000)));
}

#[test]
fn allocation_failures() {
    let manager = MemoryManager::new(0x2000_0000, 0x1_0000);
    let regions = [(0x2000_0000, 0x2000_1000), (0x2000_8000, 0x2000_9000)];
    assert_eq!(manager.allocate(0, &regions), None);
    assert_eq!(manager.allocate(0x8000, &regions), None);
    assert_eq!(manager.allocate(0x1_0000, &[]), Some((0x2000_0000, 0x1_0000)));
}
