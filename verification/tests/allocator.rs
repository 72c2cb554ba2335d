use playdate::allocator::{calc_alloc_size, calc_shift_for_align};

const STORAGE: usize = core::mem::size_of::<usize>();

#[test]
fn alloc_size_alignment_of_one_shifts_nothing() {
    assert_eq!(calc_alloc_size(1, 1), STORAGE + 1);
}

#[test]
fn alloc_size_when_neither_size_nor_storage_is_aligned() {
    if STORAGE == 4 {
        assert_eq!(calc_alloc_size(3, 2), (2 * 2) + 3 + (2 - 1));
    } else {
        assert_eq!(calc_alloc_size(3, 2), (2 * 4) + 3 + (2 - 1));
    }
    assert_eq!(calc_alloc_size(5, 11), (11 * 1) + 5 + (11 - 1));
}

#[test]
fn alloc_size_when_storage_is_aligned() {
    assert_eq!(calc_alloc_size(1, 4), STORAGE + 1 + (4 - 1));
    assert_eq!(calc_alloc_size(2, 4), STORAGE + 2 + (4 - 1));
    assert_eq!(calc_alloc_size(5, 4), STORAGE + 5 + (4 - 1));
}

#[test]
fn alloc_size_when_storage_is_not_aligned() {
    if STORAGE == 4 {
        assert_eq!(calc_alloc_size(5, 5), (5 * 1) + 5 + (5 - 1));
        assert_eq!(calc_alloc_size(5, 3), (3 * 2) + 5 + (3 - 1));
    } else {
        assert_eq!(calc_alloc_size(5, 5), (5 * 2) + 5 + (5 - 1));
        assert_eq!(calc_alloc_size(5, 3), (3 * 3) + 5 + (3 - 1));
    }
    assert_eq!(calc_alloc_size(5, 20), (20 * 1) + 5 + (20 - 1));
}

fn check_fits(addr: u64, size: usize, align: usize) {
    let shift = calc_shift_for_align(addr, align);
    assert!(shift <= calc_alloc_size(size, align) - size);
    assert!(shift >= STORAGE);
    assert_eq!((addr + shift as u64) % align as u64, 0);
}

#[test]
fn shifted_data_fits_in_allocation() {
    for addr in 0..4 {
        check_fits(addr, 1000, 1);
    }
    for addr in 0..6 {
        check_fits(addr, 1000, 4);
    }
    for addr in [0, 1, 2, 3, 999, 1000, 1001] {
        check_fits(addr, 1000, 1000);
    }
    for addr in [0, 1, 7, 8, 9] {
        check_fits(addr, 3, 8);
    }
    for addr in 0..5 {
        check_fits(addr, 100, 3);
    }
    for addr in [0, 1, 2, 3, 4, 8, 9, 10] {
        check_fits(addr, 9, 3);
    }
}

#[test]
fn shift_values() {
    // An aligned address still moves by a whole alignment when that leaves room for the storage.
    assert_eq!(calc_shift_for_align(64, 16), 16);
    // Otherwise it moves to the next aligned address with room for the storage.
    assert_eq!(calc_shift_for_align(64, 1), STORAGE);
    assert_eq!(calc_shift_for_align(13, 16), 3 + 16);
    assert_eq!(calc_shift_for_align(7, 2), if STORAGE == 8 { 9 } else { 5 });
}
