//! Tests of the foreign page windows: translation, allocation plans,
//! window registration and teardown.

use xenclient::error::Error;
use xenclient::mem::{PhysicalPages, Translation};

const PAGE: u64 = 4096;

#[test]
fn zero_count_lookup_on_an_empty_window_list_is_refused() {
    let pages = PhysicalPages::new(1);
    let err = pages.pfn_to_ptr(5, 0).unwrap_err();
    assert_eq!(err, Error::MemorySetupFailed("page count is zero"));
}

#[test]
fn missing_range_asks_for_an_allocation() {
    let pages = PhysicalPages::new(1);
    assert_eq!(pages.pfn_to_ptr(0, 2).unwrap(), Translation::NeedsAlloc);
}

#[test]
fn translation_returns_the_window_base_plus_the_page_offset() {
    let mut pages = PhysicalPages::new(1);
    pages.load_p2m(vec![100, 101, 102, 103]);
    assert_eq!(pages.p2m_size(), 4);
    assert_eq!(pages.pfn_to_ptr(0, 2).unwrap(), Translation::NeedsAlloc);
    let plan = pages.alloc_plan(0, 2);
    assert_eq!(plan.mfns, vec![100, 101]);
    assert_eq!(plan.mmap_len, 2 * PAGE);
    // Stub kernel: the reservation landed at 0x10000.
    pages.add_window(0, 0x10000, 2).unwrap();
    assert_eq!(pages.window_count(), 1);
    assert_eq!(pages.pfn_to_ptr(0, 2).unwrap(), Translation::Mapped(0x10000));
    assert_eq!(pages.pfn_to_ptr(1, 1).unwrap(), Translation::Mapped(0x10000 + PAGE));
    assert_eq!(pages.pfn_to_ptr(1, 0).unwrap(), Translation::Mapped(0x10000 + PAGE));
}

#[test]
fn range_straddling_two_windows_is_refused() {
    let mut pages = PhysicalPages::new(1);
    pages.add_window(0, 0x10000, 2).unwrap();
    pages.add_window(2, 0x20000, 2).unwrap();
    let err = pages.pfn_to_ptr(1, 2).unwrap_err();
    assert_eq!(err, Error::MemorySetupFailed("pfn is out of range"));
}

#[test]
fn range_running_past_its_window_is_refused() {
    let mut pages = PhysicalPages::new(1);
    pages.add_window(0, 0x10000, 2).unwrap();
    let err = pages.pfn_to_ptr(1, 2).unwrap_err();
    assert_eq!(err, Error::MemorySetupFailed("pfn is out of range"));
}

#[test]
fn zero_count_lookup_outside_every_window_is_refused() {
    let mut pages = PhysicalPages::new(1);
    pages.add_window(0, 0x10000, 2).unwrap();
    let err = pages.pfn_to_ptr(7, 0).unwrap_err();
    assert_eq!(err, Error::MemorySetupFailed("page count is zero"));
}

#[test]
fn overlapping_registration_is_refused() {
    let mut pages = PhysicalPages::new(1);
    pages.add_window(0, 0x10000, 4).unwrap();
    let err = pages.add_window(2, 0x20000, 4).unwrap_err();
    assert_eq!(err, Error::MemorySetupFailed("window overlaps a live window"));
    assert_eq!(pages.window_count(), 1);
}

#[test]
fn sentinel_windows_never_answer_frame_lookups() {
    let mut pages = PhysicalPages::new(1);
    let plan = pages.foreign_plan(7, 5000);
    assert_eq!(plan.mfns, vec![7, 8]);
    assert_eq!(plan.mmap_len, 2 * PAGE);
    pages.add_window(u64::MAX, 0x40000, 2).unwrap();
    // The raw-frame window is invisible to frame-based translation ...
    assert_eq!(pages.pfn_to_ptr(0, 1).unwrap(), Translation::NeedsAlloc);
    let err = pages.pfn_to_ptr(0, 0).unwrap_err();
    assert_eq!(err, Error::MemorySetupFailed("page count is zero"));
    // ... but participates in bulk teardown.
    let teardown = pages.unmap_all_plan();
    assert_eq!(teardown, vec![(0x40000, 2 * PAGE)]);
}

#[test]
fn foreign_plan_rounds_the_size_up_to_whole_pages() {
    let pages = PhysicalPages::new(1);
    assert_eq!(pages.foreign_plan(9, 1).mfns, vec![9]);
    assert_eq!(pages.foreign_plan(9, 4096).mfns, vec![9]);
    assert_eq!(pages.foreign_plan(9, 4097).mfns, vec![9, 10]);
    assert_eq!(pages.foreign_plan(9, 4097).mmap_len, 2 * PAGE);
}

#[test]
fn unmap_removes_exactly_the_window_starting_at_the_frame() {
    let mut pages = PhysicalPages::new(1);
    pages.add_window(0, 0x10000, 2).unwrap();
    pages.add_window(4, 0x20000, 3).unwrap();
    let (idx, ptr, len) = pages.unmap_plan(4).unwrap();
    assert_eq!((idx, ptr, len), (1, 0x20000, 3 * PAGE));
    pages.remove_window(idx);
    assert_eq!(pages.window_count(), 1);
    assert_eq!(pages.pfn_to_ptr(0, 1).unwrap(), Translation::Mapped(0x10000));
    assert_eq!(pages.pfn_to_ptr(4, 1).unwrap(), Translation::NeedsAlloc);
}

#[test]
fn unmap_of_a_missing_frame_is_refused() {
    let mut pages = PhysicalPages::new(1);
    pages.add_window(0, 0x10000, 2).unwrap();
    let err = pages.unmap_plan(1).unwrap_err();
    assert_eq!(err, Error::MemorySetupFailed("cannot unmap missing page"));
}

#[test]
fn unmap_all_lists_every_window_and_clearing_empties_the_set() {
    let mut pages = PhysicalPages::new(1);
    pages.add_window(0, 0x10000, 2).unwrap();
    pages.add_window(4, 0x20000, 1).unwrap();
    let teardown = pages.unmap_all_plan();
    assert_eq!(teardown, vec![(0x10000, 2 * PAGE), (0x20000, PAGE)]);
    pages.clear_windows();
    assert_eq!(pages.window_count(), 0);
    assert_eq!(pages.pfn_to_ptr(0, 1).unwrap(), Translation::NeedsAlloc);
}
