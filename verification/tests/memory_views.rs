//! Linear memory, typed views, slices, growth, and the buffer adapter.

use wasm_bridge::buffer::BufferRequest;
use wasm_bridge::errors::{BoundsError, MemoryError};
use wasm_bridge::memory::Memory;
use wasm_bridge::types::MemoryType;
use wasm_bridge::view::SliceExpr;

fn one_page() -> Memory {
    Memory::new(&MemoryType::new(1, None, false)).unwrap()
}

fn full_slice() -> SliceExpr {
    SliceExpr { start: None, stop: None, step: None }
}

fn slice(start: i64, stop: i64) -> SliceExpr {
    SliceExpr { start: Some(start), stop: Some(stop), step: None }
}

#[test]
fn a_new_memory_is_zeroed_pages() {
    let mem = one_page();
    assert_eq!(mem.size(), 1);
    assert_eq!(mem.data_size(), 65536);
    let view = mem.uint8_view(0);
    assert_eq!(view.len(&mem), 65536);
    assert_eq!(view.get(&mem, 0).unwrap(), 0);
    assert_eq!(view.get(&mem, 65535).unwrap(), 0);
}

#[test]
fn growth_is_visible_to_existing_views() {
    // A memory of one page grows by two: `grow` returns the previous page
    // count and every already-built view sees the new length.
    let mut mem = one_page();
    let view = mem.uint8_view(0);
    assert_eq!(view.len(&mem), 65536);
    assert_eq!(mem.grow(2).unwrap(), 1);
    assert_eq!(mem.size(), 3);
    assert_eq!(view.len(&mem), 3 * 65536);
    let wide = mem.uint32_view(0);
    assert_eq!(wide.len(&mem), 3 * 65536 / 4);
}

#[test]
fn growth_beyond_the_maximum_fails() {
    let mut mem = Memory::new(&MemoryType::new(1, Some(2), false)).unwrap();
    assert_eq!(
        mem.grow(2),
        Err(MemoryError::GrowBeyondMaximum { requested: 2, maximum: 2 })
    );
    assert_eq!(mem.size(), 1);
    assert_eq!(mem.grow(1).unwrap(), 1);
    assert_eq!(mem.size(), 2);
}

#[test]
fn a_minimum_above_the_maximum_is_rejected() {
    assert!(matches!(
        Memory::new(&MemoryType::new(3, Some(2), false)),
        Err(MemoryError::MinimumTooLarge { minimum: 3, maximum: 2 })
    ));
}

#[test]
fn out_of_bounds_write_names_index_and_length() {
    // Writing at index 100000 of a one-page memory fails, naming the
    // offending index and the current length.
    let mut mem = one_page();
    let view = mem.uint8_view(0);
    assert_eq!(
        view.set(&mut mem, 100_000, 1),
        Err(BoundsError::IndexOutOfBounds { index: 100_000, length: 65536 })
    );
}

#[test]
fn out_of_bounds_read_fails_exactly_at_the_length() {
    let mem = one_page();
    let view = mem.uint8_view(0);
    assert!(view.get(&mem, 65535).is_ok());
    assert_eq!(
        view.get(&mem, 65536),
        Err(BoundsError::IndexOutOfBounds { index: 65536, length: 65536 })
    );
}

#[test]
fn values_are_stored_little_endian() {
    let mut mem = one_page();
    let wide = mem.uint32_view(0);
    wide.set(&mut mem, 0, 0x0102_0304).unwrap();
    let bytes = mem.uint8_view(0);
    assert_eq!(bytes.get(&mem, 0).unwrap(), 0x04);
    assert_eq!(bytes.get(&mem, 1).unwrap(), 0x03);
    assert_eq!(bytes.get(&mem, 2).unwrap(), 0x02);
    assert_eq!(bytes.get(&mem, 3).unwrap(), 0x01);
    assert_eq!(wide.get(&mem, 0).unwrap(), 0x0102_0304);
}

#[test]
fn signed_views_read_back_negative_values() {
    let mut mem = one_page();
    let signed = mem.int8_view(0);
    signed.set(&mut mem, 0, -1).unwrap();
    signed.set(&mut mem, 1, -128).unwrap();
    assert_eq!(signed.get(&mem, 0).unwrap(), -1);
    assert_eq!(signed.get(&mem, 1).unwrap(), -128);
    let unsigned = mem.uint8_view(0);
    assert_eq!(unsigned.get(&mem, 0).unwrap(), 255);
    assert_eq!(unsigned.get(&mem, 1).unwrap(), 128);

    let signed64 = mem.int64_view(0);
    signed64.set(&mut mem, 2, i64::MIN as i128).unwrap();
    assert_eq!(signed64.get(&mem, 2).unwrap(), i64::MIN as i128);
}

#[test]
fn a_value_that_does_not_fit_is_rejected() {
    let mut mem = one_page();
    let view = mem.uint8_view(0);
    assert_eq!(
        view.set(&mut mem, 0, 256),
        Err(BoundsError::ValueOutOfRange { position: 0 })
    );
    let signed = mem.int8_view(0);
    assert_eq!(
        signed.set(&mut mem, 0, 128),
        Err(BoundsError::ValueOutOfRange { position: 0 })
    );
    assert_eq!(signed.set(&mut mem, 0, -128), Ok(()));
}

#[test]
fn view_offsets_shift_indexing() {
    let mut mem = one_page();
    let bytes = mem.uint8_view(0);
    bytes.set(&mut mem, 10, 42).unwrap();
    let shifted = mem.uint8_view(10);
    assert_eq!(shifted.len(&mem), 65536 - 10);
    assert_eq!(shifted.get(&mem, 0).unwrap(), 42);
}

#[test]
fn slice_reads_honor_start_stop_and_step() {
    let mut mem = one_page();
    let bytes = mem.uint8_view(0);
    for i in 0..10 {
        bytes.set(&mut mem, i, i as i128).unwrap();
    }
    assert_eq!(bytes.get_slice(&mem, &slice(2, 6)).unwrap(), vec![2, 3, 4, 5]);
    let stepped = SliceExpr { start: Some(0), stop: Some(10), step: Some(3) };
    assert_eq!(bytes.get_slice(&mem, &stepped).unwrap(), vec![0, 3, 6, 9]);
    let negative = SliceExpr { start: Some(-65534), stop: Some(4), step: None };
    assert_eq!(bytes.get_slice(&mem, &negative).unwrap(), vec![2, 3]);
}

#[test]
fn empty_slices_are_rejected_not_silently_empty() {
    let mem = one_page();
    let bytes = mem.uint8_view(0);
    assert_eq!(
        bytes.get_slice(&mem, &slice(6, 2)),
        Err(BoundsError::EmptySlice { start: 6, stop: 2 })
    );
    assert_eq!(
        bytes.get_slice(&mem, &slice(3, 3)),
        Err(BoundsError::EmptySlice { start: 3, stop: 3 })
    );
}

#[test]
fn non_positive_steps_are_rejected() {
    let mem = one_page();
    let bytes = mem.uint8_view(0);
    for bad in [0i64, -1, -3] {
        let s = SliceExpr { start: None, stop: None, step: Some(bad) };
        assert_eq!(
            bytes.get_slice(&mem, &s),
            Err(BoundsError::NonPositiveStep { step: bad })
        );
    }
}

#[test]
fn slice_writes_write_every_selected_position() {
    let mut mem = one_page();
    let bytes = mem.uint8_view(0);
    bytes.set_slice(&mut mem, &slice(2, 6), &vec![9, 8, 7, 6]).unwrap();
    assert_eq!(bytes.get_slice(&mem, &slice(0, 8)).unwrap(), vec![0, 0, 9, 8, 7, 6, 0, 0]);
    let stepped = SliceExpr { start: Some(0), stop: Some(7), step: Some(3) };
    bytes.set_slice(&mut mem, &stepped, &vec![11, 12, 13]).unwrap();
    assert_eq!(
        bytes.get_slice(&mem, &slice(0, 8)).unwrap(),
        vec![11, 0, 9, 12, 7, 6, 13, 0]
    );
}

#[test]
fn mismatched_slice_write_changes_nothing() {
    // A slice of four positions given three values: rejected atomically,
    // before any element is modified.
    let mut mem = one_page();
    let bytes = mem.uint8_view(0);
    bytes.set_slice(&mut mem, &slice(0, 4), &vec![1, 2, 3, 4]).unwrap();
    let r = bytes.set_slice(&mut mem, &slice(0, 4), &vec![9, 9, 9]);
    assert_eq!(r, Err(BoundsError::LengthMismatch { expected: 4, given: 3 }));
    assert_eq!(bytes.get_slice(&mem, &slice(0, 4)).unwrap(), vec![1, 2, 3, 4]);
}

#[test]
fn slice_write_with_a_bad_value_changes_nothing() {
    let mut mem = one_page();
    let bytes = mem.uint8_view(0);
    bytes.set_slice(&mut mem, &slice(0, 3), &vec![1, 2, 3]).unwrap();
    let r = bytes.set_slice(&mut mem, &slice(0, 3), &vec![7, 300, 8]);
    assert_eq!(r, Err(BoundsError::ValueOutOfRange { position: 1 }));
    assert_eq!(bytes.get_slice(&mem, &slice(0, 3)).unwrap(), vec![1, 2, 3]);
}

#[test]
fn wide_views_count_whole_elements() {
    let mem = one_page();
    assert_eq!(mem.uint16_view(0).len(&mem), 65536 / 2);
    assert_eq!(mem.int32_view(0).len(&mem), 65536 / 4);
    assert_eq!(mem.uint64_view(0).len(&mem), 65536 / 8);
    assert_eq!(mem.float32_view(0).len(&mem), 65536 / 4);
    assert_eq!(mem.float64_view(0).len(&mem), 65536 / 8);
    assert_eq!(mem.int16_view(0).bytes_per_element(), 2);
    assert_eq!(mem.float64_view(0).bytes_per_element(), 8);
}

#[test]
fn an_offset_beyond_the_memory_gives_an_empty_view() {
    let mem = one_page();
    let view = mem.uint8_view(70_000);
    assert_eq!(view.len(&mem), 0);
    assert_eq!(
        view.get(&mem, 0),
        Err(BoundsError::IndexOutOfBounds { index: 0, length: 0 })
    );
}

#[test]
fn float_views_carry_bit_patterns() {
    let mut mem = one_page();
    let floats = mem.float32_view(0);
    let bits = 1078_530_011i128;
    floats.set(&mut mem, 0, bits).unwrap();
    assert_eq!(floats.get(&mem, 0).unwrap(), bits);
    let bytes = mem.uint8_view(0);
    assert_eq!(bytes.get(&mem, 0).unwrap(), (bits & 0xFF) as i128);
}

#[test]
fn the_buffer_layout_describes_the_live_memory() {
    let mut mem = one_page();
    let all = BufferRequest { writable: true, format: true, shape: true, strides: true };
    let layout = mem.buffer_layout(&all);
    assert_eq!(layout.length, 65536);
    assert!(!layout.readonly);
    assert_eq!(layout.itemsize, 1);
    assert_eq!(layout.ndim, 1);
    assert!(layout.format);
    assert_eq!(layout.shape, Some(65536));
    assert_eq!(layout.strides, Some(1));

    let plain = BufferRequest { writable: false, format: false, shape: false, strides: false };
    let layout = mem.buffer_layout(&plain);
    assert!(layout.readonly);
    assert_eq!(layout.shape, None);
    assert_eq!(layout.strides, None);

    mem.grow(1).unwrap();
    assert_eq!(mem.buffer_layout(&plain).length, 2 * 65536);
}

#[test]
fn whole_view_slice_round_trip() {
    let mut mem = Memory::new(&MemoryType::new(1, Some(1), true)).unwrap();
    assert!(mem.shared);
    let words = mem.uint16_view(0);
    let n = words.len(&mem);
    assert_eq!(n, 32768);
    words.set_slice(&mut mem, &slice(0, 4), &vec![513, 0xFFFF, 0, 258]).unwrap();
    assert_eq!(
        words.get_slice(&mem, &full_slice()).unwrap()[0..4],
        [513, 0xFFFF, 0, 258]
    );
}

#[test]
fn growth_without_a_maximum_stops_at_the_page_limit() {
    let mut mem = one_page();
    assert_eq!(
        mem.grow(65536),
        Err(MemoryError::GrowBeyondMaximum { requested: 65536, maximum: 65536 })
    );
    assert_eq!(mem.grow(0).unwrap(), 1);
    assert_eq!(mem.size(), 1);
}

#[test]
fn slice_bounds_clamp_to_the_view() {
    let mem = one_page();
    let bytes = mem.uint8_view(0);
    // A start far below the beginning clamps to zero; a stop past the end
    // clamps to the length.
    let wide_open = SliceExpr { start: Some(-1_000_000), stop: Some(1_000_000), step: Some(65535) };
    assert_eq!(bytes.get_slice(&mem, &wide_open).unwrap(), vec![0, 0]);
    // A step beyond the whole range still selects the first element.
    let huge_step = SliceExpr { start: Some(10), stop: Some(20), step: Some(1_000_000) };
    assert_eq!(bytes.get_slice(&mem, &huge_step).unwrap().len(), 1);
}

#[test]
fn sixty_four_bit_elements_hold_their_extremes() {
    let mut mem = one_page();
    let words = mem.uint64_view(0);
    words.set(&mut mem, 0, u64::MAX as i128).unwrap();
    assert_eq!(words.get(&mem, 0).unwrap(), u64::MAX as i128);
    assert_eq!(
        words.set(&mut mem, 0, u64::MAX as i128 + 1),
        Err(BoundsError::ValueOutOfRange { position: 0 })
    );
    let signed = mem.int64_view(0);
    assert_eq!(signed.get(&mem, 0).unwrap(), -1);
}
