use num_complex::Complex;
use raw_samples::buffer::{f32_to_complex_vec, try_vec_convert, vec_convert, TypedBuffer};
use raw_samples::layout::{converted_extent, ElemLayout};
use raw_samples::samples::{from_file_complex_f32, from_file_raw_f32};

fn scalar_buffer(values: &[f32], capacity: usize) -> TypedBuffer {
    let bytes: Vec<u8> = values.iter().flat_map(|v| v.to_ne_bytes()).collect();
    TypedBuffer::from_bytes(ElemLayout::scalar(), bytes, capacity).unwrap()
}

fn complex_values(buffer: &TypedBuffer) -> Vec<Complex<f32>> {
    from_file_complex_f32(buffer.as_bytes())
        .iter()
        .map(|c| Complex::new(f32::from_bits(c.re), f32::from_bits(c.im)))
        .collect()
}

#[test]
fn basic_vec_conversion_test() {
    let given: Vec<f32> = vec![0.0, 1.0, 3.4, 1.1, 4.3, 3.2];
    let expected: Vec<Complex<f32>> =
        given.chunks(2).map(|sl| Complex::new(sl[0], sl[1])).collect();

    assert_eq!(complex_values(&f32_to_complex_vec(scalar_buffer(&given, 6))), expected);
}

#[test]
fn scalars_pair_up_in_order() {
    let given: Vec<f32> = vec![0.0, 1.0, 3.4, 1.1, 4.3, 3.2];
    let converted = f32_to_complex_vec(scalar_buffer(&given, 6));
    assert_eq!(
        complex_values(&converted),
        vec![Complex::new(0.0, 1.0), Complex::new(3.4, 1.1), Complex::new(4.3, 3.2)]
    );
    assert_eq!(converted.layout(), ElemLayout::complex());
    assert_eq!(converted.len(), 3);
    assert_eq!(converted.capacity(), 3);
}

#[test]
fn conversion_keeps_every_byte() {
    let given: Vec<f32> = vec![1.5, -2.25, 8.0, 0.125];
    let source = scalar_buffer(&given, 4);
    let before: Vec<u8> = source.as_bytes().to_vec();
    let converted = f32_to_complex_vec(source);
    assert_eq!(converted.as_bytes(), &before[..]);
    assert_eq!(converted.into_bytes(), before);
}

#[test]
fn length_and_capacity_are_divided_by_the_ratio() {
    let given: Vec<f32> = vec![0.0; 6];
    let converted = f32_to_complex_vec(scalar_buffer(&given, 10));
    assert_eq!(converted.len(), 3);
    assert_eq!(converted.capacity(), 5);

    let bytes: Vec<u8> = (0u8..24).collect();
    let source = TypedBuffer::from_bytes(ElemLayout::new(2, 2), bytes, 18).unwrap();
    assert_eq!(source.len(), 12);
    let wide = vec_convert(source, ElemLayout::new(6, 2));
    assert_eq!(wide.len(), 4);
    assert_eq!(wide.capacity(), 6);
    assert_eq!(wide.layout(), ElemLayout::new(6, 2));
}

#[test]
fn converted_extent_gives_exact_counts() {
    let scalar = ElemLayout::scalar();
    let complex = ElemLayout::complex();
    assert_eq!(converted_extent(scalar, complex, 6, 6), Some((3, 3)));
    assert_eq!(converted_extent(scalar, complex, 6, 8), Some((3, 4)));
    assert_eq!(converted_extent(scalar, complex, 0, 0), Some((0, 0)));
    assert_eq!(converted_extent(ElemLayout::new(1, 1), ElemLayout::new(16, 1), 32, 48), Some((2, 3)));
    assert_eq!(
        converted_extent(ElemLayout::new(4, 4), ElemLayout::new(12, 4), 9, 300),
        Some((3, 100))
    );
}

#[test]
fn equal_sizes_relabel_without_change() {
    let words = ElemLayout::new(4, 4);
    assert_eq!(converted_extent(words, ElemLayout::scalar(), 7, 9), Some((7, 9)));

    let bytes: Vec<u8> = (0u8..28).collect();
    let source = TypedBuffer::from_bytes(words, bytes.clone(), 9).unwrap();
    let relabelled = vec_convert(source, ElemLayout::scalar());
    assert_eq!(relabelled.len(), 7);
    assert_eq!(relabelled.capacity(), 9);
    assert_eq!(relabelled.as_bytes(), &bytes[..]);
}

#[test]
fn there_and_back_gives_the_same_buffer() {
    let words = ElemLayout::new(4, 4);
    let given: Vec<f32> = vec![0.5, -1.0, 3.0e9, f32::MIN_POSITIVE, 7.0];
    let source = scalar_buffer(&given, 8);
    let before: Vec<u8> = source.as_bytes().to_vec();

    let there = vec_convert(source, words);
    let back = vec_convert(there, ElemLayout::scalar());

    assert_eq!(back.as_bytes(), &before[..]);
    assert_eq!(back.len(), 5);
    assert_eq!(back.capacity(), 8);
    assert_eq!(back.layout(), ElemLayout::scalar());
    let values: Vec<f32> =
        from_file_raw_f32(back.as_bytes()).iter().map(|b| f32::from_bits(*b)).collect();
    assert_eq!(values, given);
}

#[test]
fn mismatched_alignment_is_rejected() {
    let source = ElemLayout::new(4, 4);
    assert_eq!(converted_extent(source, ElemLayout::new(8, 8), 6, 6), None);
    assert_eq!(converted_extent(source, ElemLayout::new(4, 2), 6, 6), None);

    let buffer = TypedBuffer::from_bytes(source, vec![0u8; 24], 6).unwrap();
    assert!(!buffer.can_convert(ElemLayout::new(8, 8)));
    assert!(buffer.can_convert(ElemLayout::new(8, 4)));
}

#[test]
fn size_that_is_no_multiple_is_rejected() {
    assert_eq!(converted_extent(ElemLayout::new(4, 4), ElemLayout::new(6, 4), 6, 6), None);
    assert_eq!(converted_extent(ElemLayout::new(8, 4), ElemLayout::new(4, 4), 6, 6), None);
    assert_eq!(converted_extent(ElemLayout::new(3, 1), ElemLayout::new(4, 1), 12, 12), None);
}

#[test]
fn zero_sized_layouts_are_rejected() {
    assert_eq!(converted_extent(ElemLayout::new(0, 1), ElemLayout::new(4, 1), 4, 4), None);
    assert_eq!(converted_extent(ElemLayout::new(4, 1), ElemLayout::new(0, 1), 4, 4), None);
    assert_eq!(converted_extent(ElemLayout::new(0, 1), ElemLayout::new(0, 1), 0, 0), None);
}

#[test]
fn odd_length_is_rejected() {
    assert_eq!(converted_extent(ElemLayout::scalar(), ElemLayout::complex(), 5, 6), None);
    let buffer = scalar_buffer(&[1.0, 2.0, 3.0], 4);
    assert!(!buffer.can_convert(ElemLayout::complex()));
}

#[test]
fn odd_capacity_is_rejected_though_the_length_is_even() {
    assert_eq!(converted_extent(ElemLayout::scalar(), ElemLayout::complex(), 4, 5), None);
    let buffer = scalar_buffer(&[1.0, 2.0, 3.0, 4.0], 5);
    assert!(!buffer.can_convert(ElemLayout::complex()));
    let buffer = scalar_buffer(&[], 1);
    assert!(!buffer.can_convert(ElemLayout::complex()));
}

#[test]
fn a_rejected_buffer_comes_back_untouched() {
    let given: Vec<f32> = vec![1.0, 2.0, 3.0];
    let source = scalar_buffer(&given, 7);
    let before: Vec<u8> = source.as_bytes().to_vec();

    let rejected = match try_vec_convert(source, ElemLayout::complex()) {
        Ok(_) => panic!("three scalars do not make whole pairs"),
        Err(buffer) => buffer,
    };
    assert_eq!(rejected.layout(), ElemLayout::scalar());
    assert_eq!(rejected.len(), 3);
    assert_eq!(rejected.capacity(), 7);
    assert_eq!(rejected.as_bytes(), &before[..]);

    let rejected = match try_vec_convert(rejected, ElemLayout::new(4, 8)) {
        Ok(_) => panic!("the alignments differ"),
        Err(buffer) => buffer,
    };
    assert_eq!(rejected.as_bytes(), &before[..]);

    let values: Vec<f32> =
        from_file_raw_f32(rejected.as_bytes()).iter().map(|b| f32::from_bits(*b)).collect();
    assert_eq!(values, given);
}

#[test]
fn an_accepted_buffer_is_converted() {
    let source = scalar_buffer(&[2.0, -3.5], 2);
    let converted = match try_vec_convert(source, ElemLayout::complex()) {
        Ok(buffer) => buffer,
        Err(_) => panic!("two scalars make one pair"),
    };
    assert_eq!(converted.len(), 1);
    assert_eq!(converted.capacity(), 1);
    assert_eq!(complex_values(&converted), vec![Complex::new(2.0, -3.5)]);
}

#[test]
fn empty_buffer_converts_to_empty_buffer() {
    let converted = f32_to_complex_vec(scalar_buffer(&[], 0));
    assert_eq!(converted.len(), 0);
    assert_eq!(converted.capacity(), 0);
    assert!(converted.as_bytes().is_empty());
    assert_eq!(complex_values(&converted), vec![]);

    let spare = f32_to_complex_vec(scalar_buffer(&[], 16));
    assert_eq!(spare.len(), 0);
    assert_eq!(spare.capacity(), 8);
}

#[test]
fn from_bytes_counts_whole_elements() {
    let buffer = TypedBuffer::from_bytes(ElemLayout::new(3, 1), vec![9u8; 12], 4).unwrap();
    assert_eq!(buffer.len(), 4);
    assert_eq!(buffer.capacity(), 4);
    assert_eq!(buffer.layout(), ElemLayout::new(3, 1));
    assert_eq!(buffer.as_bytes(), &[9u8; 12][..]);
}

#[test]
fn from_bytes_refuses_what_is_no_buffer() {
    assert!(TypedBuffer::from_bytes(ElemLayout::new(0, 1), vec![], 0).is_none());
    assert!(TypedBuffer::from_bytes(ElemLayout::new(4, 4), vec![0u8; 6], 2).is_none());
    assert!(TypedBuffer::from_bytes(ElemLayout::new(4, 4), vec![0u8; 12], 2).is_none());
    assert!(TypedBuffer::from_bytes(ElemLayout::new(4, 4), vec![0u8; 12], 3).is_some());
}

#[test]
fn layouts_of_rust_types() {
    assert_eq!(ElemLayout::of::<u8>(), ElemLayout::new(1, 1));
    assert_eq!(ElemLayout::of::<[u8; 3]>(), ElemLayout::new(3, 1));
    assert_eq!(
        ElemLayout::of::<f32>(),
        ElemLayout::new(std::mem::size_of::<f32>(), std::mem::align_of::<f32>())
    );
    assert_eq!(ElemLayout::of::<f32>().size, ElemLayout::scalar().size);
    assert_eq!(ElemLayout::of::<Complex<f32>>().size, ElemLayout::complex().size);
    assert_eq!(ElemLayout::of::<Complex<f32>>().align, ElemLayout::of::<f32>().align);
}

#[test]
fn checked_ratio_counts_source_elements_per_target_element() {
    assert_eq!(ElemLayout::scalar().checked_ratio(&ElemLayout::complex()), Some(2));
    assert_eq!(ElemLayout::scalar().checked_ratio(&ElemLayout::scalar()), Some(1));
    assert_eq!(ElemLayout::complex().checked_ratio(&ElemLayout::scalar()), None);
    assert_eq!(ElemLayout::new(2, 2).checked_ratio(&ElemLayout::new(10, 2)), Some(5));
    assert_eq!(ElemLayout::new(2, 2).checked_ratio(&ElemLayout::new(10, 1)), None);
}

#[test]
fn conversion_spans_the_same_bytes() {
    let source = TypedBuffer::from_bytes(ElemLayout::new(2, 2), vec![3u8; 24], 30).unwrap();
    let held = source.len() * source.layout().size;
    let room = source.capacity() * source.layout().size;
    let wide = vec_convert(source, ElemLayout::new(12, 2));
    assert_eq!(wide.len(), 2);
    assert_eq!(wide.capacity(), 5);
    assert_eq!(wide.len() * wide.layout().size, held);
    assert_eq!(wide.capacity() * wide.layout().size, room);
    assert_eq!(wide.as_bytes().len(), held);
}
