use erased::laws::{
    thin_erase_destroy, thin_roundtrip, thin_write_read, wide_erase_destroy, wide_roundtrip,
    wide_write_read,
};
use erased::{ErasedBox, Heap, Shape, ThinErasedBox, ValueRepr};

#[test]
fn wide_roundtrip_returns_value() {
    let mut heap = Heap::new();
    let v = ValueRepr {
        bytes: vec![1, 2, 3, 4, 5],
        shape: Shape::SeqLen(5),
        align: 1,
    };
    let w = wide_roundtrip(&mut heap, v);
    assert_eq!(w.bytes, vec![1, 2, 3, 4, 5]);
    assert_eq!(w.shape, Shape::SeqLen(5));
    assert_eq!(w.align, 1);
    assert_eq!(heap.live_count(), 0);
}

#[test]
fn thin_roundtrip_returns_value() {
    let mut heap = Heap::new();
    let v = ValueRepr {
        bytes: 0x0102030405060708u64.to_le_bytes().to_vec(),
        shape: Shape::Fixed,
        align: 8,
    };
    let w = thin_roundtrip(&mut heap, v);
    assert_eq!(w.bytes, vec![8, 7, 6, 5, 4, 3, 2, 1]);
    assert_eq!(w.shape, Shape::Fixed);
    assert_eq!(w.align, 8);
    assert_eq!(heap.live_count(), 0);
}

#[test]
fn erase_destroy_leaves_no_allocation() {
    let mut heap = Heap::new();
    wide_erase_destroy(&mut heap, ValueRepr { bytes: vec![9], shape: Shape::Fixed, align: 1 });
    assert_eq!(heap.live_count(), 0);
    thin_erase_destroy(&mut heap, ValueRepr { bytes: vec![9], shape: Shape::Fixed, align: 1 });
    assert_eq!(heap.live_count(), 0);
}

#[test]
fn unrelated_handles_survive_a_destroy() {
    let mut heap = Heap::new();
    let keeper = ErasedBox::new(
        &mut heap,
        ValueRepr { bytes: vec![42], shape: Shape::Fixed, align: 1 },
    );
    wide_erase_destroy(
        &mut heap,
        ValueRepr { bytes: vec![7, 7], shape: Shape::Fixed, align: 2 },
    );
    let val = keeper.reify_ref(&heap);
    assert_eq!(val.bytes, vec![42]);
    keeper.destroy(&mut heap);
    assert_eq!(heap.live_count(), 0);
}

#[test]
fn wide_mutation_is_read_back() {
    let mut heap = Heap::new();
    let mut b = ErasedBox::new(
        &mut heap,
        ValueRepr { bytes: 1.5f64.to_le_bytes().to_vec(), shape: Shape::Fixed, align: 8 },
    );
    let w = wide_write_read(&mut heap, &mut b, &2.5f64.to_le_bytes().to_vec());
    assert_eq!(f64::from_le_bytes(w.bytes.try_into().unwrap()), 2.5);
    b.destroy(&mut heap);
    assert_eq!(heap.live_count(), 0);
}

#[test]
fn thin_mutation_is_read_back() {
    let mut heap = Heap::new();
    let mut b = ThinErasedBox::new(
        &mut heap,
        ValueRepr { bytes: 1.5f64.to_le_bytes().to_vec(), shape: Shape::Fixed, align: 8 },
    );
    let w = thin_write_read(&mut heap, &mut b, &2.5f64.to_le_bytes().to_vec());
    assert_eq!(f64::from_le_bytes(w.bytes.try_into().unwrap()), 2.5);
    b.destroy(&mut heap);
    assert_eq!(heap.live_count(), 0);
}

#[test]
fn zero_size_roundtrip() {
    let mut heap = Heap::new();
    let w = thin_roundtrip(
        &mut heap,
        ValueRepr { bytes: Vec::new(), shape: Shape::Fixed, align: 16 },
    );
    assert_eq!(w.bytes.len(), 0);
    assert_eq!(w.align, 16);
    assert_eq!(heap.live_count(), 0);
}

#[test]
fn dispatched_roundtrip_keeps_behavior() {
    let mut heap = Heap::new();
    let w = thin_roundtrip(
        &mut heap,
        ValueRepr {
            bytes: 123.45f64.to_le_bytes().to_vec(),
            shape: Shape::Dispatch(7),
            align: 8,
        },
    );
    assert_eq!(w.shape, Shape::Dispatch(7));
    assert_eq!(format!("{:?}", f64::from_le_bytes(w.bytes.try_into().unwrap())), "123.45");
}

#[test]
fn shape_codec_exact_bytes() {
    let enc = erased::shape::encode_shape(Shape::SeqLen(3));
    assert_eq!(enc, vec![1, 3, 0, 0, 0, 0, 0, 0, 0]);
    assert_eq!(erased::shape::decode_shape(&enc), Shape::SeqLen(3));
    let enc = erased::shape::encode_shape(Shape::Fixed);
    assert_eq!(enc, vec![0, 0, 0, 0, 0, 0, 0, 0, 0]);
    let enc = erased::shape::encode_shape(Shape::Dispatch(0x0100));
    assert_eq!(enc, vec![2, 0, 1, 0, 0, 0, 0, 0, 0]);
    assert_eq!(erased::shape::decode_shape(&enc), Shape::Dispatch(0x0100));
}

#[test]
fn u64_codec_exact_bytes() {
    let enc = erased::shape::u64_to_le(0x0102030405060708);
    assert_eq!(enc, vec![8, 7, 6, 5, 4, 3, 2, 1]);
    assert_eq!(erased::shape::u64_read_le(&enc, 0), 0x0102030405060708);
}

#[test]
fn layout_is_padded_to_alignment() {
    let layout = erased::layout::combined_layout(5, 16);
    // Header and descriptor take 33 bytes; the value starts at the next
    // multiple of 16 and the total is a multiple of the alignment.
    assert_eq!(layout.val_off, 48);
    assert_eq!(layout.align, 16);
    assert_eq!(layout.size, 64);
    let tight = erased::layout::combined_layout(0, 1);
    assert_eq!(tight.val_off, 33);
    assert_eq!(tight.align, 8);
    assert_eq!(tight.size, 40);
}
