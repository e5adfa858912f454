use erased::value::{free_value, store_value};
use erased::{ErasedMut, ErasedNonNull, ErasedPtr, ErasedRef, Heap, Shape, ValueRepr};

#[test]
fn test_eptr_ptr() {
    let mut heap = Heap::new();
    let item = store_value(
        &mut heap,
        ValueRepr { bytes: 6i16.to_le_bytes().to_vec(), shape: Shape::Fixed, align: 2 },
    );

    let ep = ErasedPtr::new(&mut heap, item);
    let p = ep.reify_ptr(&heap);
    let raw = heap.read_range(p.data.block, p.data.off, 2);
    let val = i16::from_le_bytes([raw[0], raw[1]]);
    assert_eq!(val, 6);

    ep.destroy(&mut heap);
    free_value(&mut heap, item);
    assert_eq!(heap.live_count(), 0);
}

#[test]
fn test_eptr_ptr_mut() {
    let mut heap = Heap::new();
    let item = store_value(
        &mut heap,
        ValueRepr { bytes: (-5i16).to_le_bytes().to_vec(), shape: Shape::Fixed, align: 2 },
    );

    let ep = ErasedPtr::new(&mut heap, item);
    let ptr = ep.reify_ptr_mut(&heap);
    let raw = heap.read_range(ptr.data.block, ptr.data.off, 2);
    assert_eq!(i16::from_le_bytes([raw[0], raw[1]]), -5);
    heap.write_range(ptr.data.block, ptr.data.off, &(-10i16).to_le_bytes().to_vec());
    let ptr = ep.reify_ptr_mut(&heap);
    let raw = heap.read_range(ptr.data.block, ptr.data.off, 2);
    assert_eq!(i16::from_le_bytes([raw[0], raw[1]]), -10);

    ep.destroy(&mut heap);
    free_value(&mut heap, item);
    assert_eq!(heap.live_count(), 0);
}

#[test]
fn test_nonnull_ptr() {
    let mut heap = Heap::new();
    let item = store_value(
        &mut heap,
        ValueRepr { bytes: b"FOO".to_vec(), shape: Shape::SeqLen(3), align: 1 },
    );

    let np = ErasedNonNull::new(&mut heap, item);
    let p = np.reify_ptr(&heap);
    assert_ne!(p.data.block, 0);
    assert_eq!(p.shape, Shape::SeqLen(3));
    let raw = heap.read_range(p.data.block, p.data.off, 3);
    let val = String::from_utf8(raw).unwrap();
    assert_eq!(val, "FOO");

    np.destroy(&mut heap);
    free_value(&mut heap, item);
    assert_eq!(heap.live_count(), 0);
}

#[test]
fn eptr_null_pointer_round_trips() {
    let mut heap = Heap::new();
    let null = erased::TypedPtr {
        data: erased::DataPtr { block: 0, off: 0 },
        shape: Shape::SeqLen(4),
    };
    let ep = ErasedPtr::new(&mut heap, null);
    assert_eq!(ep.data_ptr().block, 0);
    let p = ep.reify_ptr(&heap);
    assert_eq!(p, null);
    ep.destroy(&mut heap);
    assert_eq!(heap.live_count(), 0);
}

#[test]
fn eref_reify_and_clone_cell() {
    let mut heap = Heap::new();
    let item = store_value(
        &mut heap,
        ValueRepr { bytes: 9u32.to_le_bytes().to_vec(), shape: Shape::Fixed, align: 4 },
    );

    let er = ErasedRef::new(&mut heap, item);
    let p = er.reify_ref(&heap);
    assert_eq!(p, item);
    let np = er.as_ptr(&mut heap);
    let p2 = np.reify_ptr(&heap);
    assert_eq!(p2, item);

    np.destroy(&mut heap);
    er.destroy(&mut heap);
    free_value(&mut heap, item);
    assert_eq!(heap.live_count(), 0);
}

#[test]
fn emut_write_is_visible() {
    let mut heap = Heap::new();
    let item = store_value(
        &mut heap,
        ValueRepr { bytes: 9u32.to_le_bytes().to_vec(), shape: Shape::Fixed, align: 4 },
    );

    let mut em = ErasedMut::new(&mut heap, item);
    let p = em.reify_ref(&heap);
    heap.write_range(p.data.block, p.data.off, &11u32.to_le_bytes().to_vec());
    let p2 = em.reify_ref(&heap);
    let raw = heap.read_range(p2.data.block, p2.data.off, 4);
    assert_eq!(u32::from_le_bytes([raw[0], raw[1], raw[2], raw[3]]), 11);

    em.destroy(&mut heap);
    free_value(&mut heap, item);
    assert_eq!(heap.live_count(), 0);
}
