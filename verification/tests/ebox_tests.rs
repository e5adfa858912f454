use erased::value::{free_value, load_value};
use erased::{ErasedBox, Heap, Shape, ValueRepr};

fn fixed(bytes: Vec<u8>, align: usize) -> ValueRepr {
    ValueRepr { bytes, shape: Shape::Fixed, align }
}

#[test]
fn ebox_test_eb_drop() {
    let mut heap = Heap::new();
    let eb = ErasedBox::new(&mut heap, fixed(1i32.to_le_bytes().to_vec(), 4));
    eb.destroy(&mut heap);
    assert_eq!(heap.live_count(), 0);
}

#[test]
fn ebox_test_eb_reify_box() {
    let mut heap = Heap::new();
    let p = ErasedBox::new(&mut heap, fixed(1u32.to_le_bytes().to_vec(), 4)).reify_box(&mut heap);
    let v = load_value(&heap, p);
    assert_eq!(v.bytes, 1u32.to_le_bytes().to_vec());
    free_value(&mut heap, p);
    assert_eq!(heap.live_count(), 0);
}

#[test]
fn ebox_test_eb_reify_ref() {
    let mut heap = Heap::new();
    let eb = ErasedBox::new(&mut heap, fixed(vec![1u8], 1));
    let val = eb.reify_ref(&heap);
    assert_eq!(val.bytes, vec![1u8]);
    eb.destroy(&mut heap);
}

#[test]
fn ebox_test_eb_reify_mut() {
    let mut heap = Heap::new();
    let mut eb = ErasedBox::new(&mut heap, fixed(1.5f32.to_le_bytes().to_vec(), 4));
    let p = eb.reify_mut(&heap);
    let val = heap.read_range(p.data.block, p.data.off, 4);
    assert_eq!(f32::from_le_bytes([val[0], val[1], val[2], val[3]]), 1.5);
    heap.write_range(p.data.block, p.data.off, &2.5f32.to_le_bytes().to_vec());
    let p2 = eb.reify_mut(&heap);
    let val2 = heap.read_range(p2.data.block, p2.data.off, 4);
    assert_eq!(f32::from_le_bytes([val2[0], val2[1], val2[2], val2[3]]), 2.5);
    eb.destroy(&mut heap);
    assert_eq!(heap.live_count(), 0);
}

#[test]
fn ebox_from_raw_takes_over_allocation() {
    let mut heap = Heap::new();
    let src = erased::value::store_value(
        &mut heap,
        ValueRepr { bytes: vec![7u8, 8u8], shape: Shape::Fixed, align: 2 },
    );
    let eb = ErasedBox::from_raw(&mut heap, src);
    assert_eq!(eb.data_ptr(), src.data.block);
    let val = eb.reify_ref(&heap);
    assert_eq!(val.bytes, vec![7u8, 8u8]);
    eb.destroy(&mut heap);
    assert_eq!(heap.live_count(), 0);
}

#[test]
fn ebox_pointers_are_distinct_cells() {
    let mut heap = Heap::new();
    let eb = ErasedBox::new(&mut heap, fixed(vec![3u8], 1));
    assert_ne!(eb.data_ptr(), eb.raw_meta_ptr());
    assert_ne!(eb.data_ptr(), 0);
    assert_ne!(eb.raw_meta_ptr(), 0);
    let p = eb.reify_ptr(&heap);
    assert_eq!(p.data.block, eb.data_ptr());
    assert_eq!(p.data.off, 0);
    assert_eq!(p.shape, Shape::Fixed);
    eb.destroy(&mut heap);
}
