use erased::value::{free_value, load_value, store_value};
use erased::{Heap, Shape, ThinErasedBox, ValueRepr};

fn fixed(bytes: Vec<u8>, align: usize) -> ValueRepr {
    ValueRepr { bytes, shape: Shape::Fixed, align }
}

/// The dispatch-table address the tests agree on for "format like f64".
const DEBUG_F64_TABLE: usize = 0xd64;

#[test]
fn thin_ebox_test_eb_drop() {
    let mut heap = Heap::new();
    let eb = ThinErasedBox::new(&mut heap, fixed(1i32.to_le_bytes().to_vec(), 4));
    eb.destroy(&mut heap);
    assert_eq!(heap.live_count(), 0);
}

#[test]
fn test_eb_reify_ptr() {
    let mut heap = Heap::new();
    let eb = ThinErasedBox::new(&mut heap, fixed(1u32.to_le_bytes().to_vec(), 4));
    let ptr1 = eb.reify_ptr(&heap);
    let ptr2 = eb.reify_ptr(&heap);
    assert_eq!(ptr1, ptr2);
    eb.destroy(&mut heap);
}

#[test]
fn thin_ebox_test_eb_reify_box() {
    let mut heap = Heap::new();
    let p = ThinErasedBox::new(&mut heap, fixed(1u32.to_le_bytes().to_vec(), 4)).reify_box(
        &mut heap,
    );
    let v = load_value(&heap, p);
    assert_eq!(v.bytes, 1u32.to_le_bytes().to_vec());
    free_value(&mut heap, p);
    assert_eq!(heap.live_count(), 0);
}

#[test]
fn thin_ebox_test_eb_reify_ref() {
    let mut heap = Heap::new();
    let eb = ThinErasedBox::new(&mut heap, fixed(vec![1u8], 1));
    let val = eb.reify_ref(&heap);
    assert_eq!(val.bytes, vec![1u8]);
    eb.destroy(&mut heap);
}

#[test]
fn thin_ebox_test_eb_reify_mut() {
    let mut heap = Heap::new();
    let mut eb = ThinErasedBox::new(&mut heap, fixed(1.5f32.to_le_bytes().to_vec(), 4));
    let p = eb.reify_mut(&heap);
    let val = heap.read_range(p.data.block, p.data.off, 4);
    assert_eq!(f32::from_le_bytes([val[0], val[1], val[2], val[3]]), 1.5);
    heap.write_range(p.data.block, p.data.off, &2.5f32.to_le_bytes().to_vec());
    let p2 = eb.reify_mut(&heap);
    let val2 = heap.read_range(p2.data.block, p2.data.off, 4);
    assert_eq!(f32::from_le_bytes([val2[0], val2[1], val2[2], val2[3]]), 2.5);
    eb.destroy(&mut heap);
    assert_eq!(heap.live_count(), 0);
}

#[test]
fn test_zst() {
    let mut heap = Heap::new();
    let eb = ThinErasedBox::new(&mut heap, fixed(Vec::new(), 1));
    assert_eq!(heap.live_count(), 1);
    let val = eb.reify_ref(&heap);
    assert_eq!(val.bytes.len(), 0);
    assert_eq!(val.shape, Shape::Fixed);
    eb.destroy(&mut heap);
    assert_eq!(heap.live_count(), 0);
}

#[test]
fn test_str() {
    let mut heap = Heap::new();
    let text = String::from("foo");
    let n = text.len();
    let src = store_value(
        &mut heap,
        ValueRepr { bytes: text.into_bytes(), shape: Shape::SeqLen(n), align: 1 },
    );
    let eb = ThinErasedBox::from_box(&mut heap, src);
    let val = eb.reify_ref(&heap);
    assert_eq!(val.shape, Shape::SeqLen(3));
    assert_eq!(String::from_utf8(val.bytes).unwrap(), "foo");
    eb.destroy(&mut heap);
    assert_eq!(heap.live_count(), 0);
}

#[test]
fn test_dyn_val() {
    let mut heap = Heap::new();
    let eb = ThinErasedBox::new(
        &mut heap,
        ValueRepr {
            bytes: 123.45f64.to_le_bytes().to_vec(),
            shape: Shape::Dispatch(DEBUG_F64_TABLE),
            align: 8,
        },
    );
    let val = eb.reify_ref(&heap);
    let shown = match val.shape {
        Shape::Dispatch(table) => {
            assert_eq!(table, DEBUG_F64_TABLE);
            let mut raw = [0u8; 8];
            raw.copy_from_slice(&val.bytes);
            format!("{:?}", f64::from_le_bytes(raw))
        },
        _ => panic!("not a dispatched value"),
    };
    assert_eq!(shown, "123.45");
    eb.destroy(&mut heap);
    assert_eq!(heap.live_count(), 0);
}

#[test]
fn test_slice() {
    let mut heap = Heap::new();
    let elems: Vec<i32> = vec![1, 2, 3];
    let mut bytes: Vec<u8> = Vec::new();
    for e in &elems {
        bytes.extend_from_slice(&e.to_le_bytes());
    }
    let src = store_value(
        &mut heap,
        ValueRepr { bytes, shape: Shape::SeqLen(elems.len()), align: 4 },
    );
    let eb = ThinErasedBox::from_box(&mut heap, src);
    let val = eb.reify_ref(&heap);
    assert_eq!(val.shape, Shape::SeqLen(3));
    let mut out: Vec<i32> = Vec::new();
    for chunk in val.bytes.chunks(4) {
        out.push(i32::from_le_bytes([chunk[0], chunk[1], chunk[2], chunk[3]]));
    }
    assert_eq!(out, vec![1, 2, 3]);
    eb.destroy(&mut heap);
    assert_eq!(heap.live_count(), 0);
}
