use std::sync::Arc;
use zenoh_pub::zslice::{DidntRead, ZSlice, ZSliceBuffer};

fn sixteen() -> Vec<u8> {
    (0..16u8).collect()
}

fn abcd() -> ZSlice<Vec<u8>> {
    ZSlice::from(b"ABCD".to_vec())
}

#[test]
fn zslice() {
    let buf = vec![0u8; 16];
    let zslice: ZSlice<Vec<u8>> = buf.clone().into();
    assert_eq!(buf.as_slice(), zslice.as_slice());

    let buf = (0..16).into_iter().collect::<Vec<u8>>();
    let zslice: ZSlice<Vec<u8>> = buf.clone().into();
    assert_eq!(buf.as_slice(), zslice.as_slice());
}

#[test]
fn whole_view_and_sub_view() {
    let view: ZSlice<Vec<u8>> = ZSlice::from(sixteen());
    assert_eq!(view.len(), 16);
    assert!(!view.is_empty());
    assert_eq!(view[0], 0x00);
    assert_eq!(view[15], 0x0f);
    let sub = view.new_sub_slice(4, 12).unwrap();
    assert_eq!(sub.as_slice(), &[4u8, 5, 6, 7, 8, 9, 10, 11][..]);
    assert_eq!(sub.len(), 8);
}

#[test]
fn make_checks_the_bounds() {
    let buf: Arc<dyn ZSliceBuffer> = Arc::new(sixteen());
    let back = match ZSlice::make(buf, 0, 17) {
        Ok(_) => panic!("a window past the end of the buffer was accepted"),
        Err(b) => b,
    };
    assert_eq!(back.as_slice(), &sixteen()[..]);
    let empty: ZSlice = match ZSlice::make(back, 4, 4) {
        Ok(z) => z,
        Err(_) => panic!("an empty window inside the buffer was refused"),
    };
    assert_eq!(empty.len(), 0);
    assert!(empty.is_empty());
}

#[test]
fn make_refuses_a_start_past_the_end() {
    let buf = Arc::new(sixteen());
    assert!(ZSlice::make(buf.clone(), 5, 4).is_err());
    assert!(ZSlice::make(buf.clone(), 17, 17).is_err());
    assert!(ZSlice::make(buf.clone(), 16, 16).is_ok());
    assert!(ZSlice::make(buf, 0, 16).is_ok());
}

#[test]
fn make_gives_the_bytes_between_the_bounds() {
    let bytes = sixteen();
    for start in 0..=16usize {
        for end in start..=16usize {
            let z = ZSlice::make(Arc::new(bytes.clone()), start, end).ok().unwrap();
            assert_eq!(z.as_slice(), &bytes[start..end]);
            assert_eq!(z.len(), end - start);
        }
    }
}

#[test]
fn sub_slice_gives_the_bytes_between_its_bounds() {
    let z = ZSlice::make(Arc::new(sixteen()), 3, 11).ok().unwrap();
    let bytes = z.as_slice().to_vec();
    for a in 0..=8usize {
        for b in a..=8usize {
            let sub = z.new_sub_slice(a, b).unwrap();
            assert_eq!(sub.as_slice(), &bytes[a..b]);
        }
    }
    assert!(z.new_sub_slice(0, 9).is_none());
    assert!(z.new_sub_slice(5, 4).is_none());
    assert!(z.new_sub_slice(9, 9).is_none());
}

#[test]
fn sub_slice_shares_the_buffer() {
    let z: ZSlice<Vec<u8>> = ZSlice::from(sixteen());
    let sub = z.new_sub_slice(4, 12).unwrap();
    assert!(Arc::ptr_eq(z.buf(), sub.buf()));
    assert_eq!(sub.buf().as_slice(), &sixteen()[..]);
}

#[test]
fn clone_shares_the_buffer() {
    let z = ZSlice::make(Arc::new(sixteen()), 2, 5).ok().unwrap();
    let c = z.clone();
    assert!(Arc::ptr_eq(z.buf(), c.buf()));
    assert_eq!(c.as_slice(), &[2u8, 3, 4][..]);
    assert!(c == z);
}

#[test]
fn equality_goes_by_the_bytes() {
    let a = ZSlice::make(Arc::new(sixteen()), 4, 8).ok().unwrap();
    let b: ZSlice<Vec<u8>> = ZSlice::from(vec![4u8, 5, 6, 7]);
    let c: ZSlice<Box<[u8]>> = ZSlice::from(vec![4u8, 5, 6, 7].into_boxed_slice());
    let d: ZSlice<[u8; 4]> = ZSlice::from([4u8, 5, 6, 7]);
    let e: ZSlice<[u8; 4]> = ZSlice::from([4u8, 5, 6, 8]);
    let f: ZSlice<Vec<u8>> = ZSlice::from(vec![4u8, 5, 6]);
    assert!(a == b);
    assert!(a == c);
    assert!(a == d);
    assert!(d != e);
    assert!(b != f);
    let x: ZSlice<Vec<u8>> = ZSlice::from(Vec::new());
    let y: ZSlice<[u8; 0]> = ZSlice::from([]);
    assert!(x == y);
}

#[test]
fn slices_over_any_buffer() {
    let as_dyn: Arc<dyn ZSliceBuffer> = Arc::new([1u8, 2, 3]);
    let z: ZSlice = ZSlice::from(as_dyn);
    assert_eq!(z.as_slice(), &[1u8, 2, 3][..]);
    let boxed: Arc<dyn ZSliceBuffer> = Arc::new(vec![9u8, 8].into_boxed_slice());
    let w: ZSlice = ZSlice::from(boxed);
    assert_eq!(w.as_slice(), &[9u8, 8][..]);
    let shared = Arc::new(vec![5u8; 3]);
    let v: ZSlice<Vec<u8>> = ZSlice::from(shared.clone());
    assert!(Arc::ptr_eq(&shared, v.buf()));
}

#[test]
fn buffers_hand_out_their_bytes() {
    let mut v = vec![1u8, 2, 3];
    assert_eq!(ZSliceBuffer::as_slice(&v), &[1u8, 2, 3][..]);
    ZSliceBuffer::as_mut_slice(&mut v)[1] = 7;
    assert_eq!(v, vec![1u8, 7, 3]);
    let mut b: Box<[u8]> = vec![1u8, 2].into_boxed_slice();
    ZSliceBuffer::as_mut_slice(&mut b)[0] = 9;
    assert_eq!(ZSliceBuffer::as_slice(&b), &[9u8, 2][..]);
    let mut a = [4u8, 5, 6, 7];
    ZSliceBuffer::as_mut_slice(&mut a)[3] = 0;
    assert_eq!(ZSliceBuffer::as_slice(&a), &[4u8, 5, 6, 0][..]);
}

#[test]
fn deref_and_as_ref_give_the_window() {
    let z = ZSlice::make(Arc::new(sixteen()), 4, 8).ok().unwrap();
    let by_deref: &[u8] = &z;
    assert_eq!(by_deref, &[4u8, 5, 6, 7][..]);
    let by_as_ref: &[u8] = z.as_ref();
    assert_eq!(by_as_ref, &[4u8, 5, 6, 7][..]);
    assert_eq!(z.iter().map(|b| *b as u32).sum::<u32>(), 22);
}

#[test]
fn index_by_position_and_by_range() {
    let z = ZSlice::make(Arc::new(sixteen()), 4, 12).ok().unwrap();
    assert_eq!(z[0], 4);
    assert_eq!(z[7], 11);
    assert_eq!(&z[1..3], &[5u8, 6][..]);
    assert_eq!(&z[6..], &[10u8, 11][..]);
    assert_eq!(&z[..2], &[4u8, 5][..]);
    assert_eq!(&z[..], &[4u8, 5, 6, 7, 8, 9, 10, 11][..]);
    assert_eq!(&z[1..=3], &[5u8, 6, 7][..]);
    assert_eq!(&z[..=1], &[4u8, 5][..]);
    assert_eq!(&z[8..], &[][..]);
    assert_eq!(&z[3..3], &[][..]);
}

#[test]
fn text_form_is_a_list_of_hex_bytes() {
    let z: ZSlice<Vec<u8>> = ZSlice::from(vec![0x00, 0x01, 0x0f, 0x10, 0xab, 0xff]);
    assert_eq!(z.to_string(), "[00, 01, 0f, 10, ab, ff]");
    assert_eq!(z.to_string(), format!("{:02x?}", z.as_slice()));
    let one: ZSlice<Vec<u8>> = ZSlice::from(vec![0x7f]);
    assert_eq!(one.to_string(), "[7f]");
    let none: ZSlice<Vec<u8>> = ZSlice::from(Vec::new());
    assert_eq!(none.to_string(), "[]");
    let window = ZSlice::make(Arc::new(sixteen()), 9, 12).ok().unwrap();
    assert_eq!(window.to_string(), "[09, 0a, 0b]");
}

#[test]
fn text_form_of_every_byte() {
    let all: Vec<u8> = (0..=255u8).collect();
    let z: ZSlice<Vec<u8>> = ZSlice::from(all.clone());
    assert_eq!(z.to_string(), format!("{:02x?}", all));
    assert_eq!(zenoh_pub::hex::hex_string(&all), format!("{:02x?}", all));
}

#[test]
fn rand_has_the_length_asked_for() {
    for len in [0usize, 1, 7, 64, 1000] {
        let z = ZSlice::rand(len);
        assert_eq!(z.len(), len);
        assert_eq!(z.buf().len(), len);
    }
    let a = ZSlice::rand(64);
    let b = ZSlice::rand(64);
    assert!(a != b);
    assert!(a.as_slice().iter().any(|x| *x != a[0]));
}

#[test]
fn mark_read_rewind() {
    let mut z = abcd();
    let r = z.reader();
    let m = r.mark();
    assert_eq!(r.read_u8(), Ok(b'A'));
    assert_eq!(r.read_u8(), Ok(b'B'));
    assert!(r.rewind(m));
    assert_eq!(r.read_u8(), Ok(b'A'));
}

#[test]
fn read_sub_slice_then_the_rest() {
    let mut z = abcd();
    let head = z.read_zslice(3).unwrap();
    assert_eq!(head.as_slice(), b"ABC");
    assert!(head == ZSlice::from(b"ABC".to_vec()));
    assert_eq!(z.read_u8(), Ok(b'D'));
    assert_eq!(z.read_u8(), Err(DidntRead));
}

#[test]
fn byte_by_byte_round_trip() {
    for bytes in [Vec::new(), vec![7u8], sixteen(), (0..=255u8).collect::<Vec<u8>>()] {
        let mut z: ZSlice<Vec<u8>> = ZSlice::from(bytes.clone());
        let mut got = Vec::new();
        while z.can_read() {
            got.push(z.read_u8().unwrap());
        }
        assert_eq!(got, bytes);
        assert_eq!(z.read_u8(), Err(DidntRead));
        assert_eq!(z.remaining(), 0);
    }
}

#[test]
fn read_copies_what_both_have_room_for() {
    let mut z = abcd();
    let mut two = [0u8; 2];
    assert_eq!(z.read(&mut two), Ok(2));
    assert_eq!(&two, b"AB");
    assert_eq!(z.remaining(), 2);
    let mut five = [b'.'; 5];
    assert_eq!(z.read(&mut five), Ok(2));
    assert_eq!(&five, b"CD...");
    assert_eq!(z.remaining(), 0);
    assert_eq!(z.read(&mut five), Err(DidntRead));
    assert_eq!(&five, b"CD...");
}

#[test]
fn read_into_nothing_reads_nothing() {
    let mut z = abcd();
    let mut none = [0u8; 0];
    assert_eq!(z.read(&mut none), Err(DidntRead));
    assert_eq!(z.remaining(), 4);
    assert_eq!(z.read_exact(&mut none), Ok(()));
    assert_eq!(z.remaining(), 4);
}

#[test]
fn read_exact_fills_or_leaves_all_as_it_was() {
    let mut z = abcd();
    let mut three = [0u8; 3];
    assert_eq!(z.read_exact(&mut three), Ok(()));
    assert_eq!(&three, b"ABC");
    assert_eq!(z.remaining(), 1);
    let mut two = [b'x'; 2];
    assert_eq!(z.read_exact(&mut two), Err(DidntRead));
    assert_eq!(&two, b"xx");
    assert_eq!(z.remaining(), 1);
    assert_eq!(z.read_u8(), Ok(b'D'));
}

#[test]
fn read_zslice_fails_on_too_little() {
    let mut z = abcd();
    assert!(z.read_zslice(5).is_err());
    assert_eq!(z.remaining(), 4);
    let none = z.read_zslice(0).unwrap();
    assert!(none.is_empty());
    assert_eq!(z.remaining(), 4);
    let all = z.read_zslice(4).unwrap();
    assert_eq!(all.as_slice(), b"ABCD");
    assert!(!z.can_read());
}

#[test]
fn read_zslices_hands_the_slice_over() {
    let mut z = abcd();
    let mut seen: Vec<Vec<u8>> = Vec::new();
    assert_eq!(z.read_zslices(3, |s| seen.push(s.as_slice().to_vec())), Ok(()));
    assert_eq!(seen, vec![b"ABC".to_vec()]);
    assert_eq!(z.remaining(), 1);
    let mut called = false;
    assert_eq!(z.read_zslices(2, |_| called = true), Err(DidntRead));
    assert!(!called);
    assert_eq!(z.remaining(), 1);
}

#[test]
fn read_zslice_and_read_agree() {
    for n in 0..=4usize {
        let mut by_slice = abcd();
        let mut by_copy = abcd();
        let got = by_slice.read_zslice(n).unwrap();
        let mut dst = vec![0u8; n];
        let _ = by_copy.read(&mut dst);
        assert_eq!(got.as_slice(), &dst[..]);
        assert_eq!(by_slice.remaining(), by_copy.remaining());
        assert_eq!(by_slice.mark(), by_copy.mark());
    }
}

#[test]
fn rewind_restores_after_any_reads() {
    let mut z = ZSlice::make(Arc::new(sixteen()), 2, 14).ok().unwrap();
    let before = z.as_slice().to_vec();
    let m = z.mark();
    let mut dst = [0u8; 3];
    let _ = z.read_u8();
    let _ = z.read(&mut dst);
    let _ = z.read_exact(&mut dst);
    let _ = z.read_zslice(2);
    let _ = z.read_zslices(1, |_| ());
    let _ = z.read_zslice(100);
    assert_eq!(z.remaining(), 2);
    assert!(z.rewind(m));
    assert_eq!(z.remaining(), 12);
    assert_eq!(z.as_slice(), &before[..]);
    assert_eq!(z.read_u8(), Ok(2));
}

#[test]
fn rewind_to_a_later_mark() {
    let mut z = abcd();
    let first = z.mark();
    assert_eq!(z.read_u8(), Ok(b'A'));
    assert_eq!(z.read_u8(), Ok(b'B'));
    let second = z.mark();
    assert!(z.rewind(first));
    assert!(z.rewind(second));
    assert_eq!(z.read_u8(), Ok(b'C'));
}

#[test]
fn rewind_refuses_a_position_past_the_end() {
    let mut z = ZSlice::make(Arc::new(sixteen()), 2, 6).ok().unwrap();
    assert_eq!(z.read_u8(), Ok(2));
    assert!(!z.rewind(7));
    assert_eq!(z.remaining(), 3);
    assert_eq!(z.read_u8(), Ok(3));
    assert!(z.rewind(6));
    assert_eq!(z.remaining(), 0);
}

#[test]
fn remaining_and_can_read() {
    let mut z = abcd();
    assert_eq!(z.remaining(), 4);
    assert!(z.can_read());
    let _ = z.read_zslice(4);
    assert_eq!(z.remaining(), 0);
    assert!(!z.can_read());
}

#[test]
fn start_and_end_are_positions_in_the_buffer() {
    let mut z = ZSlice::make(Arc::new(sixteen()), 3, 9).ok().unwrap();
    assert_eq!((z.start(), z.end()), (3, 9));
    let sub = z.new_sub_slice(1, 4).unwrap();
    assert_eq!((sub.start(), sub.end()), (4, 7));
    let _ = z.read_zslice(2);
    assert_eq!((z.start(), z.end()), (5, 9));
    assert_eq!(z.mark(), 5);
}

fn sendable_and_sharable<T: Send + Sync>() {}

#[test]
fn slices_cross_threads() {
    sendable_and_sharable::<ZSlice>();
    sendable_and_sharable::<ZSlice<Vec<u8>>>();
    sendable_and_sharable::<ZSlice<[u8; 8]>>();
}
