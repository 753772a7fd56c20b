use broker_core::PutError;
use broker_core::VarintPut;
use broker_core::VarintSize;
use bytes::Buf;
use bytes::BufMut;
use bytes::BytesMut;
use bytes::IntoBuf;

fn encoded_i32(n: i32) -> Vec<u8> {
    let mut bytes = BytesMut::with_capacity(16);
    bytes.put_i32_varint(n);
    bytes.as_ref().to_vec()
}

fn encoded_i64(n: i64) -> Vec<u8> {
    let mut bytes = BytesMut::with_capacity(16);
    bytes.put_i64_varint(n);
    bytes.as_ref().to_vec()
}

fn nearly_full(room: usize) -> BytesMut {
    let mut bytes = BytesMut::with_capacity(64);
    while bytes.remaining_mut() > room {
        bytes.put_u8(0xee);
    }
    bytes
}

#[test]
fn small_i32() {
    let mut bytes = BytesMut::new();
    bytes.put_i32_varint(14);

    let val = bytes.into_buf().get_i8();
    assert_eq!(0x1c, val);
}

#[test]
fn larger_i32() {
    let mut bytes = BytesMut::new();
    bytes.put_i32_varint(150);

    let val = bytes.into_buf().get_u16_be();
    assert_eq!(44034, val);
}

#[test]
fn small_i64() {
    let mut bytes = BytesMut::new();
    bytes.put_i64_varint(14);

    let val = bytes.into_buf().get_i8();
    assert_eq!(0x1c, val);
}

#[test]
fn larger_i64() {
    let mut bytes = BytesMut::new();
    bytes.put_i64_varint(150);

    let val = bytes.into_buf().get_u16_be();
    assert_eq!(44034, val);
}

#[test]
fn sizeof_i32_null() {
    let val: i32 = -1;
    assert_eq!(1, val.varint_size())
}

#[test]
fn sizeof_i64_null() {
    let val: i64 = -1;
    assert_eq!(1, val.varint_size())
}

#[test]
fn sizeof_i32_small() {
    assert_eq!(1, 14i32.varint_size())
}

#[test]
fn sizeof_i32_larger() {
    assert_eq!(2, 150i32.varint_size())
}

#[test]
fn sizeof_zero_is_one() {
    assert_eq!(1, 0i32.varint_size());
    assert_eq!(1, 0i64.varint_size());
    assert_eq!(1, 0usize.varint_size());
}

#[test]
fn sizeof_group_boundaries() {
    assert_eq!(1, 63i32.varint_size());
    assert_eq!(2, 64i32.varint_size());
    assert_eq!(1, (-64i32).varint_size());
    assert_eq!(2, (-65i32).varint_size());
    assert_eq!(2, 8191i64.varint_size());
    assert_eq!(3, 8192i64.varint_size());
    assert_eq!(1, 63usize.varint_size());
    assert_eq!(2, 64usize.varint_size());
}

#[test]
fn sizeof_extremes() {
    assert_eq!(5, i32::MAX.varint_size());
    assert_eq!(5, i32::MIN.varint_size());
    assert_eq!(10, i64::MAX.varint_size());
    assert_eq!(10, i64::MIN.varint_size());
    assert_eq!(10, usize::MAX.varint_size());
}

#[test]
fn encode_minus_one_is_the_null_marker() {
    assert_eq!(vec![0x01u8], encoded_i32(-1));
    assert_eq!(vec![0x01u8], encoded_i64(-1));
}

#[test]
fn encode_zero() {
    assert_eq!(vec![0x00u8], encoded_i32(0));
    assert_eq!(vec![0x00u8], encoded_i64(0));
}

#[test]
fn encode_exact_bytes() {
    assert_eq!(vec![0x1cu8], encoded_i32(14));
    assert_eq!(vec![0xacu8, 0x02], encoded_i32(150));
    assert_eq!(vec![0x7fu8], encoded_i32(-64));
    assert_eq!(vec![0x80u8, 0x01], encoded_i32(64));
    assert_eq!(vec![0x81u8, 0x01], encoded_i64(-65));
}

#[test]
fn encode_extremes() {
    assert_eq!(vec![0xfeu8, 0xff, 0xff, 0xff, 0x0f], encoded_i32(i32::MAX));
    assert_eq!(vec![0xffu8, 0xff, 0xff, 0xff, 0x0f], encoded_i32(i32::MIN));
    assert_eq!(
        vec![0xfeu8, 0xff, 0xff, 0xff, 0xff, 0xff, 0xff, 0xff, 0xff, 0x01],
        encoded_i64(i64::MAX)
    );
    assert_eq!(
        vec![0xffu8, 0xff, 0xff, 0xff, 0xff, 0xff, 0xff, 0xff, 0xff, 0x01],
        encoded_i64(i64::MIN)
    );
}

#[test]
fn encode_usize_goes_the_signed_way() {
    let mut bytes = BytesMut::with_capacity(16);
    bytes.put_usize_varint(8);
    bytes.put_usize_varint(150);
    assert_eq!(&[0x10u8, 0xac, 0x02][..], bytes.as_ref());
}

#[test]
fn size_is_the_number_of_bytes_written() {
    let samples: [i64; 12] = [
        0,
        -1,
        1,
        63,
        64,
        -64,
        -65,
        150,
        1 << 27,
        -(1 << 41),
        i64::MAX,
        i64::MIN,
    ];
    for n in samples.iter() {
        assert_eq!(n.varint_size(), encoded_i64(*n).len());
    }
    let narrow: [i32; 8] = [0, -1, 14, 150, 1 << 24, -(1 << 30) - 1, i32::MAX, i32::MIN];
    for n in narrow.iter() {
        assert_eq!(n.varint_size(), encoded_i32(*n).len());
        assert_eq!(encoded_i64(*n as i64), encoded_i32(*n));
    }
}

#[test]
fn put_appends_behind_what_is_there() {
    let mut bytes = BytesMut::with_capacity(16);
    bytes.put_u8(0xaa);
    bytes.put_i32_varint(150);
    bytes.put_i64_varint(-1);
    assert_eq!(&[0xaau8, 0xac, 0x02, 0x01][..], bytes.as_ref());
}

#[test]
fn put_uses_up_the_room() {
    let mut bytes = BytesMut::with_capacity(64);
    let before = bytes.remaining_mut();
    bytes.put_i64_varint(i64::MIN);
    assert_eq!(before - 10, bytes.remaining_mut());
}

#[test]
fn try_put_writes_where_there_is_room() {
    let mut bytes = nearly_full(2);
    let held = bytes.len();
    assert_eq!(Ok(()), bytes.try_put_i32_varint(150));
    assert_eq!(held + 2, bytes.len());
    assert_eq!(&[0xacu8, 0x02][..], &bytes.as_ref()[held..]);
    assert_eq!(0, bytes.remaining_mut());
}

#[test]
fn try_put_leaves_a_full_sink_alone() {
    let mut bytes = nearly_full(1);
    let held = bytes.as_ref().to_vec();
    assert_eq!(Err(PutError::SinkFull), bytes.try_put_i32_varint(150));
    assert_eq!(Err(PutError::SinkFull), bytes.try_put_i64_varint(150));
    assert_eq!(Err(PutError::SinkFull), bytes.try_put_usize_varint(150));
    assert_eq!(&held[..], bytes.as_ref());
    assert_eq!(1, bytes.remaining_mut());
    assert_eq!(Ok(()), bytes.try_put_i64_varint(14));
    assert_eq!(0, bytes.remaining_mut());
}

#[test]
fn try_put_usize_refuses_what_is_no_signed_integer() {
    let mut bytes = BytesMut::with_capacity(16);
    assert_eq!(Err(PutError::TooLong), bytes.try_put_usize_varint(usize::MAX));
    assert_eq!(0, bytes.len());
    assert_eq!(Ok(()), bytes.try_put_usize_varint(8));
    assert_eq!(&[0x10u8][..], bytes.as_ref());
}
