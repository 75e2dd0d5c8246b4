use nurtex::codec::buffer::Buffer;
use nurtex::codec::containers::{read_flagged, read_rest, read_varint_list, write_flagged, write_varint_list};
use nurtex::codec::cursor::{read_byte, Cursor};
use nurtex::codec::string::{read_str, str_equal, write_str};
use nurtex::codec::uuid::Uuid;
use nurtex::codec::varint::VarInt;
use nurtex::codec::varlong::VarLong;
use nurtex::codec::containers::{read_varlong_list, write_varlong_list};

fn varint_bytes(v: i32) -> Vec<u8> {
    let mut buf = Vec::new();
    v.write_varint(&mut buf);
    buf
}

#[test]
fn varint_reads_back() {
    for v in [0i32, 1, 127, 128, 255, 300, 2097151, 2147483647, -1, -2147483648] {
        let buf = varint_bytes(v);
        let mut c = Cursor::new(&buf);
        assert_eq!(i32::read_varint(&mut c), Some(v));
        assert_eq!(c.position, buf.len());
    }
}

#[test]
fn varint_exact_bytes() {
    assert_eq!(varint_bytes(0), vec![0x00]);
    assert_eq!(varint_bytes(1), vec![0x01]);
    assert_eq!(varint_bytes(127), vec![0x7f]);
    assert_eq!(varint_bytes(128), vec![0x80, 0x01]);
    assert_eq!(varint_bytes(300), vec![0xac, 0x02]);
    assert_eq!(varint_bytes(25565), vec![0xdd, 0xc7, 0x01]);
    assert_eq!(varint_bytes(2147483647), vec![0xff, 0xff, 0xff, 0xff, 0x07]);
    assert_eq!(varint_bytes(-1), vec![0xff, 0xff, 0xff, 0xff, 0x0f]);
    assert_eq!(varint_bytes(-2147483648), vec![0x80, 0x80, 0x80, 0x80, 0x08]);
}

#[test]
fn varint_refuses_six_bytes_and_short_input() {
    let data = [0x80u8, 0x80, 0x80, 0x80, 0x80, 0x01];
    let mut c = Cursor::new(&data);
    assert_eq!(i32::read_varint(&mut c), None);
    let data = [0x80u8, 0x80];
    let mut c = Cursor::new(&data);
    assert_eq!(i32::read_varint(&mut c), None);
    let data: [u8; 0] = [];
    let mut c = Cursor::new(&data);
    assert_eq!(i32::read_varint(&mut c), None);
}

#[test]
fn varint_fifth_byte_high_bits_are_dropped() {
    // The fifth group only has room for four bits; the rest is ignored on reading.
    let data = [0xffu8, 0xff, 0xff, 0xff, 0x7f];
    let mut c = Cursor::new(&data);
    assert_eq!(i32::read_varint(&mut c), Some(-1));
}

fn varlong_bytes(v: i64) -> Vec<u8> {
    let mut buf = Vec::new();
    v.write_varlong(&mut buf);
    buf
}

#[test]
fn varlong_exact_bytes_and_back() {
    assert_eq!(varlong_bytes(0), vec![0x00]);
    assert_eq!(varlong_bytes(127), vec![0x7f]);
    assert_eq!(varlong_bytes(128), vec![0x80, 0x01]);
    assert_eq!(varlong_bytes(2147483647), vec![0xff, 0xff, 0xff, 0xff, 0x07]);
    assert_eq!(varlong_bytes(i64::MAX), vec![0xff, 0xff, 0xff, 0xff, 0xff, 0xff, 0xff, 0xff, 0x7f]);
    assert_eq!(varlong_bytes(-1), vec![0xff, 0xff, 0xff, 0xff, 0xff, 0xff, 0xff, 0xff, 0xff, 0x01]);
    assert_eq!(varlong_bytes(i64::MIN), vec![0x80, 0x80, 0x80, 0x80, 0x80, 0x80, 0x80, 0x80, 0x80, 0x01]);
    for v in [0i64, 1, 300, -300, 1 << 40, i64::MAX, i64::MIN, -1] {
        let buf = varlong_bytes(v);
        let mut c = Cursor::new(&buf);
        assert_eq!(i64::read_varlong(&mut c), Some(v));
        assert_eq!(c.position, buf.len());
    }
}

#[test]
fn varlong_refused_and_truncated() {
    let eleven = [0x80u8, 0x80, 0x80, 0x80, 0x80, 0x80, 0x80, 0x80, 0x80, 0x80, 0x01];
    assert_eq!(i64::read_varlong(&mut Cursor::new(&eleven)), None);
    let short = [0x80u8, 0x80, 0x80];
    assert_eq!(i64::read_varlong(&mut Cursor::new(&short)), None);
    let high = [0xffu8, 0xff, 0xff, 0xff, 0xff, 0xff, 0xff, 0xff, 0xff, 0x7f];
    assert_eq!(i64::read_varlong(&mut Cursor::new(&high)), Some(-1));
}

#[test]
fn varlong_lists() {
    let vs = vec![1i64, -1, 1 << 50];
    let mut buf = Vec::new();
    write_varlong_list(&vs, &mut buf);
    assert_eq!(&buf[..2], &[3, 1]);
    assert_eq!(buf.len(), 1 + 1 + 10 + 8);
    let mut c = Cursor::new(&buf);
    assert_eq!(read_varlong_list(&mut c), Some(vs));
    assert_eq!(c.position, buf.len());
}

#[test]
fn read_byte_at_end() {
    let data = [7u8];
    let mut c = Cursor::new(&data);
    assert_eq!(read_byte(&mut c), Some(7));
    assert_eq!(read_byte(&mut c), None);
    assert_eq!(c.position, 1);
}

#[test]
fn big_endian_integers() {
    let mut buf = Vec::new();
    0x0102u16.write_buf(&mut buf);
    (-2i16).write_buf(&mut buf);
    0x01020304u32.write_buf(&mut buf);
    (-1i32).write_buf(&mut buf);
    0x0102030405060708u64.write_buf(&mut buf);
    (-2i64).write_buf(&mut buf);
    (-3i8).write_buf(&mut buf);
    200u8.write_buf(&mut buf);
    assert_eq!(
        buf,
        vec![
            1, 2, 0xff, 0xfe, 1, 2, 3, 4, 0xff, 0xff, 0xff, 0xff, 1, 2, 3, 4, 5, 6, 7, 8, 0xff, 0xff, 0xff, 0xff, 0xff, 0xff, 0xff,
            0xfe, 0xfd, 200
        ]
    );
    let mut c = Cursor::new(&buf);
    assert_eq!(u16::read_buf(&mut c), Some(0x0102));
    assert_eq!(i16::read_buf(&mut c), Some(-2));
    assert_eq!(u32::read_buf(&mut c), Some(0x01020304));
    assert_eq!(i32::read_buf(&mut c), Some(-1));
    assert_eq!(u64::read_buf(&mut c), Some(0x0102030405060708));
    assert_eq!(i64::read_buf(&mut c), Some(-2));
    assert_eq!(i8::read_buf(&mut c), Some(-3));
    assert_eq!(u8::read_buf(&mut c), Some(200));
    assert_eq!(u8::read_buf(&mut c), None);
}

#[test]
fn short_integers_are_refused() {
    let data = [1u8, 2, 3];
    let mut c = Cursor::new(&data);
    assert_eq!(i32::read_buf(&mut c), None);
    assert_eq!(u16::read_buf(&mut c), Some(0x0102));
}

#[test]
fn bools() {
    let data = [0u8, 1, 2];
    let mut c = Cursor::new(&data);
    assert_eq!(bool::read_buf(&mut c), Some(false));
    assert_eq!(bool::read_buf(&mut c), Some(true));
    assert_eq!(bool::read_buf(&mut c), None);
    let mut buf = Vec::new();
    true.write_buf(&mut buf);
    false.write_buf(&mut buf);
    assert_eq!(buf, vec![1, 0]);
}

#[test]
fn strings_read_back() {
    for s in ["", "localhost", "en_US", "Привет, мир", "日本語 🎮"] {
        let mut buf = Vec::new();
        write_str(&mut buf, s);
        assert_eq!(buf[0] as usize, s.len());
        let mut c = Cursor::new(&buf);
        assert_eq!(read_str(&mut c).as_deref(), Some(s));
        assert_eq!(c.position, buf.len());
    }
    let mut buf = Vec::new();
    String::from("abc").write_buf(&mut buf);
    assert_eq!(buf, vec![3, b'a', b'b', b'c']);
}

#[test]
fn strings_refused() {
    // Invalid UTF-8.
    let data = [2u8, 0xff, 0xfe];
    assert_eq!(read_str(&mut Cursor::new(&data)), None);
    // Longer than what is left.
    let data = [5u8, b'a', b'b'];
    assert_eq!(read_str(&mut Cursor::new(&data)), None);
    // A negative length.
    let data = [0xffu8, 0xff, 0xff, 0xff, 0x0f, b'a'];
    assert_eq!(read_str(&mut Cursor::new(&data)), None);
}

#[test]
fn string_equality() {
    assert!(str_equal("1.21.11", "1.21.11"));
    assert!(!str_equal("1.21.11", "1.21.1"));
    assert!(!str_equal("a", "b"));
}

#[test]
fn vectors_read_back() {
    let v = vec![String::from("minecraft:vanilla"), String::from("x")];
    let mut buf = Vec::new();
    v.write_buf(&mut buf);
    assert_eq!(buf[0], 2);
    let mut c = Cursor::new(&buf);
    assert_eq!(Vec::<String>::read_buf(&mut c), Some(v));
    let bytes: Vec<u8> = vec![9, 8, 7];
    let mut buf = Vec::new();
    bytes.write_buf(&mut buf);
    assert_eq!(buf, vec![3, 9, 8, 7]);
    // A count larger than the data.
    let data = [4u8, 1, 2];
    assert_eq!(Vec::<u8>::read_buf(&mut Cursor::new(&data)), None);
}

#[test]
fn option_reads_only_present_values() {
    let mut buf = Vec::new();
    Some(vec![1u8, 2]).write_buf(&mut buf);
    assert_eq!(buf, vec![1, 2, 1, 2]);
    assert_eq!(Option::<Vec<u8>>::read_buf(&mut Cursor::new(&buf)), Some(Some(vec![1, 2])));
    // An absent value is written as a clear flag, which reading refuses.
    let mut buf = Vec::new();
    None::<Vec<u8>>.write_buf(&mut buf);
    assert_eq!(buf, vec![0]);
    assert_eq!(Option::<Vec<u8>>::read_buf(&mut Cursor::new(&buf)), None);
    // A set flag with no value after it gives `None` inside.
    let data = [1u8];
    let mut c = Cursor::new(&data);
    assert_eq!(Option::<Vec<u8>>::read_buf(&mut c), Some(None));
    assert_eq!(c.position, 1);
    // The cursor stays where the read of the value stopped.
    let data = [1u8, 3, 7];
    let mut c = Cursor::new(&data);
    assert_eq!(Option::<Vec<u8>>::read_buf(&mut c), Some(None));
    assert_eq!(c.position, 3);
    let data = [1u8, 0x80, 0x80, 0x80, 0x80, 0x80, 9];
    let mut c = Cursor::new(&data);
    assert_eq!(Option::<Vec<u8>>::read_buf(&mut c), Some(None));
    assert_eq!(c.position, 6);
    let data = [1u8, 2, 0xff, 0xfe];
    let mut c = Cursor::new(&data);
    assert_eq!(Option::<String>::read_buf(&mut c), Some(None));
    assert_eq!(c.position, 4);
}

#[test]
fn failed_reads_stop_where_the_bytes_ran_out() {
    let data = [0x80u8, 0x80];
    let mut c = Cursor::new(&data);
    assert_eq!(i32::read_varint(&mut c), None);
    assert_eq!(c.position, 2);
    let data = [5u8, b'a', b'b'];
    let mut c = Cursor::new(&data);
    assert_eq!(read_str(&mut c), None);
    assert_eq!(c.position, 1);
    // A fixed-width value that does not fit takes nothing.
    let data = [2u8, 0, 0, 0, 5, 6, 0x80];
    let mut c = Cursor::new(&data);
    assert_eq!(Vec::<i32>::read_buf(&mut c), None);
    assert_eq!(c.position, 5);
}

#[test]
fn flagged_values() {
    let mut buf = Vec::new();
    write_flagged(&None::<String>, &mut buf);
    write_flagged(&Some(String::from("hi")), &mut buf);
    assert_eq!(buf, vec![0, 1, 2, b'h', b'i']);
    let mut c = Cursor::new(&buf);
    assert_eq!(read_flagged::<String>(&mut c), Some(None));
    assert_eq!(read_flagged::<String>(&mut c), Some(Some(String::from("hi"))));
}

#[test]
fn tuples_boxes_and_arcs() {
    let mut buf = Vec::new();
    (5u8, String::from("a")).write_buf(&mut buf);
    Box::new(7i32).write_buf(&mut buf);
    std::sync::Arc::new(true).write_buf(&mut buf);
    let mut c = Cursor::new(&buf);
    assert_eq!(<(u8, String)>::read_buf(&mut c), Some((5, String::from("a"))));
    assert_eq!(Box::<i32>::read_buf(&mut c).map(|b| *b), Some(7));
    assert_eq!(std::sync::Arc::<bool>::read_buf(&mut c).map(|b| *b), Some(true));
}

#[test]
fn varint_lists() {
    let list = vec![1i32, 300, -1];
    let mut buf = Vec::new();
    write_varint_list(&list, &mut buf);
    assert_eq!(buf, vec![3, 1, 0xac, 0x02, 0xff, 0xff, 0xff, 0xff, 0x0f]);
    assert_eq!(read_varint_list(&mut Cursor::new(&buf)), Some(list));
}

#[test]
fn rest_of_input() {
    let data = [1u8, 2, 3];
    let mut c = Cursor::new(&data);
    c.position = 1;
    assert_eq!(read_rest(&mut c), vec![2, 3]);
    assert_eq!(c.position, 3);
    assert_eq!(read_rest(&mut c), Vec::<u8>::new());
}

#[test]
fn uuids() {
    let id = Uuid::from_u128(0x0011_2233_4455_6677_8899_aabb_ccdd_eeff);
    let mut buf = Vec::new();
    id.write_buf(&mut buf);
    assert_eq!(buf, vec![0x00, 0x11, 0x22, 0x33, 0x44, 0x55, 0x66, 0x77, 0x88, 0x99, 0xaa, 0xbb, 0xcc, 0xdd, 0xee, 0xff]);
    assert_eq!(Uuid::read_buf(&mut Cursor::new(&buf)), Some(id));
    assert_eq!(Uuid::nil().as_u128(), 0);
    assert_eq!(Uuid::read_buf(&mut Cursor::new(&buf[..15])), None);
}
