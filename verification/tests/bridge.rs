use io_bridge::BufRead;
use io_bridge::Cursor;
use io_bridge::ErrorKind;
use io_bridge::FromStd;
use io_bridge::Read;
use io_bridge::Sink;
use io_bridge::ToStd;
use io_bridge::Write;

#[test]
fn wrap_unwrap_round_trip() {
    let v = vec![1u8, 2, 3];
    let wrapped = FromStd::new(v.clone());
    assert_eq!(wrapped.inner(), &v);
    assert_eq!(wrapped.into_inner(), v);

    let wrapped = ToStd::new(v.clone());
    assert_eq!(wrapped.inner(), &v);
    assert_eq!(wrapped.into_inner(), v);

    let mut wrapped = FromStd::new(7u32);
    *wrapped.inner_mut() = 8;
    assert_eq!(wrapped.into_inner(), 8);

    let mut wrapped = ToStd::new(7u32);
    *wrapped.inner_mut() = 8;
    assert_eq!(wrapped.into_inner(), 8);
}

#[test]
fn boxed_round_trip() {
    let boxed = Box::new(FromStd::new(vec![9u8, 9]));
    assert_eq!(boxed.into_inner(), vec![9u8, 9]);

    let boxed = Box::new(ToStd::new(vec![9u8, 9]));
    assert_eq!(boxed.into_inner(), vec![9u8, 9]);
}

#[test]
fn sink_swallows_everything() {
    let mut sink = Sink;
    assert_eq!(sink.write(&[]).unwrap(), 0);
    assert_eq!(sink.write(&[1, 2, 3]).unwrap(), 3);
    let big = vec![0xAAu8; 10_000];
    assert_eq!(sink.write(&big).unwrap(), 10_000);
    sink.write_all(&big).unwrap();
    sink.flush().unwrap();
    assert_eq!(sink, Sink);
}

#[test]
fn reader_scenario() {
    let data: [u8; 4] = [1, 2, 3, 4];
    let mut reader = FromStd::new(std::io::BufReader::new(&data[..]));
    let mut buf = [0u8; 4];
    reader.read_exact(&mut buf).unwrap();
    assert_eq!(buf, [1, 2, 3, 4]);
    assert_eq!(reader.read(&mut buf).unwrap(), 0);
}

#[test]
fn read_pass_through_matches_native() {
    let data: Vec<u8> = (0u8..100).collect();

    let mut native = std::io::BufReader::with_capacity(7, &data[..]);
    let mut through_native: Vec<u8> = Vec::new();
    let mut buf = [0u8; 13];
    loop {
        let n = std::io::Read::read(&mut native, &mut buf).unwrap();
        if n == 0 {
            break;
        }
        through_native.extend_from_slice(&buf[..n]);
    }

    let mut wrapped = FromStd::new(std::io::BufReader::with_capacity(7, &data[..]));
    let mut through_wrapper: Vec<u8> = Vec::new();
    loop {
        let n = wrapped.read(&mut buf).unwrap();
        if n == 0 {
            break;
        }
        through_wrapper.extend_from_slice(&buf[..n]);
    }

    assert_eq!(through_wrapper, through_native);
    assert_eq!(through_wrapper, data);
}

#[test]
fn write_pass_through_matches_native() {
    let payload = [10u8, 20, 30, 40, 50];

    let mut native: Vec<u8> = Vec::new();
    std::io::Write::write_all(&mut native, &payload).unwrap();

    let mut wrapped = FromStd::new(Vec::<u8>::new());
    wrapped.write_all(&payload).unwrap();
    let n = wrapped.write(&[60, 70]).unwrap();
    assert_eq!(n, 2);
    wrapped.flush().unwrap();

    let written = wrapped.into_inner();
    assert_eq!(&written[..5], &native[..]);
    assert_eq!(&written[5..], &[60, 70]);
}

#[test]
fn consume_drops_prefix_for_good() {
    let data: [u8; 4] = [1, 2, 3, 4];
    let mut reader = FromStd::new(std::io::BufReader::new(&data[..]));
    let first = reader.fill_buf().unwrap().to_vec();
    assert_eq!(first, vec![1, 2, 3, 4]);
    reader.consume(2);
    let second = reader.fill_buf().unwrap().to_vec();
    assert_eq!(second, vec![3, 4]);
    reader.consume(2);
    let third = reader.fill_buf().unwrap().to_vec();
    assert!(third.is_empty());
}

#[test]
fn cursor_reads_its_bytes() {
    let mut cursor = Cursor::new(vec![5u8, 6, 7, 8, 9]);
    let mut buf = [0u8; 2];
    assert_eq!(cursor.read(&mut buf).unwrap(), 2);
    assert_eq!(buf, [5, 6]);

    let exposed = cursor.fill_buf().unwrap().to_vec();
    assert_eq!(exposed, vec![7, 8, 9]);
    cursor.consume(1);
    let exposed = cursor.fill_buf().unwrap().to_vec();
    assert_eq!(exposed, vec![8, 9]);

    let mut rest = [0u8; 2];
    cursor.read_exact(&mut rest).unwrap();
    assert_eq!(rest, [8, 9]);

    let err = cursor.read_exact(&mut rest).unwrap_err();
    assert_eq!(err.kind(), ErrorKind::UnexpectedEof);
    assert_eq!(cursor.read(&mut rest).unwrap(), 0);
}

#[test]
fn to_std_passes_calls_through() {
    let mut direct = Cursor::new(vec![1u8, 2, 3, 4]);
    let mut adapted = ToStd::new(Cursor::new(vec![1u8, 2, 3, 4]));

    let mut buf_direct = [0u8; 3];
    let mut buf_adapted = [0u8; 3];
    assert_eq!(direct.read(&mut buf_direct).unwrap(), adapted.read(&mut buf_adapted).unwrap());
    assert_eq!(buf_direct, buf_adapted);

    assert_eq!(
        direct.fill_buf().unwrap().to_vec(),
        adapted.fill_buf().unwrap().to_vec(),
    );
    direct.consume(1);
    adapted.consume(1);
    assert_eq!(direct.read(&mut buf_direct).unwrap(), adapted.read(&mut buf_adapted).unwrap());
    assert_eq!(buf_direct, buf_adapted);
}
