use std::io::ErrorKind;

use okof::okof::{delete, get_raw_file, read, read_into};
use okof::record::{check_chunk_lengths, decode_record, encode_record, MIN_COMPRESS_SIZE};
use okof::{Error, Stored};

#[test]
fn short_value_is_stored_raw_after_flag() {
    let rec = okof::okof::write(true, &[5, 6]).unwrap();
    assert_eq!(rec, vec![0, 5, 6]);
}

#[test]
fn empty_value_is_the_flag_alone() {
    assert_eq!(encode_record(&[]), vec![0]);
    assert_eq!(decode_record(&[0]).unwrap(), Vec::<u8>::new());
}

#[test]
fn threshold_decides_the_flag() {
    let below = vec![9u8; MIN_COMPRESS_SIZE - 1];
    let rec = encode_record(&below);
    assert_eq!(rec[0], 0);
    assert_eq!(rec.len(), below.len() + 1);

    let at = vec![9u8; MIN_COMPRESS_SIZE];
    let rec = encode_record(&at);
    assert_eq!(rec[0], 1);
    assert_eq!(decode_record(&rec).unwrap(), at);
}

#[test]
fn compressed_payload_differs_from_value() {
    let value = vec![4u8; 10_000];
    let rec = encode_record(&value);
    assert_eq!(rec[0], 1);
    assert_ne!(&rec[1..], value.as_slice());
    assert!(rec.len() < value.len() / 20);
    assert_eq!(decode_record(&rec).unwrap(), value);
}

#[test]
fn incompressible_value_round_trips() {
    let value: Vec<u8> = (0..5000u32).map(|i| (i.wrapping_mul(2_654_435_761) >> 13) as u8).collect();
    let rec = encode_record(&value);
    assert_eq!(rec[0], 1);
    assert_eq!(read(Stored::Record(rec)).unwrap(), value);
}

#[test]
fn record_without_flag_ends_early() {
    assert_eq!(read(Stored::Record(Vec::new())), Err(Error::IoErrorKind(ErrorKind::UnexpectedEof)));
}

#[test]
fn corrupt_compressed_payload_fails() {
    match read(Stored::Record(vec![1, 0xAA, 0xBB, 0xCC, 0xDD, 0xEE])) {
        Err(Error::IoErrorKind(_)) => (),
        other => panic!("unexpected {:?}", other),
    }
}

#[test]
fn other_open_failures_keep_their_kind() {
    let kind = ErrorKind::PermissionDenied;
    assert_eq!(read(Stored::Failed(kind)), Err(Error::IoErrorKind(kind)));
    assert_eq!(delete(Stored::Failed(kind)), Err(Error::IoErrorKind(kind)));
    assert_eq!(get_raw_file(Stored::Failed(kind)), Err(Error::IoErrorKind(kind)));
}

#[test]
fn missing_key_is_not_found_everywhere() {
    let mut buf = Vec::new();
    assert_eq!(read(Stored::Failed(ErrorKind::NotFound)), Err(Error::NotFound));
    assert_eq!(read_into(Stored::Failed(ErrorKind::NotFound), &mut buf), Err(Error::NotFound));
    assert_eq!(delete(Stored::Failed(ErrorKind::NotFound)), Err(Error::NotFound));
    assert!(buf.is_empty());
}

#[test]
fn non_empty_buffer_is_left_alone() {
    let rec = okof::okof::write(true, &[1, 2]).unwrap();
    let mut buf = vec![8, 8];
    assert_eq!(read_into(Stored::Record(rec.clone()), &mut buf), Err(Error::NotEmpty));
    assert_eq!(buf, vec![8, 8]);
    let mut fresh = Vec::new();
    assert_eq!(read_into(Stored::Record(rec), &mut fresh), Ok(()));
    assert_eq!(fresh, vec![1, 2]);
}

#[test]
fn not_dir_comes_first() {
    assert_eq!(okof::okof::write(false, &[1]), Err(Error::NotDir));
    assert_eq!(read(Stored::NoDir), Err(Error::NotDir));
    assert_eq!(delete(Stored::NoDir), Err(Error::NotDir));
    assert_eq!(delete(Stored::Record(vec![0])), Ok(()));
}

#[test]
fn overwrite_with_shorter_value_leaves_no_residue() {
    let long = vec![3u8; 100];
    let short = [7u8, 7];
    let _first = okof::okof::write(true, &long).unwrap();
    let second = okof::okof::write(true, &short).unwrap();
    assert_eq!(second.len(), short.len() + 1);
    assert_eq!(read(Stored::Record(second)).unwrap(), short);
}

#[test]
fn compressed_record_prefixes_the_flag() {
    assert_eq!(okof::record::compressed_record(&[9, 8]), vec![1, 9, 8]);
}

#[test]
fn unknown_flag_is_invalid_data() {
    let value = vec![4u8; 10_000];
    let mut rec = encode_record(&value);
    rec[0] = 2;
    assert_eq!(decode_record(&rec), Err(Error::IoErrorKind(ErrorKind::InvalidData)));
    assert_eq!(read(Stored::Record(rec)), Err(Error::IoErrorKind(ErrorKind::InvalidData)));
}

#[test]
fn data_chunk_shorter_than_its_checksum_is_invalid_data() {
    let mut rec = vec![1u8];
    rec.extend_from_slice(b"\xFF\x06\x00\x00sNaPpY");
    rec.extend_from_slice(&[0x01, 0x00, 0x00, 0x00, 0xAA, 0xBB, 0xCC, 0xDD]);
    assert!(!check_chunk_lengths(&rec[1..]));
    assert_eq!(read(Stored::Record(rec)), Err(Error::IoErrorKind(ErrorKind::InvalidData)));
}

#[test]
fn chunk_scan_accepts_what_the_writer_wrote() {
    let value = vec![6u8; 200_000];
    let rec = encode_record(&value);
    assert!(check_chunk_lengths(&rec[1..]));
    assert!(check_chunk_lengths(&[]));
    assert!(check_chunk_lengths(&[0x00, 0x04]));
    assert!(!check_chunk_lengths(&[0x00, 0x03, 0x00, 0x00]));
    assert!(check_chunk_lengths(&[0xFE, 0x00, 0x00, 0x00, 0x01, 0x00, 0x00, 0x00]) == false);
    assert!(check_chunk_lengths(&[0xFE, 0x01, 0x00, 0x00, 0x09, 0x01, 0x00, 0x00]));
}

#[test]
fn read_and_read_into_agree_on_a_corrupt_stream() {
    let rec = vec![1u8, 0xAA, 0xBB, 0xCC, 0xDD, 0xEE];
    let mut buf = Vec::new();
    let into = read_into(Stored::Record(rec.clone()), &mut buf);
    assert_eq!(read(Stored::Record(rec)).map(|_| ()), into);
    assert!(buf.is_empty());
}
