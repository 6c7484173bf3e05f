use trun_decoder::bytes::sign_extend_to_i32;
use trun_decoder::reader::ByteCursor;
use trun_decoder::trun::DecodeFailure;
use trun_decoder::trun::TrunAtom;

fn push_be_u32(v: &mut Vec<u8>, x: u32) {
    v.push((x >> 24) as u8);
    v.push((x >> 16) as u8);
    v.push((x >> 8) as u8);
    v.push(x as u8);
}

#[test]
fn data_offset_duration_size_two_samples() {
    // flags: data-offset | sample-duration | sample-size
    let mut v: Vec<u8> = Vec::new();
    push_be_u32(&mut v, 2); // sample_count
    push_be_u32(&mut v, 0x0000_0010); // data_offset
    push_be_u32(&mut v, 100); // duration, sample 0
    push_be_u32(&mut v, 1000); // size, sample 0
    push_be_u32(&mut v, 100); // duration, sample 1
    push_be_u32(&mut v, 2000); // size, sample 1
    let mut c = ByteCursor::new(v);
    let rec = TrunAtom::decode(&mut c, 0x000301, 28).unwrap();
    assert_eq!(rec.sample_count, 2);
    assert_eq!(rec.data_offset, Some(16));
    assert_eq!(rec.first_sample_flags, None);
    assert_eq!(rec.sample_duration, vec![100, 100]);
    assert_eq!(rec.sample_size, vec![1000, 2000]);
    assert_eq!(rec.sample_flags, Vec::<u32>::new());
    assert_eq!(rec.total_sample_duration, 200);
    assert_eq!(rec.total_sample_size, 3000);
    assert_eq!(c.consumed(), 24);
    assert!(rec.is_sample_duration_present());
    assert!(rec.is_sample_size_present());
    assert!(!rec.are_sample_flags_present());
    assert!(!rec.are_sample_composition_time_offsets_present());
}

#[test]
fn data_offset_sign_extends_to_minus_one() {
    let mut v: Vec<u8> = Vec::new();
    push_be_u32(&mut v, 0);
    push_be_u32(&mut v, 0xFFFF_FFFF);
    let mut c = ByteCursor::new(v);
    let rec = TrunAtom::decode(&mut c, 0x000001, 8).unwrap();
    assert_eq!(rec.data_offset, Some(-1));
    assert_eq!(c.consumed(), 8);
}

#[test]
fn data_offset_absent_when_bit_clear() {
    let mut v: Vec<u8> = Vec::new();
    push_be_u32(&mut v, 0);
    let mut c = ByteCursor::new(v);
    let rec = TrunAtom::decode(&mut c, 0x000100, 4).unwrap();
    assert_eq!(rec.data_offset, None);
}

#[test]
fn conflicting_flags_rejected_regardless_of_bytes() {
    // first-sample-override and per-sample-flags both set; no bytes at all.
    let mut c = ByteCursor::new(Vec::new());
    let r = TrunAtom::decode(&mut c, 0x000404, 1024);
    assert_eq!(r.unwrap_err(), DecodeFailure::ConflictingFlags);
}

#[test]
fn first_sample_override_unsupported() {
    // Override bit alone, with a fully readable layout behind it.
    let mut v: Vec<u8> = Vec::new();
    push_be_u32(&mut v, 0);
    push_be_u32(&mut v, 0xDEAD_BEEF); // the override field itself
    let mut c = ByteCursor::new(v);
    let r = TrunAtom::decode(&mut c, 0x000004, 8);
    assert_eq!(r.unwrap_err(), DecodeFailure::UnsupportedFeature);
}

#[test]
fn zero_samples_consumes_header_only() {
    // With the data-offset bit: exactly 8 bytes; without it: exactly 4.
    let mut v: Vec<u8> = Vec::new();
    push_be_u32(&mut v, 0);
    push_be_u32(&mut v, 64);
    let mut c = ByteCursor::new(v);
    let rec = TrunAtom::decode(&mut c, 0x000301, 8).unwrap();
    assert_eq!(rec.sample_count, 0);
    assert_eq!(rec.data_offset, Some(64));
    assert!(rec.sample_duration.is_empty());
    assert!(rec.sample_size.is_empty());
    assert!(rec.sample_flags.is_empty());
    assert_eq!(rec.total_sample_duration, 0);
    assert_eq!(rec.total_sample_size, 0);
    assert_eq!(c.consumed(), 8);

    let mut v2: Vec<u8> = Vec::new();
    push_be_u32(&mut v2, 0);
    let mut c2 = ByteCursor::new(v2);
    let rec2 = TrunAtom::decode(&mut c2, 0x000300, 4).unwrap();
    assert_eq!(rec2.sample_count, 0);
    assert_eq!(c2.consumed(), 4);
}

#[test]
fn truncated_mid_row_is_io_failure() {
    // Duration and size expected, but the stream ends after the first row's
    // duration field. The declared length covers the full layout.
    let mut v: Vec<u8> = Vec::new();
    push_be_u32(&mut v, 2);
    push_be_u32(&mut v, 100); // duration, sample 0; stream ends here
    let mut c = ByteCursor::new(v);
    let r = TrunAtom::decode(&mut c, 0x000300, 20);
    assert_eq!(r.unwrap_err(), DecodeFailure::Truncated);
}

#[test]
fn truncated_sample_count_is_io_failure() {
    let mut c = ByteCursor::new(vec![0, 0]);
    let r = TrunAtom::decode(&mut c, 0x000000, 1024);
    assert_eq!(r.unwrap_err(), DecodeFailure::Truncated);
}

#[test]
fn truncated_data_offset_is_io_failure() {
    let mut v: Vec<u8> = Vec::new();
    push_be_u32(&mut v, 0);
    v.push(0xFF);
    let mut c = ByteCursor::new(v);
    let r = TrunAtom::decode(&mut c, 0x000001, 1024);
    assert_eq!(r.unwrap_err(), DecodeFailure::Truncated);
}

#[test]
fn huge_sample_count_hits_resource_limit() {
    // A count of 0xFFFFFFFF needs far more bytes than the record declares.
    let mut v: Vec<u8> = Vec::new();
    push_be_u32(&mut v, 0xFFFF_FFFF);
    let mut c = ByteCursor::new(v);
    let r = TrunAtom::decode(&mut c, 0x000200, 64);
    assert_eq!(r.unwrap_err(), DecodeFailure::ResourceLimitExceeded);
}

#[test]
fn layout_filling_declared_length_exactly_succeeds() {
    let mut v: Vec<u8> = Vec::new();
    push_be_u32(&mut v, 1);
    push_be_u32(&mut v, 7); // size, sample 0
    let mut c = ByteCursor::new(v);
    let rec = TrunAtom::decode(&mut c, 0x000200, 8).unwrap();
    assert_eq!(rec.sample_size, vec![7]);
    assert_eq!(rec.total_sample_size, 7);
    assert_eq!(rec.total_sample_duration, 0);
}

#[test]
fn declared_length_one_short_hits_resource_limit() {
    let mut v: Vec<u8> = Vec::new();
    push_be_u32(&mut v, 1);
    push_be_u32(&mut v, 7);
    let mut c = ByteCursor::new(v);
    let r = TrunAtom::decode(&mut c, 0x000200, 7);
    assert_eq!(r.unwrap_err(), DecodeFailure::ResourceLimitExceeded);
}

#[test]
fn per_sample_flags_column_is_kept() {
    let mut v: Vec<u8> = Vec::new();
    push_be_u32(&mut v, 2);
    push_be_u32(&mut v, 0x0101_0000);
    push_be_u32(&mut v, 0x0201_0000);
    let mut c = ByteCursor::new(v);
    let rec = TrunAtom::decode(&mut c, 0x000400, 12).unwrap();
    assert_eq!(rec.sample_flags, vec![0x0101_0000, 0x0201_0000]);
    assert!(rec.sample_duration.is_empty());
    assert!(rec.sample_size.is_empty());
    assert!(rec.are_sample_flags_present());
}

#[test]
fn composition_time_offsets_read_and_discarded() {
    let mut v: Vec<u8> = Vec::new();
    push_be_u32(&mut v, 1);
    push_be_u32(&mut v, 25); // duration, sample 0
    push_be_u32(&mut v, 0xFFFF_FF38); // composition time offset, discarded
    let mut c = ByteCursor::new(v);
    let rec = TrunAtom::decode(&mut c, 0x000900, 12).unwrap();
    assert_eq!(rec.sample_duration, vec![25]);
    assert_eq!(rec.total_sample_duration, 25);
    assert!(rec.are_sample_composition_time_offsets_present());
    assert_eq!(c.consumed(), 12);
}

#[test]
fn no_per_sample_fields_reads_no_row_bytes() {
    // A nonzero count with no per-sample bits set consumes only the header.
    let mut v: Vec<u8> = Vec::new();
    push_be_u32(&mut v, 5);
    let mut c = ByteCursor::new(v);
    let rec = TrunAtom::decode(&mut c, 0x000000, 4).unwrap();
    assert_eq!(rec.sample_count, 5);
    assert!(rec.sample_duration.is_empty());
    assert!(rec.sample_size.is_empty());
    assert!(rec.sample_flags.is_empty());
    assert_eq!(c.consumed(), 4);
}

#[test]
fn sign_extension_examples() {
    assert_eq!(sign_extend_to_i32(0xFFFF_FFFF), -1);
    assert_eq!(sign_extend_to_i32(0x0000_0010), 16);
    assert_eq!(sign_extend_to_i32(0x7FFF_FFFF), i32::MAX);
    assert_eq!(sign_extend_to_i32(0x8000_0000), i32::MIN);
    assert_eq!(sign_extend_to_i32(0), 0);
}

#[test]
fn cursor_reads_big_endian_and_stops_at_end() {
    let mut c = ByteCursor::new(vec![0x01, 0x02, 0x03, 0x04, 0xAA]);
    assert_eq!(c.remaining(), 5);
    assert_eq!(c.read_be_u32(), Some(0x0102_0304));
    assert_eq!(c.consumed(), 4);
    assert_eq!(c.remaining(), 1);
    assert_eq!(c.read_be_u32(), None);
    assert_eq!(c.consumed(), 4);
}
