//! The archive builder: exact header bytes, and the round trip through a
//! real gzip decompressor and tar reader.

use std::io::Read;

use container_core::build_context;
use container_core::generate_dockerfile;
use container_core::tar_archive;

const DESCRIPTOR: &str = "FROM alpine:3.15\nRUN touch build-test.txt";

fn gunzip(bytes: &[u8]) -> Vec<u8> {
    let mut decoder = flate2::read::GzDecoder::new(bytes);
    let mut out = Vec::new();
    decoder.read_to_end(&mut out).expect("valid gzip stream");
    out
}

#[test]
fn tar_archive_total_length_is_block_aligned() {
    let out = tar_archive(b"hello");
    // one header block, one payload block, two closing blocks
    assert_eq!(out.len(), 512 + 512 + 1024);
}

#[test]
fn tar_archive_header_fields() {
    let out = tar_archive(b"hello");
    assert_eq!(&out[0..10], b"Dockerfile");
    assert!(out[10..100].iter().all(|b| *b == 0));
    assert_eq!(&out[100..108], b"0000644\0");
    assert!(out[108..124].iter().all(|b| *b == 0));
    // 5 bytes of payload, in octal, over the 12-byte size field
    assert_eq!(&out[124..136], b"00000000005\0");
    assert_eq!(&out[136..148], b"00000000000\0");
    // regular file type flag, empty link name
    assert_eq!(out[156], 0);
    assert!(out[157..257].iter().all(|b| *b == 0));
    assert_eq!(&out[257..265], b"ustar  \0");
}

#[test]
fn tar_archive_checksum_follows_the_tar_rule() {
    let out = tar_archive(b"hello");
    let mut sum: u64 = 0;
    for (i, b) in out[0..512].iter().enumerate() {
        if (148..156).contains(&i) {
            sum += b' ' as u64;
        } else {
            sum += *b as u64;
        }
    }
    let field = std::str::from_utf8(&out[148..155]).unwrap();
    let encoded = u64::from_str_radix(field, 8).unwrap();
    assert_eq!(encoded, sum);
    assert_eq!(out[155], 0);
}

#[test]
fn tar_archive_payload_sits_after_the_header() {
    let out = tar_archive(b"hello");
    assert_eq!(&out[512..517], b"hello");
    assert!(out[517..].iter().all(|b| *b == 0));
}

#[test]
fn tar_archive_of_empty_content_is_header_and_closing_blocks() {
    let out = tar_archive(b"");
    assert_eq!(out.len(), 512 + 1024);
    assert_eq!(&out[124..136], b"00000000000\0");
    assert!(out[512..].iter().all(|b| *b == 0));
}

#[test]
fn tar_archive_block_aligned_payload_gets_no_padding() {
    let content = vec![7u8; 512];
    let out = tar_archive(&content);
    assert_eq!(out.len(), 512 + 512 + 1024);
    assert_eq!(&out[512..1024], content.as_slice());
}

#[test]
fn build_context_is_the_gzip_of_the_tar_archive() {
    let content = b"some descriptor text";
    let packed = build_context(content);
    // the compressor must have actually transformed its input
    assert_ne!(packed, tar_archive(content));
    assert_eq!(gunzip(&packed), tar_archive(content));
}

#[test]
fn generated_context_decompresses_to_a_single_entry_archive() {
    let packed = generate_dockerfile();
    let uncompressed = gunzip(&packed);

    let mut ar = tar::Archive::new(uncompressed.as_slice());
    let mut entries = ar.entries().expect("readable archive");
    let mut entry = entries.next().expect("one entry").expect("valid entry");
    assert_eq!(entry.path().unwrap().to_str().unwrap(), "Dockerfile");
    assert_eq!(entry.header().size().unwrap(), DESCRIPTOR.len() as u64);
    assert_eq!(entry.header().mode().unwrap(), 0o644);
    let mut content = String::new();
    entry.read_to_string(&mut content).unwrap();
    assert_eq!(content, DESCRIPTOR);
    assert!(entries.next().is_none());
}

#[test]
fn generated_context_matches_the_packaged_descriptor() {
    assert_eq!(generate_dockerfile(), build_context(DESCRIPTOR.as_bytes()));
}
