//! The archive helpers: the name hash, de-obfuscation, fixed-width strings,
//! header parsing, and path logic.

use shadow_company_tools::common::{decrypt_buf, hash, read_fixed_string};
use shadow_company_tools::data_dir::DataDir;
use shadow_company_tools::fm::FileManager;
use shadow_company_tools::gut::{GutError, GutFile};
use shadow_company_tools::io::change_separator;
use shadow_company_tools::raw::reduce_precision;
use shadow_company_tools::smf::smf_version;

#[test]
fn hash_known_values() {
    // One character feeds the first half only; the second stays at its seed.
    assert_eq!(hash(b"a"), 0x9D77FFFF);
    assert_eq!(hash(b"ab"), 0x9D77AD14);
    assert_eq!(hash(b""), 0xFFFFFFFF);
}

#[test]
fn hash_folds_case_and_stops_at_nul() {
    assert_eq!(hash(b"Audio\\Null"), hash(b"audio\\null"));
    assert_eq!(hash(b"abc\0def"), hash(b"abc"));
    assert_ne!(hash(b"a"), hash(b"b"));
}

#[test]
fn decrypt_complements_every_byte() {
    let mut buf = vec![0x00, 0xFF, 0x41, 0x9E];
    decrypt_buf(&mut buf);
    assert_eq!(buf, vec![0xFF, 0x00, 0xBE, 0x61]);
    decrypt_buf(&mut buf);
    assert_eq!(buf, vec![0x00, 0xFF, 0x41, 0x9E]);
}

#[test]
fn fixed_string_stops_at_nul() {
    let bytes = b"hello\0world\0pad!";
    assert_eq!(read_fixed_string(bytes, 0, 16), "hello");
    assert_eq!(read_fixed_string(bytes, 6, 8), "world");
    // Without a terminator only len - 1 characters fit.
    assert_eq!(read_fixed_string(b"abcdef", 0, 4), "abc");
}

fn push_u32(v: &mut Vec<u8>, x: u32) {
    v.extend_from_slice(&x.to_le_bytes());
}

fn sample_archive() -> (Vec<u8>, usize) {
    let mut data = Vec::new();
    data.extend_from_slice(b"* a banner line\r\n");
    data.extend_from_slice(&[0x1A, 0xFA, 0x31, 0xC1, 0xDE, 0xED, 0x42, 0x13]);
    let banner = data.len();
    push_u32(&mut data, 2); // entry count
    data.extend_from_slice(&[0u8; 32]); // archive name field
    // Entry: "a.txt" with its terminator, complemented.
    let name: Vec<u8> = b"a.txt\0".iter().map(|b| !*b).collect();
    push_u32(&mut data, name.len() as u32);
    push_u32(&mut data, 100); // size
    push_u32(&mut data, 0); // offset
    push_u32(&mut data, 1); // plain text
    push_u32(&mut data, hash(b"a.txt"));
    data.extend_from_slice(&name);
    // Entry: "dir\\b.bin".
    let name: Vec<u8> = b"dir\\b.bin\0".iter().map(|b| !*b).collect();
    push_u32(&mut data, name.len() as u32);
    push_u32(&mut data, 7);
    push_u32(&mut data, 100);
    push_u32(&mut data, 0);
    push_u32(&mut data, hash(b"dir\\b.bin"));
    data.extend_from_slice(&name);
    (data, banner)
}

#[test]
fn gut_header_parses() {
    let (data, banner) = sample_archive();
    let gut = GutFile::open(&data).expect("header should parse");
    assert_eq!(gut.header_size, banner as u64);
    let entries = gut.entries();
    assert_eq!(entries.len(), 2);
    assert_eq!(entries[0].name, "a.txt");
    assert_eq!(entries[0].size, 100);
    assert_eq!(entries[0].offset, (banner + 36) as u64);
    assert!(entries[0].is_plain_text);
    assert_eq!(entries[0].hash, hash(b"a.txt"));
    assert_eq!(entries[1].name, "dir\\b.bin");
    assert_eq!(entries[1].size, 7);
    assert_eq!(entries[1].offset, (banner + 36 + 100) as u64);
    assert!(!entries[1].is_plain_text);
}

#[test]
fn gut_truncated_header_is_an_error() {
    let (data, _) = sample_archive();
    assert_eq!(GutFile::open(&data[..data.len() - 3]).unwrap_err(), GutError::Truncated);
    assert_eq!(GutFile::open(b"no magic here").unwrap_err(), GutError::Truncated);
}

#[test]
fn separators_and_gut_candidates() {
    assert_eq!(change_separator("a/b\\c", '\\'), "a\\b\\c");
    assert_eq!(change_separator("a/b\\c", '/'), "a/b/c");
    let dd = DataDir::new("root".to_string());
    assert_eq!(dd.root, "root");
    assert_eq!(dd.find_gut_file_path_for("config\\campaign_defs.txt"), "config.gut");
    assert_eq!(dd.find_gut_file_path_for("maps/training.mtf"), "maps.gut");
    assert_eq!(dd.find_gut_file_path_for("plain"), "plain.gut");
    let fm = FileManager::new("data".to_string());
    assert_eq!(fm.root, "data");
}

#[test]
fn smf_version_strings() {
    assert_eq!(smf_version("SMF V1.0 build"), Some(1));
    assert_eq!(smf_version("SMF V1.1"), Some(2));
    assert_eq!(smf_version("SMF V2.0"), None);
    assert_eq!(smf_version("short"), None);
}

#[test]
fn reduce_precision_packs_nibbles() {
    assert_eq!(reduce_precision(0xABFFFFFF), 0xAFFF);
    assert_eq!(reduce_precision(0x00FFFFFF), 0x0FFF);
    assert_eq!(reduce_precision(0), 0);
}
