use wk_version_check::fileinfo::{
    high_half, low_half, parse_fixed_file_info, read_le_u32, version_components, FixedFileInfo,
    FIXED_FILE_INFO_LEN,
};
use wk_version_check::lifecycle::{
    attach_dialog, classify_reason, detach, entry_result, entry_work, EntryWork, LifecycleEvent,
    DLL_PROCESS_ATTACH, DLL_PROCESS_DETACH,
};
use wk_version_check::lookup::{check_version, resource_size_is_fatal, LookupOutcome};
use wk_version_check::text::{dialog_title, failure_message, success_message, u32_to_decimal};

/// A 52-byte resource block whose thirteen words are `words[0..13]`, each
/// encoded little-endian.
fn resource_block(words: [u32; 13]) -> Vec<u8> {
    let mut bytes = Vec::new();
    for w in words {
        bytes.extend_from_slice(&w.to_le_bytes());
    }
    bytes
}

/// Words for a record that only sets the two date words.
fn date_words(date_ms: u32, date_ls: u32) -> [u32; 13] {
    let mut words = [0u32; 13];
    words[0] = 0xFEEF04BD; // the record's signature word
    words[11] = date_ms;
    words[12] = date_ls;
    words
}

#[test]
fn read_le_u32_reads_little_endian() {
    let bytes = vec![0xBD, 0x04, 0xEF, 0xFE, 0x78, 0x56, 0x34, 0x12];
    assert_eq!(read_le_u32(&bytes, 0), 0xFEEF04BD);
    assert_eq!(read_le_u32(&bytes, 4), 0x12345678);
    assert_eq!(read_le_u32(&bytes, 2), 0x5678FEEF);
}

#[test]
fn parse_extracts_every_word() {
    let words = [
        0xFEEF04BD, 0x00010000, 0x00010002, 0x00030004, 0x00050006, 0x00070008, 0x3F, 0x0, 0x4,
        0x2, 0x0, 0x00020001, 0x00040003,
    ];
    let block = resource_block(words);
    assert_eq!(block.len(), FIXED_FILE_INFO_LEN);
    let info = parse_fixed_file_info(&block).expect("record expected");
    assert_eq!(info.signature, 0xFEEF04BD);
    assert_eq!(info.struct_version, 0x00010000);
    assert_eq!(info.file_version_ms, 0x00010002);
    assert_eq!(info.file_version_ls, 0x00030004);
    assert_eq!(info.product_version_ms, 0x00050006);
    assert_eq!(info.product_version_ls, 0x00070008);
    assert_eq!(info.file_flags_mask, 0x3F);
    assert_eq!(info.file_flags, 0x0);
    assert_eq!(info.file_os, 0x4);
    assert_eq!(info.file_type, 0x2);
    assert_eq!(info.file_subtype, 0x0);
    assert_eq!(info.file_date_ms, 0x00020001);
    assert_eq!(info.file_date_ls, 0x00040003);
}

#[test]
fn parse_rejects_short_block() {
    let block = resource_block(date_words(1, 2));
    let mut short = block.clone();
    short.pop();
    assert_eq!(parse_fixed_file_info(&short), None);
    assert_eq!(parse_fixed_file_info(&Vec::new()), None);
}

#[test]
fn parse_accepts_longer_block() {
    let mut block = resource_block(date_words(0x00020001, 0x00040003));
    block.extend_from_slice(&[0xAA; 12]);
    let info = parse_fixed_file_info(&block).expect("record expected");
    assert_eq!(info.file_date_ms, 0x00020001);
    assert_eq!(info.file_date_ls, 0x00040003);
}

#[test]
fn halves_split_a_word() {
    assert_eq!(low_half(0x00020001), 0x0001);
    assert_eq!(high_half(0x00020001), 0x0002);
    assert_eq!(low_half(0xFFFF_FFFF), 0xFFFF);
    assert_eq!(high_half(0xFFFF_FFFF), 0xFFFF);
    assert_eq!(low_half(0), 0);
    assert_eq!(high_half(0), 0);
}

#[test]
fn components_come_from_the_date_words() {
    let info = FixedFileInfo {
        signature: 0xFEEF04BD,
        struct_version: 0,
        file_version_ms: 0x00090009,
        file_version_ls: 0x00090009,
        product_version_ms: 0,
        product_version_ls: 0,
        file_flags_mask: 0,
        file_flags: 0,
        file_os: 0,
        file_type: 0,
        file_subtype: 0,
        file_date_ms: 0x00BB00AA,
        file_date_ls: 0x00DD00CC,
    };
    let (a, b, c) = version_components(&info);
    assert_eq!((a, b, c), (0xBB, 0xAA, 0xDD));
}

#[test]
fn decimal_rendering_is_exact() {
    assert_eq!(u32_to_decimal(0), "0");
    assert_eq!(u32_to_decimal(7), "7");
    assert_eq!(u32_to_decimal(10), "10");
    assert_eq!(u32_to_decimal(1234), "1234");
    assert_eq!(u32_to_decimal(100000), "100000");
    assert_eq!(u32_to_decimal(u32::MAX), "4294967295");
}

#[test]
fn dialog_texts_are_exact() {
    assert_eq!(dialog_title(), "wkVersionCheck");
    assert_eq!(failure_message(), "Couldn't find version information!");
    assert_eq!(success_message(1, 2, 3), "The version of your game is 1.2.3.");
    assert_eq!(
        success_message(10, 0, 4294967295),
        "The version of your game is 10.0.4294967295."
    );
}

#[test]
fn zero_size_is_the_fatal_path() {
    assert!(resource_size_is_fatal(0));
    assert!(!resource_size_is_fatal(52));
    // Whatever bytes are around, a zero size aborts the lookup before any
    // record is read.
    let block = resource_block(date_words(1, 2));
    assert_eq!(check_version(0, Some(&block)), LookupOutcome::Fatal);
    assert_eq!(check_version(0, None), LookupOutcome::Fatal);
}

#[test]
fn failed_sub_query_leaves_result_absent() {
    assert_eq!(check_version(52, None), LookupOutcome::Missing);
    let mut short = resource_block(date_words(1, 2));
    short.truncate(51);
    assert_eq!(check_version(52, Some(&short)), LookupOutcome::Missing);
}

#[test]
fn failed_sub_query_shows_the_failure_dialog() {
    let d = attach_dialog(None);
    assert_eq!(d.title, "wkVersionCheck");
    assert_eq!(d.body, "Couldn't find version information!");
    assert!(d.error_style);
}

#[test]
fn well_formed_resource_is_found() {
    let block = resource_block(date_words(0x00020001, 0x00040003));
    match check_version(block.len() as u32, Some(&block)) {
        LookupOutcome::Found(info) => {
            assert_eq!(info.file_date_ms, 0x00020001);
            assert_eq!(info.file_date_ls, 0x00040003);
        }
        other => panic!("lookup did not find the record: {:?}", other),
    }
}

#[test]
fn classify_recognizes_only_the_process_transitions() {
    assert_eq!(classify_reason(DLL_PROCESS_ATTACH), LifecycleEvent::ProcessAttach);
    assert_eq!(classify_reason(DLL_PROCESS_DETACH), LifecycleEvent::ProcessDetach);
    assert_eq!(classify_reason(2), LifecycleEvent::Unrecognized);
    assert_eq!(classify_reason(3), LifecycleEvent::Unrecognized);
    assert_eq!(classify_reason(77), LifecycleEvent::Unrecognized);
}

#[test]
fn detach_always_succeeds() {
    assert!(detach());
    assert!(entry_result(DLL_PROCESS_DETACH));
    assert_eq!(entry_work(DLL_PROCESS_DETACH), EntryWork::NoWork);
}

#[test]
fn unrecognized_reason_is_rejected() {
    assert!(!entry_result(2));
    assert!(!entry_result(3));
    assert!(!entry_result(u32::MAX));
    assert_eq!(entry_work(2), EntryWork::NoWork);
    assert_eq!(entry_work(u32::MAX), EntryWork::NoWork);
    assert!(entry_result(DLL_PROCESS_ATTACH));
    assert_eq!(entry_work(DLL_PROCESS_ATTACH), EntryWork::LookupAndNotify);
}

#[test]
fn version_1_2_3_4_shows_1_2_3() {
    // A resource encoding version 1.2.3.4 in the date words, packed the
    // standard way: 1 and 2 in the high and low halves of the MS word, 3 in
    // the high half of the LS word, and the fourth component, 4, in its
    // dropped low half.
    let block = resource_block(date_words(0x00010002, 0x00030004));
    let size = block.len() as u32;
    assert!(!resource_size_is_fatal(size));
    let info = match check_version(size, Some(&block)) {
        LookupOutcome::Found(info) => info,
        other => panic!("lookup did not find the record: {:?}", other),
    };
    let d = attach_dialog(Some(info));
    assert_eq!(d.title, "wkVersionCheck");
    assert_eq!(d.body, "The version of your game is 1.2.3.");
    assert!(!d.error_style);
    assert!(entry_result(DLL_PROCESS_ATTACH));
}
