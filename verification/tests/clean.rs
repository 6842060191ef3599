use wasmshield::clean::{clean_extracted, last_section_end, trim_to_sections};
use wasmshield::name::{get_name, name_from_sections, read_module_name, UNKNOWN_NAME};
use wasmshield::sections::Section;

fn custom_section(name: &str, data: &[u8]) -> Vec<u8> {
    let size = 1 + name.len() + data.len();
    assert!(size < 128 && name.len() < 128);
    let mut bytes = vec![0u8, size as u8, name.len() as u8];
    bytes.extend_from_slice(name.as_bytes());
    bytes.extend_from_slice(data);
    bytes
}

fn module(sections: &[Vec<u8>]) -> Vec<u8> {
    let mut bytes = vec![0x00, 0x61, 0x73, 0x6d, 0x01, 0x00, 0x00, 0x00];
    for section in sections {
        bytes.extend_from_slice(section);
    }
    bytes
}

fn component(sections: &[Vec<u8>]) -> Vec<u8> {
    let mut bytes = vec![0x00, 0x61, 0x73, 0x6d, 0x0d, 0x00, 0x01, 0x00];
    for section in sections {
        bytes.extend_from_slice(section);
    }
    bytes
}

#[test]
fn clean_cuts_behind_the_last_custom_section() {
    let wanted = component(&[custom_section("first", &[1, 2, 3]), custom_section("second", &[4])]);
    let mut padded = wanted.clone();
    padded.extend_from_slice(&[0xFF, 0xFF, 0xFF, 0xFF, 0xFF]);
    assert_eq!(clean_extracted(&padded), wanted);
}

#[test]
fn clean_keeps_a_component_that_ends_with_a_custom_section() {
    let wanted = module(&[custom_section("only", &[7; 20])]);
    assert_eq!(clean_extracted(&wanted), wanted);
}

#[test]
fn clean_without_custom_section_is_empty() {
    assert_eq!(clean_extracted(&module(&[])), Vec::<u8>::new());
    assert_eq!(clean_extracted(&vec![1, 2, 3, 4]), Vec::<u8>::new());
    assert_eq!(clean_extracted(&Vec::new()), Vec::<u8>::new());
}

#[test]
fn clean_twice_changes_nothing_more() {
    let mut padded = component(&[custom_section("a", &[1]), custom_section("b", &[2, 2])]);
    padded.extend_from_slice(&[0x7F; 9]);
    let once = clean_extracted(&padded);
    let twice = clean_extracted(&once);
    assert!(once.starts_with(&twice));
    assert_eq!(twice, once);
}

#[test]
fn trim_uses_the_highest_end() {
    let sections = vec![
        Section::Other,
        Section::Custom { name: "a".to_string(), data: vec![], start: 2, end: 6 },
        Section::Custom { name: "b".to_string(), data: vec![], start: 1, end: 4 },
        Section::Malformed,
    ];
    assert_eq!(last_section_end(&sections), 6);
    assert_eq!(trim_to_sections(&[0, 1, 2, 3, 4, 5, 6, 7, 8], &sections), vec![0, 1, 2, 3, 4, 5]);
    assert_eq!(trim_to_sections(&[0, 1, 2], &sections), vec![0, 1, 2]);
    assert_eq!(trim_to_sections(&[0, 1, 2], &vec![Section::Other]), Vec::<u8>::new());
}

#[test]
fn name_is_read_from_the_name_section() {
    let bytes = module(&[custom_section("name", &[0, 5, b'h', b'e', b'l', b'l', b'o', 9, 9])]);
    assert_eq!(get_name(&bytes), "hello");
}

#[test]
fn name_is_unknown_without_a_name_section() {
    assert_eq!(get_name(&module(&[custom_section("other", &[0, 1, b'x'])])), UNKNOWN_NAME);
    assert_eq!(get_name(&module(&[])), "UNKNOWN_NAME");
    assert_eq!(get_name(&[]), "UNKNOWN_NAME");
    assert_eq!(get_name(&[0xDE, 0xAD]), "UNKNOWN_NAME");
}

#[test]
fn name_comes_from_the_first_module_name_only() {
    let bytes = module(&[
        custom_section("name", &[1, 1, b'z']),
        custom_section("name", &[0, 2, b'o', b'k']),
        custom_section("name", &[0, 2, b'n', b'o']),
    ]);
    assert_eq!(get_name(&bytes), "ok");
}

#[test]
fn name_cut_short_is_unknown() {
    assert_eq!(read_module_name(&[0]), "UNKNOWN_NAME");
    assert_eq!(read_module_name(&[0, 3, b'a', b'b']), "UNKNOWN_NAME");
    assert_eq!(read_module_name(&[0, 0]), "");
    assert_eq!(read_module_name(&[0, 2, b'a', b'b']), "ab");
    let bytes = module(&[custom_section("name", &[0, 9, b'a']), custom_section("name", &[0, 1, b'b'])]);
    assert_eq!(get_name(&bytes), "UNKNOWN_NAME");
}

#[test]
fn name_with_invalid_bytes_is_decoded_leniently() {
    assert_eq!(read_module_name(&[0, 3, b'a', 0xFF, b'b']), "a\u{FFFD}b");
    assert_eq!(read_module_name(&[0, 2, 0xC3, 0xA9]), "\u{e9}");
}

#[test]
fn name_from_an_empty_section_list_is_unknown() {
    assert_eq!(name_from_sections(&Vec::new()), "UNKNOWN_NAME");
    let sections = vec![Section::Custom { name: "name".to_string(), data: vec![], start: 0, end: 0 }];
    assert_eq!(name_from_sections(&sections), "UNKNOWN_NAME");
}
