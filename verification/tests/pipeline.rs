use wasmshield::decompose::{Role, SIGNED_MODULE_MARKER};
use wasmshield::pipeline::{targets, COMPOSITION_NAME};

fn custom_section(name: &str, data: &[u8]) -> Vec<u8> {
    let size = 1 + name.len() + data.len();
    assert!(size < 128);
    let mut bytes = vec![0u8, size as u8, name.len() as u8];
    bytes.extend_from_slice(name.as_bytes());
    bytes.extend_from_slice(data);
    bytes
}

fn marked_component(sections: &[Vec<u8>]) -> Vec<u8> {
    let mut bytes = SIGNED_MODULE_MARKER.to_vec();
    bytes.extend_from_slice(&[0x5A; 107]);
    for section in sections {
        bytes.extend_from_slice(section);
    }
    bytes
}

#[test]
fn composition_name_is_fixed() {
    assert_eq!(COMPOSITION_NAME, "composition");
}

#[test]
fn no_target_without_a_signed_component() {
    assert!(targets(&[]).is_empty());
    assert!(targets(&[0x00, 0x61, 0x73, 0x6d, 0x0d, 0x00, 0x01, 0x00]).is_empty());
}

#[test]
fn root_is_kept_and_children_are_cleaned() {
    let a = marked_component(&[custom_section("name", &[0, 5, b'a', b'l', b'p', b'h', b'a'])]);
    let b = marked_component(&[custom_section("other", &[1, 2, 3])]);
    let mut composition = vec![0x00, 0x61, 0x73, 0x6d, 0x0d, 0x00, 0x01, 0x00];
    composition.extend_from_slice(&[0x04, 0x7F]);
    composition.extend_from_slice(&a);
    composition.extend_from_slice(&[0x04, 0x7F]);
    composition.extend_from_slice(&b);
    composition.extend_from_slice(&[0x0b, 0x01, 0x00]);

    let list = targets(&composition);
    assert_eq!(list.len(), 3);

    assert_eq!(list[0].role, Role::Root);
    assert_eq!(list[0].name, "composition");
    assert_eq!(list[0].bytes, composition);

    assert_eq!(list[1].role, Role::Child { index: 1 });
    assert_eq!(list[1].name, "alpha");
    assert_eq!(list[1].bytes, a);

    assert_eq!(list[2].role, Role::Child { index: 2 });
    assert_eq!(list[2].name, "UNKNOWN_NAME");
    assert_eq!(list[2].bytes, b);
}

#[test]
fn child_without_custom_section_is_cleaned_to_nothing() {
    let mut composition = vec![0xEE; 5];
    composition.extend_from_slice(&SIGNED_MODULE_MARKER);
    let list = targets(&composition);
    assert_eq!(list.len(), 2);
    assert_eq!(list[0].bytes, composition);
    assert_eq!(list[1].role, Role::Child { index: 1 });
    assert_eq!(list[1].bytes, Vec::<u8>::new());
    assert_eq!(list[1].name, "UNKNOWN_NAME");
}
