use kdmapi::build_fallback_path;
use kdmapi::directory_from_buffer;
use kdmapi::module_file_name;

#[test]
fn module_file_name_is_the_driver_dll() {
    assert_eq!(module_file_name(), b"OmniMIDI.dll".to_vec());
}

#[test]
fn directory_is_cut_at_the_first_null_terminator() {
    let mut buffer = b"C:\\Windows\\system32".to_vec();
    buffer.push(0);
    buffer.extend_from_slice(b"leftover bytes in the query buffer");

    let directory = directory_from_buffer(&buffer);
    assert_eq!(directory, Some(b"C:\\Windows\\system32".to_vec()));
}

#[test]
fn directory_stops_at_the_first_of_several_terminators() {
    let buffer = vec![65u8, 0, 66, 0, 67];
    assert_eq!(directory_from_buffer(&buffer), Some(vec![65u8]));
}

#[test]
fn buffer_without_terminator_is_rejected() {
    let buffer = b"C:\\Windows\\system32".to_vec();
    assert_eq!(directory_from_buffer(&buffer), None);
}

#[test]
fn empty_buffer_is_rejected() {
    let buffer: Vec<u8> = Vec::new();
    assert_eq!(directory_from_buffer(&buffer), None);
}

#[test]
fn leading_terminator_gives_an_empty_directory() {
    let buffer = vec![0u8, 65, 66];
    assert_eq!(directory_from_buffer(&buffer), Some(Vec::new()));
}

#[test]
fn fallback_path_appends_vendor_directory_and_file_name() {
    let directory = b"C:\\Windows\\system32".to_vec();
    let path = build_fallback_path(&directory);
    assert_eq!(path, b"C:\\Windows\\system32\\OmniMIDI\\OmniMIDI.dll".to_vec());
}

#[test]
fn fallback_path_from_an_empty_directory_is_just_the_suffix() {
    let directory: Vec<u8> = Vec::new();
    let path = build_fallback_path(&directory);
    assert_eq!(path, b"\\OmniMIDI\\OmniMIDI.dll".to_vec());
}
