use oxide::sections::patched_section;
use oxide::settings::App;

#[test]
fn app_updates_paths_and_shared_state() {
    let (mut app, shared) = App::new("in".to_string(), "out.csv".to_string());
    app.update_input_dir("data".to_string());
    app.update_output_file("all.csv".to_string());
    assert_eq!(app.input_dir, "data");
    assert_eq!(app.output_file, "all.csv");
    let state = shared.lock().unwrap().clone();
    assert_eq!(state.input_dir, "data");
    assert_eq!(state.output_file, "all.csv");
}

#[test]
fn section_unchanged_needs_no_patch() {
    assert_eq!(patched_section(b"abc", b"abc"), None);
}

#[test]
fn section_patch_pads_with_zeros() {
    assert_eq!(patched_section(b"abcdef", b"xy"), Some(vec![b'x', b'y', 0, 0, 0, 0]));
    assert_eq!(patched_section(&[0u8; 4], b""), Some(vec![0, 0, 0, 0]));
    assert_eq!(patched_section(b"ab\0\0", b"ab"), Some(vec![b'a', b'b', 0, 0]));
}
