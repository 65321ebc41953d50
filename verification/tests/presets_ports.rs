use input_portal::ports::PortProbe;
use input_portal::ports::advance_port;
use input_portal::presets::FileError;
use input_portal::presets::FsEntry;
use input_portal::presets::PresetError;
use input_portal::presets::ScannedDir;
use input_portal::presets::get_file_name;
use input_portal::presets::get_presets;
use input_portal::presets::get_single_preset;

fn file(name: &str) -> FsEntry {
    FsEntry { type_ok: true, is_file: true, is_dir: false, name: Some(name.to_string()) }
}

fn dir_entry(name: &str) -> FsEntry {
    FsEntry { type_ok: true, is_file: false, is_dir: true, name: Some(name.to_string()) }
}

fn preset_dir(name: &str, contents: Vec<FsEntry>) -> ScannedDir {
    ScannedDir { entry: Some(dir_entry(name)), contents: Some(contents) }
}

#[test]
fn file_names_come_from_readable_regular_files() {
    assert_eq!(get_file_name(&file("preset.png")), Ok("preset.png".to_string()));
    let unreadable = FsEntry { type_ok: false, is_file: true, is_dir: false, name: None };
    assert_eq!(get_file_name(&unreadable), Err(FileError::FileTypeError));
    let nameless = FsEntry { type_ok: true, is_file: true, is_dir: false, name: None };
    assert_eq!(get_file_name(&nameless), Err(FileError::ReadDirError));
    assert_eq!(get_file_name(&dir_entry("sub")), Err(FileError::NotFileError));
}

#[test]
fn a_directory_with_image_and_config_is_a_preset() {
    let d = preset_dir("rainbow", vec![file("preset.png"), file("preset.json")]);
    assert_eq!(get_single_preset(&d), Ok("rainbow".to_string()));
}

#[test]
fn extra_files_and_order_do_not_matter() {
    let d = preset_dir(
        "busy",
        vec![file("notes.txt"), file("preset.json"), dir_entry("sub"), file("preset.png")],
    );
    assert_eq!(get_single_preset(&d), Ok("busy".to_string()));
}

#[test]
fn a_directory_missing_either_file_is_no_preset() {
    let only_image = preset_dir("half", vec![file("preset.png")]);
    assert_eq!(get_single_preset(&only_image), Err(PresetError::NotPresetError));
    let only_config = preset_dir("other", vec![file("preset.json")]);
    assert_eq!(get_single_preset(&only_config), Err(PresetError::NotPresetError));
    let empty = preset_dir("empty", vec![]);
    assert_eq!(get_single_preset(&empty), Err(PresetError::NotPresetError));
}

#[test]
fn unreadable_candidates_report_their_failure() {
    let unread = ScannedDir { entry: None, contents: None };
    assert_eq!(get_single_preset(&unread), Err(PresetError::ReadFilesError));
    let bad_type = ScannedDir {
        entry: Some(FsEntry { type_ok: false, is_file: false, is_dir: false, name: None }),
        contents: None,
    };
    assert_eq!(get_single_preset(&bad_type), Err(PresetError::FileTypeError));
    let plain_file = ScannedDir { entry: Some(file("loose.png")), contents: None };
    assert_eq!(get_single_preset(&plain_file), Err(PresetError::NotDirError));
    let unlistable = ScannedDir { entry: Some(dir_entry("locked")), contents: None };
    assert_eq!(get_single_preset(&unlistable), Err(PresetError::ReadFilesError));
}

#[test]
fn presets_are_collected_in_order_and_non_presets_skipped() {
    let dirs = vec![
        preset_dir("first", vec![file("preset.png"), file("preset.json")]),
        preset_dir("not_a_preset", vec![file("preset.png")]),
        ScannedDir { entry: None, contents: None },
        preset_dir("second", vec![file("preset.json"), file("preset.png")]),
    ];
    assert_eq!(get_presets(Some(&dirs)), vec!["first".to_string(), "second".to_string()]);
}

#[test]
fn an_unresolvable_preset_root_yields_no_presets() {
    assert_eq!(get_presets(None), Vec::<String>::new());
}

#[test]
fn free_port_is_chosen_and_taken_port_moves_upward() {
    assert_eq!(advance_port(61477, true), PortProbe::Chosen(61477));
    assert_eq!(advance_port(61477, false), PortProbe::Next(61478));
    assert_eq!(advance_port(u16::MAX, false), PortProbe::Next(0));
}
