//! Decisions of the on-disk preset discovery, on plain values: the
//! surrounding application walks directories and hands in what it read
//! of each entry; these functions decide which entries form presets. A
//! preset is a directory holding both the preset image file and the
//! preset configuration file.

use vstd::prelude::*;

verus! {

/// Failures of directory reading, reported per entry.
#[derive(Clone, Copy, Debug, PartialEq, Eq, Structural)]
pub enum FileError {
    PathResolveError,
    ReadDirError,
    FileTypeError,
    NotDirError,
    NotFileError,
}

/// Failures of reading one candidate preset directory.
#[derive(Clone, Copy, Debug, PartialEq, Eq, Structural)]
pub enum PresetError {
    ReadFilesError,
    FileTypeError,
    NotDirError,
    NotPresetError,
}

/// Abstract value of an [`FsEntry`].
pub ghost struct FsEntryV {
    pub type_ok: bool,
    pub is_file: bool,
    pub is_dir: bool,
    pub name: Option<Seq<char>>,
}

/// What the directory walk read of one entry: whether its file type
/// could be read, what that type is, and its name where it is valid
/// text.
pub struct FsEntry {
    /// The entry's file type could be read.
    pub type_ok: bool,
    /// The entry is a regular file.
    pub is_file: bool,
    /// The entry is a directory.
    pub is_dir: bool,
    /// The entry's name, where it is valid text.
    pub name: Option<String>,
}

impl View for FsEntry {
    type V = FsEntryV;

    open spec fn view(&self) -> FsEntryV {
        FsEntryV {
            type_ok: self.type_ok,
            is_file: self.is_file,
            is_dir: self.is_dir,
            name: match self.name {
                Some(n) => Some(n@),
                None => None,
            },
        }
    }
}

/// The name of the image file a preset directory must hold.
pub open spec fn preset_image_name() -> Seq<char> {
    "preset.png"@
}

/// The name of the configuration file a preset directory must hold.
pub open spec fn preset_config_name() -> Seq<char> {
    "preset.json"@
}

/// The name of an entry, where the entry is a readable regular file
/// with a textual name.
pub open spec fn file_name_spec(e: FsEntryV) -> Result<Seq<char>, FileError> {
    if !e.type_ok {
        Err(FileError::FileTypeError)
    } else if e.is_file {
        match e.name {
            Some(n) => Ok(n),
            None => Err(FileError::ReadDirError),
        }
    } else {
        Err(FileError::NotFileError)
    }
}

/// Returns an entry's name, or why it yields none: the file type could
/// not be read, the entry is not a regular file, or its name is not
/// valid text.
pub fn get_file_name(entry: &FsEntry) -> (r: Result<String, FileError>)
    ensures
        match file_name_spec(entry@) {
            Ok(n) => r matches Ok(s) && s@ == n,
            Err(e) => r == Err::<String, FileError>(e),
        },
{
    if !entry.type_ok {
        return Err(FileError::FileTypeError);
    }
    if entry.is_file {
        match &entry.name {
            Some(name) => Ok(name.clone()),
            None => Err(FileError::ReadDirError),
        }
    } else {
        Err(FileError::NotFileError)
    }
}

/// The name an entry contributes to the scan: unreadable entries
/// contribute the empty name, which matches no required file.
pub open spec fn scan_name(e: FsEntryV) -> Seq<char> {
    match file_name_spec(e) {
        Ok(n) => n,
        Err(_) => Seq::empty(),
    }
}

/// Whether some entry contributes exactly `name` to the scan.
pub open spec fn has_file_named(files: Seq<FsEntryV>, name: Seq<char>) -> bool {
    exists|i: int| 0 <= i < files.len() && scan_name(#[trigger] files[i]) == name
}

/// Abstract value of a [`ScannedDir`].
pub ghost struct ScannedDirV {
    pub entry: Option<FsEntryV>,
    pub contents: Option<Seq<FsEntryV>>,
}

/// One candidate preset directory as the walk read it: the directory
/// entry itself (`None` where it could not be read) and the entries
/// inside it (`None` where listing them failed or never happened).
pub struct ScannedDir {
    /// The directory entry itself, where it could be read.
    pub entry: Option<FsEntry>,
    /// The entries inside, where listing them succeeded.
    pub contents: Option<Vec<FsEntry>>,
}

impl View for ScannedDir {
    type V = ScannedDirV;

    open spec fn view(&self) -> ScannedDirV {
        ScannedDirV {
            entry: match self.entry {
                Some(e) => Some(e@),
                None => None,
            },
            contents: match self.contents {
                Some(v) => Some(v@.map_values(|e: FsEntry| e@)),
                None => None,
            },
        }
    }
}

/// Whether one scanned directory is a preset, and under which name.
pub open spec fn single_preset_spec(d: ScannedDirV) -> Result<Seq<char>, PresetError> {
    match d.entry {
        None => Err(PresetError::ReadFilesError),
        Some(e) => if !e.type_ok {
            Err(PresetError::FileTypeError)
        } else if !e.is_dir {
            Err(PresetError::NotDirError)
        } else {
            match d.contents {
                None => Err(PresetError::ReadFilesError),
                Some(files) => if has_file_named(files, preset_image_name()) && has_file_named(
                    files,
                    preset_config_name(),
                ) {
                    match e.name {
                        Some(n) => Ok(n),
                        None => Err(PresetError::ReadFilesError),
                    }
                } else {
                    Err(PresetError::NotPresetError)
                },
            }
        },
    }
}

/// Whether `a` holds exactly the characters of `b`.
fn str_eq(a: &String, b: &str) -> (r: bool)
    ensures
        r == (a@ == b@),
{
    let owned = String::from_str(b);
    *a == owned
}

/// Decides whether one scanned directory is a preset: the entry must
/// be a readable directory whose listed contents hold both the preset
/// image file and the preset configuration file; the preset is then
/// reported under the directory's name.
#[verifier::loop_isolation(false)]
pub fn get_single_preset(dir: &ScannedDir) -> (r: Result<String, PresetError>)
    ensures
        match single_preset_spec(dir@) {
            Ok(n) => r matches Ok(s) && s@ == n,
            Err(e) => r == Err::<String, PresetError>(e),
        },
{
    let entry = match &dir.entry {
        Some(e) => e,
        None => {
            return Err(PresetError::ReadFilesError);
        },
    };
    if !entry.type_ok {
        return Err(PresetError::FileTypeError);
    }
    if !entry.is_dir {
        return Err(PresetError::NotDirError);
    }
    let files = match &dir.contents {
        Some(files) => files,
        None => {
            return Err(PresetError::ReadFilesError);
        },
    };
    proof {
        reveal_strlit("preset.png");
        reveal_strlit("preset.json");
        assert(preset_image_name().len() != preset_config_name().len());
        assert(preset_image_name().len() > 0);
        assert(preset_config_name().len() > 0);
    }
    let ghost filesv = files@.map_values(|e: FsEntry| e@);
    let mut has_image = false;
    let mut has_config = false;
    let mut i: usize = 0;
    while i < files.len()
        invariant
            i <= files@.len(),
            filesv == files@.map_values(|e: FsEntry| e@),
            has_image == has_file_named(filesv.take(i as int), preset_image_name()),
            has_config == has_file_named(filesv.take(i as int), preset_config_name()),
            !(has_image && has_config),
        decreases files@.len() - i,
    {
        let file_name = match get_file_name(&files[i]) {
            Ok(n) => n,
            Err(_) => String::new(),
        };
        proof {
            assert(filesv[i as int] == files@[i as int]@);
            assert(file_name@ == scan_name(filesv[i as int]));
        }
        if str_eq(&file_name, "preset.png") {
            has_image = true;
        } else if str_eq(&file_name, "preset.json") {
            has_config = true;
        }
        proof {
            assert forall|name: Seq<char>|
                has_file_named(filesv.take(i + 1), name) == (has_file_named(
                    filesv.take(i as int),
                    name,
                ) || scan_name(filesv[i as int]) == name) by {
                assert(filesv.take(i + 1)[i as int] == filesv[i as int]);
                if has_file_named(filesv.take(i + 1), name) {
                    let j = choose|j: int|
                        0 <= j < i + 1 && scan_name(#[trigger] filesv.take(i + 1)[j]) == name;
                    if j < i {
                        assert(scan_name(filesv.take(i as int)[j]) == name);
                    } else {
                        assert(scan_name(filesv[i as int]) == name);
                    }
                } else {
                    if has_file_named(filesv.take(i as int), name) {
                        let j = choose|j: int|
                            0 <= j < i && scan_name(#[trigger] filesv.take(i as int)[j]) == name;
                        assert(scan_name(filesv.take(i + 1)[j]) == name);
                    }
                    if scan_name(filesv[i as int]) == name {
                        assert(scan_name(filesv.take(i + 1)[i as int]) == name);
                    }
                }
            }
        }
        if has_image && has_config {
            proof {
                assert(has_file_named(filesv, preset_image_name())) by {
                    let j = choose|j: int|
                        0 <= j < i + 1 && scan_name(#[trigger] filesv.take(i + 1)[j])
                            == preset_image_name();
                    assert(scan_name(filesv[j]) == preset_image_name());
                }
                assert(has_file_named(filesv, preset_config_name())) by {
                    let j = choose|j: int|
                        0 <= j < i + 1 && scan_name(#[trigger] filesv.take(i + 1)[j])
                            == preset_config_name();
                    assert(scan_name(filesv[j]) == preset_config_name());
                }
            }
            return match &entry.name {
                Some(name) => Ok(name.clone()),
                None => Err(PresetError::ReadFilesError),
            };
        }
        i = i + 1;
    }
    proof {
        assert(filesv.take(filesv.len() as int) =~= filesv);
    }
    Err(PresetError::NotPresetError)
}

/// The names of the presets among `dirs`, in order.
pub open spec fn presets_spec(dirs: Seq<ScannedDirV>) -> Seq<Seq<char>>
    decreases dirs.len(),
{
    if dirs.len() == 0 {
        Seq::empty()
    } else {
        let rest = presets_spec(dirs.drop_last());
        match single_preset_spec(dirs.last()) {
            Ok(n) => rest.push(n),
            Err(_) => rest,
        }
    }
}

/// Collects the preset names among the scanned directories, in order;
/// directories that are no presets are skipped, not errors. `None`
/// stands for a preset root that could not be resolved or listed, which
/// yields the empty list.
pub fn get_presets(dirs: Option<&Vec<ScannedDir>>) -> (r: Vec<String>)
    ensures
        match dirs {
            Some(ds) => r@.map_values(|s: String| s@) == presets_spec(
                ds@.map_values(|d: ScannedDir| d@),
            ),
            None => r@.len() == 0,
        },
{
    let mut preset_list: Vec<String> = Vec::new();
    let ds = match dirs {
        Some(ds) => ds,
        None => {
            return preset_list;
        },
    };
    let ghost dsv = ds@.map_values(|d: ScannedDir| d@);
    let mut i: usize = 0;
    while i < ds.len()
        invariant
            i <= ds@.len(),
            dsv == ds@.map_values(|d: ScannedDir| d@),
            preset_list@.map_values(|s: String| s@) == presets_spec(dsv.take(i as int)),
        decreases ds@.len() - i,
    {
        proof {
            assert(dsv[i as int] == ds@[i as int]@);
            assert(dsv.take(i + 1).drop_last() =~= dsv.take(i as int));
            assert(dsv.take(i + 1).last() == dsv[i as int]);
        }
        match get_single_preset(&ds[i]) {
            Ok(name) => {
                preset_list.push(name);
                proof {
                    assert(preset_list@.map_values(|s: String| s@) =~= presets_spec(
                        dsv.take(i + 1),
                    ));
                }
            },
            Err(_) => {},
        }
        i = i + 1;
    }
    proof {
        assert(dsv.take(dsv.len() as int) =~= dsv);
    }
    preset_list
}

} // verus!
