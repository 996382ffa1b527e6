//! The check for the files that the tool needs, and how its result is kept.

use vstd::prelude::*;
use crate::text::{ends_with, has_suffix, to_chars};

verus! {

/// Seconds for which a successful check stays on display.
pub const SUCCESS_TRANSITION_DELAY: u64 = 1;

/// How many files the tool needs.
pub const REQUIRED_FILE_COUNT: usize = 23;

#[derive(Debug, PartialEq, Eq)]
pub struct FileCheckResult {
    pub missing_files: Vec<String>,
    pub error_count: usize,
}

pub struct FileCheckResultView {
    pub missing_files: Seq<Seq<char>>,
    pub error_count: usize,
}

impl View for FileCheckResult {
    type V = FileCheckResultView;

    open spec fn view(&self) -> FileCheckResultView {
        FileCheckResultView {
            missing_files: self.missing_files@.map_values(|f: String| f@),
            error_count: self.error_count,
        }
    }
}

impl Clone for FileCheckResult {
    fn clone(&self) -> (r: Self)
        ensures
            r@ == self@,
    {
        let mut missing: Vec<String> = Vec::new();
        let mut i: usize = 0;
        while i < self.missing_files.len()
            invariant
                i <= self.missing_files.len(),
                missing@ == self.missing_files@.take(i as int),
            decreases self.missing_files.len() - i,
        {
            missing.push(self.missing_files[i].clone());
            i += 1;
        }
        assert(missing@ =~= self.missing_files@);
        FileCheckResult { missing_files: missing, error_count: self.error_count }
    }
}

/// Where the check stands.
#[derive(Debug, PartialEq, Eq)]
pub enum CheckStatus {
    NotStarted,
    /// This file is being looked for.
    Checking(String),
    Complete(FileCheckResult),
    /// Every file was found; the clock read this many milliseconds then.
    Success(u64),
    /// The success has been on display for long enough.
    ReadyToTransition,
}

pub enum CheckStatusView {
    NotStarted,
    Checking(Seq<char>),
    Complete(FileCheckResultView),
    Success(u64),
    ReadyToTransition,
}

impl View for CheckStatus {
    type V = CheckStatusView;

    open spec fn view(&self) -> CheckStatusView {
        match self {
            CheckStatus::NotStarted => CheckStatusView::NotStarted,
            CheckStatus::Checking(file) => CheckStatusView::Checking(file@),
            CheckStatus::Complete(result) => CheckStatusView::Complete(result@),
            CheckStatus::Success(at) => CheckStatusView::Success(*at),
            CheckStatus::ReadyToTransition => CheckStatusView::ReadyToTransition,
        }
    }
}

impl Clone for CheckStatus {
    fn clone(&self) -> (r: Self)
        ensures
            r@ == self@,
    {
        match self {
            CheckStatus::NotStarted => CheckStatus::NotStarted,
            CheckStatus::Checking(file) => CheckStatus::Checking(file.clone()),
            CheckStatus::Complete(result) => CheckStatus::Complete(result.clone()),
            CheckStatus::Success(at) => CheckStatus::Success(*at),
            CheckStatus::ReadyToTransition => CheckStatus::ReadyToTransition,
        }
    }
}

/// The files that the tool needs, relative to its directory.
pub open spec fn required_files() -> Seq<Seq<char>> {
    seq![
        "OpenOCD/openocd-347.exe"@,
        "OpenOCD/openocd.exe"@,
        "OpenOCD/cygwin1.dll"@,
        "OpenOCD/cygusb-1.0.dll"@,
        "OpenOCD/libftdi1.dll"@,
        "OpenOCD/libgcc_s_sjlj-1.dll"@,
        "OpenOCD/libhidapi-0.dll"@,
        "OpenOCD/libusb-1.0.dll"@,
        "OpenOCD/libwinpthread-1.dll"@,
        "OpenOCD/libftdi1-config"@,
        "OpenOCD/bit/bscan_spi_xc7a35t.bit"@,
        "OpenOCD/bit/bscan_spi_xc7a75t.bit"@,
        "OpenOCD/bit/bscan_spi_xc7a100t.bit"@,
        "OpenOCD/flash/xc7a35T.cfg"@,
        "OpenOCD/flash/xc7a75T.cfg"@,
        "OpenOCD/flash/xc7a100T.cfg"@,
        "OpenOCD/flash/xc7a35T_rs232.cfg"@,
        "OpenOCD/flash/xc7a75T_rs232.cfg"@,
        "OpenOCD/flash/xc7a100T_rs232.cfg"@,
        "OpenOCD/DNA/init_347.cfg"@,
        "OpenOCD/DNA/init_232_35t.cfg"@,
        "OpenOCD/DNA/init_232_75t.cfg"@,
        "OpenOCD/DNA/init_232_100t.cfg"@,
    ]
}

/// The files of `names` that are not present, in the order of `names`;
/// a file without an entry in `present` counts as missing.
pub open spec fn missing_among(names: Seq<Seq<char>>, present: Seq<bool>) -> Seq<Seq<char>>
    decreases names.len(),
{
    if names.len() == 0 {
        Seq::empty()
    } else {
        let rest = missing_among(names.drop_last(), present);
        let last = names.len() - 1;
        if last < present.len() && present[last] {
            rest
        } else {
            rest.push(names.last())
        }
    }
}

/// The files that the tool needs, in the order in which they are checked.
pub fn required_file_list() -> (files: Vec<&'static str>)
    ensures
        files@.map_values(|f: &str| f@) == required_files(),
        files@.len() == REQUIRED_FILE_COUNT,
{
    let mut files: Vec<&'static str> = Vec::new();
    files.push("OpenOCD/openocd-347.exe");
    files.push("OpenOCD/openocd.exe");
    files.push("OpenOCD/cygwin1.dll");
    files.push("OpenOCD/cygusb-1.0.dll");
    files.push("OpenOCD/libftdi1.dll");
    files.push("OpenOCD/libgcc_s_sjlj-1.dll");
    files.push("OpenOCD/libhidapi-0.dll");
    files.push("OpenOCD/libusb-1.0.dll");
    files.push("OpenOCD/libwinpthread-1.dll");
    files.push("OpenOCD/libftdi1-config");
    files.push("OpenOCD/bit/bscan_spi_xc7a35t.bit");
    files.push("OpenOCD/bit/bscan_spi_xc7a75t.bit");
    files.push("OpenOCD/bit/bscan_spi_xc7a100t.bit");
    files.push("OpenOCD/flash/xc7a35T.cfg");
    files.push("OpenOCD/flash/xc7a75T.cfg");
    files.push("OpenOCD/flash/xc7a100T.cfg");
    files.push("OpenOCD/flash/xc7a35T_rs232.cfg");
    files.push("OpenOCD/flash/xc7a75T_rs232.cfg");
    files.push("OpenOCD/flash/xc7a100T_rs232.cfg");
    files.push("OpenOCD/DNA/init_347.cfg");
    files.push("OpenOCD/DNA/init_232_35t.cfg");
    files.push("OpenOCD/DNA/init_232_75t.cfg");
    files.push("OpenOCD/DNA/init_232_100t.cfg");
    assert(files@.map_values(|f: &str| f@) =~= required_files());
    files
}

/// The result of a check, given for each required file, in order, whether
/// it was found.
pub fn perform_file_check(present: &[bool]) -> (result: FileCheckResult)
    ensures
        result@.missing_files == missing_among(required_files(), present@),
        result@.error_count == result@.missing_files.len(),
        result@.error_count <= REQUIRED_FILE_COUNT,
{
    let names = required_file_list();
    let ghost all = names@.map_values(|f: &str| f@);
    let mut missing: Vec<String> = Vec::new();
    let mut i: usize = 0;
    assert(all.take(0) =~= Seq::<Seq<char>>::empty());
    while i < names.len()
        invariant
            i <= names.len(),
            all == names@.map_values(|f: &str| f@),
            missing@.map_values(|f: String| f@) == missing_among(all.take(i as int), present@),
            missing@.len() <= i,
        decreases names.len() - i,
    {
        let found = i < present.len() && present[i];
        proof {
            assert(all.take(i + 1).drop_last() =~= all.take(i as int));
            assert(all.take(i + 1).last() == names@[i as int]@);
        }
        if !found {
            missing.push(names[i].to_owned());
            assert(missing@.map_values(|f: String| f@) =~= missing_among(
                all.take(i as int),
                present@,
            ).push(names@[i as int]@));
        }
        i += 1;
    }
    assert(all.take(i as int) =~= all);
    let error_count = missing.len();
    FileCheckResult { missing_files: missing, error_count }
}

pub struct FileChecker {
    pub status: CheckStatus,
}

impl FileChecker {
    pub fn new() -> (checker: FileChecker)
        ensures
            checker.status@ is NotStarted,
    {
        FileChecker { status: CheckStatus::NotStarted }
    }

    pub fn get_status(&self) -> (status: CheckStatus)
        ensures
            status@ == self.status@,
    {
        self.status.clone()
    }

    /// The status, to be replaced in place.
    pub fn get_status_mut(&mut self) -> (status: &mut CheckStatus)
        ensures
            *status == old(self).status,
            final(self).status == *final(status),
    {
        &mut self.status
    }

    /// Notes that the required file at `index` is being looked for; an
    /// index past the last required file changes nothing.
    pub fn note_checking(&mut self, index: usize)
        ensures
            final(self).status@ == (if index < REQUIRED_FILE_COUNT {
                CheckStatusView::Checking(required_files()[index as int])
            } else {
                old(self).status@
            }),
    {
        let names = required_file_list();
        if index < names.len() {
            assert(names@.map_values(|f: &str| f@)[index as int] == names@[index as int]@);
            self.status = CheckStatus::Checking(names[index].to_owned());
        }
    }

    /// Ends the check, given for each required file whether it was found.
    pub fn finish_check(&mut self, present: &[bool])
        ensures
            final(self).status@ matches CheckStatusView::Complete(result) && result.missing_files
                == missing_among(required_files(), present@) && result.error_count
                == result.missing_files.len(),
    {
        self.status = CheckStatus::Complete(perform_file_check(present));
    }
}

/// The kind of a required file, by its extension.
#[derive(Clone, Copy, Debug, PartialEq, Eq, Structural)]
pub enum FileKind {
    Executable,
    Library,
    Bitstream,
    Config,
    Other,
}

pub open spec fn kind_of(file: Seq<char>) -> FileKind {
    if ends_with(file, ".exe"@) {
        FileKind::Executable
    } else if ends_with(file, ".dll"@) {
        FileKind::Library
    } else if ends_with(file, ".bit"@) {
        FileKind::Bitstream
    } else if ends_with(file, ".cfg"@) {
        FileKind::Config
    } else {
        FileKind::Other
    }
}

/// The files of `files` that are of kind `kind`, in their order.
pub open spec fn of_kind(files: Seq<Seq<char>>, kind: FileKind) -> Seq<Seq<char>>
    decreases files.len(),
{
    if files.len() == 0 {
        Seq::empty()
    } else {
        let rest = of_kind(files.drop_last(), kind);
        if kind_of(files.last()) == kind {
            rest.push(files.last())
        } else {
            rest
        }
    }
}

/// Tells the kind of a file from its extension.
pub fn file_kind(file: &str) -> (kind: FileKind)
    ensures
        kind == kind_of(file@),
{
    let chars = to_chars(file);
    let name = chars.as_slice();
    if has_suffix(name, ".exe") {
        FileKind::Executable
    } else if has_suffix(name, ".dll") {
        FileKind::Library
    } else if has_suffix(name, ".bit") {
        FileKind::Bitstream
    } else if has_suffix(name, ".cfg") {
        FileKind::Config
    } else {
        FileKind::Other
    }
}

/// Files sorted into kinds, each group in the order of the input.
#[derive(Debug, PartialEq, Eq)]
pub struct FileGroups {
    pub executables: Vec<String>,
    pub libraries: Vec<String>,
    pub bitstreams: Vec<String>,
    pub configs: Vec<String>,
    pub others: Vec<String>,
}

/// Sorts files into kinds by their extension.
pub fn group_files(files: &[String]) -> (groups: FileGroups)
    ensures
        ({
            let all = files@.map_values(|f: String| f@);
            &&& groups.executables@.map_values(|f: String| f@) == of_kind(all, FileKind::Executable)
            &&& groups.libraries@.map_values(|f: String| f@) == of_kind(all, FileKind::Library)
            &&& groups.bitstreams@.map_values(|f: String| f@) == of_kind(all, FileKind::Bitstream)
            &&& groups.configs@.map_values(|f: String| f@) == of_kind(all, FileKind::Config)
            &&& groups.others@.map_values(|f: String| f@) == of_kind(all, FileKind::Other)
        }),
{
    let ghost all = files@.map_values(|f: String| f@);
    let mut groups = FileGroups {
        executables: Vec::new(),
        libraries: Vec::new(),
        bitstreams: Vec::new(),
        configs: Vec::new(),
        others: Vec::new(),
    };
    let mut i: usize = 0;
    assert(all.take(0) =~= Seq::<Seq<char>>::empty());
    assert(groups.executables@.map_values(|f: String| f@) =~= Seq::<Seq<char>>::empty());
    assert(groups.libraries@.map_values(|f: String| f@) =~= Seq::<Seq<char>>::empty());
    assert(groups.bitstreams@.map_values(|f: String| f@) =~= Seq::<Seq<char>>::empty());
    assert(groups.configs@.map_values(|f: String| f@) =~= Seq::<Seq<char>>::empty());
    assert(groups.others@.map_values(|f: String| f@) =~= Seq::<Seq<char>>::empty());
    while i < files.len()
        invariant
            i <= files.len(),
            all == files@.map_values(|f: String| f@),
            groups.executables@.map_values(|f: String| f@) == of_kind(
                all.take(i as int),
                FileKind::Executable,
            ),
            groups.libraries@.map_values(|f: String| f@) == of_kind(
                all.take(i as int),
                FileKind::Library,
            ),
            groups.bitstreams@.map_values(|f: String| f@) == of_kind(
                all.take(i as int),
                FileKind::Bitstream,
            ),
            groups.configs@.map_values(|f: String| f@) == of_kind(
                all.take(i as int),
                FileKind::Config,
            ),
            groups.others@.map_values(|f: String| f@) == of_kind(all.take(i as int), FileKind::Other),
        decreases files.len() - i,
    {
        let file = files[i].clone();
        let kind = file_kind(file.as_str());
        proof {
            assert(all.take(i + 1).drop_last() =~= all.take(i as int));
            assert(all.take(i + 1).last() == files@[i as int]@);
        }
        let ghost before = groups;
        match kind {
            FileKind::Executable => {
                groups.executables.push(file);
                assert(groups.executables@.map_values(|f: String| f@)
                    =~= before.executables@.map_values(|f: String| f@).push(file@));
            },
            FileKind::Library => {
                groups.libraries.push(file);
                assert(groups.libraries@.map_values(|f: String| f@)
                    =~= before.libraries@.map_values(|f: String| f@).push(file@));
            },
            FileKind::Bitstream => {
                groups.bitstreams.push(file);
                assert(groups.bitstreams@.map_values(|f: String| f@)
                    =~= before.bitstreams@.map_values(|f: String| f@).push(file@));
            },
            FileKind::Config => {
                groups.configs.push(file);
                assert(groups.configs@.map_values(|f: String| f@)
                    =~= before.configs@.map_values(|f: String| f@).push(file@));
            },
            FileKind::Other => {
                groups.others.push(file);
                assert(groups.others@.map_values(|f: String| f@) =~= before.others@.map_values(
                    |f: String| f@,
                ).push(file@));
            },
        }
        i += 1;
    }
    assert(all.take(i as int) =~= all);
    groups
}

} // verus!
