//! The firmware images on offer: one per file name, in name order, and the
//! one that was chosen.

use vstd::prelude::*;
use crate::text::{ends_with, has_suffix, slice_range, to_chars};

verus! {

pub open spec fn is_separator(c: char) -> bool {
    c == '/' || c == '\\'
}

/// The index at which the file name of a path begins: after its last
/// separator.
pub open spec fn name_start(path: Seq<char>) -> int
    decreases path.len(),
{
    if path.len() == 0 {
        0
    } else if is_separator(path.last()) {
        path.len() as int
    } else {
        name_start(path.drop_last())
    }
}

/// What follows the last separator of a path.
#[verifier::opaque]
pub open spec fn file_name(path: Seq<char>) -> Seq<char> {
    path.subrange(name_start(path), path.len() as int)
}

/// `a` comes before `b` in the order of dictionaries, from index `i` on.
pub open spec fn precedes_from(a: Seq<char>, b: Seq<char>, i: int) -> bool
    decreases a.len() - i,
{
    if i < 0 || i >= b.len() {
        false
    } else if i >= a.len() {
        true
    } else if a[i] != b[i] {
        a[i] < b[i]
    } else {
        precedes_from(a, b, i + 1)
    }
}

/// `a` comes strictly before `b` in the order of dictionaries.
#[verifier::opaque]
pub open spec fn precedes(a: Seq<char>, b: Seq<char>) -> bool {
    precedes_from(a, b, 0)
}

/// `path` is the first of `input` with its file name, at index `i`.
pub open spec fn is_first_of_name(input: Seq<Seq<char>>, i: int, path: Seq<char>) -> bool {
    &&& 0 <= i < input.len()
    &&& input[i] == path
    &&& forall|j: int| 0 <= j < i ==> file_name(#[trigger] input[j]) != file_name(path)
}

/// The file names of `output` are in strictly ascending order.
pub open spec fn ascending(output: Seq<Seq<char>>) -> bool {
    forall|i: int, j: int|
        0 <= i < j < output.len() ==> precedes(
            file_name(#[trigger] output[i]),
            file_name(#[trigger] output[j]),
        )
}

/// `path` is the first of `input` with its file name.
pub open spec fn is_first(input: Seq<Seq<char>>, path: Seq<char>) -> bool {
    exists|i: int| #[trigger] is_first_of_name(input, i, path)
}

/// Every path of `output` is the first of `input` with its file name.
pub open spec fn keeps_firsts(input: Seq<Seq<char>>, output: Seq<Seq<char>>) -> bool {
    forall|k: int| 0 <= k < output.len() ==> is_first(input, #[trigger] output[k])
}

/// `output` has a path with the file name `name`.
pub open spec fn has_name(output: Seq<Seq<char>>, name: Seq<char>) -> bool {
    exists|k: int| 0 <= k < output.len() && file_name(#[trigger] output[k]) == name
}

/// Every file name of `input` occurs in `output`.
pub open spec fn keeps_names(input: Seq<Seq<char>>, output: Seq<Seq<char>>) -> bool {
    forall|i: int| 0 <= i < input.len() ==> has_name(output, file_name(#[trigger] input[i]))
}

/// `output` holds, in the order of their file names, the first path of
/// `input` for each file name that occurs in it.
pub open spec fn deduplicated(input: Seq<Seq<char>>, output: Seq<Seq<char>>) -> bool {
    &&& ascending(output)
    &&& keeps_firsts(input, output)
    &&& keeps_names(input, output)
}

/// Nothing comes before itself.
pub proof fn lemma_precedes_irreflexive(a: Seq<char>, i: int)
    requires
        0 <= i,
    ensures
        !precedes_from(a, a, i),
    decreases a.len() - i,
{
    if i < a.len() {
        lemma_precedes_irreflexive(a, i + 1);
    }
}

/// The order is transitive.
pub proof fn lemma_precedes_transitive(a: Seq<char>, b: Seq<char>, c: Seq<char>, i: int)
    requires
        0 <= i,
        precedes_from(a, b, i),
        precedes_from(b, c, i),
    ensures
        precedes_from(a, c, i),
    decreases a.len() - i,
{
    if i < a.len() && i < b.len() && i < c.len() && a[i] == b[i] && b[i] == c[i] {
        lemma_precedes_transitive(a, b, c, i + 1);
    }
}

/// Of two different texts that agree up to `i`, one comes before the other.
pub proof fn lemma_precedes_total(a: Seq<char>, b: Seq<char>, i: int)
    requires
        0 <= i <= a.len(),
        i <= b.len(),
        forall|j: int| 0 <= j < i ==> a[j] == b[j],
        !precedes_from(a, b, i),
        !precedes_from(b, a, i),
    ensures
        a == b,
    decreases a.len() - i,
{
    if i < a.len() && i < b.len() {
        lemma_precedes_total(a, b, i + 1);
    } else {
        assert(a =~= b);
    }
}

/// Nothing comes before itself.
pub proof fn lemma_order_irreflexive(a: Seq<char>)
    ensures
        !precedes(a, a),
{
    reveal(precedes);
    lemma_precedes_irreflexive(a, 0);
}

/// The order is transitive.
pub proof fn lemma_order_transitive(a: Seq<char>, b: Seq<char>, c: Seq<char>)
    requires
        precedes(a, b),
        precedes(b, c),
    ensures
        precedes(a, c),
{
    reveal(precedes);
    lemma_precedes_transitive(a, b, c, 0);
}

/// Of two different texts one comes before the other.
pub proof fn lemma_order_total(a: Seq<char>, b: Seq<char>)
    requires
        !precedes(a, b),
        !precedes(b, a),
    ensures
        a == b,
{
    reveal(precedes);
    lemma_precedes_total(a, b, 0);
}

/// The file name of a path.
pub fn name_of(path: &str) -> (name: Vec<char>)
    ensures
        name@ == file_name(path@),
{
    reveal(file_name);
    let chars = to_chars(path);
    let mut start: usize = chars.len();
    assert(chars@.take(start as int) =~= chars@);
    while start > 0 && chars[start - 1] != '/' && chars[start - 1] != '\\'
        invariant
            start <= chars.len(),
            name_start(chars@) == name_start(chars@.take(start as int)),
        decreases start,
    {
        assert(chars@.take(start as int).drop_last() =~= chars@.take(start - 1));
        start -= 1;
    }
    slice_range(chars.as_slice(), start, chars.len())
}

/// Tests whether `a` comes strictly before `b`.
pub fn comes_before(a: &[char], b: &[char]) -> (r: bool)
    ensures
        r == precedes(a@, b@),
{
    reveal(precedes);
    let mut i: usize = 0;
    while i < a.len() && i < b.len()
        invariant
            i <= a.len(),
            i <= b.len(),
            precedes(a@, b@) == precedes_from(a@, b@, i as int),
        decreases a.len() - i,
    {
        if a[i] != b[i] {
            return a[i] < b[i];
        }
        i += 1;
    }
    i < b.len()
}

/// A path that is the first of its name in a prefix of the input is so in
/// a longer prefix.
proof fn lemma_first_stays(input: Seq<Seq<char>>, n: int, path: Seq<char>)
    requires
        0 <= n < input.len(),
        is_first(input.take(n), path),
    ensures
        is_first(input.take(n + 1), path),
{
    let before = input.take(n);
    let after = input.take(n + 1);
    let i = choose|i: int| #[trigger] is_first_of_name(before, i, path);
    assert forall|j: int| 0 <= j < i implies file_name(#[trigger] after[j]) != file_name(path) by {
        assert(after[j] == before[j]);
    }
    assert(after[i] == before[i]);
    assert(is_first_of_name(after, i, path));
}

/// A further input whose file name is already kept changes nothing.
pub proof fn lemma_skip_keeps(input: Seq<Seq<char>>, n: int, out: Seq<Seq<char>>, p: int)
    requires
        0 <= n < input.len(),
        deduplicated(input.take(n), out),
        0 <= p < out.len(),
        file_name(out[p]) == file_name(input[n]),
    ensures
        deduplicated(input.take(n + 1), out),
{
    let before = input.take(n);
    let after = input.take(n + 1);
    assert forall|k: int| 0 <= k < out.len() implies is_first(after, #[trigger] out[k]) by {
        lemma_first_stays(input, n, out[k]);
    }
    assert forall|i: int| 0 <= i < after.len() implies has_name(
        out,
        file_name(#[trigger] after[i]),
    ) by {
        if i < n {
            assert(after[i] == before[i]);
        } else {
            assert(after[i] == input[n]);
            assert(has_name(out, file_name(out[p])));
        }
    }
}

/// Where a new name stands between its neighbours, the names stay in
/// ascending order.
proof fn lemma_insert_ascending(out: Seq<Seq<char>>, p: int, path: Seq<char>)
    requires
        ascending(out),
        0 <= p <= out.len(),
        forall|q: int| 0 <= q < p ==> precedes(file_name(#[trigger] out[q]), file_name(path)),
        forall|q: int| p <= q < out.len() ==> precedes(file_name(path), file_name(#[trigger] out[q])),
    ensures
        ascending(out.insert(p, path)),
{
    let grown = out.insert(p, path);
    assert forall|i: int, j: int| 0 <= i < j < grown.len() implies precedes(
        file_name(#[trigger] grown[i]),
        file_name(#[trigger] grown[j]),
    ) by {
        let a = if i < p {
            i
        } else {
            i - 1
        };
        let b = if j < p {
            j
        } else {
            j - 1
        };
        if i == p {
            assert(grown[i] == path);
            assert(grown[j] == out[b]);
        } else if j == p {
            assert(grown[j] == path);
            assert(grown[i] == out[a]);
        } else {
            assert(grown[i] == out[a]);
            assert(grown[j] == out[b]);
        }
    }
}

/// A further input with a new file name is kept at the place that the
/// order gives it.
pub proof fn lemma_insert_keeps(
    input: Seq<Seq<char>>,
    n: int,
    out: Seq<Seq<char>>,
    p: int,
    path: Seq<char>,
)
    requires
        0 <= n < input.len(),
        path == input[n],
        deduplicated(input.take(n), out),
        0 <= p <= out.len(),
        forall|q: int| 0 <= q < p ==> precedes(file_name(#[trigger] out[q]), file_name(path)),
        p == out.len() || precedes(file_name(path), file_name(out[p])),
    ensures
        deduplicated(input.take(n + 1), out.insert(p, path)),
{
    let before = input.take(n);
    let after = input.take(n + 1);
    let grown = out.insert(p, path);
    let name = file_name(path);
    assert forall|q: int| p <= q < out.len() implies precedes(name, file_name(#[trigger] out[q])) by {
        if q > p {
            assert(precedes(file_name(out[p]), file_name(out[q])));
            lemma_order_transitive(name, file_name(out[p]), file_name(out[q]));
        }
    }
    lemma_order_irreflexive(name);
    lemma_insert_ascending(out, p, path);
    assert forall|k: int| 0 <= k < grown.len() implies is_first(after, #[trigger] grown[k]) by {
        if k == p {
            assert forall|j: int| 0 <= j < n implies file_name(#[trigger] after[j]) != name by {
                assert(after[j] == before[j]);
                assert(has_name(out, file_name(before[j])));
            }
            assert(after[n] == path);
            assert(is_first_of_name(after, n, grown[k]));
        } else {
            let q = if k < p {
                k
            } else {
                k - 1
            };
            assert(grown[k] == out[q]);
            lemma_first_stays(input, n, out[q]);
        }
    }
    assert forall|i: int| 0 <= i < after.len() implies has_name(
        grown,
        file_name(#[trigger] after[i]),
    ) by {
        if i < n {
            assert(after[i] == before[i]);
            assert(has_name(out, file_name(before[i])));
            let q = choose|q: int|
                0 <= q < out.len() && file_name(#[trigger] out[q]) == file_name(before[i]);
            let k = if q < p {
                q
            } else {
                q + 1
            };
            assert(grown[k] == out[q]);
        } else {
            assert(after[i] == path);
            assert(grown[p] == path);
        }
    }
}

/// A firmware image is a file whose name has the extension `bin`.
pub open spec fn is_firmware_name(name: Seq<char>) -> bool {
    name.len() > 4 && ends_with(name, ".bin"@)
}

/// Tests whether the file at `path` is a firmware image by its name.
pub fn is_firmware_file(path: &str) -> (b: bool)
    ensures
        b == is_firmware_name(file_name(path@)),
{
    let name = name_of(path);
    name.len() > 4 && has_suffix(name.as_slice(), ".bin")
}

/// The directories in which firmware images are looked for: the working
/// directory, the directory of the executable, and a few customary ones;
/// with `include_build_dirs`, where a build leaves its output as well.
pub open spec fn search_dirs(exe_dir: Seq<char>, include_build_dirs: bool) -> Seq<Seq<char>> {
    let usual = seq!["."@, exe_dir, "resources"@, "bin"@, "firmware"@, "fw"@];
    if include_build_dirs {
        usual + seq!["target/debug"@, exe_dir + "/../"@]
    } else {
        usual
    }
}

pub struct FirmwareManagerView {
    pub files: Seq<Seq<char>>,
    pub selected_index: Option<usize>,
    pub scan_count: usize,
    pub cleanup_enabled: bool,
}

/// The choice after a scan that found `count` images: a single image is
/// chosen by itself, and an earlier choice stays only while it names one of
/// the images.
pub open spec fn selection_after_scan(selected: Option<usize>, count: nat) -> Option<usize> {
    if count == 1 {
        Some(0usize)
    } else {
        match selected {
            Some(i) => if i < count {
                Some(i)
            } else {
                None
            },
            None => None,
        }
    }
}

pub struct FirmwareManager {
    firmware_files: Vec<String>,
    selected_index: Option<usize>,
    scan_count: usize,
    cleanup_enabled: bool,
}

impl View for FirmwareManager {
    type V = FirmwareManagerView;

    closed spec fn view(&self) -> FirmwareManagerView {
        FirmwareManagerView {
            files: self.firmware_files@.map_values(|f: String| f@),
            selected_index: self.selected_index,
            scan_count: self.scan_count,
            cleanup_enabled: self.cleanup_enabled,
        }
    }
}

impl FirmwareManager {
    pub fn new() -> (manager: FirmwareManager)
        ensures
            manager@ == (FirmwareManagerView {
                files: Seq::empty(),
                selected_index: None,
                scan_count: 0,
                cleanup_enabled: false,
            }),
    {
        let manager = FirmwareManager {
            firmware_files: Vec::new(),
            selected_index: None,
            scan_count: 0,
            cleanup_enabled: false,
        };
        assert(manager.firmware_files@.map_values(|f: String| f@) =~= Seq::empty());
        manager
    }

    /// Takes the images that a scan of the search directories found, in
    /// the order in which it found them.
    pub fn scan_firmware_files(&mut self, found: &Vec<String>)
        ensures
            deduplicated(found@.map_values(|f: String| f@), final(self)@.files),
            final(self)@.selected_index == selection_after_scan(
                old(self)@.selected_index,
                final(self)@.files.len(),
            ),
            final(self)@.scan_count == (if old(self)@.scan_count < usize::MAX {
                (old(self)@.scan_count + 1) as usize
            } else {
                old(self)@.scan_count
            }),
            final(self)@.cleanup_enabled == old(self)@.cleanup_enabled,
    {
        self.firmware_files = FirmwareManager::deduplicate_firmware_files(found);
        if self.scan_count < usize::MAX {
            self.scan_count = self.scan_count + 1;
        }
        if self.firmware_files.len() == 1 {
            self.selected_index = Some(0);
        } else {
            let keep = match self.selected_index {
                Some(i) => i < self.firmware_files.len(),
                None => false,
            };
            if !keep {
                self.selected_index = None;
            }
        }
    }

    /// Keeps, in the order of their file names, the first image for each
    /// file name.
    pub fn deduplicate_firmware_files(files: &Vec<String>) -> (kept: Vec<String>)
        ensures
            deduplicated(files@.map_values(|f: String| f@), kept@.map_values(|f: String| f@)),
    {
        let ghost input = files@.map_values(|f: String| f@);
        let mut kept: Vec<String> = Vec::new();
        let mut names: Vec<Vec<char>> = Vec::new();
        let mut n: usize = 0;
        while n < files.len()
            invariant
                n <= files.len(),
                input == files@.map_values(|f: String| f@),
                names@.len() == kept@.len(),
                forall|k: int|
                    0 <= k < kept@.len() ==> (#[trigger] names@[k])@ == file_name(kept@[k]@),
                deduplicated(input.take(n as int), kept@.map_values(|f: String| f@)),
            decreases files.len() - n,
        {
            let path = files[n].clone();
            let name = name_of(path.as_str());
            let ghost out = kept@.map_values(|f: String| f@);
            let mut p: usize = 0;
            while p < names.len() && comes_before(names[p].as_slice(), name.as_slice())
                invariant
                    p <= names@.len(),
                    names@.len() == kept@.len(),
                    out == kept@.map_values(|f: String| f@),
                    forall|k: int|
                        0 <= k < kept@.len() ==> (#[trigger] names@[k])@ == file_name(kept@[k]@),
                    forall|q: int| 0 <= q < p ==> precedes(file_name(#[trigger] out[q]), name@),
                decreases names@.len() - p,
            {
                p += 1;
            }
            let duplicate = p < names.len() && !comes_before(name.as_slice(), names[p].as_slice());
            if duplicate {
                proof {
                    lemma_order_total(name@, names@[p as int]@);
                    lemma_skip_keeps(input, n as int, out, p as int);
                }
            } else {
                proof {
                    lemma_insert_keeps(input, n as int, out, p as int, path@);
                }
                kept.insert(p, path);
                names.insert(p, name);
                assert(kept@.map_values(|f: String| f@) =~= out.insert(p as int, path@));
            }
            n += 1;
        }
        assert(input.take(n as int) =~= input);
        kept
    }

    pub fn get_firmware_files(&self) -> (files: &Vec<String>)
        ensures
            files@.map_values(|f: String| f@) == self@.files,
    {
        &self.firmware_files
    }

    /// Chooses the image at `index` and returns its path; an index past the
    /// last image changes nothing.
    pub fn select_firmware(&mut self, index: usize) -> (chosen: Option<String>)
        ensures
            index < old(self)@.files.len() ==> ({
                &&& chosen matches Some(path)
                &&& path@ == old(self)@.files[index as int]
                &&& final(self)@ == (FirmwareManagerView {
                    selected_index: Some(index),
                    ..old(self)@
                })
            }),
            index >= old(self)@.files.len() ==> chosen is None && final(self)@ == old(self)@,
    {
        if index < self.firmware_files.len() {
            self.selected_index = Some(index);
            Some(self.firmware_files[index].clone())
        } else {
            None
        }
    }

    /// The image that was chosen, if one was and it is still on offer.
    pub fn get_selected_firmware(&self) -> (chosen: Option<&String>)
        ensures
            match chosen {
                Some(path) => ({
                    &&& self@.selected_index matches Some(i)
                    &&& i < self@.files.len()
                    &&& path@ == self@.files[i as int]
                }),
                None => !({
                    &&& self@.selected_index matches Some(i)
                    &&& i < self@.files.len()
                }),
            },
    {
        match self.selected_index {
            Some(i) => {
                if i < self.firmware_files.len() {
                    Some(&self.firmware_files[i])
                } else {
                    None
                }
            },
            None => None,
        }
    }

    pub fn get_scan_count(&self) -> (count: usize)
        ensures
            count == self@.scan_count,
    {
        self.scan_count
    }

    pub fn get_cleanup_enabled(&self) -> (enabled: bool)
        ensures
            enabled == self@.cleanup_enabled,
    {
        self.cleanup_enabled
    }

    pub fn set_cleanup_enabled(&mut self, enabled: bool)
        ensures
            final(self)@ == (FirmwareManagerView { cleanup_enabled: enabled, ..old(self)@ }),
    {
        self.cleanup_enabled = enabled;
    }

    /// The directories in which firmware images are looked for.
    pub fn create_search_dirs(&self, exe_dir: &str, include_build_dirs: bool) -> (dirs: Vec<
        String,
    >)
        ensures
            dirs@.map_values(|d: String| d@) == search_dirs(exe_dir@, include_build_dirs),
    {
        let mut dirs: Vec<String> = Vec::new();
        dirs.push(String::from_str("."));
        dirs.push(String::from_str(exe_dir));
        dirs.push(String::from_str("resources"));
        dirs.push(String::from_str("bin"));
        dirs.push(String::from_str("firmware"));
        dirs.push(String::from_str("fw"));
        if include_build_dirs {
            dirs.push(String::from_str("target/debug"));
            let mut parent = String::from_str(exe_dir);
            parent.append("/../");
            dirs.push(parent);
        }
        assert(dirs@.map_values(|d: String| d@) =~= search_dirs(exe_dir@, include_build_dirs));
        dirs
    }
}

} // verus!
