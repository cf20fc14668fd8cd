//! The editor workspace descriptor: which folders to show, and which cached
//! packages to hide because the project does not use them.
use vstd::prelude::*;

use crate::config::{Cargo, CargoLock, Package};

verus! {

/// The directory name of a package in the package cache: `<name>-<version>`.
pub open spec fn dir_name(p: (Seq<char>, Seq<char>)) -> Seq<char> {
    p.0 + "-"@ + p.1
}

/// The cache directory names of the packages that a lock file lists.
pub open spec fn lock_dirs(lock: Option<Seq<(Seq<char>, Seq<char>)>>) -> Seq<Seq<char>> {
    match lock {
        Some(ps) => ps.map_values(|p: (Seq<char>, Seq<char>)| dir_name(p)),
        None => Seq::empty(),
    }
}

pub open spec fn names(v: Seq<String>) -> Seq<Seq<char>> {
    v.map_values(|s: String| s@)
}

/// The entries of a cache listing that no package of the lock file uses.
pub open spec fn unused(listing: Seq<Seq<char>>, lock: Option<Seq<(Seq<char>, Seq<char>)>>) -> Set<
    Seq<char>,
> {
    listing.to_set().filter(|e: Seq<char>| !lock_dirs(lock).contains(e))
}

/// The keys of a file-exclude mapping.
pub open spec fn exclude_keys(x: Seq<(String, bool)>) -> Seq<Seq<char>> {
    x.map_values(|e: (String, bool)| e.0@)
}

/// `x` is, as a mapping, exactly `keys` each mapped to `true`.
pub open spec fn excludes_exactly(x: Seq<(String, bool)>, keys: Set<Seq<char>>) -> bool {
    &&& exclude_keys(x).no_duplicates()
    &&& forall|j: int| 0 <= j < x.len() ==> (#[trigger] x[j]).1
    &&& exclude_keys(x).to_set() == keys
}

impl Package {
    /// The name of this package's directory in the package cache.
    pub fn dir_name(&self) -> (r: String)
        ensures
            r@ == dir_name(self@),
    {
        self.name.clone().concat("-").concat(self.version.as_str())
    }
}

impl CargoLock {
    /// The cache directory names of the listed packages, in order.
    pub fn dir_names(&self) -> (r: Vec<String>)
        ensures
            names(r@) == lock_dirs(self@),
    {
        let mut out: Vec<String> = Vec::new();
        match &self.package {
            None => {},
            Some(pkgs) => {
                let mut i: usize = 0;
                while i < pkgs.len()
                    invariant
                        self@ == Some(pkgs@.map_values(|p: Package| p@)),
                        i <= pkgs@.len(),
                        out@.len() == i,
                        forall|j: int| 0 <= j < i ==> (#[trigger] out@[j])@ == dir_name(pkgs@[j]@),
                    decreases pkgs@.len() - i,
                {
                    out.push(pkgs[i].dir_name());
                    i = i + 1;
                }
            },
        }
        assert(names(out@) =~= lock_dirs(self@));
        out
    }
}

fn contains(v: &Vec<String>, s: &String) -> (r: bool)
    ensures
        r == names(v@).contains(s@),
{
    let mut i: usize = 0;
    while i < v.len()
        invariant
            i <= v@.len(),
            forall|j: int| 0 <= j < i ==> (#[trigger] v@[j])@ != s@,
        decreases v@.len() - i,
    {
        if v[i] == *s {
            assert(names(v@)[i as int] == s@);
            return true;
        }
        i = i + 1;
    }
    assert(!names(v@).contains(s@)) by {
        if names(v@).contains(s@) {
            let j = choose|j: int| 0 <= j < names(v@).len() && names(v@)[j] == s@;
            assert(v@[j]@ == s@);
        }
    }
    false
}

fn has_key(x: &Vec<(String, bool)>, s: &String) -> (r: bool)
    ensures
        r == exclude_keys(x@).contains(s@),
{
    let mut i: usize = 0;
    while i < x.len()
        invariant
            i <= x@.len(),
            forall|j: int| 0 <= j < i ==> (#[trigger] x@[j]).0@ != s@,
        decreases x@.len() - i,
    {
        if x[i].0 == *s {
            assert(exclude_keys(x@)[i as int] == s@);
            return true;
        }
        i = i + 1;
    }
    assert(!exclude_keys(x@).contains(s@)) by {
        if exclude_keys(x@).contains(s@) {
            let j = choose|j: int| 0 <= j < exclude_keys(x@).len() && exclude_keys(x@)[j] == s@;
            assert(x@[j].0@ == s@);
        }
    }
    false
}

/// The file-exclude mapping for a cache listing: each entry that is not in
/// `deps`, mapped to `true`.
fn unused_entries(listing: &Vec<String>, deps: &Vec<String>) -> (r: Vec<(String, bool)>)
    ensures
        excludes_exactly(r@, names(listing@).to_set().filter(|e: Seq<char>| !names(deps@).contains(e))),
{
    let ghost want = names(listing@).to_set().filter(|e: Seq<char>| !names(deps@).contains(e));
    let mut out: Vec<(String, bool)> = Vec::new();
    let mut i: usize = 0;
    while i < listing.len()
        invariant
            i <= listing@.len(),
            exclude_keys(out@).no_duplicates(),
            forall|j: int| 0 <= j < out@.len() ==> (#[trigger] out@[j]).1,
            forall|k: Seq<char>|
                exclude_keys(out@).contains(k) <==> (names(listing@).subrange(0, i as int).contains(k)
                    && !names(deps@).contains(k)),
        decreases listing@.len() - i,
    {
        let entry = &listing[i];
        let ghost old_out = out@;
        let ghost prefix = names(listing@).subrange(0, i as int);
        assert(names(listing@)[i as int] == entry@);
        assert(names(listing@).subrange(0, i + 1) =~= names(listing@).subrange(0, i as int).push(entry@));
        if !contains(deps, entry) && !has_key(&out, entry) {
            out.push((entry.clone(), true));
            assert(exclude_keys(out@) =~= exclude_keys(old_out).push(entry@));
        }
        assert forall|k: Seq<char>|
            exclude_keys(out@).contains(k) <==> (prefix.push(entry@).contains(k) && !names(
                deps@,
            ).contains(k)) by {
            if prefix.push(entry@).contains(k) && k != entry@ {
                let j = choose|j: int| 0 <= j < prefix.push(entry@).len() && prefix.push(entry@)[j] == k;
                assert(prefix[j] == k);
            }
            if exclude_keys(out@).contains(k) && k != entry@ {
                let j = choose|j: int| 0 <= j < exclude_keys(out@).len() && exclude_keys(out@)[j] == k;
                assert(exclude_keys(old_out)[j] == k);
            }
            if prefix.contains(k) {
                let j = choose|j: int| 0 <= j < prefix.len() && prefix[j] == k;
                assert(prefix.push(entry@)[j] == k);
            }
            if exclude_keys(old_out).contains(k) {
                let j = choose|j: int| 0 <= j < exclude_keys(old_out).len() && exclude_keys(old_out)[j] == k;
                assert(exclude_keys(out@)[j] == k);
            }
            assert(prefix.push(entry@)[prefix.len() as int] == entry@);
            if out@.len() > old_out.len() {
                assert(exclude_keys(out@)[old_out.len() as int] == entry@);
            }
        }
        i = i + 1;
    }
    assert(names(listing@).subrange(0, listing@.len() as int) =~= names(listing@));
    assert(exclude_keys(out@).to_set() =~= want);
    out
}

/// A folder shown in the editor.
#[derive(Debug, PartialEq, Eq)]
pub struct WorkspaceFolder {
    pub name: String,
    pub path: String,
}

impl View for WorkspaceFolder {
    type V = (Seq<char>, Seq<char>);

    open spec fn view(&self) -> (Seq<char>, Seq<char>) {
        (self.name@, self.path@)
    }
}

/// The editor settings of the workspace.
#[derive(Debug, PartialEq, Eq)]
pub struct WorkspaceSettings {
    /// Paths hidden from the file tree (`files.exclude`), each mapped to
    /// `true`; no path occurs twice.
    pub file_excludes: Option<Vec<(String, bool)>>,
    /// Directories the language server does not load
    /// (`rust-analyzer.files.excludeDirs`).
    pub rust_exclude_dirs: Option<Vec<String>>,
}

/// A workspace descriptor: its folders and its settings.
#[derive(Debug, PartialEq, Eq)]
pub struct Workspace {
    pub folders: Option<Vec<WorkspaceFolder>>,
    pub settings: Option<WorkspaceSettings>,
}

impl Workspace {
    pub open spec fn folders_view(&self) -> Seq<(Seq<char>, Seq<char>)> {
        self.folders->0@.map_values(|f: WorkspaceFolder| f@)
    }

    pub open spec fn excludes_view(&self) -> Seq<(String, bool)> {
        self.settings->0.file_excludes->0@
    }

    pub open spec fn exclude_dirs_view(&self) -> Seq<Seq<char>> {
        names(self.settings->0.rust_exclude_dirs->0@)
    }

    /// All three parts are present.
    pub open spec fn complete(&self) -> bool {
        &&& self.folders is Some
        &&& self.settings is Some
        &&& self.settings->0.file_excludes is Some
        &&& self.settings->0.rust_exclude_dirs is Some
    }

    /// Builds the descriptor for a project with lock file `lock`.
    ///
    /// `rustup` is the standard library's source directory and `registry` the
    /// package cache's source directory; `listing` holds the names of the
    /// entries of `registry`, or is `None` where that directory does not
    /// exist. Then every part of the descriptor is empty. Else it shows the
    /// project itself, the standard library and the cache, hides each cached
    /// package that `lock` does not list, and keeps the language server out
    /// of both directories.
    pub fn from(rustup: &str, registry: &str, listing: Option<Vec<String>>, lock: &CargoLock) -> (r:
        Workspace)
        ensures
            r.complete(),
            r.folders_view().len() > 0 ==> r.folders_view()[0] == (Seq::<char>::empty(), "."@),
            listing is None ==> {
                &&& r.folders_view().len() == 0
                &&& r.excludes_view().len() == 0
                &&& r.exclude_dirs_view().len() == 0
            },
            listing is Some ==> {
                &&& r.folders_view() == seq![
                    (Seq::<char>::empty(), "."@),
                    ("Stdlib"@, rustup@),
                    ("External Libraries"@, registry@),
                ]
                &&& excludes_exactly(r.excludes_view(), unused(names(listing->0@), lock@))
                &&& r.exclude_dirs_view() == seq![registry@, rustup@]
            },
    {
        let mut folders: Vec<WorkspaceFolder> = Vec::new();
        let mut file_excludes: Vec<(String, bool)> = Vec::new();
        let mut rust_exclude_dirs: Vec<String> = Vec::new();
        match listing {
            None => {},
            Some(entries) => {
                let deps = lock.dir_names();
                file_excludes = unused_entries(&entries, &deps);
                let registry_string = String::from_str(registry);
                let rustup_string = String::from_str(rustup);
                rust_exclude_dirs.push(registry_string.clone());
                rust_exclude_dirs.push(rustup_string.clone());
                folders.push(WorkspaceFolder { name: String::new(), path: String::from_str(".") });
                folders.push(WorkspaceFolder { name: String::from_str("Stdlib"), path: rustup_string });
                folders.push(
                    WorkspaceFolder {
                        name: String::from_str("External Libraries"),
                        path: registry_string,
                    },
                );
            },
        }
        let settings = WorkspaceSettings {
            file_excludes: Some(file_excludes),
            rust_exclude_dirs: Some(rust_exclude_dirs),
        };
        Workspace { folders: Some(folders), settings: Some(settings) }
    }
}

/// The name of the file a descriptor is written to: the package's name, or
/// `cargo-ws` for a manifest without a package, with `.code-workspace` added.
pub open spec fn workspace_file_name_of(manifest: Option<(Seq<char>, Seq<char>)>) -> Seq<char> {
    match manifest {
        Some(p) => p.0 + ".code-workspace"@,
        None => "cargo-ws"@ + ".code-workspace"@,
    }
}

impl Cargo {
    /// The name of the file this project's descriptor is written to.
    pub fn workspace_file_name(&self) -> (r: String)
        ensures
            r@ == workspace_file_name_of(self@),
    {
        let stem = match &self.package {
            Some(p) => p.name.clone(),
            None => String::from_str("cargo-ws"),
        };
        stem.concat(".code-workspace")
    }
}

/// The characters with Unicode's White_Space property: those that
/// `char::is_whitespace` accepts.
pub open spec fn is_space(c: char) -> bool {
    let u = c as u32;
    (9 <= u <= 13) || u == 0x20 || u == 0x85 || u == 0xa0 || u == 0x1680 || (0x2000 <= u <= 0x200a)
        || u == 0x2028 || u == 0x2029 || u == 0x202f || u == 0x205f || u == 0x3000
}

fn is_space_char(c: char) -> (r: bool)
    ensures
        r == is_space(c),
{
    let u = c as u32;
    (9 <= u && u <= 13) || u == 0x20 || u == 0x85 || u == 0xa0 || u == 0x1680 || (0x2000 <= u && u
        <= 0x200a) || u == 0x2028 || u == 0x2029 || u == 0x202f || u == 0x205f || u == 0x3000
}

/// `t` stands at `start` of `s` as its first word: only whitespace comes
/// before it, it holds none, and whitespace or the end of `s` follows it.
/// An empty `t` stands only at the end of a text that is all whitespace.
pub open spec fn word_at(s: Seq<char>, t: Seq<char>, start: int) -> bool {
    &&& 0 <= start <= s.len()
    &&& start + t.len() <= s.len()
    &&& forall|j: int| 0 <= j < start ==> is_space(#[trigger] s[j])
    &&& t == s.subrange(start, start + t.len())
    &&& forall|j: int| 0 <= j < t.len() ==> !is_space(#[trigger] t[j])
    &&& start + t.len() < s.len() ==> is_space(s[start + t.len()])
    &&& t.len() == 0 ==> start == s.len()
}

/// `t` is the first whitespace-delimited word of `s`, empty where `s` has
/// none.
pub open spec fn is_first_word(s: Seq<char>, t: Seq<char>) -> bool {
    exists|start: int| word_at(s, t, start)
}

/// The name of the default toolchain, from what `rustup default` prints
/// (`stable-x86_64-unknown-linux-gnu (default)`): its first
/// whitespace-delimited word.
pub fn toolchain_name(output: &str) -> (r: String)
    ensures
        is_first_word(output@, r@),
{
    let n = output.unicode_len();
    let mut i: usize = 0;
    while i < n && is_space_char(output.get_char(i))
        invariant
            n == output@.len(),
            i <= n,
            forall|j: int| 0 <= j < i ==> is_space(#[trigger] output@[j]),
        decreases n - i,
    {
        i = i + 1;
    }
    let mut k: usize = i;
    while k < n && !is_space_char(output.get_char(k))
        invariant
            n == output@.len(),
            i <= k <= n,
            forall|j: int| i <= j < k ==> !is_space(#[trigger] output@[j]),
        decreases n - k,
    {
        k = k + 1;
    }
    let word = output.substring_char(i, k);
    assert(word@ =~= output@.subrange(i as int, k as int));
    assert forall|j: int| 0 <= j < word@.len() implies !is_space(#[trigger] word@[j]) by {
        assert(word@[j] == output@[i + j]);
    }
    assert(word_at(output@, word@, i as int));
    String::from_str(word)
}

} // verus!
