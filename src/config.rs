//! The project's manifest, its lock file and the package manager's
//! configuration, as far as this library reads them.
use vstd::prelude::*;
use vstd::string::StringSliceAdditionalSpecFns;

use crate::nesting::too_deep;

use crate::toml_doc::{
    get_field, get_items, get_keys, get_str, parsed_toml, read_document, toml_get, toml_items,
    toml_keys, toml_str, ParseError,
};

verus! {

/// A package: a name and a version.
#[derive(Debug, PartialEq, Eq)]
pub struct Package {
    pub name: String,
    pub version: String,
}

impl View for Package {
    type V = (Seq<char>, Seq<char>);

    open spec fn view(&self) -> (Seq<char>, Seq<char>) {
        (self.name@, self.version@)
    }
}

/// The string under `key` of a table, if there is one.
pub open spec fn toml_str_at(v: toml::Value, key: Seq<char>) -> Option<Seq<char>> {
    match toml_get(v, key) {
        Some(f) => toml_str(f),
        None => None,
    }
}

/// What an optional string field of a table reads as: `None` when the key is
/// absent, `Some(None)` when it holds something other than a string.
pub open spec fn toml_opt_str_at(v: toml::Value, key: Seq<char>) -> Option<Option<Seq<char>>> {
    match toml_get(v, key) {
        Some(f) => match toml_str(f) {
            Some(s) => Some(Some(s)),
            None => None,
        },
        None => Some(None),
    }
}

/// The package that a TOML table describes: both fields must be strings.
pub open spec fn package_of(v: toml::Value) -> Option<(Seq<char>, Seq<char>)> {
    match (toml_str_at(v, "name"@), toml_str_at(v, "version"@)) {
        (Some(n), Some(ver)) => Some((n, ver)),
        _ => None,
    }
}

/// The packages that an array of tables describes, if each element is one.
pub open spec fn packages_of(items: Seq<toml::Value>) -> Option<Seq<(Seq<char>, Seq<char>)>> {
    if forall|i: int| 0 <= i < items.len() ==> (#[trigger] package_of(items[i])) is Some {
        Some(items.map_values(|x: toml::Value| package_of(x)->0))
    } else {
        None
    }
}

/// What a manifest document declares: `None` when it is malformed, else its
/// optional `[package]`.
pub open spec fn manifest_of(doc: toml::Value) -> Option<Option<(Seq<char>, Seq<char>)>> {
    match toml_get(doc, "package"@) {
        None => Some(None),
        Some(p) => match package_of(p) {
            Some(pkg) => Some(Some(pkg)),
            None => None,
        },
    }
}

/// What a lock document declares: `None` when it is malformed, else its
/// optional list of `[[package]]` entries.
pub open spec fn lock_of(doc: toml::Value) -> Option<Option<Seq<(Seq<char>, Seq<char>)>>> {
    match toml_get(doc, "package"@) {
        None => Some(None),
        Some(a) => match toml_items(a) {
            None => None,
            Some(items) => match packages_of(items) {
                Some(ps) => Some(Some(ps)),
                None => None,
            },
        },
    }
}

/// A manifest whose `[package]` table holds a string `name` and a string
/// `version` reads as a package whose name is the declared one.
pub proof fn manifest_name_is_declared(doc: toml::Value, name: Seq<char>)
    requires
        toml_get(doc, "package"@) is Some,
        toml_str_at(toml_get(doc, "package"@)->0, "name"@) == Some(name),
        toml_str_at(toml_get(doc, "package"@)->0, "version"@) is Some,
    ensures
        manifest_of(doc) == Some(
            Some((name, toml_str_at(toml_get(doc, "package"@)->0, "version"@)->0)),
        ),
{
}

/// A lock file whose `package` array holds only well-formed entries reads as
/// one package per entry, in order.
pub proof fn lock_lists_every_entry(doc: toml::Value, items: Seq<toml::Value>)
    requires
        toml_get(doc, "package"@) is Some,
        toml_items(toml_get(doc, "package"@)->0) == Some(items),
        forall|i: int| 0 <= i < items.len() ==> (#[trigger] package_of(items[i])) is Some,
    ensures
        lock_of(doc) is Some,
        lock_of(doc)->0 is Some,
        lock_of(doc)->0->0.len() == items.len(),
        forall|i: int|
            0 <= i < items.len() ==> lock_of(doc)->0->0[i] == (#[trigger] package_of(items[i]))->0,
{
}

impl Package {
    /// Reads a package from a TOML table with string fields `name` and
    /// `version`.
    pub fn from_toml(v: &toml::Value) -> (r: Result<Package, ParseError>)
        ensures
            match package_of(*v) {
                Some(p) => r is Ok && r->Ok_0@ == p,
                None => r == Err::<Package, ParseError>(ParseError::Shape),
            },
    {
        let name = str_field(v, "name");
        let version = str_field(v, "version");
        match (name, version) {
            (Some(name), Some(version)) => Ok(Package { name, version }),
            _ => Err(ParseError::Shape),
        }
    }
}

fn str_field(v: &toml::Value, key: &str) -> (r: Option<String>)
    ensures
        r is Some <==> toml_str_at(*v, key@) is Some,
        r is Some ==> toml_str_at(*v, key@) == Some(r->0@),
{
    match get_field(v, key) {
        Some(f) => get_str(&f),
        None => None,
    }
}

fn opt_str_field(v: &toml::Value, key: &str) -> (r: Result<Option<String>, ParseError>)
    ensures
        match toml_opt_str_at(*v, key@) {
            Some(None) => r == Ok::<Option<String>, ParseError>(None),
            Some(Some(s)) => r is Ok && r->Ok_0 is Some && r->Ok_0->0@ == s,
            None => r == Err::<Option<String>, ParseError>(ParseError::Shape),
        },
{
    match get_field(v, key) {
        Some(f) => match get_str(&f) {
            Some(s) => Ok(Some(s)),
            None => Err(ParseError::Shape),
        },
        None => Ok(None),
    }
}

/// A project manifest (`Cargo.toml`): its `[package]`, if it declares one.
#[derive(Debug, PartialEq, Eq)]
pub struct Cargo {
    pub package: Option<Package>,
}

impl View for Cargo {
    type V = Option<(Seq<char>, Seq<char>)>;

    open spec fn view(&self) -> Option<(Seq<char>, Seq<char>)> {
        match self.package {
            Some(p) => Some(p@),
            None => None,
        }
    }
}

impl Cargo {
    /// Reads a manifest from its text.
    pub fn parse(text: &str) -> (r: Result<Cargo, ParseError>)
        ensures
            too_deep(text.spec_bytes()) ==> r is Err && r->Err_0 == ParseError::TooDeep,
            !too_deep(text.spec_bytes()) ==> match parsed_toml(text@) {
                None => r == Err::<Cargo, ParseError>(ParseError::Syntax),
                Some(doc) => match manifest_of(doc) {
                    Some(m) => r is Ok && r->Ok_0@ == m,
                    None => r == Err::<Cargo, ParseError>(ParseError::Shape),
                },
            },
    {
        let doc = read_document(text)?;
        match get_field(&doc, "package") {
            None => Ok(Cargo { package: None }),
            Some(p) => {
                let pkg = Package::from_toml(&p)?;
                Ok(Cargo { package: Some(pkg) })
            },
        }
    }
}

/// A lock file (`Cargo.lock`): the resolved packages, if it lists any.
#[derive(Debug, PartialEq, Eq)]
pub struct CargoLock {
    pub package: Option<Vec<Package>>,
}

impl View for CargoLock {
    type V = Option<Seq<(Seq<char>, Seq<char>)>>;

    open spec fn view(&self) -> Option<Seq<(Seq<char>, Seq<char>)>> {
        match self.package {
            Some(v) => Some(v@.map_values(|p: Package| p@)),
            None => None,
        }
    }
}

impl CargoLock {
    /// Reads a lock file from its text.
    pub fn parse(text: &str) -> (r: Result<CargoLock, ParseError>)
        ensures
            too_deep(text.spec_bytes()) ==> r is Err && r->Err_0 == ParseError::TooDeep,
            !too_deep(text.spec_bytes()) ==> match parsed_toml(text@) {
                None => r == Err::<CargoLock, ParseError>(ParseError::Syntax),
                Some(doc) => match lock_of(doc) {
                    Some(l) => r is Ok && r->Ok_0@ == l,
                    None => r == Err::<CargoLock, ParseError>(ParseError::Shape),
                },
            },
    {
        let doc = read_document(text)?;
        match get_field(&doc, "package") {
            None => Ok(CargoLock { package: None }),
            Some(a) => match get_items(&a) {
                None => Err(ParseError::Shape),
                Some(items) => {
                    let pkgs = read_packages(&items)?;
                    Ok(CargoLock { package: Some(pkgs) })
                },
            },
        }
    }
}

fn read_packages(items: &Vec<toml::Value>) -> (r: Result<Vec<Package>, ParseError>)
    ensures
        match packages_of(items@) {
            Some(ps) => r is Ok && r->Ok_0@.map_values(|p: Package| p@) == ps,
            None => r == Err::<Vec<Package>, ParseError>(ParseError::Shape),
        },
{
    let mut pkgs: Vec<Package> = Vec::new();
    let mut i: usize = 0;
    while i < items.len()
        invariant
            i <= items@.len(),
            pkgs@.len() == i,
            forall|j: int| 0 <= j < i ==> package_of(items@[j]) == Some(#[trigger] pkgs@[j]@),
        decreases items@.len() - i,
    {
        match Package::from_toml(&items[i]) {
            Ok(p) => {
                pkgs.push(p);
            },
            Err(e) => {
                assert(package_of(items@[i as int]) is None);
                return Err(e);
            },
        }
        i = i + 1;
    }
    assert forall|j: int| 0 <= j < items@.len() implies (#[trigger] package_of(items@[j])) is Some by {
        assert(package_of(items@[j]) == Some(pkgs@[j]@));
    }
    assert(pkgs@.map_values(|p: Package| p@) =~= items@.map_values(
        |x: toml::Value| package_of(x)->0,
    ));
    Ok(pkgs)
}

/// One `[source.<name>]` entry of the package manager's configuration.
#[derive(Debug, PartialEq, Eq)]
pub struct Source {
    pub registry: Option<String>,
    pub replace_with: Option<String>,
}

/// The `registry` and `replace-with` fields of a source.
pub type SourceView = (Option<Seq<char>>, Option<Seq<char>>);

pub open spec fn opt_view(s: Option<String>) -> Option<Seq<char>> {
    match s {
        Some(x) => Some(x@),
        None => None,
    }
}

impl View for Source {
    type V = SourceView;

    open spec fn view(&self) -> SourceView {
        (opt_view(self.registry), opt_view(self.replace_with))
    }
}

/// The source that a TOML table describes: a table whose `registry` and
/// `replace-with` are strings where present.
pub open spec fn source_of(v: toml::Value) -> Option<SourceView> {
    match (toml_keys(v), toml_opt_str_at(v, "registry"@), toml_opt_str_at(v, "replace-with"@)) {
        (Some(_), Some(reg), Some(rep)) => Some((reg, rep)),
        _ => None,
    }
}

/// The named sources of a table with keys `keys`, if each key holds one.
pub open spec fn sources_of(table: toml::Value, keys: Seq<Seq<char>>) -> Option<
    Seq<(Seq<char>, SourceView)>,
> {
    if forall|i: int|
        0 <= i < keys.len() ==> (#[trigger] toml_get(table, keys[i])) is Some && source_of(
            toml_get(table, keys[i])->0,
        ) is Some {
        Some(keys.map_values(|k: Seq<char>| (k, source_of(toml_get(table, k)->0)->0)))
    } else {
        None
    }
}

/// What a configuration document declares: `None` when it is malformed, else
/// its optional `[source]` table.
pub open spec fn cfg_of(doc: toml::Value) -> Option<Option<Seq<(Seq<char>, SourceView)>>> {
    match toml_get(doc, "source"@) {
        None => Some(None),
        Some(t) => match toml_keys(t) {
            None => None,
            Some(keys) => match sources_of(t, keys) {
                Some(srcs) => Some(Some(srcs)),
                None => None,
            },
        },
    }
}

/// The first source named `key`.
pub open spec fn lookup(entries: Seq<(Seq<char>, SourceView)>, key: Seq<char>) -> Option<
    SourceView,
>
    decreases entries.len(),
{
    if entries.len() == 0 {
        None
    } else if entries[0].0 == key {
        Some(entries[0].1)
    } else {
        lookup(entries.drop_first(), key)
    }
}

pub open spec fn or_empty(s: Option<Seq<char>>) -> Seq<char> {
    match s {
        Some(x) => x,
        None => Seq::empty(),
    }
}

/// The URL of the registry that packages from `crates-io` are fetched from:
/// that of `crates-io` itself when it names no replacement, else that of the
/// source it is replaced with (empty where that source names none).
pub open spec fn registry_url_of(cfg: Option<Seq<(Seq<char>, SourceView)>>) -> Option<Seq<char>> {
    match cfg {
        None => None,
        Some(entries) => match lookup(entries, "crates-io"@) {
            None => None,
            Some(cio) => if or_empty(cio.1).len() == 0 {
                cio.0
            } else {
                match lookup(entries, or_empty(cio.1)) {
                    Some(rep) => Some(or_empty(rep.0)),
                    None => None,
                }
            },
        },
    }
}

/// The host of a URL, where the URL parses and has one.
pub uninterp spec fn url_host(url: Seq<char>) -> Option<Seq<char>>;

/// Relies on `url::Url::parse` and `url::Url::host_str`: the host of the URL
/// that `url` parses to, `None` when it does not parse or has no host.
#[verifier::external_body]
fn host_of(url: &str) -> (r: Option<String>)
    ensures
        opt_view(r) == url_host(url@),
{
    url::Url::parse(url).ok().and_then(|u| u.host_str().map(|h| h.to_string()))
}

impl Source {
    /// Reads a source from a TOML table.
    pub fn from_toml(v: &toml::Value) -> (r: Result<Source, ParseError>)
        ensures
            match source_of(*v) {
                Some(s) => r is Ok && r->Ok_0@ == s,
                None => r == Err::<Source, ParseError>(ParseError::Shape),
            },
    {
        if get_keys(v).is_none() {
            return Err(ParseError::Shape);
        }
        let registry = opt_str_field(v, "registry")?;
        let replace_with = opt_str_field(v, "replace-with")?;
        Ok(Source { registry, replace_with })
    }
}

/// The package manager's configuration (`.cargo/config.toml`): its named
/// sources, in the order of their names.
#[derive(Debug, PartialEq, Eq)]
pub struct CargoCfg {
    pub source: Option<Vec<(String, Source)>>,
}

impl View for CargoCfg {
    type V = Option<Seq<(Seq<char>, SourceView)>>;

    open spec fn view(&self) -> Option<Seq<(Seq<char>, SourceView)>> {
        match self.source {
            Some(v) => Some(v@.map_values(|e: (String, Source)| (e.0@, e.1@))),
            None => None,
        }
    }
}

impl CargoCfg {
    /// No two sources share a name.
    pub open spec fn names_unique(&self) -> bool {
        match self@ {
            Some(entries) => entries.map_values(|e: (Seq<char>, SourceView)| e.0).no_duplicates(),
            None => true,
        }
    }

    /// Reads the configuration from its text.
    pub fn parse(text: &str) -> (r: Result<CargoCfg, ParseError>)
        ensures
            too_deep(text.spec_bytes()) ==> r is Err && r->Err_0 == ParseError::TooDeep,
            !too_deep(text.spec_bytes()) ==> match parsed_toml(text@) {
                None => r == Err::<CargoCfg, ParseError>(ParseError::Syntax),
                Some(doc) => match cfg_of(doc) {
                    Some(c) => r is Ok && r->Ok_0@ == c,
                    None => r == Err::<CargoCfg, ParseError>(ParseError::Shape),
                },
            },
            r is Ok ==> r->Ok_0.names_unique(),
    {
        let doc = read_document(text)?;
        match get_field(&doc, "source") {
            None => Ok(CargoCfg { source: None }),
            Some(t) => match get_keys(&t) {
                None => Err(ParseError::Shape),
                Some(keys) => {
                    let ghost ks = keys@.map_values(|k: String| k@);
                    let srcs = read_sources(&t, keys)?;
                    let r = CargoCfg { source: Some(srcs) };
                    assert(r@->0.map_values(|e: (Seq<char>, SourceView)| e.0) =~= ks);
                    Ok(r)
                },
            },
        }
    }

    /// The source named `key`, the first one where several are.
    pub fn get(&self, key: &String) -> (r: Option<&Source>)
        ensures
            match self@ {
                Some(entries) => match lookup(entries, key@) {
                    Some(s) => r is Some && r->0@ == s,
                    None => r is None,
                },
                None => r is None,
            },
    {
        match &self.source {
            None => None,
            Some(entries) => {
                let ghost all = self@->0;
                let mut i: usize = 0;
                assert(all.subrange(0, all.len() as int) =~= all);
                while i < entries.len()
                    invariant
                        self@ == Some(all),
                        all == entries@.map_values(|e: (String, Source)| (e.0@, e.1@)),
                        i <= entries@.len(),
                        lookup(all, key@) == lookup(all.subrange(i as int, all.len() as int), key@),
                    decreases entries@.len() - i,
                {
                    let ghost rest = all.subrange(i as int, all.len() as int);
                    assert(rest.drop_first() =~= all.subrange(i + 1, all.len() as int));
                    assert(rest[0] == all[i as int]);
                    assert(all[i as int] == (entries@[i as int].0@, entries@[i as int].1@));
                    if entries[i].0 == *key {
                        return Some(&entries[i].1);
                    }
                    i = i + 1;
                }
                None
            },
        }
    }

    /// The URL of the registry that `crates-io` packages come from, as this
    /// configuration names it.
    pub fn registry_url(&self) -> (r: Option<String>)
        ensures
            opt_view(r) == registry_url_of(self@),
    {
        let cio = match self.get(&String::from_str("crates-io")) {
            Some(s) => s,
            None => return None,
        };
        let replace_with = match &cio.replace_with {
            Some(s) => s.clone(),
            None => String::new(),
        };
        if replace_with.as_str().is_empty() {
            return match &cio.registry {
                Some(u) => Some(u.clone()),
                None => None,
            };
        }
        match self.get(&replace_with) {
            Some(rep) => match &rep.registry {
                Some(u) => Some(u.clone()),
                None => Some(String::new()),
            },
            None => None,
        }
    }

    /// The host of the registry that `crates-io` packages come from.
    pub fn registry(&self) -> (r: Option<String>)
        ensures
            match registry_url_of(self@) {
                Some(u) => opt_view(r) == url_host(u),
                None => r is None,
            },
    {
        match self.registry_url() {
            Some(u) => host_of(u.as_str()),
            None => None,
        }
    }
}

fn read_sources(table: &toml::Value, keys: Vec<String>) -> (r: Result<
    Vec<(String, Source)>,
    ParseError,
>)
    ensures
        match sources_of(*table, keys@.map_values(|k: String| k@)) {
            Some(srcs) => r is Ok && r->Ok_0@.map_values(|e: (String, Source)| (e.0@, e.1@))
                == srcs,
            None => r == Err::<Vec<(String, Source)>, ParseError>(ParseError::Shape),
        },
{
    let ghost ks = keys@.map_values(|k: String| k@);
    let mut out: Vec<(String, Source)> = Vec::new();
    let mut i: usize = 0;
    while i < keys.len()
        invariant
            ks == keys@.map_values(|k: String| k@),
            i <= keys@.len(),
            out@.len() == i,
            forall|j: int|
                0 <= j < i ==> (#[trigger] toml_get(*table, ks[j])) is Some && source_of(
                    toml_get(*table, ks[j])->0,
                ) == Some(out@[j].1@) && out@[j].0@ == ks[j],
        decreases keys@.len() - i,
    {
        let key = keys[i].clone();
        match get_field(table, key.as_str()) {
            Some(v) => match Source::from_toml(&v) {
                Ok(src) => {
                    out.push((key, src));
                },
                Err(e) => {
                    assert(toml_get(*table, ks[i as int]) is Some);
                    return Err(e);
                },
            },
            None => {
                assert(toml_get(*table, ks[i as int]) is None);
                return Err(ParseError::Shape);
            },
        }
        i = i + 1;
    }
    assert forall|j: int| 0 <= j < ks.len() implies (#[trigger] toml_get(*table, ks[j])) is Some
        && source_of(toml_get(*table, ks[j])->0) is Some by {}
    assert(out@.map_values(|e: (String, Source)| (e.0@, e.1@)) =~= ks.map_values(
        |k: Seq<char>| (k, source_of(toml_get(*table, k)->0)->0),
    ));
    Ok(out)
}

} // verus!
