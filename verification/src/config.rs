//! The configuration aggregate and the flavor-aware directory resolver.
//!
//! The aggregate composes every persisted setting; reading it from a
//! document fills each absent field with its documented default, so a fully
//! constructed aggregate is the only thing callers ever observe. The
//! resolver derives, per flavor, the addon and settings directories under
//! the recorded installation root, tolerating case renames on disk; its
//! results are advisory, recomputed on demand, and never an error.

use vstd::prelude::*;
use crate::channel::SelfUpdateChannel;
use crate::flavor::Flavor;
use crate::lang::Language;
use crate::schema::{ColumnConfig, LayoutModel, SchemaError};
use crate::strutil::{concat_str, has_separator, parent_of, parent_path};
use crate::value::Value;

verus! {

/// The managed application's installation roots, one per flavor.
#[derive(Clone, Debug)]
pub struct Wow {
    pub directories: Vec<(Flavor, String)>,
}

/// First-match lookup of a flavor's recorded installation root.
pub open spec fn dir_get(s: Seq<(Flavor, String)>, f: Flavor) -> Option<String>
    decreases s.len(),
{
    if s.len() == 0 {
        None
    } else if s[0].0 == f {
        Some(s[0].1)
    } else {
        dir_get(s.drop_first(), f)
    }
}

/// A lookup lands on the first entry whose flavor matches.
proof fn lemma_dir_get_found(s: Seq<(Flavor, String)>, f: Flavor, i: int)
    requires
        0 <= i < s.len(),
        s[i].0 == f,
        forall|j: int| 0 <= j < i ==> s[j].0 != f,
    ensures
        dir_get(s, f) == Some(s[i].1),
    decreases i,
{
    if i > 0 {
        lemma_dir_get_found(s.drop_first(), f, i - 1);
    }
}

/// A lookup misses when no entry's flavor matches.
proof fn lemma_dir_get_none(s: Seq<(Flavor, String)>, f: Flavor)
    requires
        forall|j: int| 0 <= j < s.len() ==> s[j].0 != f,
    ensures
        dir_get(s, f) is None,
    decreases s.len(),
{
    if s.len() > 0 {
        lemma_dir_get_none(s.drop_first(), f);
    }
}

impl Wow {
    /// The recorded installation root of `flavor`, if one is known.
    pub fn get(&self, flavor: Flavor) -> (r: Option<&String>)
        ensures
            match r {
                Some(d) => dir_get(self.directories@, flavor) == Some(*d),
                None => dir_get(self.directories@, flavor) is None,
            },
    {
        let n = self.directories.len();
        let mut i: usize = 0;
        while i < n
            invariant
                i <= n,
                n == self.directories@.len(),
                forall|j: int| 0 <= j < i ==> self.directories@[j].0 != flavor,
            decreases n - i,
        {
            if self.directories[i].0 == flavor {
                proof {
                    lemma_dir_get_found(self.directories@, flavor, i as int);
                }
                return Some(&self.directories[i].1);
            }
            i = i + 1;
        }
        proof {
            lemma_dir_get_none(self.directories@, flavor);
        }
        None
    }
}

impl Default for Wow {
    /// No installation roots are recorded until detection supplies them.
    fn default() -> (r: Wow)
        ensures
            r.directories@ == Seq::<(Flavor, String)>::empty(),
    {
        Wow { directories: Vec::new() }
    }
}

/// The top-level configuration record.
#[derive(Clone, Debug)]
pub struct Config {
    pub wow: Wow,
    pub theme: Option<String>,
    pub column_config: ColumnConfig,
    pub window_size: Option<(u32, u32)>,
    pub backup_directory: Option<String>,
    pub backup_addons: bool,
    pub backup_wtf: bool,
    pub hide_ignored_addons: bool,
    pub self_update_channel: SelfUpdateChannel,
    pub weak_auras_account: Vec<(Flavor, String)>,
    pub alternating_row_colors: bool,
    pub language: Language,
    pub auto_update: bool,
}

/// The documented default of every field: booleans are off except the
/// alternating row colors, optional fields are absent, the layout is the
/// fixed version-one default, language is English and the update channel is
/// stable.
pub open spec fn is_default_config(c: Config) -> bool {
    &&& c.wow.directories@ == Seq::<(Flavor, String)>::empty()
    &&& c.theme is None
    &&& c.column_config@ == (LayoutModel::V1 {
        local_version_width: 150u16,
        remote_version_width: 150u16,
        status_width: 85u16,
    })
    &&& c.window_size is None
    &&& c.backup_directory is None
    &&& c.backup_addons == false
    &&& c.backup_wtf == false
    &&& c.hide_ignored_addons == false
    &&& c.self_update_channel == SelfUpdateChannel::Stable
    &&& c.weak_auras_account@ == Seq::<(Flavor, String)>::empty()
    &&& c.alternating_row_colors == true
    &&& c.language == Language::English
    &&& c.auto_update == false
}

impl Default for Config {
    fn default() -> (r: Config)
        ensures
            is_default_config(r),
    {
        Config {
            wow: Wow::default(),
            theme: None,
            column_config: ColumnConfig::default(),
            window_size: None,
            backup_directory: None,
            backup_addons: false,
            backup_wtf: false,
            hide_ignored_addons: false,
            self_update_channel: SelfUpdateChannel::default(),
            weak_auras_account: Vec::new(),
            alternating_row_colors: true,
            language: Language::default(),
            auto_update: false,
        }
    }
}

/// The default of the alternating row colors: the one boolean preference
/// that starts switched on.
pub fn default_true() -> (r: bool)
    ensures
        r == true,
{
    true
}

// ---------------------------------------------------------------------------
// Filesystem probes. Their answers depend on the state of the disk, so
// nothing is promised of them; the selection logic below is verified for
// every answer they could give.
// ---------------------------------------------------------------------------

/// Relies on std::path::Path::exists: whether the path names anything on
/// disk right now. The answer depends on the filesystem and may change
/// between calls.
#[verifier::external_body]
fn probe_exists(path: &str) -> bool {
    std::path::Path::new(path).exists()
}

/// Relies on glob::glob_with, matching case-insensitively: the paths on
/// disk matching the pattern, in filesystem enumeration order. Unreadable
/// entries and broken patterns yield no matches.
#[verifier::external_body]
fn probe_glob_insensitive(pattern: &str) -> Vec<String> {
    let options = glob::MatchOptions {
        case_sensitive: false,
        require_literal_separator: false,
        require_literal_leading_dot: false,
    };
    match glob::glob_with(pattern, options) {
        Ok(paths) => paths.filter_map(|e| e.ok()).map(|p| p.display().to_string()).collect(),
        Err(_) => Vec::new(),
    }
}

// ---------------------------------------------------------------------------
// The resolver.
// ---------------------------------------------------------------------------

/// What the resolver decided for an addon directory: the path to hand out,
/// and whether the caller should attempt to create it. Creation is attempted
/// only when the installation root itself exists but the resolved path does
/// not; a failed attempt is tolerated, so the path is advisory either way.
#[derive(Clone, Debug)]
pub struct AddonDirectoryPlan {
    pub path: String,
    pub create: bool,
}

/// Picks the directory the resolver hands out: the exact-case candidate
/// when it exists on disk, otherwise the last case-insensitive match in
/// enumeration order, otherwise the exact-case candidate again.
pub fn select_directory(expected: String, exact_exists: bool, found: &Vec<String>) -> (r: String)
    ensures
        exact_exists ==> r@ == expected@,
        !exact_exists && found@.len() > 0 ==> r@ == found@.last()@,
        !exact_exists && found@.len() == 0 ==> r@ == expected@,
{
    if exact_exists {
        expected
    } else if found.len() > 0 {
        found[found.len() - 1].clone()
    } else {
        expected
    }
}

impl Config {
    /// The well-known relative path of the persisted configuration file.
    pub fn relative_path() -> (r: String)
        ensures
            r@ == "ajour.yml"@,
    {
        String::from_str("ajour.yml")
    }

    /// The directory of `flavor` under `path`: the path joined with the
    /// flavor's fixed folder-name token.
    pub fn get_flavor_directory_for_flavor(&self, flavor: &Flavor, path: &String) -> (r: String)
        ensures
            r@ == path@ + "/"@ + crate::flavor::folder_name_spec(*flavor),
    {
        let joined = concat_str(path.as_str(), "/");
        concat_str(joined.as_str(), flavor.folder_name())
    }

    /// The parent of the recorded installation root, or nothing when no
    /// root is recorded for `flavor`. A recorded root is never itself a
    /// filesystem root, so it always has a parent component.
    pub fn get_root_directory_for_flavor(&self, flavor: &Flavor) -> (r: Option<String>)
        requires
            (match dir_get(self.wow.directories@, *flavor) {
                Some(d) => has_separator(d@),
                None => true,
            }),
        ensures
            match r {
                Some(p) => dir_get(self.wow.directories@, *flavor) matches Some(d) && p@
                    == parent_of(d@),
                None => dir_get(self.wow.directories@, *flavor) is None,
            },
    {
        match self.wow.get(*flavor) {
            None => None,
            Some(dir) => parent_path(dir.as_str()),
        }
    }

    /// The raw recorded installation root, where downloaded archives are
    /// staged; nothing when no root is recorded for `flavor`.
    pub fn get_download_directory_for_flavor(&self, flavor: Flavor) -> (r: Option<String>)
        ensures
            match r {
                Some(p) => dir_get(self.wow.directories@, flavor) == Some(p),
                None => dir_get(self.wow.directories@, flavor) is None,
            },
    {
        match self.wow.get(flavor) {
            None => None,
            Some(dir) => Some(dir.clone()),
        }
    }

    /// Resolves the addon directory of `flavor` and decides whether the
    /// caller should attempt to create it. Nothing when no root is recorded;
    /// otherwise the exact-case candidate under the root, or a
    /// case-insensitive match when the exact casing is absent on disk.
    /// Creation is advised only when the root exists but the resolved path
    /// does not.
    pub fn plan_addon_directory(&self, flavor: &Flavor) -> (r: Option<AddonDirectoryPlan>)
        ensures
            r is Some <==> dir_get(self.wow.directories@, *flavor) is Some,
    {
        match self.wow.get(*flavor) {
            None => None,
            Some(dir) => {
                let expected = concat_str(dir.as_str(), "/Interface/AddOns");
                let exact = probe_exists(expected.as_str());
                let found: Vec<String> = if exact {
                    Vec::new()
                } else {
                    let pattern = concat_str(dir.as_str(), "/?nterface/?ddons");
                    probe_glob_insensitive(pattern.as_str())
                };
                let path = select_directory(expected, exact, &found);
                let create = probe_exists(dir.as_str()) && !probe_exists(path.as_str());
                Some(AddonDirectoryPlan { path, create })
            },
        }
    }

    /// The directory holding the flavor's addons, or nothing when no root
    /// is recorded. The path is advisory: it may not exist yet, and callers
    /// re-check before use. A caller that wants the missing directory
    /// created takes `plan_addon_directory` instead and applies its advice.
    pub fn get_addon_directory_for_flavor(&self, flavor: &Flavor) -> (r: Option<String>)
        ensures
            r is Some <==> dir_get(self.wow.directories@, *flavor) is Some,
    {
        match self.plan_addon_directory(flavor) {
            None => None,
            Some(plan) => Some(plan.path),
        }
    }

    /// The directory holding the flavor's own settings, or nothing when no
    /// root is recorded. The same case-insensitive tolerance as the addon
    /// directory, but never a creation attempt: that directory belongs to
    /// the managed application.
    pub fn get_wtf_directory_for_flavor(&self, flavor: &Flavor) -> (r: Option<String>)
        ensures
            r is Some <==> dir_get(self.wow.directories@, *flavor) is Some,
    {
        match self.wow.get(*flavor) {
            None => None,
            Some(dir) => {
                let expected = concat_str(dir.as_str(), "/WTF");
                let exact = probe_exists(expected.as_str());
                let found: Vec<String> = if exact {
                    Vec::new()
                } else {
                    let pattern = concat_str(dir.as_str(), "/?tf");
                    probe_glob_insensitive(pattern.as_str())
                };
                Some(select_directory(expected, exact, &found))
            },
        }
    }
}

// ---------------------------------------------------------------------------
// Reading the aggregate: every absent or ill-shaped simple field falls back
// to its documented default; only the column layout can raise an error.
// ---------------------------------------------------------------------------

/// The view of an optional owned string.
pub open spec fn opt_str_model(o: Option<String>) -> Option<Seq<char>> {
    match o {
        None => None,
        Some(s) => Some(s@),
    }
}

/// The view of a flavor-keyed list of strings.
pub open spec fn dir_models(s: Seq<(Flavor, String)>) -> Seq<(Flavor, Seq<char>)> {
    s.map_values(|p: (Flavor, String)| (p.0, p.1@))
}

/// An optional text field: anything but text is treated as absent.
pub open spec fn opt_str_field_spec(es: Seq<(String, Value)>, k: Seq<char>) -> Option<Seq<char>> {
    match crate::value::map_get(es, k) {
        Some(v) => match v {
            Value::Str(s) => Some(s@),
            _ => None,
        },
        None => None,
    }
}

/// A boolean field with its documented default.
pub open spec fn bool_field_spec(es: Seq<(String, Value)>, k: Seq<char>, d: bool) -> bool {
    match crate::value::map_get(es, k) {
        Some(v) => match v {
            Value::Bool(b) => b,
            _ => d,
        },
        None => d,
    }
}

/// The window size: a two-element list of integers that fit, else absent.
pub open spec fn window_size_field_spec(es: Seq<(String, Value)>) -> Option<(u32, u32)> {
    match crate::value::map_get(es, "window_size"@) {
        Some(v) => match v {
            Value::List(vs) => if vs@.len() == 2 {
                match (vs@[0], vs@[1]) {
                    (Value::Int(a), Value::Int(b)) => if 0 <= a <= u32::MAX && 0 <= b <= u32::MAX {
                        Some((a as u32, b as u32))
                    } else {
                        None
                    },
                    _ => None,
                }
            } else {
                None
            },
            _ => None,
        },
        None => None,
    }
}

/// The update channel, by its stable identifier; anything else is the
/// default channel.
pub open spec fn channel_field_spec(es: Seq<(String, Value)>) -> SelfUpdateChannel {
    match crate::value::map_get(es, "self_update_channel"@) {
        Some(v) => match v {
            Value::Str(s) => match crate::channel::channel_of_identifier_spec(s@) {
                Some(c) => c,
                None => SelfUpdateChannel::Stable,
            },
            _ => SelfUpdateChannel::Stable,
        },
        None => SelfUpdateChannel::Stable,
    }
}

/// The language, by its stable identifier; anything else is the default
/// language.
pub open spec fn language_field_spec(es: Seq<(String, Value)>) -> Language {
    match crate::value::map_get(es, "language"@) {
        Some(v) => match v {
            Value::Str(s) => match crate::lang::language_of_identifier_spec(s@) {
                Some(l) => l,
                None => Language::English,
            },
            _ => Language::English,
        },
        None => Language::English,
    }
}

/// Every entry names a known flavor and holds text.
pub open spec fn flavor_entries_ok(es: Seq<(String, Value)>) -> bool {
    forall|i: int|
        0 <= i < es.len() ==> crate::flavor::flavor_of_identifier_spec(es[i].0@) is Some
            && es[i].1 is Str
}

/// No two entries name the same flavor.
pub open spec fn flavor_entries_distinct(es: Seq<(String, Value)>) -> bool {
    forall|i: int, j: int|
        0 <= i < j < es.len() ==> crate::flavor::flavor_of_identifier_spec(es[i].0@)
            != crate::flavor::flavor_of_identifier_spec(es[j].0@)
}

/// The flavor-keyed model of well-shaped entries, in entry order.
pub open spec fn flavor_entries_model(es: Seq<(String, Value)>) -> Seq<(Flavor, Seq<char>)> {
    Seq::new(
        es.len(),
        |i: int|
            (crate::flavor::flavor_of_identifier_spec(es[i].0@)->Some_0, es[i].1->Str_0@),
    )
}

/// A mapping from flavor identifiers to text, with no flavor repeated;
/// anything else is ill-shaped.
pub open spec fn flavor_map_of_value_spec(v: Value) -> Option<Seq<(Flavor, Seq<char>)>> {
    match crate::value::mapping_entries(v) {
        None => None,
        Some(es) => if flavor_entries_ok(es) && flavor_entries_distinct(es) {
            Some(flavor_entries_model(es))
        } else {
            None
        },
    }
}

/// The recorded installation roots: under `wow`, then `directories`; any
/// ill-shaped step leaves the mapping empty.
pub open spec fn wow_field_spec(es: Seq<(String, Value)>) -> Seq<(Flavor, Seq<char>)> {
    match crate::value::map_get(es, "wow"@) {
        None => Seq::empty(),
        Some(v) => match crate::value::mapping_entries(v) {
            None => Seq::empty(),
            Some(ws) => match crate::value::map_get(ws, "directories"@) {
                None => Seq::empty(),
                Some(dv) => match flavor_map_of_value_spec(dv) {
                    Some(m) => m,
                    None => Seq::empty(),
                },
            },
        },
    }
}

/// The per-flavor account names; ill-shaped means empty.
pub open spec fn weak_auras_field_spec(es: Seq<(String, Value)>) -> Seq<(Flavor, Seq<char>)> {
    match crate::value::map_get(es, "weak_auras_account"@) {
        None => Seq::empty(),
        Some(v) => match flavor_map_of_value_spec(v) {
            Some(m) => m,
            None => Seq::empty(),
        },
    }
}

/// The default column layout's model.
pub open spec fn default_layout_model() -> LayoutModel {
    LayoutModel::V1 { local_version_width: 150u16, remote_version_width: 150u16, status_width: 85u16 }
}

/// The column layout field: absent means the fixed default; present means
/// the versioned reader decides, errors included.
pub open spec fn layout_field_spec(es: Seq<(String, Value)>) -> Result<LayoutModel, SchemaError> {
    match crate::value::map_get(es, "column_config"@) {
        None => Ok(default_layout_model()),
        Some(v) => crate::schema::parse_layout_spec(v),
    }
}

/// What a successfully read aggregate holds, field by field, given the
/// document's top-level entries.
pub open spec fn config_of_entries(c: Config, es: Seq<(String, Value)>) -> bool {
    &&& layout_field_spec(es) == Ok::<LayoutModel, SchemaError>(c.column_config@)
    &&& dir_models(c.wow.directories@) == wow_field_spec(es)
    &&& dir_models(c.weak_auras_account@) == weak_auras_field_spec(es)
    &&& opt_str_model(c.theme) == opt_str_field_spec(es, "theme"@)
    &&& opt_str_model(c.backup_directory) == opt_str_field_spec(es, "backup_directory"@)
    &&& c.window_size == window_size_field_spec(es)
    &&& c.backup_addons == bool_field_spec(es, "backup_addons"@, false)
    &&& c.backup_wtf == bool_field_spec(es, "backup_wtf"@, false)
    &&& c.hide_ignored_addons == bool_field_spec(es, "hide_ignored_addons"@, false)
    &&& c.alternating_row_colors == bool_field_spec(es, "alternating_row_colors"@, true)
    &&& c.auto_update == bool_field_spec(es, "auto_update"@, false)
    &&& c.self_update_channel == channel_field_spec(es)
    &&& c.language == language_field_spec(es)
}

/// Reads a mapping from flavor identifiers to text, rejecting unknown
/// identifiers, non-text values and repeated flavors.
fn parse_flavor_map(v: &Value) -> (r: Option<Vec<(Flavor, String)>>)
    ensures
        match r {
            Some(m) => flavor_map_of_value_spec(*v) == Some(dir_models(m@)),
            None => flavor_map_of_value_spec(*v) is None,
        },
{
    match v {
        Value::Mapping(es) => {
            let n = es.len();
            let mut out: Vec<(Flavor, String)> = Vec::new();
            let mut i: usize = 0;
            while i < n
                invariant
                    crate::value::mapping_entries(*v) == Some(es@),
                    i <= n,
                    n == es@.len(),
                    out@.len() == i,
                    forall|j: int|
                        0 <= j < i ==> crate::flavor::flavor_of_identifier_spec(es@[j].0@) is Some
                            && es@[j].1 is Str,
                    forall|j: int|
                        0 <= j < i ==> out@[j].0 == crate::flavor::flavor_of_identifier_spec(
                            es@[j].0@,
                        )->Some_0 && out@[j].1@ == es@[j].1->Str_0@,
                    forall|j: int, k: int| 0 <= j < k < i ==> out@[j].0 != out@[k].0,
                decreases n - i,
            {
                let pair = &es[i];
                let f = match Flavor::from_identifier(pair.0.as_str()) {
                    Some(f) => f,
                    None => {
                        proof {
                            if flavor_entries_ok(es@) {
                                assert(crate::flavor::flavor_of_identifier_spec(
                                    es@[i as int].0@,
                                ) is Some);
                            }
                        }
                        return None;
                    },
                };
                let text = match &pair.1 {
                    Value::Str(s) => s.clone(),
                    _ => {
                        proof {
                            if flavor_entries_ok(es@) {
                                assert(es@[i as int].1 is Str);
                            }
                        }
                        return None;
                    },
                };
                let m = out.len();
                let mut j: usize = 0;
                while j < m
                    invariant
                        crate::value::mapping_entries(*v) == Some(es@),
                        j <= m,
                        m == out@.len(),
                        m == i,
                        i < n,
                        n == es@.len(),
                        f == crate::flavor::flavor_of_identifier_spec(es@[i as int].0@)->Some_0,
                        crate::flavor::flavor_of_identifier_spec(es@[i as int].0@) is Some,
                        forall|k: int| 0 <= k < j ==> out@[k].0 != f,
                        forall|k: int|
                            0 <= k < i ==> out@[k].0 == crate::flavor::flavor_of_identifier_spec(
                                es@[k].0@,
                            )->Some_0 && crate::flavor::flavor_of_identifier_spec(
                                es@[k].0@,
                            ) is Some,
                    decreases m - j,
                {
                    if out[j].0 == f {
                        proof {
                            assert(crate::flavor::flavor_of_identifier_spec(es@[j as int].0@)
                                == crate::flavor::flavor_of_identifier_spec(es@[i as int].0@));
                            if flavor_entries_distinct(es@) {
                                assert(crate::flavor::flavor_of_identifier_spec(es@[j as int].0@)
                                    != crate::flavor::flavor_of_identifier_spec(
                                    es@[i as int].0@,
                                ));
                            }
                        }
                        return None;
                    }
                    j = j + 1;
                }
                out.push((f, text));
                i = i + 1;
            }
            proof {
                assert(flavor_entries_ok(es@));
                assert(flavor_entries_distinct(es@)) by {
                    assert forall|x: int, y: int| 0 <= x < y < es@.len() implies
                        crate::flavor::flavor_of_identifier_spec(es@[x].0@)
                        != crate::flavor::flavor_of_identifier_spec(es@[y].0@) by {
                        assert(out@[x].0 != out@[y].0);
                    }
                }
                assert(flavor_entries_model(es@) =~= dir_models(out@));
            }
            Some(out)
        },
        _ => None,
    }
}

/// An optional text field.
fn read_opt_str(es: &Vec<(String, Value)>, key: &str) -> (r: Option<String>)
    ensures
        opt_str_model(r) == opt_str_field_spec(es@, key@),
{
    match crate::value::mapping_get(es, key) {
        Some(Value::Str(s)) => Some(s.clone()),
        _ => None,
    }
}

/// A boolean field with its documented default.
fn read_bool(es: &Vec<(String, Value)>, key: &str, d: bool) -> (r: bool)
    ensures
        r == bool_field_spec(es@, key@, d),
{
    match crate::value::mapping_get(es, key) {
        Some(Value::Bool(b)) => *b,
        _ => d,
    }
}

/// The window size field.
fn read_window_size(es: &Vec<(String, Value)>) -> (r: Option<(u32, u32)>)
    ensures
        r == window_size_field_spec(es@),
{
    match crate::value::mapping_get(es, "window_size") {
        Some(Value::List(vs)) => {
            if vs.len() == 2 {
                let a = match &vs[0] {
                    Value::Int(a) => *a,
                    _ => {
                        return None;
                    },
                };
                let b = match &vs[1] {
                    Value::Int(b) => *b,
                    _ => {
                        return None;
                    },
                };
                if 0 <= a && a <= u32::MAX as i64 && 0 <= b && b <= u32::MAX as i64 {
                    Some((a as u32, b as u32))
                } else {
                    None
                }
            } else {
                None
            }
        },
        _ => None,
    }
}

impl Config {
    /// Reads the aggregate from a document. Every absent or ill-shaped
    /// simple field takes its documented default, so reading never fails on
    /// absence; the only errors are a document that is not a mapping and a
    /// present column layout that its versioned reader rejects.
    pub fn from_value(v: &Value) -> (r: Result<Config, SchemaError>)
        ensures
            match r {
                Ok(c) => crate::value::mapping_entries(*v) matches Some(es) && config_of_entries(
                    c,
                    es,
                ),
                Err(e) => (crate::value::mapping_entries(*v) is None && e
                    == SchemaError::InvalidValue) || (crate::value::mapping_entries(*v)
                    matches Some(es) && layout_field_spec(es) == Err::<LayoutModel, SchemaError>(
                    e,
                )),
            },
    {
        match v {
            Value::Mapping(es) => {
                let column_config = match crate::value::mapping_get(es, "column_config") {
                    None => ColumnConfig::default(),
                    Some(cv) => match ColumnConfig::deserialize(cv) {
                        Ok(c) => c,
                        Err(e) => {
                            return Err(e);
                        },
                    },
                };
                let directories: Vec<(Flavor, String)> = match crate::value::mapping_get(
                    es,
                    "wow",
                ) {
                    None => Vec::new(),
                    Some(wv) => match wv {
                        Value::Mapping(ws) => match crate::value::mapping_get(ws, "directories") {
                            None => Vec::new(),
                            Some(dv) => match parse_flavor_map(dv) {
                                Some(m) => m,
                                None => Vec::new(),
                            },
                        },
                        _ => Vec::new(),
                    },
                };
                let weak_auras_account: Vec<(Flavor, String)> = match crate::value::mapping_get(
                    es,
                    "weak_auras_account",
                ) {
                    None => Vec::new(),
                    Some(wv) => match parse_flavor_map(wv) {
                        Some(m) => m,
                        None => Vec::new(),
                    },
                };
                let self_update_channel = match crate::value::mapping_get(
                    es,
                    "self_update_channel",
                ) {
                    Some(Value::Str(s)) => match SelfUpdateChannel::from_identifier(s.as_str()) {
                        Some(c) => c,
                        None => SelfUpdateChannel::default(),
                    },
                    _ => SelfUpdateChannel::default(),
                };
                let language = match crate::value::mapping_get(es, "language") {
                    Some(Value::Str(s)) => match Language::from_identifier(s.as_str()) {
                        Some(l) => l,
                        None => Language::default(),
                    },
                    _ => Language::default(),
                };
                proof {
                    assert(dir_models(Seq::<(Flavor, String)>::empty()) =~= Seq::<
                        (Flavor, Seq<char>),
                    >::empty());
                }
                Ok(Config {
                    wow: Wow { directories },
                    theme: read_opt_str(es, "theme"),
                    column_config,
                    window_size: read_window_size(es),
                    backup_directory: read_opt_str(es, "backup_directory"),
                    backup_addons: read_bool(es, "backup_addons", false),
                    backup_wtf: read_bool(es, "backup_wtf", false),
                    hide_ignored_addons: read_bool(es, "hide_ignored_addons", false),
                    self_update_channel,
                    weak_auras_account,
                    alternating_row_colors: read_bool(es, "alternating_row_colors", default_true()),
                    language,
                    auto_update: read_bool(es, "auto_update", false),
                })
            },
            _ => Err(SchemaError::InvalidValue),
        }
    }

    /// Collapses a load to a value: a missing or unreadable document, or
    /// one whose layout is rejected, yields the default aggregate; anything
    /// else yields exactly what `from_value` read. This is the
    /// load-or-default policy: startup never fails on bad persisted data.
    pub fn from_persisted(doc: Option<&Value>) -> (r: Config)
        ensures
            match doc {
                None => is_default_config(r),
                Some(v) => match crate::value::mapping_entries(*v) {
                    None => is_default_config(r),
                    Some(es) => if layout_field_spec(es) is Ok {
                        config_of_entries(r, es)
                    } else {
                        is_default_config(r)
                    },
                },
            },
    {
        match doc {
            None => Config::default(),
            Some(v) => match Config::from_value(v) {
                Ok(c) => c,
                Err(_) => Config::default(),
            },
        }
    }
}

// ---------------------------------------------------------------------------
// Writing the aggregate, and the laws that reading gives back what writing
// produced.
// ---------------------------------------------------------------------------

/// The document value of an optional text: null when absent.
pub open spec fn opt_str_value_rep(v: Value, o: Option<Seq<char>>) -> bool {
    match o {
        None => v is Null,
        Some(t) => v matches Value::Str(s) && s@ == t,
    }
}

/// The document value of the window size: null when absent.
pub open spec fn window_value_rep(v: Value, w: Option<(u32, u32)>) -> bool {
    match w {
        None => v is Null,
        Some(p) => v matches Value::List(vs) && vs@.len() == 2 && vs@[0] == Value::Int(
            p.0 as i64,
        ) && vs@[1] == Value::Int(p.1 as i64),
    }
}

/// The document value of a flavor-keyed mapping: one entry per flavor, its
/// stable identifier as the key, in order.
pub open spec fn flavor_map_value_rep(v: Value, m: Seq<(Flavor, Seq<char>)>) -> bool {
    &&& crate::value::mapping_entries(v) matches Some(es)
    &&& es.len() == m.len()
    &&& forall|i: int|
        0 <= i < es.len() ==> es[i].0@ == crate::flavor::identifier_spec(m[i].0) && (es[i].1
            matches Value::Str(s) && s@ == m[i].1)
}

/// The document value of the `wow` section: the directories mapping alone.
pub open spec fn wow_value_rep(v: Value, m: Seq<(Flavor, Seq<char>)>) -> bool {
    &&& crate::value::mapping_entries(v) matches Some(ws)
    &&& ws.len() == 1
    &&& ws[0].0@ == "directories"@
    &&& flavor_map_value_rep(ws[0].1, m)
}

/// The exact document shape the writer produces for an aggregate.
pub open spec fn config_value_rep(v: Value, c: Config) -> bool {
    &&& crate::value::mapping_entries(v) matches Some(es)
    &&& es.len() == 13
    &&& es[0].0@ == "wow"@ && wow_value_rep(es[0].1, dir_models(c.wow.directories@))
    &&& es[1].0@ == "theme"@ && opt_str_value_rep(es[1].1, opt_str_model(c.theme))
    &&& es[2].0@ == "column_config"@ && crate::schema::layout_value_rep(
        es[2].1,
        c.column_config@,
    )
    &&& es[3].0@ == "window_size"@ && window_value_rep(es[3].1, c.window_size)
    &&& es[4].0@ == "backup_directory"@ && opt_str_value_rep(
        es[4].1,
        opt_str_model(c.backup_directory),
    )
    &&& es[5].0@ == "backup_addons"@ && es[5].1 == Value::Bool(c.backup_addons)
    &&& es[6].0@ == "backup_wtf"@ && es[6].1 == Value::Bool(c.backup_wtf)
    &&& es[7].0@ == "hide_ignored_addons"@ && es[7].1 == Value::Bool(c.hide_ignored_addons)
    &&& es[8].0@ == "self_update_channel"@ && (es[8].1 matches Value::Str(s) && s@
        == crate::channel::channel_identifier_spec(c.self_update_channel))
    &&& es[9].0@ == "weak_auras_account"@ && flavor_map_value_rep(
        es[9].1,
        dir_models(c.weak_auras_account@),
    )
    &&& es[10].0@ == "alternating_row_colors"@ && es[10].1 == Value::Bool(
        c.alternating_row_colors,
    )
    &&& es[11].0@ == "language"@ && (es[11].1 matches Value::Str(s) && s@
        == crate::lang::language_identifier_spec(c.language))
    &&& es[12].0@ == "auto_update"@ && es[12].1 == Value::Bool(c.auto_update)
}

/// No flavor is recorded twice.
pub open spec fn flavors_distinct(s: Seq<(Flavor, String)>) -> bool {
    forall|i: int, j: int| 0 <= i < j < s.len() ==> s[i].0 != s[j].0
}

/// A well-formed aggregate: both flavor-keyed lists hold each flavor at
/// most once. Reading establishes this, and writing relies on it.
pub open spec fn config_wf(c: Config) -> bool {
    flavors_distinct(c.wow.directories@) && flavors_distinct(c.weak_auras_account@)
}

/// Writes a flavor-keyed mapping, one entry per flavor in list order.
fn flavor_map_to_value(m: &Vec<(Flavor, String)>) -> (r: Value)
    ensures
        flavor_map_value_rep(r, dir_models(m@)),
{
    let n = m.len();
    let mut es: Vec<(String, Value)> = Vec::new();
    let mut i: usize = 0;
    while i < n
        invariant
            i <= n,
            n == m@.len(),
            es@.len() == i,
            forall|j: int|
                0 <= j < i ==> es@[j].0@ == crate::flavor::identifier_spec(m@[j].0) && (es@[j].1
                    matches Value::Str(s) && s@ == m@[j].1@),
        decreases n - i,
    {
        let pair = &m[i];
        es.push((String::from_str(pair.0.identifier()), Value::Str(pair.1.clone())));
        i = i + 1;
    }
    Value::Mapping(es)
}

/// Writes an optional text as itself or null.
fn opt_str_to_value(o: &Option<String>) -> (r: Value)
    ensures
        opt_str_value_rep(r, opt_str_model(*o)),
{
    match o {
        None => Value::Null,
        Some(s) => Value::Str(s.clone()),
    }
}

impl Config {
    /// Writes the aggregate in the exact shape `from_value` reads back.
    pub fn serialize(&self) -> (r: Value)
        ensures
            config_value_rep(r, *self),
    {
        let mut ws: Vec<(String, Value)> = Vec::new();
        ws.push(
            (String::from_str("directories"), flavor_map_to_value(&self.wow.directories)),
        );
        let window = match self.window_size {
            None => Value::Null,
            Some(p) => {
                let mut vs: Vec<Value> = Vec::new();
                vs.push(Value::Int(p.0 as i64));
                vs.push(Value::Int(p.1 as i64));
                Value::List(vs)
            },
        };
        let mut es: Vec<(String, Value)> = Vec::new();
        es.push((String::from_str("wow"), Value::Mapping(ws)));
        es.push((String::from_str("theme"), opt_str_to_value(&self.theme)));
        es.push((String::from_str("column_config"), self.column_config.serialize()));
        es.push((String::from_str("window_size"), window));
        es.push((String::from_str("backup_directory"), opt_str_to_value(&self.backup_directory)));
        es.push((String::from_str("backup_addons"), Value::Bool(self.backup_addons)));
        es.push((String::from_str("backup_wtf"), Value::Bool(self.backup_wtf)));
        es.push(
            (String::from_str("hide_ignored_addons"), Value::Bool(self.hide_ignored_addons)),
        );
        es.push(
            (
                String::from_str("self_update_channel"),
                Value::Str(String::from_str(self.self_update_channel.identifier())),
            ),
        );
        es.push(
            (
                String::from_str("weak_auras_account"),
                flavor_map_to_value(&self.weak_auras_account),
            ),
        );
        es.push(
            (
                String::from_str("alternating_row_colors"),
                Value::Bool(self.alternating_row_colors),
            ),
        );
        es.push(
            (String::from_str("language"), Value::Str(String::from_str(self.language.identifier()))),
        );
        es.push((String::from_str("auto_update"), Value::Bool(self.auto_update)));
        Value::Mapping(es)
    }
}

/// A written flavor-keyed mapping reads back as itself when no flavor
/// repeats.
proof fn lemma_flavor_map_rep_parses(v: Value, m: Seq<(Flavor, Seq<char>)>)
    requires
        flavor_map_value_rep(v, m),
        forall|i: int, j: int| 0 <= i < j < m.len() ==> m[i].0 != m[j].0,
    ensures
        flavor_map_of_value_spec(v) == Some(m),
{
    let es = crate::value::mapping_entries(v)->Some_0;
    assert forall|i: int| 0 <= i < es.len() implies crate::flavor::flavor_of_identifier_spec(
        es[i].0@,
    ) is Some && es[i].1 is Str by {
        crate::flavor::lemma_flavor_identifier_round_trip(m[i].0);
    }
    assert forall|i: int, j: int| 0 <= i < j < es.len() implies
        crate::flavor::flavor_of_identifier_spec(es[i].0@)
        != crate::flavor::flavor_of_identifier_spec(es[j].0@) by {
        crate::flavor::lemma_flavor_identifier_round_trip(m[i].0);
        crate::flavor::lemma_flavor_identifier_round_trip(m[j].0);
    }
    assert(flavor_entries_model(es) =~= m) by {
        assert forall|i: int| 0 <= i < es.len() implies flavor_entries_model(es)[i] == m[i] by {
            crate::flavor::lemma_flavor_identifier_round_trip(m[i].0);
        }
    }
}

/// Pins the literal facts that tell the aggregate's keys apart.
proof fn lemma_config_literals()
    ensures
        "wow"@.len() == 3,
        "theme"@.len() == 5,
        "column_config"@.len() == 13,
        "window_size"@.len() == 11,
        "backup_directory"@.len() == 16,
        "backup_addons"@.len() == 13,
        "backup_wtf"@.len() == 10,
        "hide_ignored_addons"@.len() == 19,
        "self_update_channel"@.len() == 19,
        "weak_auras_account"@.len() == 18,
        "alternating_row_colors"@.len() == 22,
        "language"@.len() == 8,
        "auto_update"@.len() == 11,
        "directories"@.len() == 11,
        "column_config"@[0] == 'c',
        "backup_addons"@[0] == 'b',
        "hide_ignored_addons"@[0] == 'h',
        "self_update_channel"@[0] == 's',
        "window_size"@[0] == 'w',
        "auto_update"@[0] == 'a',
        "directories"@[0] == 'd',
{
    reveal_strlit("wow");
    reveal_strlit("theme");
    reveal_strlit("column_config");
    reveal_strlit("window_size");
    reveal_strlit("backup_directory");
    reveal_strlit("backup_addons");
    reveal_strlit("backup_wtf");
    reveal_strlit("hide_ignored_addons");
    reveal_strlit("self_update_channel");
    reveal_strlit("weak_auras_account");
    reveal_strlit("alternating_row_colors");
    reveal_strlit("language");
    reveal_strlit("auto_update");
    reveal_strlit("directories");
}

/// The aggregate round-trip law: a document carrying the written shape of
/// any well-formed aggregate reads back with every field equal to what was
/// written, the column layout's version tag included. In particular the
/// default aggregate survives a write-read cycle unchanged.
pub proof fn lemma_config_round_trip(v: Value, c: Config)
    requires
        config_value_rep(v, c),
        config_wf(c),
    ensures
        crate::value::mapping_entries(v) matches Some(es) && config_of_entries(c, es),
{
    lemma_config_literals();
    let es = crate::value::mapping_entries(v)->Some_0;
    crate::value::lemma_map_get_found(es, "wow"@, 0);
    crate::value::lemma_map_get_found(es, "theme"@, 1);
    crate::value::lemma_map_get_found(es, "column_config"@, 2);
    crate::value::lemma_map_get_found(es, "window_size"@, 3);
    crate::value::lemma_map_get_found(es, "backup_directory"@, 4);
    crate::value::lemma_map_get_found(es, "backup_addons"@, 5);
    crate::value::lemma_map_get_found(es, "backup_wtf"@, 6);
    crate::value::lemma_map_get_found(es, "hide_ignored_addons"@, 7);
    crate::value::lemma_map_get_found(es, "self_update_channel"@, 8);
    crate::value::lemma_map_get_found(es, "weak_auras_account"@, 9);
    crate::value::lemma_map_get_found(es, "alternating_row_colors"@, 10);
    crate::value::lemma_map_get_found(es, "language"@, 11);
    crate::value::lemma_map_get_found(es, "auto_update"@, 12);
    crate::schema::lemma_layout_round_trip(es[2].1, c.column_config@);
    let ws = crate::value::mapping_entries(es[0].1)->Some_0;
    crate::value::lemma_map_get_found(ws, "directories"@, 0);
    assert forall|i: int, j: int| 0 <= i < j < dir_models(c.wow.directories@).len() implies
        dir_models(c.wow.directories@)[i].0 != dir_models(c.wow.directories@)[j].0 by {
        assert(c.wow.directories@[i].0 != c.wow.directories@[j].0);
    }
    lemma_flavor_map_rep_parses(ws[0].1, dir_models(c.wow.directories@));
    assert forall|i: int, j: int| 0 <= i < j < dir_models(c.weak_auras_account@).len() implies
        dir_models(c.weak_auras_account@)[i].0 != dir_models(c.weak_auras_account@)[j].0 by {
        assert(c.weak_auras_account@[i].0 != c.weak_auras_account@[j].0);
    }
    lemma_flavor_map_rep_parses(es[9].1, dir_models(c.weak_auras_account@));
    crate::channel::lemma_channel_identifier_round_trip(c.self_update_channel);
    crate::lang::lemma_language_identifier_round_trip(c.language);
}

/// Reading an empty document yields exactly the default aggregate: every
/// absent field takes its documented default.
pub proof fn lemma_empty_document_reads_default(c: Config)
    requires
        config_of_entries(c, Seq::<(String, Value)>::empty()),
    ensures
        is_default_config(c),
{
    let es = Seq::<(String, Value)>::empty();
    assert(crate::value::map_get(es, "column_config"@) is None);
    assert(c.wow.directories@ =~= Seq::<(Flavor, String)>::empty()) by {
        assert(dir_models(c.wow.directories@).len() == 0);
    }
    assert(c.weak_auras_account@ =~= Seq::<(Flavor, String)>::empty()) by {
        assert(dir_models(c.weak_auras_account@).len() == 0);
    }
}

} // verus!
