//! The decisions behind the project-wide configuration: development mode,
//! the project root, and where logs and data go.

use vstd::prelude::*;
use crate::registry::text_eq;

verus! {

/// `c` is a white-space character (Unicode `White_Space`, as
/// `char::is_whitespace` documents it).
pub open spec fn is_white_space(c: char) -> bool {
    ||| ('\u{9}' <= c && c <= '\u{d}')
    ||| c == ' ' || c == '\u{85}' || c == '\u{a0}' || c == '\u{1680}'
    ||| ('\u{2000}' <= c && c <= '\u{200a}')
    ||| c == '\u{2028}' || c == '\u{2029}' || c == '\u{202f}' || c == '\u{205f}' || c == '\u{3000}'
}

/// `s` without its leading white space.
pub open spec fn trim_start_spec(s: Seq<char>) -> Seq<char>
    decreases s.len(),
{
    if s.len() > 0 && is_white_space(s[0]) {
        trim_start_spec(s.drop_first())
    } else {
        s
    }
}

/// `s` without its trailing white space.
pub open spec fn trim_end_spec(s: Seq<char>) -> Seq<char>
    decreases s.len(),
{
    if s.len() > 0 && is_white_space(s.last()) {
        trim_end_spec(s.drop_last())
    } else {
        s
    }
}

/// `s` without leading and trailing white space.
pub open spec fn trimmed(s: Seq<char>) -> Seq<char> {
    trim_end_spec(trim_start_spec(s))
}

/// Whether a character is white space.
fn is_white_space_char(c: char) -> (r: bool)
    ensures
        r == is_white_space(c),
{
    ('\u{9}' <= c && c <= '\u{d}') || c == ' ' || c == '\u{85}' || c == '\u{a0}' || c == '\u{1680}'
        || ('\u{2000}' <= c && c <= '\u{200a}') || c == '\u{2028}' || c == '\u{2029}' || c == '\u{202f}'
        || c == '\u{205f}' || c == '\u{3000}'
}

/// Leading white space can be skipped before trimming the start.
proof fn lemma_trim_start_skip(s: Seq<char>, i: int)
    requires
        0 <= i <= s.len(),
        forall|k: int| 0 <= k < i ==> is_white_space(s[k]),
    ensures
        trim_start_spec(s) == trim_start_spec(s.subrange(i, s.len() as int)),
    decreases i,
{
    if i > 0 {
        assert(is_white_space(s[0]));
        let t = s.drop_first();
        assert forall|k: int| 0 <= k < i - 1 implies is_white_space(t[k]) by {
            assert(t[k] == s[k + 1]);
        }
        lemma_trim_start_skip(t, i - 1);
        assert(t.subrange(i - 1, t.len() as int) =~= s.subrange(i, s.len() as int));
    } else {
        assert(s.subrange(0, s.len() as int) =~= s);
    }
}

/// Trailing white space can be dropped before trimming the end.
proof fn lemma_trim_end_skip(t: Seq<char>, j: int)
    requires
        0 <= j <= t.len(),
        forall|k: int| j <= k < t.len() ==> is_white_space(t[k]),
    ensures
        trim_end_spec(t) == trim_end_spec(t.subrange(0, j)),
    decreases t.len() - j,
{
    if j < t.len() {
        assert(is_white_space(t.last()));
        let u = t.drop_last();
        assert forall|k: int| j <= k < u.len() implies is_white_space(u[k]) by {
            assert(u[k] == t[k]);
        }
        lemma_trim_end_skip(u, j);
        assert(u.subrange(0, j) =~= t.subrange(0, j));
    } else {
        assert(t.subrange(0, j) =~= t);
    }
}

/// `s` without leading and trailing white space (as `str::trim`).
fn trim(s: &str) -> (r: &str)
    ensures
        r@ == trimmed(s@),
{
    let n = s.unicode_len();
    let mut i: usize = 0;
    while i < n && is_white_space_char(s.get_char(i))
        invariant
            n == s@.len(),
            i <= n,
            forall|k: int| 0 <= k < i ==> is_white_space(s@[k]),
        decreases n - i,
    {
        i = i + 1;
    }
    proof {
        lemma_trim_start_skip(s@, i as int);
    }
    if i == n {
        proof {
            assert(s@.subrange(i as int, n as int) =~= Seq::<char>::empty());
        }
        return s.substring_char(i, i);
    }
    let ghost u = s@.subrange(i as int, n as int);
    assert(trim_start_spec(u) == u) by {
        assert(u[0] == s@[i as int]);
    }
    let mut j: usize = n;
    while j > i && is_white_space_char(s.get_char(j - 1))
        invariant
            n == s@.len(),
            i < n,
            i <= j <= n,
            u == s@.subrange(i as int, n as int),
            !is_white_space(s@[i as int]),
            forall|k: int| j <= k < n ==> is_white_space(s@[k]),
        decreases j,
    {
        j = j - 1;
    }
    let r = s.substring_char(i, j);
    proof {
        assert forall|k: int| (j - i) as int <= k < u.len() implies is_white_space(u[k]) by {
            assert(u[k] == s@[k + i]);
        }
        lemma_trim_end_skip(u, (j - i) as int);
        let v = u.subrange(0, (j - i) as int);
        assert(v =~= s@.subrange(i as int, j as int));
        assert(j > i);
        assert(v.last() == s@[j - 1]);
        assert(trim_end_spec(v) == v);
    }
    r
}

/// What `str::to_lowercase` makes of a text (the full Unicode lowercase
/// mapping).
pub uninterp spec fn lowercase_of(s: Seq<char>) -> Seq<char>;

/// The lowercase of an ASCII character: `A`..`Z` become `a`..`z`, any
/// other character stays.
pub open spec fn ascii_lower(c: char) -> char {
    if 'A' <= c && c <= 'Z' {
        ((c as int) + 32) as char
    } else {
        c
    }
}

/// Every character of `s` is ASCII.
pub open spec fn all_ascii(s: Seq<char>) -> bool {
    forall|i: int| 0 <= i < s.len() ==> (s[i] as int) < 128
}

/// `s` with each ASCII uppercase letter lowered.
pub open spec fn ascii_lowercase(s: Seq<char>) -> Seq<char> {
    s.map_values(|c: char| ascii_lower(c))
}

/// `str::to_lowercase`. Of ASCII text, std's Unicode lowercase mapping
/// lowers each of `A`..`Z` to `a`..`z` and keeps every other character,
/// one for one; of other text only the name is stated.
#[verifier::external_body]
fn to_lowercase(s: &str) -> (r: String)
    ensures
        r@ == lowercase_of(s@),
        all_ascii(s@) ==> r@ == ascii_lowercase(s@),
{
    s.to_lowercase()
}

/// A setting text that switches development mode on: `1` or `true`, once
/// trimmed and lowercased.
pub open spec fn is_on_text(value: Seq<char>) -> bool {
    let v = lowercase_of(trimmed(value));
    v == "1"@ || v == "true"@
}

/// A setting text whose trimmed form is ASCII switches development mode on
/// exactly when, with its letters lowered, it reads `1` or `true`.
pub open spec fn is_on_ascii_text(value: Seq<char>) -> bool {
    let v = ascii_lowercase(trimmed(value));
    v == "1"@ || v == "true"@
}

/// Whether development mode is on: the `MERIX_DEV_MODE` setting decides
/// where it is set (to `1` or `true`, trimmed and in any case, for on;
/// anything else for off); where it is unset, a debug build is in
/// development mode.
pub open spec fn dev_mode_spec(setting: Option<Seq<char>>, debug_build: bool) -> bool {
    match setting {
        Some(v) => is_on_text(v),
        None => debug_build,
    }
}

/// A directory that `MerixConfig` looks at while searching for the
/// project root, with what it holds.
#[derive(Clone, Debug)]
pub struct DirProbe {
    pub path: String,
    pub has_cargo_toml: bool,
    pub has_crates_dir: bool,
}

/// The index of the first directory holding both `Cargo.toml` and
/// `crates`, if one does.
pub open spec fn first_root(probes: Seq<DirProbe>) -> Option<int> {
    if exists|i: int| 0 <= i < probes.len() && #[trigger] probes[i].has_cargo_toml && probes[i].has_crates_dir {
        Some(choose|i: int| 0 <= i < probes.len() && #[trigger] probes[i].has_cargo_toml && probes[i].has_crates_dir
            && forall|j: int| 0 <= j < i ==> !(#[trigger] probes[j].has_cargo_toml && probes[j].has_crates_dir))
    } else {
        None
    }
}

/// The source of a log or data directory.
#[derive(Clone, Debug)]
pub enum DirectoryPlan {
    /// The directory that the environment names, as it stands.
    Override(String),
    /// The given project root joined with the subdirectory (development).
    UnderProjectRoot(String),
    /// The working directory joined with the subdirectory (development,
    /// with no project root found).
    UnderWorkingDir,
    /// The platform's application data directory joined with the
    /// application name and the subdirectory (production).
    UnderAppData,
}

/// The operating-system family, which decides the application data base.
#[derive(Clone, Copy, Debug, PartialEq, Eq, Structural)]
pub enum OsFamily {
    Windows,
    MacOs,
    Other,
}

/// The base of the application data directory.
#[derive(Clone, Debug)]
pub enum AppDataBase {
    /// This directory as it stands.
    Dir(String),
    /// This directory joined with the given relative path.
    Joined(String, String),
    /// The working directory (where the environment names no base).
    WorkingDir,
}

/// Where a log or data directory comes from, given the environment's
/// override, development mode, and the project root found.
pub open spec fn plan_spec(override_dir: Option<String>, dev_mode: bool, project_root: Option<String>) -> DirectoryPlan {
    match override_dir {
        Some(d) => DirectoryPlan::Override(d),
        None => if dev_mode {
            match project_root {
                Some(r) => DirectoryPlan::UnderProjectRoot(r),
                None => DirectoryPlan::UnderWorkingDir,
            }
        } else {
            DirectoryPlan::UnderAppData
        },
    }
}

/// Which of the two directories is asked for.
#[derive(Clone, Copy, Debug, PartialEq, Eq, Structural)]
pub enum DirectoryKind {
    Logs,
    Data,
}

/// The subdirectory name of a kind of directory.
pub open spec fn subdirectory_spec(kind: DirectoryKind) -> Seq<char> {
    match kind {
        DirectoryKind::Logs => "logs"@,
        DirectoryKind::Data => "data"@,
    }
}

/// Where a directory path starts.
#[derive(Clone, Debug)]
pub enum PathRoot {
    /// This directory as it stands.
    Dir(String),
    /// The working directory.
    WorkingDir,
}

/// A directory path: a root and the components joined onto it, in order.
#[derive(Clone, Debug)]
pub struct DirectoryPath {
    pub root: PathRoot,
    pub components: Vec<String>,
}

impl DirectoryPath {
    /// The root's text, or `None` for the working directory.
    pub open spec fn root_view(self) -> Option<Seq<char>> {
        match self.root {
            PathRoot::Dir(d) => Some(d@),
            PathRoot::WorkingDir => None,
        }
    }

    /// The components' texts.
    pub open spec fn components_view(self) -> Seq<Seq<char>> {
        self.components@.map_values(|c: String| c@)
    }
}

/// The application's name, under which its production directories live.
pub open spec fn app_name_spec() -> Seq<char> {
    "Merix"@
}

/// The root of a planned directory path.
pub open spec fn path_root_spec(plan: DirectoryPlan, base: AppDataBase) -> Option<Seq<char>> {
    match plan {
        DirectoryPlan::Override(d) => Some(d@),
        DirectoryPlan::UnderProjectRoot(r) => Some(r@),
        DirectoryPlan::UnderWorkingDir => None,
        DirectoryPlan::UnderAppData => match base {
            AppDataBase::Dir(a) => Some(a@),
            AppDataBase::Joined(h, _rel) => Some(h@),
            AppDataBase::WorkingDir => None,
        },
    }
}

/// The components of a planned directory path: none for an override; the
/// subdirectory under a project root or the working directory; under the
/// application data base (after its relative part, if any), the
/// application's name and then the subdirectory.
pub open spec fn path_components_spec(plan: DirectoryPlan, base: AppDataBase, kind: DirectoryKind) -> Seq<Seq<char>> {
    match plan {
        DirectoryPlan::Override(_d) => Seq::empty(),
        DirectoryPlan::UnderProjectRoot(_r) => seq![subdirectory_spec(kind)],
        DirectoryPlan::UnderWorkingDir => seq![subdirectory_spec(kind)],
        DirectoryPlan::UnderAppData => match base {
            AppDataBase::Joined(_h, rel) => seq![rel@, app_name_spec(), subdirectory_spec(kind)],
            _ => seq![app_name_spec(), subdirectory_spec(kind)],
        },
    }
}

/// The log and the data directory planned alike (neither overridden) are
/// siblings: the same root, the same components but the last, and last
/// components `logs` and `data`. With neither variable set, the plans of
/// the two are one and the same.
pub proof fn lemma_logs_and_data_are_siblings(dev_mode: bool, project_root: Option<String>, base: AppDataBase)
    ensures
        plan_spec(None, dev_mode, project_root) !is Override,
        ({
            let plan = plan_spec(None, dev_mode, project_root);
            let logs = path_components_spec(plan, base, DirectoryKind::Logs);
            let data = path_components_spec(plan, base, DirectoryKind::Data);
            &&& logs.len() == data.len()
            &&& logs.len() > 0
            &&& logs.drop_last() == data.drop_last()
            &&& logs.last() == "logs"@
            &&& data.last() == "data"@
        }),
{
    let plan = plan_spec(None, dev_mode, project_root);
    let logs = path_components_spec(plan, base, DirectoryKind::Logs);
    let data = path_components_spec(plan, base, DirectoryKind::Data);
    assert(logs.drop_last() =~= data.drop_last());
}

/// Project-wide configuration.
pub struct MerixConfig;

impl MerixConfig {
    /// Application name (used for directories, logs, data).
    pub const APP_NAME: &'static str = "Merix";

    /// Whether development mode is on, given the `MERIX_DEV_MODE` setting
    /// (`None` where unset or not Unicode) and whether this is a debug build.
    pub fn is_dev_mode(setting: Option<&str>, debug_build: bool) -> (on: bool)
        ensures
            on == dev_mode_spec(
                match setting {
                    Some(v) => Some(v@),
                    None => None,
                },
                debug_build,
            ),
            match setting {
                Some(v) => all_ascii(trimmed(v@)) ==> on == is_on_ascii_text(v@),
                None => true,
            },
    {
        match setting {
            Some(v) => {
                let t = trim(v);
                let lowered = to_lowercase(t);
                proof {
                    if all_ascii(t@) {
                        assert(lowered@ == ascii_lowercase(t@));
                    }
                }
                MerixConfig::dev_mode_from_lowered(Some(lowered.as_str()), debug_build)
            },
            None => MerixConfig::dev_mode_from_lowered(None, debug_build),
        }
    }

    /// Whether development mode is on, given the setting already trimmed
    /// and lowercased (`None` where unset): on for `1` or `true`, off for
    /// any other text; where unset, on exactly in a debug build.
    pub fn dev_mode_from_lowered(lowered: Option<&str>, debug_build: bool) -> (on: bool)
        ensures
            on == match lowered {
                Some(v) => v@ == "1"@ || v@ == "true"@,
                None => debug_build,
            },
    {
        match lowered {
            Some(v) => {
                proof {
                    reveal_strlit("1");
                    reveal_strlit("true");
                }
                text_eq(v, "1") || text_eq(v, "true")
            },
            None => debug_build,
        }
    }

    /// The project root: walking up from the crate's manifest directory
    /// (`ancestors` lists its parent first, then each further parent, with
    /// what each holds), the first directory holding both `Cargo.toml` and
    /// `crates`.
    pub fn project_root(ancestors: &Vec<DirProbe>) -> (root: Option<String>)
        ensures
            match first_root(ancestors@) {
                Some(i) => root == Some(ancestors@[i].path),
                None => root is None,
            },
    {
        let mut i: usize = 0;
        while i < ancestors.len()
            invariant
                i <= ancestors@.len(),
                forall|j: int| 0 <= j < i ==> !(#[trigger] ancestors@[j].has_cargo_toml && ancestors@[j].has_crates_dir),
            decreases ancestors@.len() - i,
        {
            let probe = &ancestors[i];
            if probe.has_cargo_toml && probe.has_crates_dir {
                assert(ancestors@[i as int].has_cargo_toml && ancestors@[i as int].has_crates_dir);
                proof {
                    let k = choose|k: int| 0 <= k < ancestors@.len() && #[trigger] ancestors@[k].has_cargo_toml
                        && ancestors@[k].has_crates_dir && forall|j: int| 0 <= j < k ==> !(#[trigger] ancestors@[j].has_cargo_toml && ancestors@[j].has_crates_dir);
                    assert(k == i);
                }
                return Some(probe.path.clone());
            }
            i = i + 1;
        }
        None
    }

    /// Where a log or data directory comes from: the environment's
    /// override if set; in development mode the project root, or else the
    /// working directory; otherwise the application data directory.
    pub fn plan_directory(override_dir: Option<String>, dev_mode: bool, project_root: Option<String>) -> (plan: DirectoryPlan)
        ensures
            plan == plan_spec(override_dir, dev_mode, project_root),
            override_dir matches Some(d) ==> plan == DirectoryPlan::Override(d),
            override_dir is None && !dev_mode ==> plan == DirectoryPlan::UnderAppData,
            override_dir is None && dev_mode ==> (match project_root {
                Some(r) => plan == DirectoryPlan::UnderProjectRoot(r),
                None => plan == DirectoryPlan::UnderWorkingDir,
            }),
    {
        match override_dir {
            Some(d) => DirectoryPlan::Override(d),
            None => if dev_mode {
                match project_root {
                    Some(r) => DirectoryPlan::UnderProjectRoot(r),
                    None => DirectoryPlan::UnderWorkingDir,
                }
            } else {
                DirectoryPlan::UnderAppData
            },
        }
    }

    /// The subdirectory name of a kind of directory: `logs` or `data`.
    pub fn subdirectory(kind: DirectoryKind) -> (s: &'static str)
        ensures
            s@ == subdirectory_spec(kind),
    {
        proof {
            reveal_strlit("logs");
            reveal_strlit("data");
        }
        match kind {
            DirectoryKind::Logs => "logs",
            DirectoryKind::Data => "data",
        }
    }

    /// The path of a planned log or data directory, given the application
    /// data base: its root, and the components to join onto it in order.
    pub fn directory_path(plan: &DirectoryPlan, base: &AppDataBase, kind: DirectoryKind) -> (p: DirectoryPath)
        ensures
            p.root_view() == path_root_spec(*plan, *base),
            p.components_view() == path_components_spec(*plan, *base, kind),
    {
        proof {
            reveal_strlit("Merix");
        }
        let sub = MerixConfig::subdirectory(kind).to_owned();
        let mut components: Vec<String> = Vec::new();
        let root = match plan {
            DirectoryPlan::Override(d) => PathRoot::Dir(d.clone()),
            DirectoryPlan::UnderProjectRoot(r) => {
                components.push(sub);
                PathRoot::Dir(r.clone())
            },
            DirectoryPlan::UnderWorkingDir => {
                components.push(sub);
                PathRoot::WorkingDir
            },
            DirectoryPlan::UnderAppData => {
                let root = match base {
                    AppDataBase::Dir(a) => PathRoot::Dir(a.clone()),
                    AppDataBase::Joined(h, rel) => {
                        components.push(rel.clone());
                        PathRoot::Dir(h.clone())
                    },
                    AppDataBase::WorkingDir => PathRoot::WorkingDir,
                };
                components.push(MerixConfig::APP_NAME.to_owned());
                components.push(sub);
                root
            },
        };
        let p = DirectoryPath { root, components };
        assert(p.components_view() =~= path_components_spec(*plan, *base, kind));
        p
    }

    /// The base of the application data directory on the given platform:
    /// `APPDATA` on Windows, `HOME` joined with `Library/Application Support`
    /// on macOS, `HOME` joined with `.config` elsewhere; the working
    /// directory where that variable is unset.
    pub fn os_app_data_base(os: OsFamily, appdata: Option<String>, home: Option<String>) -> (base: AppDataBase)
        ensures
            match os {
                OsFamily::Windows => match appdata {
                    Some(a) => base == AppDataBase::Dir(a),
                    None => base == AppDataBase::WorkingDir,
                },
                OsFamily::MacOs => match home {
                    Some(h) => base matches AppDataBase::Joined(d, rel) && d == h && rel@ == "Library/Application Support"@,
                    None => base == AppDataBase::WorkingDir,
                },
                OsFamily::Other => match home {
                    Some(h) => base matches AppDataBase::Joined(d, rel) && d == h && rel@ == ".config"@,
                    None => base == AppDataBase::WorkingDir,
                },
            },
    {
        proof {
            reveal_strlit("Library/Application Support");
            reveal_strlit(".config");
        }
        match os {
            OsFamily::Windows => match appdata {
                Some(a) => AppDataBase::Dir(a),
                None => AppDataBase::WorkingDir,
            },
            OsFamily::MacOs => match home {
                Some(h) => AppDataBase::Joined(h, "Library/Application Support".to_owned()),
                None => AppDataBase::WorkingDir,
            },
            OsFamily::Other => match home {
                Some(h) => AppDataBase::Joined(h, ".config".to_owned()),
                None => AppDataBase::WorkingDir,
            },
        }
    }
}


/// Without an override, outside development mode the directories lie
/// under the application data directory, whatever the project root.
pub proof fn lemma_production_uses_app_data(project_root: Option<String>)
    ensures
        plan_spec(None, false, project_root) == DirectoryPlan::UnderAppData,
{
}

/// An override always wins; the project root is used only in development
/// mode, and the working directory only in development mode with no
/// project root.
pub proof fn lemma_plan_sources(override_dir: Option<String>, dev_mode: bool, project_root: Option<String>)
    ensures
        override_dir matches Some(d) ==> plan_spec(override_dir, dev_mode, project_root) == DirectoryPlan::Override(d),
        plan_spec(override_dir, dev_mode, project_root) is UnderProjectRoot ==> override_dir is None && dev_mode
            && project_root == Some(plan_spec(override_dir, dev_mode, project_root)->UnderProjectRoot_0),
        plan_spec(override_dir, dev_mode, project_root) is UnderWorkingDir ==> override_dir is None && dev_mode
            && project_root is None,
        plan_spec(override_dir, dev_mode, project_root) is UnderAppData ==> override_dir is None && !dev_mode,
{
}

} // verus!
