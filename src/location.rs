use crate::platform::{path_separator, platform_base_dirs};
use vstd::prelude::*;

verus! {

/// Which of the platform's canonical per-user base directories a file lives under.
#[derive(Debug, Clone, Copy, PartialEq, Eq, Structural)]
pub enum DirType {
    /// The per-user data directory (Roaming AppData, or `$HOME/.local/share`).
    Data,
    /// The per-user configuration directory (Roaming AppData, or `$HOME/.config`).
    Config,
    /// The per-user cache directory (Local AppData, or `$HOME/.cache`).
    Cache,
}

/// The intent of a storage location: which project, which category, and where
/// under the project's folder the file sits.
#[derive(Debug, Clone, Copy)]
pub struct PathConfig<'a> {
    pub project_prefix: &'a str,
    /// An extra folder under the project's folder; empty for no extra nesting.
    pub sub_folder: &'a str,
    pub file_name: &'a str,
    pub dir_type: &'a DirType,
}

/// The platform's answer for the three base directories: each one, or `None`
/// where that directory is not valid UTF-8.
#[derive(Debug, Clone)]
pub struct BaseDirPaths {
    pub data: Option<String>,
    pub config: Option<String>,
    pub cache: Option<String>,
}

/// The only way resolution fails.
#[derive(Debug, Clone, Copy, PartialEq, Eq, Structural)]
pub enum ResolutionError {
    /// The platform's base directories could not be determined (for instance,
    /// no home directory could be found), or are not valid UTF-8.
    PlatformUnresolvable,
}

/// `a` and `b` joined by the path separator `sep`.
pub open spec fn join(a: Seq<char>, sep: Seq<char>, b: Seq<char>) -> Seq<char> {
    a + sep + b
}

impl<'a> PathConfig<'a> {
    /// Both the project name and the file name are non-empty.
    pub open spec fn valid(self) -> bool {
        &&& self.project_prefix@.len() > 0
        &&& self.file_name@.len() > 0
    }

    /// The base directory that this config's category takes from `dirs`.
    pub open spec fn base_among(self, dirs: BaseDirPaths) -> Option<String> {
        match *self.dir_type {
            DirType::Data => dirs.data,
            DirType::Config => dirs.config,
            DirType::Cache => dirs.cache,
        }
    }

    /// The directory that holds the file when the category's base directory is
    /// `base` and segments are separated by `sep`.
    pub open spec fn directory_under(self, base: Seq<char>, sep: Seq<char>) -> Seq<char> {
        if self.sub_folder@.len() == 0 {
            join(base, sep, self.project_prefix@)
        } else {
            join(join(base, sep, self.project_prefix@), sep, self.sub_folder@)
        }
    }

    /// The file's full path when the category's base directory is `base` and
    /// segments are separated by `sep`.
    pub open spec fn file_under(self, base: Seq<char>, sep: Seq<char>) -> Seq<char> {
        join(self.directory_under(base, sep), sep, self.file_name@)
    }
}

/// A resolved location: the base directory the platform gave for the
/// category, the directory to create before writing, and the file's full path.
#[derive(Debug, Clone)]
pub struct ResolvedPaths<'a> {
    /// The intent this location was resolved from.
    pub config: PathConfig<'a>,
    pub base_path: String,
    /// The path separator the segments were joined with.
    pub separator: String,
    pub directory_path: String,
    pub constructed_path: String,
}

impl<'a> ResolvedPaths<'a> {
    /// The directory and the file are those of `config` under `base_path`.
    pub open spec fn wf(self) -> bool {
        &&& self.directory_path@ == self.config.directory_under(self.base_path@, self.separator@)
        &&& self.constructed_path@ == self.config.file_under(self.base_path@, self.separator@)
    }
}

/// `dir` followed by the separator `sep` and `segment`.
fn push_segment(dir: &mut String, sep: &str, segment: &str)
    ensures
        final(dir)@ == join(old(dir)@, sep@, segment@),
{
    dir.append(sep);
    dir.append(segment);
}

impl<'a> PathConfig<'a> {
    /// Builds the location of this config under `base`, the base directory the
    /// platform reported for the category (`None` when it reported none), with
    /// segments separated by `separator`. Nothing is read or written: the
    /// result is a function of its arguments alone.
    pub fn resolve_with_base(&self, base: Option<String>, separator: String) -> (r: Result<
        ResolvedPaths<'a>,
        ResolutionError,
    >)
        requires
            self.valid(),
        ensures
            base is None ==> r == Err::<ResolvedPaths<'a>, ResolutionError>(
                ResolutionError::PlatformUnresolvable,
            ),
            base matches Some(b) ==> (r matches Ok(loc) && loc.config == *self && loc.base_path@
                == b@ && loc.separator@ == separator@ && loc.wf()),
            r matches Ok(loc) ==> loc.base_path@.is_prefix_of(loc.directory_path@)
                && loc.directory_path@.is_prefix_of(loc.constructed_path@),
    {
        match base {
            None => Err(ResolutionError::PlatformUnresolvable),
            Some(base_path) => {
                let mut directory_path = base_path.clone();
                push_segment(&mut directory_path, separator.as_str(), self.project_prefix);
                if !self.sub_folder.is_empty() {
                    push_segment(&mut directory_path, separator.as_str(), self.sub_folder);
                }
                let mut constructed_path = directory_path.clone();
                push_segment(&mut constructed_path, separator.as_str(), self.file_name);
                let loc = ResolvedPaths {
                    config: *self,
                    base_path,
                    separator,
                    directory_path,
                    constructed_path,
                };
                proof {
                    lemma_paths_nested(loc);
                }
                Ok(loc)
            },
        }
    }

    /// Picks this config's category out of the platform's base directories
    /// `dirs` (`None` when the platform could not tell them) and builds the
    /// location under it.
    pub fn resolve_under(&self, dirs: Option<BaseDirPaths>, separator: String) -> (r: Result<
        ResolvedPaths<'a>,
        ResolutionError,
    >)
        requires
            self.valid(),
        ensures
            dirs is None ==> r == Err::<ResolvedPaths<'a>, ResolutionError>(
                ResolutionError::PlatformUnresolvable,
            ),
            dirs matches Some(d) ==> (self.base_among(d) is None ==> r == Err::<
                ResolvedPaths<'a>,
                ResolutionError,
            >(ResolutionError::PlatformUnresolvable)),
            dirs matches Some(d) ==> (self.base_among(d) matches Some(b) ==> r matches Ok(loc)
                && loc.config == *self && loc.base_path@ == b@ && loc.separator@ == separator@
                && loc.wf()),
            r matches Ok(loc) ==> loc.base_path@.is_prefix_of(loc.directory_path@)
                && loc.directory_path@.is_prefix_of(loc.constructed_path@),
    {
        let base = match dirs {
            None => None,
            Some(d) => match self.dir_type {
                DirType::Data => d.data,
                DirType::Config => d.config,
                DirType::Cache => d.cache,
            },
        };
        self.resolve_with_base(base, separator)
    }

    /// Asks the platform for its base directories and path separator, and
    /// builds the location under the directory of this config's category.
    /// Fails only when the platform cannot tell that directory; which
    /// directories it gives depends on the environment.
    pub fn resolve(&self) -> (r: Result<ResolvedPaths<'a>, ResolutionError>)
        requires
            self.valid(),
        ensures
            r matches Err(e) ==> e == ResolutionError::PlatformUnresolvable,
            r matches Ok(loc) ==> loc.config == *self && loc.wf(),
            r matches Ok(loc) ==> loc.base_path@.is_prefix_of(loc.directory_path@)
                && loc.directory_path@.is_prefix_of(loc.constructed_path@),
    {
        self.resolve_under(platform_base_dirs(), path_separator())
    }
}

/// `p` is followed by a separator and more in `join(p, sep, q)`: `p` is a prefix of it.
proof fn lemma_join_extends(p: Seq<char>, sep: Seq<char>, q: Seq<char>)
    ensures
        p.is_prefix_of(join(p, sep, q)),
{
    assert(join(p, sep, q).subrange(0, p.len() as int) =~= p);
}

/// Paths are nested: the file's full path starts with the directory's path,
/// which starts with the base directory.
pub proof fn lemma_paths_nested(loc: ResolvedPaths)
    requires
        loc.wf(),
    ensures
        loc.base_path@.is_prefix_of(loc.directory_path@),
        loc.directory_path@.is_prefix_of(loc.constructed_path@),
{
    let c = loc.config;
    let base = loc.base_path@;
    let sep = loc.separator@;
    lemma_join_extends(base, sep, c.project_prefix@);
    lemma_join_extends(c.directory_under(base, sep), sep, c.file_name@);
    if c.sub_folder@.len() != 0 {
        let project_dir = join(base, sep, c.project_prefix@);
        lemma_join_extends(project_dir, sep, c.sub_folder@);
        assert(c.directory_under(base, sep).subrange(0, base.len() as int) =~= project_dir.subrange(
            0,
            base.len() as int,
        ));
    }
}

/// Resolution is deterministic: two locations resolved from the same config
/// under the same base directory and separator have the same directory and
/// the same file.
pub proof fn lemma_resolution_deterministic(a: ResolvedPaths, b: ResolvedPaths)
    requires
        a.wf(),
        b.wf(),
        a.config == b.config,
        a.base_path@ == b.base_path@,
        a.separator@ == b.separator@,
    ensures
        a.directory_path@ == b.directory_path@,
        a.constructed_path@ == b.constructed_path@,
{
}

/// Categories are kept apart: the same project, sub-folder and file name under
/// two different base directories, with one separator, give two different
/// files and two different directories.
pub proof fn lemma_categories_apart(a: ResolvedPaths, b: ResolvedPaths)
    requires
        a.wf(),
        b.wf(),
        a.config.project_prefix@ == b.config.project_prefix@,
        a.config.sub_folder@ == b.config.sub_folder@,
        a.config.file_name@ == b.config.file_name@,
        a.separator@ == b.separator@,
        a.base_path@ != b.base_path@,
    ensures
        a.directory_path@ != b.directory_path@,
        a.constructed_path@ != b.constructed_path@,
{
    let ga = a.base_path@;
    let gb = b.base_path@;
    let ca = a.config;
    let sep = a.separator@;
    // The part after the base directory is the same for both.
    let dir_tail = if ca.sub_folder@.len() == 0 {
        sep + ca.project_prefix@
    } else {
        sep + ca.project_prefix@ + sep + ca.sub_folder@
    };
    let file_tail = dir_tail + sep + ca.file_name@;
    assert(a.directory_path@ =~= ga + dir_tail);
    assert(b.directory_path@ =~= gb + dir_tail);
    assert(a.constructed_path@ =~= ga + file_tail);
    assert(b.constructed_path@ =~= gb + file_tail);
    if a.constructed_path@ == b.constructed_path@ {
        assert(ga =~= (ga + file_tail).subrange(0, ga.len() as int));
        assert(gb =~= (gb + file_tail).subrange(0, gb.len() as int));
    }
    if a.directory_path@ == b.directory_path@ {
        assert(ga =~= (ga + dir_tail).subrange(0, ga.len() as int));
        assert(gb =~= (gb + dir_tail).subrange(0, gb.len() as int));
    }
}

/// Categories are kept apart under one platform answer: two configs with the
/// same project, sub-folder and file name but different categories, resolved
/// under the same base directories `dirs` and separator, give different files
/// wherever the platform gives their categories different directories.
pub proof fn lemma_resolved_categories_apart(
    c1: PathConfig,
    c2: PathConfig,
    dirs: BaseDirPaths,
    a: ResolvedPaths,
    b: ResolvedPaths,
)
    requires
        c1.project_prefix@ == c2.project_prefix@,
        c1.sub_folder@ == c2.sub_folder@,
        c1.file_name@ == c2.file_name@,
        c1.base_among(dirs) matches Some(b1) && c2.base_among(dirs) matches Some(b2) && b1@
            != b2@,
        a.config == c1 && a.wf() && a.base_path@ == c1.base_among(dirs).unwrap()@,
        b.config == c2 && b.wf() && b.base_path@ == c2.base_among(dirs).unwrap()@,
        a.separator@ == b.separator@,
    ensures
        a.directory_path@ != b.directory_path@,
        a.constructed_path@ != b.constructed_path@,
{
    lemma_categories_apart(a, b);
}

} // verus!
