use vstd::prelude::*;

pub mod app;
mod cli;

pub use app::LogLevel;
pub use cli::{CliConfig, IntoOverwrite};

use crate::config::app::{AppConfig, TomlConfig};
use crate::errors::ConfigError;

verus! {

/// Loading a configuration from its standard locations or from a chosen
/// path. Implementations read and parse files, so they live with the
/// caller's I/O layer.
pub trait Config where Self: Sized {
    fn load() -> Result<Self, ConfigError>;

    fn load_from_path(config_path: &str) -> Result<Self, ConfigError>;
}

/// The views of the strings, in order.
pub open spec fn views_of(s: Seq<String>) -> Seq<Seq<char>>
    decreases s.len(),
{
    if s.len() == 0 {
        Seq::empty()
    } else {
        views_of(s.drop_last()).push(s.last()@)
    }
}

proof fn lemma_views_of_index(s: Seq<String>)
    ensures
        views_of(s).len() == s.len(),
        forall|i: int| 0 <= i < s.len() ==> views_of(s)[i] == s[i]@,
    decreases s.len(),
{
    if s.len() > 0 {
        lemma_views_of_index(s.drop_last());
        assert(forall|i: int| 0 <= i < s.len() - 1 ==> s[i] == #[trigger] s.drop_last()[i]);
    }
}

/// Some string in the sequence reads `v`.
pub open spec fn contains_view(s: Seq<Seq<char>>, v: Seq<char>) -> bool {
    exists|i: int| 0 <= i < s.len() && s[i] == v
}

/// The sequence with later repetitions of an already-seen string dropped.
pub open spec fn dedup_views(s: Seq<Seq<char>>) -> Seq<Seq<char>>
    decreases s.len(),
{
    if s.len() == 0 {
        Seq::empty()
    } else {
        let prefix = dedup_views(s.drop_last());
        if contains_view(prefix, s.last()) {
            prefix
        } else {
            prefix.push(s.last())
        }
    }
}

/// The candidate configuration paths, in priority order, before
/// deduplication: the explicit override, the platform locations joined
/// with the configuration filenames, the home dotfiles, and the
/// system-wide file.
pub open spec fn raw_candidate_views(
    env_override: Option<Seq<char>>,
    base_config_dir: Option<Seq<char>>,
    project_config_dir: Option<Seq<char>>,
    home: Option<Seq<char>>,
) -> Seq<Seq<char>> {
    (match env_override {
        Some(p) => seq![p],
        None => Seq::empty(),
    }) + (match base_config_dir {
        Some(d) => seq![d + "/dw.toml"@],
        None => Seq::empty(),
    }) + (match project_config_dir {
        Some(d) => seq![d + "/config.toml"@],
        None => Seq::empty(),
    }) + (match home {
        Some(h) => seq![
            h + "/.config/dw.toml"@,
            h + "/.config/dw/config.toml"@,
            h + "/.dw.toml"@,
        ],
        None => Seq::empty(),
    }) + seq!["/etc/dw.toml"@]
}

pub open spec fn opt_str_view(s: Option<String>) -> Option<Seq<char>> {
    match s {
        Some(x) => Some(x@),
        None => None,
    }
}

/// Whether the two strings read the same.
fn str_eq(a: &str, b: &str) -> (r: bool)
    ensures
        r == (a@ == b@),
{
    let n = a.unicode_len();
    let m = b.unicode_len();
    if n != m {
        return false;
    }
    let mut i: usize = 0;
    while i < n
        invariant
            i <= n,
            n == a@.len(),
            n == b@.len(),
            forall|j: int| 0 <= j < i ==> a@[j] == b@[j],
        decreases n - i,
    {
        if a.get_char(i) != b.get_char(i) {
            return false;
        }
        i = i + 1;
    }
    proof {
        assert(a@ =~= b@);
    }
    true
}

/// Whether some string of the list reads `s`.
fn contains_string(list: &Vec<String>, s: &str) -> (r: bool)
    ensures
        r == contains_view(views_of(list@), s@),
{
    proof {
        lemma_views_of_index(list@);
    }
    let n = list.len();
    let mut i: usize = 0;
    while i < n
        invariant
            i <= n,
            n == list@.len(),
            views_of(list@).len() == n,
            forall|j: int| 0 <= j < n ==> views_of(list@)[j] == list@[j]@,
            forall|j: int| 0 <= j < i ==> list@[j]@ != s@,
        decreases n - i,
    {
        if str_eq(list[i].as_str(), s) {
            proof {
                assert(views_of(list@)[i as int] == s@);
            }
            return true;
        }
        i = i + 1;
    }
    false
}

/// Keep the first occurrence of every path, in order.
fn dedup_paths(raw: Vec<String>) -> (paths: Vec<String>)
    ensures
        views_of(paths@) == dedup_views(views_of(raw@)),
{
    let ghost orig = raw@;
    let mut rest = raw;
    let mut paths: Vec<String> = Vec::new();
    let ghost mut k: int = 0;
    while rest.len() > 0
        invariant
            0 <= k <= orig.len(),
            rest@ =~= orig.skip(k),
            views_of(paths@) == dedup_views(views_of(orig.take(k))),
        decreases rest.len(),
    {
        let candidate = rest.remove(0);
        proof {
            assert(candidate == orig[k]);
            assert(orig.take(k + 1).drop_last() =~= orig.take(k));
            assert(orig.take(k + 1).last() == orig[k]);
        }
        let seen = contains_string(&paths, candidate.as_str());
        if !seen {
            let ghost prev = paths@;
            paths.push(candidate);
            proof {
                assert(paths@.drop_last() =~= prev);
            }
        }
        proof {
            let vk = views_of(orig.take(k));
            assert(views_of(orig.take(k + 1)) == vk.push(orig[k]@));
            assert(vk.push(orig[k]@).drop_last() =~= vk);
            k = k + 1;
            assert(rest@ =~= orig.skip(k));
        }
    }
    proof {
        assert(orig.take(k) =~= orig);
    }
    paths
}

/// The configuration paths to try, in priority order and without
/// duplicates. The caller supplies what only the environment knows: the
/// override variable, the platform's configuration directory, the
/// project's configuration directory, and the home directory.
pub fn config_path_candidates(
    env_override: Option<String>,
    base_config_dir: Option<String>,
    project_config_dir: Option<String>,
    home: Option<String>,
) -> (paths: Vec<String>)
    ensures
        views_of(paths@) == dedup_views(
            raw_candidate_views(
                opt_str_view(env_override),
                opt_str_view(base_config_dir),
                opt_str_view(project_config_dir),
                opt_str_view(home),
            ),
        ),
{
    let ghost expected = raw_candidate_views(
        opt_str_view(env_override),
        opt_str_view(base_config_dir),
        opt_str_view(project_config_dir),
        opt_str_view(home),
    );
    let ghost part_env: Seq<Seq<char>> = match opt_str_view(env_override) {
        Some(p) => seq![p],
        None => Seq::empty(),
    };
    let ghost part_base: Seq<Seq<char>> = match opt_str_view(base_config_dir) {
        Some(d) => seq![d + "/dw.toml"@],
        None => Seq::empty(),
    };
    let ghost part_project: Seq<Seq<char>> = match opt_str_view(project_config_dir) {
        Some(d) => seq![d + "/config.toml"@],
        None => Seq::empty(),
    };
    let ghost part_home: Seq<Seq<char>> = match opt_str_view(home) {
        Some(h) => seq![
            h + "/.config/dw.toml"@,
            h + "/.config/dw/config.toml"@,
            h + "/.dw.toml"@,
        ],
        None => Seq::empty(),
    };
    let mut raw: Vec<String> = Vec::new();
    match env_override {
        Some(p) => {
            let ghost prev = raw@;
            raw.push(p);
            proof {
                assert(raw@.drop_last() =~= prev);
                lemma_views_of_index(raw@);
                assert(views_of(raw@) =~= part_env);
            }
        },
        None => {
            proof {
                lemma_views_of_index(raw@);
                assert(views_of(raw@) =~= part_env);
            }
        },
    }
    match base_config_dir {
        Some(d) => {
            let ghost prev = raw@;
            raw.push(d.concat("/dw.toml"));
            proof {
                lemma_views_of_index(prev);
                assert(raw@.drop_last() =~= prev);
                lemma_views_of_index(raw@);
                assert(views_of(raw@) =~= part_env + part_base);
            }
        },
        None => {
            proof {
                lemma_views_of_index(raw@);
                assert(views_of(raw@) =~= part_env + part_base);
            }
        },
    }
    match project_config_dir {
        Some(d) => {
            let ghost prev = raw@;
            raw.push(d.concat("/config.toml"));
            proof {
                lemma_views_of_index(prev);
                assert(raw@.drop_last() =~= prev);
                lemma_views_of_index(raw@);
                assert(views_of(raw@) =~= part_env + part_base + part_project);
            }
        },
        None => {
            proof {
                lemma_views_of_index(raw@);
                assert(views_of(raw@) =~= part_env + part_base + part_project);
            }
        },
    }
    match home {
        Some(h) => {
            let first = h.as_str().to_owned().concat("/.config/dw.toml");
            let second = h.as_str().to_owned().concat("/.config/dw/config.toml");
            let third = h.concat("/.dw.toml");
            let ghost prev1 = raw@;
            raw.push(first);
            proof {
                lemma_views_of_index(prev1);
                assert(raw@.drop_last() =~= prev1);
                lemma_views_of_index(raw@);
            }
            let ghost prev2 = raw@;
            raw.push(second);
            proof {
                assert(raw@.drop_last() =~= prev2);
                lemma_views_of_index(raw@);
            }
            let ghost prev3 = raw@;
            raw.push(third);
            proof {
                assert(raw@.drop_last() =~= prev3);
                lemma_views_of_index(raw@);
                assert(views_of(raw@) =~= part_env + part_base + part_project + part_home);
            }
        },
        None => {
            proof {
                lemma_views_of_index(raw@);
                assert(views_of(raw@) =~= part_env + part_base + part_project + part_home);
            }
        },
    }
    let ghost prev = raw@;
    raw.push("/etc/dw.toml".to_owned());
    proof {
        lemma_views_of_index(prev);
        assert(raw@.drop_last() =~= prev);
        lemma_views_of_index(raw@);
        assert(views_of(raw@) =~= part_env + part_base + part_project + part_home + seq![
            "/etc/dw.toml"@,
        ]);
        assert(expected == part_env + part_base + part_project + part_home + seq![
            "/etc/dw.toml"@,
        ]);
    }
    dedup_paths(raw)
}

/// The index of the first answer that says the file exists, or the length
/// when none does.
pub open spec fn first_existing_at_or_after(exists: Seq<bool>, k: int) -> int
    decreases exists.len() - k,
{
    if k < 0 || k >= exists.len() {
        exists.len() as int
    } else if exists[k] {
        k
    } else {
        first_existing_at_or_after(exists, k + 1)
    }
}

/// The first of the candidate paths whose existence check answered yes.
/// The caller probes the filesystem and hands one answer per path.
pub fn find_config(paths: &Vec<String>, exists: &Vec<bool>) -> (r: Option<String>)
    requires
        paths@.len() == exists@.len(),
    ensures
        ({
            let first = first_existing_at_or_after(exists@, 0);
            match r {
                Some(p) => first < exists@.len() && p@ == paths@[first]@,
                None => first == exists@.len(),
            }
        }),
{
    let n = paths.len();
    let mut i: usize = 0;
    while i < n && !exists[i]
        invariant
            i <= n,
            n == paths@.len(),
            n == exists@.len(),
            first_existing_at_or_after(exists@, 0) == first_existing_at_or_after(exists@, i as int),
        decreases n - i,
    {
        i = i + 1;
    }
    if i < n {
        Some(paths[i].as_str().to_owned())
    } else {
        None
    }
}

/// Merge the command line over the file configuration, per the precedence
/// rules: the silent flag forces the silent log level; everything else
/// comes from the file.
pub fn load_config(args: &CliConfig, file_config: TomlConfig) -> (config: AppConfig)
    ensures
        config.general.log_level == (if args.silent {
            LogLevel::Silent
        } else {
            file_config.general.log_level
        }),
        config.general.config_path == file_config.general.config_path,
        config.download == file_config.download,
        config.progress_bar == file_config.progress_bar,
        config.output == file_config.output,
{
    let mut merged = file_config;
    args.into_overwrite(&mut merged);
    AppConfig::from(merged)
}

} // verus!
