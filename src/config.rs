//! The `config` subcommand: where configuration files live, which one is in
//! effect, and the commented default file that `init` writes.
use vstd::prelude::*;
use crate::text::{join_path, lines_of, spec_join_path, split_lines, starts_with, views, find_char};

verus! {

/// The configuration file in the working directory.
pub open spec fn project_config_path() -> Seq<char> {
    "./cpxconfig.toml"@
}

/// The system-wide configuration file.
pub open spec fn system_config_path() -> Seq<char> {
    "/etc/cpx/cpxconfig.toml"@
}

/// The user's configuration file under the user configuration directory.
pub open spec fn spec_user_config_path(config_dir: Seq<char>) -> Seq<char> {
    spec_join_path(spec_join_path(config_dir, "cpx"@), "cpxconfig.toml"@)
}

/// Path of the configuration file in the working directory.
pub fn project_config_file() -> (r: String)
    ensures
        r@ == project_config_path(),
{
    String::from_str("./cpxconfig.toml")
}

/// The system-wide file that the `path` subcommand looks for and reports.
/// Loading reads `system_config_path` instead.
pub open spec fn displayed_system_config_path() -> Seq<char> {
    "/etc/cpx/config.toml"@
}

/// Path of the system-wide file that the `path` subcommand reports.
pub fn displayed_system_config_file() -> (r: String)
    ensures
        r@ == displayed_system_config_path(),
{
    String::from_str("/etc/cpx/config.toml")
}

/// Path of the system-wide configuration file.
pub fn system_config_file() -> (r: String)
    ensures
        r@ == system_config_path(),
{
    String::from_str("/etc/cpx/cpxconfig.toml")
}

/// `cpxconfig.toml` under the `cpx` directory of `config_dir`.
pub fn user_config_path(config_dir: &str) -> (r: String)
    ensures
        r@ == spec_user_config_path(config_dir@),
{
    let d = join_path(config_dir, "cpx");
    join_path(d.as_str(), "cpxconfig.toml")
}

pub open spec fn spec_candidates(config_dir: Option<Seq<char>>) -> Seq<Seq<char>> {
    match config_dir {
        Some(d) => seq![project_config_path(), spec_user_config_path(d), system_config_path()],
        None => seq![project_config_path(), system_config_path()],
    }
}

/// The configuration files to look for, highest priority first: project,
/// user (when there is a user configuration directory), system.
pub fn config_candidates(config_dir: Option<&str>) -> (r: Vec<String>)
    ensures
        views(r@) == spec_candidates(
            match config_dir {
                Some(d) => Some(d@),
                None => None,
            },
        ),
{
    let mut r: Vec<String> = Vec::new();
    r.push(project_config_file());
    match config_dir {
        Some(d) => r.push(user_config_path(d)),
        None => {},
    }
    r.push(system_config_file());
    assert(views(r@) =~= spec_candidates(
        match config_dir {
            Some(d) => Some(d@),
            None => None,
        },
    ));
    r
}

/// The subcommands of `config`.
#[derive(Clone, Copy, Debug, PartialEq, Eq, Structural)]
pub enum ConfigCommand {
    /// Write a default configuration file; `force` overwrites an existing one.
    Init { force: bool },
    /// Show the configuration in effect.
    Show,
    /// Show where the configuration file in effect is.
    Path,
}

/// What the filesystem and the environment say about the configuration files.
#[derive(Clone, Debug)]
pub struct ConfigEnvironment {
    /// The user configuration directory, when it can be determined.
    pub config_dir: Option<String>,
    pub project_exists: bool,
    /// The user's file exists (false when there is no configuration directory).
    pub user_exists: bool,
    pub system_exists: bool,
    /// The system file reported by the `path` subcommand exists.
    pub displayed_system_exists: bool,
}

/// What a `config` subcommand comes to.
#[derive(Clone, Debug)]
pub enum ConfigAction {
    /// No user configuration directory: `init` cannot proceed.
    NoConfigDirectory,
    /// The file exists and `force` was not given.
    AlreadyExists { path: String },
    /// Create `directory`, then write the commented default file at `path`.
    WriteDefault { directory: String, path: String },
    /// No configuration file is present.
    NoConfigFiles,
    /// Load the configuration in effect and print it.
    ShowEffective,
    /// The file in effect, by priority: project, user, then the displayed
    /// system file.
    ShowPath { effective: Option<String> },
}

pub open spec fn spec_effective_path(env: ConfigEnvironment) -> Option<Seq<char>> {
    if env.project_exists {
        Some(project_config_path())
    } else if env.config_dir is Some && env.user_exists {
        Some(spec_user_config_path(env.config_dir->0@))
    } else if env.displayed_system_exists {
        Some(displayed_system_config_path())
    } else {
        None
    }
}

pub open spec fn spec_execute(c: ConfigCommand, env: ConfigEnvironment, r: ConfigAction) -> bool {
    match c {
        ConfigCommand::Init { force } => match env.config_dir {
            None => r is NoConfigDirectory,
            Some(dir) => {
                let path = spec_user_config_path(dir@);
                if env.user_exists && !force {
                    r is AlreadyExists && r->AlreadyExists_path@ == path
                } else {
                    r is WriteDefault && r->WriteDefault_directory@ == spec_join_path(dir@, "cpx"@)
                        && r->WriteDefault_path@ == path
                }
            },
        },
        ConfigCommand::Show => if env.project_exists || (env.config_dir is Some && env.user_exists)
            || env.system_exists {
            r is ShowEffective
        } else {
            r is NoConfigFiles
        },
        ConfigCommand::Path => r is ShowPath && match r->ShowPath_effective {
            Some(p) => spec_effective_path(env) == Some(p@),
            None => spec_effective_path(env) is None,
        },
    }
}

fn effective_path(env: &ConfigEnvironment) -> (r: Option<String>)
    ensures
        match r {
            Some(p) => spec_effective_path(*env) == Some(p@),
            None => spec_effective_path(*env) is None,
        },
{
    if env.project_exists {
        return Some(project_config_file());
    }
    match &env.config_dir {
        Some(dir) => if env.user_exists {
            return Some(user_config_path(dir.as_str()));
        },
        None => {},
    }
    if env.displayed_system_exists {
        Some(displayed_system_config_file())
    } else {
        None
    }
}

impl ConfigCommand {
    /// Decides what the subcommand does, given the state of the configuration
    /// files.
    pub fn execute(&self, env: &ConfigEnvironment) -> (r: ConfigAction)
        ensures
            spec_execute(*self, *env, r),
    {
        match self {
            ConfigCommand::Init { force } => match &env.config_dir {
                None => ConfigAction::NoConfigDirectory,
                Some(dir) => {
                    let path = user_config_path(dir.as_str());
                    if env.user_exists && !*force {
                        ConfigAction::AlreadyExists { path }
                    } else {
                        let directory = join_path(dir.as_str(), "cpx");
                        ConfigAction::WriteDefault { directory, path }
                    }
                },
            },
            ConfigCommand::Show => {
                let user = match &env.config_dir {
                    Some(_) => env.user_exists,
                    None => false,
                };
                if env.project_exists || user || env.system_exists {
                    ConfigAction::ShowEffective
                } else {
                    ConfigAction::NoConfigFiles
                }
            },
            ConfigCommand::Path => ConfigAction::ShowPath { effective: effective_path(env) },
        }
    }
}

/// How a line of a configuration file is highlighted when shown.
#[derive(Clone, Debug)]
pub enum LineKind {
    /// A `[section]` header.
    Section,
    /// `key=value`, split at the first `=`.
    Assignment { key: String, value: String },
    Other,
}

pub open spec fn spec_line_kind(line: Seq<char>, r: LineKind) -> bool {
    if line.len() > 0 && line[0] == '[' {
        r is Section
    } else if line.contains('=') {
        let i = choose|i: int| 0 <= i < line.len() && line[i] == '=' && forall|j: int| 0 <= j < i ==> line[j] != '=';
        r is Assignment && r->Assignment_key@ == line.take(i) && r->Assignment_value@ == line.skip(i + 1)
    } else {
        r is Other
    }
}

/// Classifies one line of a configuration file for display.
pub fn classify_line(line: &str) -> (r: LineKind)
    ensures
        spec_line_kind(line@, r),
{
    let n = line.unicode_len();
    if n > 0 && line.get_char(0) == '[' {
        return LineKind::Section;
    }
    match find_char(line, '=') {
        Some(i) => {
            let key = String::from_str(line.substring_char(0, i));
            let value = String::from_str(line.substring_char(i + 1, n));
            proof {
                let c = choose|c: int| 0 <= c < line@.len() && line@[c] == '=' && forall|j: int| 0 <= j < c ==> line@[j] != '=';
                assert(line@[i as int] == '=');
                if c < i {
                    assert(line@[c] != '=');
                }
                if c > i {
                    assert(line@[i as int] != '=');
                }
                assert(key@ =~= line@.take(i as int));
                assert(value@ =~= line@.skip(i + 1));
            }
            LineKind::Assignment { key, value }
        },
        None => {
            assert(!line@.contains('='));
            LineKind::Other
        },
    }
}

/// The explanatory comment written above a line of the default file.
pub open spec fn section_comment(line: Seq<char>) -> Seq<char> {
    if "[exclude]"@.is_prefix_of(line) {
        "# Exclude patterns (glob syntax supported)\n"@
            + "# Example: patterns = [\"*.tmp\", \"*.log\", \"node_modules\", \".git\"]\n"@
    } else if "[copy]"@.is_prefix_of(line) {
        "\n# Copy operation settings\n"@
    } else if "[preserve]"@.is_prefix_of(line) {
        "\n# Preserve file attributes\n"@
            + "# mode values: \"none\", \"default\", \"all\", or \"mode,timestamps,ownership\"\n"@
    } else if "[symlink]"@.is_prefix_of(line) {
        "\n# Symlink handling\n"@ + "# mode: \"auto\", \"absolute\", \"relative\"\n"@
            + "# follow: \"never\" (-P), \"always\" (-L), \"command-line\" (-H)\n"@
    } else if "[backup]"@.is_prefix_of(line) {
        "\n# Backup settings\n"@
            + "# mode: \"none\", \"simple\" (~), \"numbered\" (~1~, ~2~), \"existing\"\n"@
    } else if "[reflink]"@.is_prefix_of(line) {
        "\n# Copy-on-Write (reflink) settings\n"@ + "# mode: \"auto\", \"always\", \"never\"\n"@
    } else if "[progress]"@.is_prefix_of(line) {
        "\n# Progress bar settings\n"@
    } else if "[progress.bar]"@.is_prefix_of(line) {
        "# Progress bar characters\n"@
    } else if "[progress.color]"@.is_prefix_of(line) {
        "# Supported progress bar colors: black, red, green, yellow, blue, magenta, cyan, white\n"@
    } else if "[progress.behavior]"@.is_prefix_of(line) {
        "# Progress bar behavior\n"@
    } else {
        Seq::empty()
    }
}

fn two(a: &str, b: &str) -> (r: String)
    ensures
        r@ == a@ + b@,
{
    let mut r = String::from_str(a);
    r.append(b);
    r
}

fn comment_for_line(line: &str) -> (r: String)
    ensures
        r@ == section_comment(line@),
{
    if starts_with(line, "[exclude]") {
        two(
            "# Exclude patterns (glob syntax supported)\n",
            "# Example: patterns = [\"*.tmp\", \"*.log\", \"node_modules\", \".git\"]\n",
        )
    } else if starts_with(line, "[copy]") {
        String::from_str("\n# Copy operation settings\n")
    } else if starts_with(line, "[preserve]") {
        two(
            "\n# Preserve file attributes\n",
            "# mode values: \"none\", \"default\", \"all\", or \"mode,timestamps,ownership\"\n",
        )
    } else if starts_with(line, "[symlink]") {
        let mut r = two("\n# Symlink handling\n", "# mode: \"auto\", \"absolute\", \"relative\"\n");
        r.append("# follow: \"never\" (-P), \"always\" (-L), \"command-line\" (-H)\n");
        r
    } else if starts_with(line, "[backup]") {
        two(
            "\n# Backup settings\n",
            "# mode: \"none\", \"simple\" (~), \"numbered\" (~1~, ~2~), \"existing\"\n",
        )
    } else if starts_with(line, "[reflink]") {
        two("\n# Copy-on-Write (reflink) settings\n", "# mode: \"auto\", \"always\", \"never\"\n")
    } else if starts_with(line, "[progress]") {
        String::from_str("\n# Progress bar settings\n")
    } else if starts_with(line, "[progress.bar]") {
        String::from_str("# Progress bar characters\n")
    } else if starts_with(line, "[progress.color]") {
        String::from_str(
            "# Supported progress bar colors: black, red, green, yellow, blue, magenta, cyan, white\n",
        )
    } else if starts_with(line, "[progress.behavior]") {
        String::from_str("# Progress bar behavior\n")
    } else {
        String::new()
    }
}

/// Each line, preceded by its section comment and followed by a newline.
pub open spec fn commented(lines: Seq<Seq<char>>) -> Seq<char>
    decreases lines.len(),
{
    if lines.len() == 0 {
        Seq::empty()
    } else {
        commented(lines.drop_last()) + section_comment(lines.last()) + lines.last() + "\n"@
    }
}

pub open spec fn config_header() -> Seq<char> {
    "# cpx configuration file\n# For more information, see: https://github.com/11happy/cpx/docs/configuration.md\n\n"@
}

/// The default configuration text with a header and a comment above each
/// known section.
pub fn add_comments_to_config(toml: &str) -> (r: String)
    ensures
        r@ == config_header() + commented(lines_of(toml@)),
{
    let lines = split_lines(toml);
    let mut r = String::from_str(
        "# cpx configuration file\n# For more information, see: https://github.com/11happy/cpx/docs/configuration.md\n\n",
    );
    let n = lines.len();
    let ghost ls = views(lines@);
    assert(ls.len() == n);
    let mut i: usize = 0;
    assert(ls.take(0) =~= Seq::<Seq<char>>::empty());
    while i < n
        invariant
            i <= n,
            n == lines@.len(),
            ls == views(lines@),
            ls.len() == n,
            r@ == config_header() + commented(ls.take(i as int)),
        decreases n - i,
    {
        let line = lines[i].as_str();
        assert(line@ == ls[i as int]);
        let c = comment_for_line(line);
        r.append(c.as_str());
        r.append(line);
        r.append("\n");
        assert(ls.take(i + 1).drop_last() =~= ls.take(i as int));
        assert(ls.take(i + 1).last() == ls[i as int]);
        assert(r@ =~= config_header() + commented(ls.take(i + 1)));
        i = i + 1;
    }
    assert(ls.take(n as int) =~= ls);
    r
}

} // verus!
