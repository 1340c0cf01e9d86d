//! The application configuration: where the database lives, and the legacy
//! settings that older configuration files still carry.
use vstd::prelude::*;

verus! {

/// The configuration file's contents. Only `db_path` is written back; the
/// other fields are read from older files so that their values can be
/// moved into the settings table.
#[derive(Debug, Clone)]
pub struct AppConfig {
    pub db_path: String,
    pub hotkey: Option<String>,
    pub ai_provider: Option<String>,
    pub ai_api_key: Option<String>,
    pub ai_base_url: Option<String>,
    pub task_archive_delay_secs: Option<u32>,
}

/// `s` ends with `suffix`.
pub open spec fn ends_with(s: Seq<char>, suffix: Seq<char>) -> bool {
    suffix.len() <= s.len() && s.skip(s.len() - suffix.len()) == suffix
}

/// A plain file name: not empty, not `.` or `..`, and free of the path
/// separators `/` and `\` and of the drive marker `:`, so that joining it to
/// a directory only appends it.
pub open spec fn plain_file_name(name: Seq<char>) -> bool {
    &&& name.len() > 0
    &&& name != seq!['.']
    &&& name != seq!['.', '.']
    &&& forall|i: int| 0 <= i < name.len() ==> #[trigger] name[i] != '/' && name[i] != '\\' && name[i] != ':'
}

/// `dir` starts with the Windows verbatim prefix `\\?\`.
pub open spec fn verbatim_prefix(dir: Seq<char>) -> bool {
    dir.len() >= 4 && dir.take(4) == seq!['\\', '\\', '?', '\\']
}

/// `r` is `name` appended to `dir`, directly or after one separator.
pub open spec fn appended(dir: Seq<char>, name: Seq<char>, r: Seq<char>) -> bool {
    ||| r == dir + name
    ||| r == dir + seq!['/'] + name
    ||| r == dir + seq!['\\'] + name
}

/// `Path::join` of a directory and a plain file name, as text
/// (`Path::to_string_lossy`; both parts come from `&str`, so nothing is lost).
/// The documentation of `PathBuf::push` says that a relative path is adjoined
/// to the directory, with a separator if needed; only a directory with a
/// Windows verbatim prefix is rewritten (its `.` and `..` are resolved). So
/// the result is the directory, perhaps a separator, and the name. Which
/// separator, and whether one is needed, is the platform's and left unsaid.
#[verifier::external_body]
fn join_path(dir: &str, file_name: &str) -> (r: String)
    requires
        plain_file_name(file_name@),
    ensures
        ends_with(r@, file_name@),
        !verbatim_prefix(dir@) ==> appended(dir@, file_name@, r@),
{
    std::path::Path::new(dir).join(file_name).to_string_lossy().to_string()
}

impl AppConfig {
    /// The configuration of a fresh install: the database file `aihelper.db`
    /// in the data directory, and no legacy settings.
    pub fn with_defaults(data_dir: &str) -> (r: Self)
        ensures
            ends_with(r.db_path@, "aihelper.db"@),
            !verbatim_prefix(data_dir@) ==> appended(data_dir@, "aihelper.db"@, r.db_path@),
            r.hotkey is None,
            r.ai_provider is None,
            r.ai_api_key is None,
            r.ai_base_url is None,
            r.task_archive_delay_secs is None,
    {
        proof {
            reveal_strlit("aihelper.db");
        }
        let db_path = join_path(data_dir, "aihelper.db");
        AppConfig {
            db_path,
            hotkey: None,
            ai_provider: None,
            ai_api_key: None,
            ai_base_url: None,
            task_archive_delay_secs: None,
        }
    }
}

} // verus!
