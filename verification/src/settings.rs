use vstd::prelude::*;
use vstd::string::*;

verus! {

/// The folder that holds the files of the configuration.
pub const CONFIG_FOLDER: &'static str = "config";

/// The run mode when none is set.
pub const DEFAULT_RUN_MODE: &'static str = "dev";

/// Credentials of the Telegram application.
#[derive(Clone, Debug)]
pub struct Telegram {
    pub api_id: i32,
    pub api_hash: String,
}

/// Where the database is.
#[derive(Clone, Debug)]
pub struct DB {
    pub connection_string: String,
}

/// The whole configuration.
#[derive(Clone, Debug)]
pub struct Settings {
    pub telegram: Telegram,
    pub db: DB,
}

/// The name of the configuration source for a run mode: the configuration
/// folder, a slash, and the run mode, which is `dev` when none is set.
pub open spec fn spec_config_source(run_mode: Option<Seq<char>>) -> Seq<char> {
    CONFIG_FOLDER@ + "/"@ + match run_mode {
        Some(m) => m,
        None => DEFAULT_RUN_MODE@,
    }
}

impl Settings {
    /// The name of the configuration source to read for the given run mode
    /// (`None` where the environment sets none, or sets one that is not Unicode).
    pub fn config_source(run_mode: Option<String>) -> (r: String)
        ensures
            r@ == spec_config_source(
                match run_mode {
                    Some(m) => Some(m@),
                    None => None,
                },
            ),
    {
        let mut r = String::from_str(CONFIG_FOLDER);
        r.append("/");
        match run_mode {
            Some(m) => r.append(m.as_str()),
            None => r.append(DEFAULT_RUN_MODE),
        }
        r
    }
}

/// The folder that holds the session files.
pub const SESSIONS_FOLDER: &'static str = "./sessions/";

/// Where the filesystem is mounted.
pub const FS_MOUNT_POINT: &'static str = "./test-fs/";

/// The options with which the filesystem is mounted: read-only, under the
/// name `hello`.
pub fn mount_options() -> (r: Vec<String>)
    ensures
        r@.len() == 4,
        r@[0]@ == "-o"@,
        r@[1]@ == "ro"@,
        r@[2]@ == "-o"@,
        r@[3]@ == "fsname=hello"@,
{
    let mut r = Vec::new();
    r.push(String::from_str("-o"));
    r.push(String::from_str("ro"));
    r.push(String::from_str("-o"));
    r.push(String::from_str("fsname=hello"));
    r
}

/// The configuration is read from the configuration folder: the source is
/// `config/` followed by the run mode, `config/dev` where none is set.
pub proof fn lemma_config_source_in_folder(run_mode: Option<Seq<char>>, r: Seq<char>)
    requires
        r == spec_config_source(run_mode),
    ensures
        r.len() >= 7,
        r.subrange(0, 7) == seq!['c', 'o', 'n', 'f', 'i', 'g', '/'],
        run_mode matches Some(m) ==> r.subrange(7, r.len() as int) == m,
        run_mode is None ==> r == seq!['c', 'o', 'n', 'f', 'i', 'g', '/', 'd', 'e', 'v'],
{
    reveal_strlit("config");
    reveal_strlit("/");
    reveal_strlit("dev");
    assert(r.subrange(0, 7) =~= seq!['c', 'o', 'n', 'f', 'i', 'g', '/']);
    if let Some(m) = run_mode {
        assert(r.subrange(7, r.len() as int) =~= m);
    } else {
        assert(r =~= seq!['c', 'o', 'n', 'f', 'i', 'g', '/', 'd', 'e', 'v']);
    }
}

} // verus!
