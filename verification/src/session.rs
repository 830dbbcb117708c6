use vstd::prelude::*;
use vstd::string::*;
use rand::Rng;

verus! {

/// How many random characters name a new session file.
pub const SESSION_TOKEN_LEN: usize = 7;

/// A Latin letter or an ASCII digit.
pub open spec fn is_alphanumeric(c: char) -> bool {
    ||| 'A' <= c && c <= 'Z'
    ||| 'a' <= c && c <= 'z'
    ||| '0' <= c && c <= '9'
}

/// A token that names a new session file: seven letters or digits.
pub open spec fn is_session_token(t: Seq<char>) -> bool {
    &&& t.len() == SESSION_TOKEN_LEN
    &&& forall|i: int| 0 <= i < t.len() ==> is_alphanumeric(#[trigger] t[i])
}

/// The file name of the session with a token: `session-<token>.session`.
pub open spec fn spec_session_file_name(token: Seq<char>) -> Seq<char> {
    "session-"@ + token + ".session"@
}

/// A relative name pushed onto a folder path: appended directly where the
/// folder is empty or ends with `/`, else after a `/`.
pub open spec fn spec_join_path(folder: Seq<char>, name: Seq<char>) -> Seq<char> {
    if folder.len() == 0 || folder.last() == '/' {
        folder + name
    } else {
        folder + "/"@ + name
    }
}

/// A path for a new session file in `folder`.
pub open spec fn is_new_session_path(folder: Seq<char>, p: Seq<char>) -> bool {
    exists|t: Seq<char>| is_session_token(t) && p == spec_join_path(folder, #[trigger] spec_session_file_name(t))
}

/// `len` characters drawn by `rand::thread_rng()` from the `Alphanumeric`
/// distribution, whose source samples each byte from `A`-`Z`, `a`-`z` and
/// `0`-`9`. Which characters come out is left to chance: only their number
/// and their class are stated.
#[verifier::external_body]
fn random_alphanumeric(len: usize) -> (s: String)
    ensures
        s@.len() == len,
        forall|i: int| 0 <= i < s@.len() ==> is_alphanumeric(#[trigger] s@[i]),
{
    rand::thread_rng().sample_iter(&rand::distributions::Alphanumeric).take(len).map(char::from).collect()
}

/// An entry of the sessions folder, as far as it could be read.
#[derive(Clone, Debug)]
pub enum ListedEntry {
    /// An entry with this path.
    Present(String),
    /// The folder gave an entry that could not be read.
    Unreadable,
    /// An entry whose path is not Unicode.
    NotUnicode,
}

/// What to do next when looking for a session file.
#[derive(Clone, Debug)]
pub enum SessionLookup {
    /// Use the session file at this path.
    Use(String),
    /// Use this path for a new session file unless something already exists there.
    Probe(String),
    /// Use the next listed file, whose path is not Unicode and so cannot be named.
    NotUnicode,
}

/// Finds the file that holds a client's session: each entry that the
/// sessions folder listed is handed out once, in the order listed, and after
/// them new session files.
#[derive(Clone, Debug)]
pub struct SessionsManager {
    pub sessions_folder: String,
    /// The entries of the folder, in the order it listed them.
    pub present_sessions_files: Vec<ListedEntry>,
    /// How many of them were handed out.
    pub next_entry: usize,
}

impl SessionsManager {
    /// A manager of the session files in `sessions_folder`, which listed
    /// `present_sessions_files`.
    pub fn new(sessions_folder: String, present_sessions_files: Vec<ListedEntry>) -> (r: Self)
        ensures
            r.sessions_folder == sessions_folder,
            r.present_sessions_files == present_sessions_files,
            r.next_entry == 0,
    {
        SessionsManager { sessions_folder, present_sessions_files, next_entry: 0 }
    }

    /// The path of the session file with the given token.
    pub fn session_path(&self, token: &str) -> (p: String)
        ensures
            p@ == spec_join_path(self.sessions_folder@, spec_session_file_name(token@)),
    {
        let mut name = String::from_str("session-");
        name.append(token);
        name.append(".session");
        let folder = self.sessions_folder.as_str();
        let n = folder.unicode_len();
        let mut p = String::from_str(folder);
        if n == 0 || folder.get_char(n - 1) == '/' {
            p.append(name.as_str());
        } else {
            p.append("/");
            p.append(name.as_str());
        }
        p
    }

    /// A path for a new session file, named by a random token.
    pub fn new_session_path(&self) -> (p: String)
        ensures
            is_new_session_path(self.sessions_folder@, p@),
    {
        let token = random_alphanumeric(SESSION_TOKEN_LEN);
        let p = self.session_path(token.as_str());
        assert(is_session_token(token@));
        assert(p@ == spec_join_path(self.sessions_folder@, spec_session_file_name(token@)));
        p
    }

    /// What a lookup starts with, from the manager `self` that becomes
    /// `after`: the next listed entry is handed out, its path used where it
    /// could be read and a new path tried where not; once all were handed
    /// out, a new path is tried and nothing changes.
    pub open spec fn spec_start_lookup(self, after: Self, r: SessionLookup) -> bool {
        &&& after.sessions_folder == self.sessions_folder
        &&& after.present_sessions_files == self.present_sessions_files
        &&& if self.next_entry < self.present_sessions_files@.len() {
            &&& after.next_entry == self.next_entry + 1
            &&& match self.present_sessions_files@[self.next_entry as int] {
                ListedEntry::Present(p) => r == SessionLookup::Use(p),
                ListedEntry::Unreadable => r matches SessionLookup::Probe(c) && is_new_session_path(
                    self.sessions_folder@,
                    c@,
                ),
                ListedEntry::NotUnicode => r == SessionLookup::NotUnicode,
            }
        } else {
            &&& after.next_entry == self.next_entry
            &&& r matches SessionLookup::Probe(c) && is_new_session_path(self.sessions_folder@, c@)
        }
    }

    /// Starts looking for a session file.
    pub fn start_lookup(&mut self) -> (r: SessionLookup)
        ensures
            old(self).spec_start_lookup(*final(self), r),
    {
        if self.next_entry < self.present_sessions_files.len() {
            let i = self.next_entry;
            self.next_entry = i + 1;
            match &self.present_sessions_files[i] {
                ListedEntry::Present(p) => SessionLookup::Use(p.clone()),
                ListedEntry::Unreadable => SessionLookup::Probe(self.new_session_path()),
                ListedEntry::NotUnicode => SessionLookup::NotUnicode,
            }
        } else {
            SessionLookup::Probe(self.new_session_path())
        }
    }

    /// The next step once it is known whether something exists at a probed
    /// path: use the path where nothing does, else try another new path.
    pub fn after_probe(&self, candidate: String, exists: bool) -> (r: SessionLookup)
        ensures
            !exists ==> r == SessionLookup::Use(candidate),
            exists ==> (r matches SessionLookup::Probe(c) && is_new_session_path(self.sessions_folder@, c@)),
    {
        if exists {
            SessionLookup::Probe(self.new_session_path())
        } else {
            SessionLookup::Use(candidate)
        }
    }
}

/// Whether `managers` and `lookups` are successive lookups: each manager
/// becomes the next one by starting the lookup beside it.
pub open spec fn spec_is_lookup_run(managers: Seq<SessionsManager>, lookups: Seq<SessionLookup>) -> bool {
    &&& managers.len() == lookups.len() + 1
    &&& forall|i: int|
        #![trigger lookups[i]]
        0 <= i < lookups.len() ==> managers[i].spec_start_lookup(managers[i + 1], lookups[i])
}

proof fn lemma_lookup_run_cursor(managers: Seq<SessionsManager>, lookups: Seq<SessionLookup>, i: int)
    requires
        spec_is_lookup_run(managers, lookups),
        managers[0].next_entry == 0,
        0 <= i <= lookups.len(),
    ensures
        managers[i].sessions_folder == managers[0].sessions_folder,
        managers[i].present_sessions_files == managers[0].present_sessions_files,
        managers[i].next_entry == if i < managers[0].present_sessions_files@.len() {
            i
        } else {
            managers[0].present_sessions_files@.len() as int
        },
    decreases i,
{
    if i > 0 {
        lemma_lookup_run_cursor(managers, lookups, i - 1);
        assert(managers[i - 1].spec_start_lookup(managers[i], lookups[i - 1]));
    }
}

/// Successive lookups of a new manager hand out each listed entry once, in
/// the order the folder listed them: the `i`-th lookup uses the `i`-th
/// entry where it could be read (and tries a new path where not), and every
/// lookup after the last entry tries a new session path in the folder.
pub proof fn lemma_listed_files_handed_out_in_order(
    managers: Seq<SessionsManager>,
    lookups: Seq<SessionLookup>,
    i: int,
)
    requires
        spec_is_lookup_run(managers, lookups),
        managers[0].next_entry == 0,
        0 <= i < lookups.len(),
    ensures
        i < managers[0].present_sessions_files@.len() ==> match managers[0].present_sessions_files@[i] {
            ListedEntry::Present(p) => lookups[i] == SessionLookup::Use(p),
            ListedEntry::Unreadable => lookups[i] matches SessionLookup::Probe(c) && is_new_session_path(
                managers[0].sessions_folder@,
                c@,
            ),
            ListedEntry::NotUnicode => lookups[i] == SessionLookup::NotUnicode,
        },
        i >= managers[0].present_sessions_files@.len() ==> (lookups[i] matches SessionLookup::Probe(c)
            && is_new_session_path(managers[0].sessions_folder@, c@)),
{
    lemma_lookup_run_cursor(managers, lookups, i);
    assert(managers[i].spec_start_lookup(managers[i + 1], lookups[i]));
}

/// A session file lies in the sessions folder and is named by its token:
/// the path is the folder, a `/` unless the folder is empty or ends with one,
/// `session-`, the token, and `.session`.
pub proof fn lemma_session_path_in_folder(folder: Seq<char>, token: Seq<char>, p: Seq<char>)
    requires
        p == spec_join_path(folder, spec_session_file_name(token)),
    ensures
        ({
            let sep: int = if folder.len() == 0 || folder.last() == '/' {
                0
            } else {
                1
            };
            &&& p.len() == folder.len() + sep + 8 + token.len() + 8
            &&& p.subrange(0, folder.len() as int) == folder
            &&& sep == 1 ==> p[folder.len() as int] == '/'
            &&& p.subrange(folder.len() + sep, folder.len() + sep + 8) == seq!['s', 'e', 's', 's', 'i', 'o', 'n', '-']
            &&& p.subrange(folder.len() + sep + 8, folder.len() + sep + 8 + token.len()) == token
            &&& p.subrange(p.len() - 8, p.len() as int) == seq!['.', 's', 'e', 's', 's', 'i', 'o', 'n']
        }),
{
    reveal_strlit("session-");
    reveal_strlit(".session");
    reveal_strlit("/");
    let sep: int = if folder.len() == 0 || folder.last() == '/' {
        0
    } else {
        1
    };
    let f = folder.len() as int;
    assert(p.subrange(0, f) =~= folder);
    assert(p.subrange(f + sep, f + sep + 8) =~= seq!['s', 'e', 's', 's', 'i', 'o', 'n', '-']);
    assert(p.subrange(f + sep + 8, f + sep + 8 + token.len()) =~= token);
    assert(p.subrange(p.len() - 8, p.len() as int) =~= seq!['.', 's', 'e', 's', 's', 'i', 'o', 'n']);
}

} // verus!
