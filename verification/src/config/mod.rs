//! Configuration: the values a user sets for the client, with their
//! defaults, and where the configuration file is looked for.
use vstd::prelude::*;

verus! {

/// Top-level configuration.
#[derive(Debug, Clone)]
pub struct Config {
    /// User's personal name for outgoing mail.
    pub personal_name: String,
    /// User's mail domain.
    pub user_domain: String,
    /// SMTP server for sending mail.
    pub smtp_server: Option<SmtpConfig>,
    /// Incoming mail (INBOX).
    pub inbox: InboxConfig,
    /// Additional incoming folder collections.
    pub folder_collections: Vec<FolderCollection>,
    /// Editor to use for composing (none: the built-in one).
    pub editor: Option<String>,
    /// Display preferences.
    pub display: DisplayConfig,
    /// Path of the signature file.
    pub signature_file: Option<String>,
    /// Feature flags.
    pub features: Features,
}

/// Outgoing mail server.
#[derive(Debug, Clone)]
pub struct SmtpConfig {
    pub server: String,
    pub port: u16,
    pub use_tls: bool,
    pub username: Option<String>,
}

/// Incoming mail server and the mailbox to open.
#[derive(Debug, Clone)]
pub struct InboxConfig {
    /// IMAP server for INBOX.
    pub server: String,
    pub port: u16,
    pub use_tls: bool,
    pub username: Option<String>,
    /// IMAP mailbox name to open.
    pub mailbox: String,
}

/// A named collection of folders, possibly on a server.
#[derive(Debug, Clone)]
pub struct FolderCollection {
    pub nickname: String,
    pub server: Option<String>,
    pub path: String,
}

/// Display preferences.
#[derive(Debug, Clone)]
pub struct DisplayConfig {
    /// Sort order of the message index.
    pub sort_key: SortKey,
    pub sort_reverse: bool,
    /// Threading style.
    pub threading: ThreadStyle,
    /// Columns of the message index.
    pub index_format: String,
    /// Whether colors are used.
    pub use_colors: bool,
}

/// Feature flags.
#[derive(Debug, Clone, Copy, PartialEq, Eq, Structural)]
pub struct Features {
    pub enable_full_header: bool,
    pub enable_msg_view_urls: bool,
    pub enable_msg_view_attachments: bool,
    pub quit_without_confirm: bool,
    pub enable_bounce_cmd: bool,
    pub enable_flag_cmd: bool,
}

/// Sort order of the message index.
#[derive(Debug, Clone, Copy, PartialEq, Eq, Structural)]
pub enum SortKey {
    Arrival,
    Date,
    From,
    To,
    Subject,
    Size,
    Thread,
}

/// Threading style of the message index.
#[derive(Debug, Clone, Copy, PartialEq, Eq, Structural)]
pub enum ThreadStyle {
    NoThreading,
    MuttLike,
    IndentSubject1,
    IndentSubject2,
    IndentFromSubject,
}

/// Name of the configuration file in the user's home directory.
pub open spec fn config_file_name() -> Seq<char> {
    ".alpenrose.toml"@
}

/// Columns of the message index when nothing else is configured.
pub open spec fn default_index_format() -> Seq<char> {
    "STATUS MSGNO DATE FROM SIZE SUBJECT"@
}

/// The mailbox opened when nothing else is configured.
pub open spec fn default_mailbox() -> Seq<char> {
    "INBOX"@
}

impl Default for SortKey {
    fn default() -> (k: SortKey)
        ensures
            k == SortKey::Arrival,
    {
        SortKey::Arrival
    }
}

impl Default for ThreadStyle {
    fn default() -> (t: ThreadStyle)
        ensures
            t == ThreadStyle::NoThreading,
    {
        ThreadStyle::NoThreading
    }
}

impl Default for Features {
    /// Every feature is off.
    fn default() -> (f: Features)
        ensures
            !f.enable_full_header,
            !f.enable_msg_view_urls,
            !f.enable_msg_view_attachments,
            !f.quit_without_confirm,
            !f.enable_bounce_cmd,
            !f.enable_flag_cmd,
    {
        Features {
            enable_full_header: false,
            enable_msg_view_urls: false,
            enable_msg_view_attachments: false,
            quit_without_confirm: false,
            enable_bounce_cmd: false,
            enable_flag_cmd: false,
        }
    }
}

impl Default for SmtpConfig {
    /// Submission port 587 with TLS, no server and no user name.
    fn default() -> (c: SmtpConfig)
        ensures
            c.server@ == Seq::<char>::empty(),
            c.port == 587,
            c.use_tls,
            c.username is None,
    {
        SmtpConfig { server: String::new(), port: 587, use_tls: true, username: None }
    }
}

impl Default for InboxConfig {
    /// IMAPS port 993 with TLS, no server and no user name, mailbox INBOX.
    fn default() -> (c: InboxConfig)
        ensures
            c.server@ == Seq::<char>::empty(),
            c.port == 993,
            c.use_tls,
            c.username is None,
            c.mailbox@ == default_mailbox(),
    {
        InboxConfig {
            server: String::new(),
            port: 993,
            use_tls: true,
            username: None,
            mailbox: String::from_str("INBOX"),
        }
    }
}

impl Default for DisplayConfig {
    /// Arrival order, not reversed, no threading, the standard index
    /// columns, with colors.
    fn default() -> (c: DisplayConfig)
        ensures
            c.sort_key == SortKey::Arrival,
            !c.sort_reverse,
            c.threading == ThreadStyle::NoThreading,
            c.index_format@ == default_index_format(),
            c.use_colors,
    {
        DisplayConfig {
            sort_key: SortKey::Arrival,
            sort_reverse: false,
            threading: ThreadStyle::NoThreading,
            index_format: String::from_str("STATUS MSGNO DATE FROM SIZE SUBJECT"),
            use_colors: true,
        }
    }
}

/// A configuration holds the defaults of every section.
pub open spec fn is_default_config(c: Config) -> bool {
    &&& c.personal_name@ == Seq::<char>::empty()
    &&& c.user_domain@ == Seq::<char>::empty()
    &&& c.smtp_server is None
    &&& c.inbox.server@ == Seq::<char>::empty()
    &&& c.inbox.port == 993
    &&& c.inbox.use_tls
    &&& c.inbox.username is None
    &&& c.inbox.mailbox@ == default_mailbox()
    &&& c.folder_collections@.len() == 0
    &&& c.editor is None
    &&& c.display.sort_key == SortKey::Arrival
    &&& !c.display.sort_reverse
    &&& c.display.threading == ThreadStyle::NoThreading
    &&& c.display.index_format@ == default_index_format()
    &&& c.display.use_colors
    &&& c.signature_file is None
    &&& c.features == Features {
        enable_full_header: false,
        enable_msg_view_urls: false,
        enable_msg_view_attachments: false,
        quit_without_confirm: false,
        enable_bounce_cmd: false,
        enable_flag_cmd: false,
    }
}

impl Default for Config {
    /// Empty identity, no SMTP server, the default INBOX and display, no
    /// folder collections, editor or signature, every feature off.
    fn default() -> (c: Config)
        ensures
            is_default_config(c),
    {
        Config {
            personal_name: String::new(),
            user_domain: String::new(),
            smtp_server: None,
            inbox: InboxConfig::default(),
            folder_collections: Vec::new(),
            editor: None,
            display: DisplayConfig::default(),
            signature_file: None,
            features: Features::default(),
        }
    }
}

/// `name` placed in the directory `dir`, as a path joins a relative name:
/// a `/` goes between them unless `dir` is empty or already ends with one.
pub open spec fn joined_path(dir: Seq<char>, name: Seq<char>) -> Seq<char> {
    if dir.len() == 0 || dir.last() == '/' {
        dir + name
    } else {
        dir + "/"@ + name
    }
}

/// Where the configuration file is looked for, given the home directory
/// if one is known: the file in the home directory, or in the current
/// directory `.` where no home directory is known.
pub open spec fn config_path_for(home: Option<Seq<char>>) -> Seq<char> {
    let dir = match home {
        Some(h) => h,
        None => "."@,
    };
    joined_path(dir, config_file_name())
}

/// The text of an optional string.
pub open spec fn optional_text(s: Option<String>) -> Option<Seq<char>> {
    match s {
        Some(t) => Some(t@),
        None => None,
    }
}

/// Places the relative path `name` in the directory `dir`.
pub fn path_in_dir(dir: &str, name: &str) -> (path: String)
    requires
        name@.len() == 0 || name@[0] != '/',
    ensures
        path@ == joined_path(dir@, name@),
{
    let n = dir.unicode_len();
    let mut path = String::from_str(dir);
    if n > 0 && dir.get_char(n - 1) != '/' {
        path.append("/");
    }
    path.append(name);
    path
}

/// Asks `dirs::home_dir` for the user's home directory, as text (lossily
/// where it is not valid Unicode). What it gives depends on the
/// environment and on the user database, so nothing is stated of it.
#[verifier::external_body]
fn home_dir() -> (dir: Option<String>) {
    dirs::home_dir().map(|p| p.to_string_lossy().into_owned())
}

impl Config {
    /// The configuration file's path for the given home directory:
    /// `.alpenrose.toml` in it, or in `.` where there is none.
    pub fn path_for_home(home: Option<String>) -> (path: String)
        ensures
            path@ == config_path_for(optional_text(home)),
    {
        proof {
            reveal_strlit(".alpenrose.toml");
        }
        match home {
            Some(h) => path_in_dir(h.as_str(), ".alpenrose.toml"),
            None => path_in_dir(".", ".alpenrose.toml"),
        }
    }

    /// The default configuration file: `.alpenrose.toml` in the user's home
    /// directory, or in `.` where the home directory is not known.
    pub fn default_path() -> (path: String)
        ensures
            exists|home: Option<Seq<char>>| path@ == config_path_for(home),
    {
        let home = home_dir();
        let ghost h = optional_text(home);
        let path = Self::path_for_home(home);
        assert(path@ == config_path_for(h));
        path
    }
}

/// The configuration file lies in the home directory: its path starts
/// with the home directory and ends with `/.alpenrose.toml`.
pub proof fn lemma_config_path_in_home(home: Seq<char>)
    requires
        home.len() > 0,
    ensures
        config_path_for(Some(home)).subrange(0, home.len() as int) == home,
        config_path_for(Some(home)).len() >= home.len() + config_file_name().len(),
        config_path_for(Some(home)).subrange(
            config_path_for(Some(home)).len() - config_file_name().len() - 1,
            config_path_for(Some(home)).len() as int,
        ) == "/"@ + config_file_name(),
{
    reveal_strlit("/");
    let p = config_path_for(Some(home));
    let n = config_file_name();
    assert(p.subrange(0, home.len() as int) =~= home);
    assert(p.subrange(p.len() - n.len() - 1, p.len() as int) =~= "/"@ + n);
}

/// Joining keeps the directory in front and the name at the end, with
/// one `/` between them where the directory is not empty and does not
/// already end with one.
pub proof fn lemma_joined_path(dir: Seq<char>, name: Seq<char>)
    ensures
        joined_path(dir, name).subrange(0, dir.len() as int) == dir,
        joined_path(dir, name).len() >= dir.len() + name.len(),
        joined_path(dir, name).subrange(joined_path(dir, name).len() - name.len(), joined_path(dir, name).len() as int)
            == name,
        joined_path(dir, name).len() <= dir.len() + name.len() + 1,
        dir.len() > 0 ==> joined_path(dir, name)[joined_path(dir, name).len() - name.len() - 1] == '/',
        dir.len() == 0 ==> joined_path(dir, name) == name,
{
    reveal_strlit("/");
    let p = joined_path(dir, name);
    assert(p.subrange(0, dir.len() as int) =~= dir);
    assert(p.subrange(p.len() - name.len(), p.len() as int) =~= name);
    if dir.len() == 0 {
        assert(p =~= name);
    }
}

} // verus!
