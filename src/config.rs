//! Where the configuration lives, and how init scripts are read.

use vstd::prelude::*;
use vstd::string::*;
use crate::text::trim;
use crate::interpreter::find_char;
use crate::text::trim_str;
use crate::words::views;

verus! {

/// Settings of the command-line front end.
#[derive(Debug, Clone)]
pub struct Config {
    /// Serial port to use when none is given.
    pub default_port: Option<String>,
    /// Baud rate to use when none is given.
    pub default_baudrate: Option<u32>,
    /// Timeout overrides in seconds, by contact name.
    pub contact_timeouts: Vec<(String, u64)>,
    /// Whether text output is coloured.
    pub color: bool,
    /// Whether channel echoes are shown.
    pub channel_echoes: bool,
    /// Whether the contact list refreshes itself.
    pub auto_update_contacts: bool,
}

/// The value of a switch that is on unless set.
pub fn default_true() -> (r: bool)
    ensures
        r,
{
    true
}

impl Default for Config {
    /// No port or baud rate, no overrides, colour and contact refresh on.
    fn default() -> (r: Config)
        ensures
            r.default_port is None,
            r.default_baudrate is None,
            r.contact_timeouts@.len() == 0,
            r.color,
            !r.channel_echoes,
            r.auto_update_contacts,
    {
        Config {
            default_port: None,
            default_baudrate: None,
            contact_timeouts: Vec::new(),
            color: true,
            channel_echoes: false,
            auto_update_contacts: true,
        }
    }
}

/// `name` placed in the directory `dir`, as `Path::join` does on Unix for a
/// relative `name`: a separator goes between unless `dir` is empty or
/// already ends in one.
pub open spec fn path_join(dir: Seq<char>, name: Seq<char>) -> Seq<char> {
    if dir.len() == 0 || dir.last() == '/' {
        dir + name
    } else {
        dir + seq!['/'] + name
    }
}

/// Relies on `directories::ProjectDirs::from("", "", application)` and its
/// `config_dir`: the platform's configuration directory for the program, if
/// a home directory is known.
#[verifier::external_body]
fn platform_config_dir(application: &str) -> (r: Option<String>) {
    directories::ProjectDirs::from("", "", application).map(|p| p.config_dir().to_string_lossy().into_owned())
}

/// The name of the configuration directory.
pub const CONFIG_DIR: &'static str = "meshcore";

/// Places `name` in the directory `dir` (see `path_join`).
pub fn join_path(dir: &str, name: &str) -> (r: String)
    ensures
        r@ == path_join(dir@, name@),
{
    let n = dir.unicode_len();
    let mut r = dir.to_string();
    if n > 0 && dir.get_char(n - 1) != '/' {
        r.append("/");
        proof {
            reveal_strlit("/");
        }
    }
    r.append(name);
    r
}

impl Config {
    /// The configuration directory, if the platform has one.
    pub fn config_dir() -> (r: Option<String>) {
        platform_config_dir(CONFIG_DIR)
    }

    /// The file `name` in the configuration directory, if there is one.
    pub fn config_file(name: &str) -> (r: Option<String>)
        ensures
            r matches Some(p) ==> exists|d: Seq<char>| p@ == path_join(d, name@),
    {
        match Self::config_dir() {
            Some(d) => Some(join_path(d.as_str(), name)),
            None => None,
        }
    }

    /// The command history file.
    pub fn history_file() -> (r: Option<String>)
        ensures
            r matches Some(p) ==> exists|d: Seq<char>| p@ == path_join(d, "history"@),
    {
        Self::config_file("history")
    }

    /// The init script run on start.
    pub fn init_file() -> (r: Option<String>)
        ensures
            r matches Some(p) ==> exists|d: Seq<char>| p@ == path_join(d, "init"@),
    {
        Self::config_file("init")
    }

    /// The init script for the device named `device_name`: `<name>.init`.
    pub fn device_init_file(device_name: &str) -> (r: Option<String>)
        ensures
            r matches Some(p) ==> exists|d: Seq<char>| p@ == path_join(d, device_name@ + ".init"@),
    {
        let mut name = device_name.to_string();
        name.append(".init");
        Self::config_file(name.as_str())
    }
}

/// The script lines of `s` from position `start` on: each line (up to a
/// newline) without surrounding white space, leaving out empty lines and
/// lines that start with `#`.
pub open spec fn script_from(s: Seq<char>, start: int) -> Seq<Seq<char>>
    decreases s.len() - start,
{
    if start < 0 || start > s.len() {
        Seq::empty()
    } else {
        let j = if find_char(s, start, '\n') < start { start } else { find_char(s, start, '\n') };
        let e = if j > s.len() { s.len() as int } else { j };
        let line = trim(s.subrange(start, e));
        let kept: Seq<Seq<char>> = if line.len() > 0 && line[0] != '#' { seq![line] } else { Seq::empty() };
        if j >= s.len() {
            kept
        } else {
            kept + script_from(s, j + 1)
        }
    }
}

proof fn lemma_find_newline(s: Seq<char>, k: int)
    requires
        0 <= k <= s.len(),
    ensures
        k <= find_char(s, k, '\n') <= s.len(),
        find_char(s, k, '\n') < s.len() ==> s[find_char(s, k, '\n')] == '\n',
    decreases s.len() - k,
{
    if k < s.len() && s[k] != '\n' {
        lemma_find_newline(s, k + 1);
    }
}

/// The commands of a script text (see `script_from`).
pub fn script_lines(content: &str) -> (r: Vec<String>)
    ensures
        views(r@) == script_from(content@, 0),
{
    let n = content.unicode_len();
    let mut r: Vec<String> = Vec::new();
    let mut start: usize = 0;
    loop
        invariant
            n == content@.len(),
            start <= n,
            script_from(content@, 0) == views(r@) + script_from(content@, start as int),
        decreases n - start,
    {
        let mut k: usize = start;
        while k < n && content.get_char(k) != '\n'
            invariant
                n == content@.len(),
                start <= k <= n,
                find_char(content@, start as int, '\n') == find_char(content@, k as int, '\n'),
            decreases n - k,
        {
            k = k + 1;
        }
        proof {
            lemma_find_newline(content@, start as int);
        }
        let line = trim_str(content.substring_char(start, k));
        let ghost before = r@;
        if line.unicode_len() > 0 && line.get_char(0) != '#' {
            r.push(line.to_string());
            assert(views(r@) =~= views(before) + seq![line@]);
        } else {
            assert(views(r@) =~= views(before) + Seq::<Seq<char>>::empty());
        }
        if k == n {
            assert(views(r@) + script_from(content@, k as int) =~= views(r@));
            return r;
        }
        assert(views(before) + script_from(content@, start as int) =~= views(r@) + script_from(content@, k + 1));
        start = k + 1;
    }
}

/// A script command and the line it stands on, counting from 1.
#[derive(Debug, Clone)]
pub struct ScriptLine {
    pub line: usize,
    pub text: String,
}

/// The script lines of `s` from position `start` on, where the line at
/// `start` has index `idx` (counting from 0), each with its number.
pub open spec fn numbered_from(s: Seq<char>, start: int, idx: int) -> Seq<(int, Seq<char>)>
    decreases s.len() - start,
{
    if start < 0 || start > s.len() {
        Seq::empty()
    } else {
        let j = if find_char(s, start, '\n') < start { start } else { find_char(s, start, '\n') };
        let e = if j > s.len() { s.len() as int } else { j };
        let line = trim(s.subrange(start, e));
        let kept: Seq<(int, Seq<char>)> = if line.len() > 0 && line[0] != '#' {
            seq![(idx + 1, line)]
        } else {
            Seq::empty()
        };
        if j >= s.len() {
            kept
        } else {
            kept + numbered_from(s, j + 1, idx + 1)
        }
    }
}

/// The pairs of line number and text of `v`.
pub open spec fn line_views(v: Seq<ScriptLine>) -> Seq<(int, Seq<char>)> {
    v.map_values(|l: ScriptLine| (l.line as int, l.text@))
}

/// The commands of a script text with their line numbers (see `numbered_from`).
pub fn numbered_script_lines(content: &str) -> (r: Vec<ScriptLine>)
    ensures
        line_views(r@) == numbered_from(content@, 0, 0),
{
    let n = content.unicode_len();
    let mut r: Vec<ScriptLine> = Vec::new();
    let mut start: usize = 0;
    let mut idx: usize = 0;
    loop
        invariant
            n == content@.len(),
            start <= n,
            idx <= start,
            numbered_from(content@, 0, 0) == line_views(r@) + numbered_from(content@, start as int, idx as int),
        decreases n - start,
    {
        let mut k: usize = start;
        while k < n && content.get_char(k) != '\n'
            invariant
                n == content@.len(),
                start <= k <= n,
                find_char(content@, start as int, '\n') == find_char(content@, k as int, '\n'),
            decreases n - k,
        {
            k = k + 1;
        }
        proof {
            lemma_find_newline(content@, start as int);
        }
        let line = trim_str(content.substring_char(start, k));
        let ghost before = r@;
        if line.unicode_len() > 0 && line.get_char(0) != '#' {
            r.push(ScriptLine { line: idx + 1, text: line.to_string() });
            assert(line_views(r@) =~= line_views(before) + seq![((idx + 1) as int, line@)]);
        } else {
            assert(line_views(r@) =~= line_views(before) + Seq::<(int, Seq<char>)>::empty());
        }
        if k == n {
            assert(line_views(r@) + numbered_from(content@, k as int, idx as int) =~= line_views(r@));
            return r;
        }
        assert(line_views(before) + numbered_from(content@, start as int, idx as int) =~= line_views(r@)
            + numbered_from(content@, k + 1, idx + 1));
        start = k + 1;
        idx = idx + 1;
    }
}

} // verus!
