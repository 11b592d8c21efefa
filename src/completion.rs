//! Tab completion for the interactive loop: command words first, then
//! contact names for the commands that take a contact.

use vstd::prelude::*;
use vstd::string::*;
use crate::text::{has_prefix, starts_with, str_eq, white_space};
use crate::words::{split_words, views, words};

verus! {

/// The lower-case form of `s`, as `str::to_lowercase` gives it.
pub uninterp spec fn lower_of(s: Seq<char>) -> Seq<char>;

/// Relies on `str::to_lowercase`: Unicode lower-casing; the result depends
/// on the characters alone.
#[verifier::external_body]
fn to_lower(s: &str) -> (r: String)
    ensures
        r@ == lower_of(s@),
{
    s.to_lowercase()
}

/// The command words offered for completion.
pub open spec fn command_words() -> Seq<&'static str> {
    seq![
        "quit", "q", "exit", "help", "?", "to", "infos", "i",
        "ver", "v", "battery", "clock", "reboot", "sleep", "s", "advert",
        "a", "floodadv", "scope", "contacts", "list", "lc", "reload_contacts", "rc",
        "contact_info", "ci", "contact_name", "cn", "contact_key", "ck", "contact_type", "ct",
        "contact_lastmod", "clm", "dtrace", "dt", "path", "disc_path", "dp", "reset_path",
        "rp", "change_path", "cp", "change_flags", "cf", "share_contact", "sc", "export_contact",
        "ec", "import_contact", "ic", "remove_contact", "pending_contacts", "add_pending", "flush_pending", "msg",
        "m", "{", "send", "chan", "ch", "public", "dch", "recv",
        "r", "wait_msg", "wm", "wait_ack", "wa", "}", "sync_msgs", "sm",
        "msgs_subscribe", "ms", "get_channels", "gc", "get_channel", "set_channel", "remove_channel", "add_channel",
        "node_discover", "nd", "contact_timeout", "req_acl", "time", "login", "l", "logout",
        "cmd", "c", "[", "req_status", "rs", "req_neighbours", "rn", "req_telemetry",
        "rt", "req_mma", "rm", "req_binary", "rb", "trace", "tr", "wmt8",
        "]", "trywait_msg", "wmt", "get", "set", "stats", "export_key", "import_key",
        "get_vars", "set_var", "self_telemetry", "t", "card", "e", "script", "apply_to",
        "at",
    ]
}

/// The words of `cs` that begin with `p`, in order.
pub open spec fn with_prefix(cs: Seq<Seq<char>>, p: Seq<char>) -> Seq<Seq<char>>
    decreases cs.len(),
{
    if cs.len() == 0 {
        Seq::empty()
    } else if has_prefix(cs.last(), p) {
        with_prefix(cs.drop_last(), p).push(cs.last())
    } else {
        with_prefix(cs.drop_last(), p)
    }
}

/// The words of `cs` whose lower-case form begins with `p`, in order.
pub open spec fn with_lower_prefix(cs: Seq<Seq<char>>, p: Seq<char>) -> Seq<Seq<char>>
    decreases cs.len(),
{
    if cs.len() == 0 {
        Seq::empty()
    } else if has_prefix(lower_of(cs.last()), p) {
        with_lower_prefix(cs.drop_last(), p).push(cs.last())
    } else {
        with_lower_prefix(cs.drop_last(), p)
    }
}

/// The command word `w`, lower-cased, takes a contact name next.
pub open spec fn takes_contact(w: Seq<char>) -> bool {
    w == "to"@ || w == "msg"@ || w == "m"@ || w == "send"@ || w == "cmd"@ || w == "c"@ || w == "login"@ || w == "l"@ || w == "logout"@ || w == "contact_info"@ || w == "ci"@ || w == "path"@ || w == "disc_path"@ || w == "dp"@ || w == "reset_path"@ || w == "rp"@ || w == "change_path"@ || w == "cp"@ || w == "change_flags"@ || w == "cf"@ || w == "share_contact"@ || w == "sc"@ || w == "export_contact"@ || w == "ec"@ || w == "remove_contact"@ || w == "req_status"@ || w == "rs"@ || w == "req_neighbours"@ || w == "rn"@ || w == "req_telemetry"@ || w == "rt"@ || w == "req_mma"@ || w == "rm"@ || w == "req_binary"@ || w == "rb"@
}

/// Where the word under the cursor starts: after the last white space.
pub open spec fn word_start(t: Seq<char>) -> int
    decreases t.len(),
{
    if t.len() == 0 {
        0
    } else if white_space(t.last()) {
        t.len() as int
    } else {
        word_start(t.drop_last())
    }
}

/// Completion state: the command words and the known contact names.
#[derive(Debug, Clone)]
pub struct InteractiveHelper {
    /// Contact names.
    pub contacts: Vec<String>,
    /// Command words.
    pub commands: Vec<&'static str>,
}

/// Candidates for the text before the cursor, and the character position
/// where the completed word starts.
#[derive(Debug, Clone)]
pub struct Completion {
    pub start: usize,
    pub candidates: Vec<String>,
}

/// The views of a list of static strings.
pub open spec fn str_views(v: Seq<&'static str>) -> Seq<Seq<char>> {
    v.map_values(|x: &'static str| x@)
}

/// What completing `t` offers, given the command words and contact names:
/// while the first word is typed, the command words it begins; after a
/// command that takes a contact, the contact names whose lower-case form
/// begins with the typed word's; otherwise nothing.
pub open spec fn completes(c: Completion, t: Seq<char>, commands: Seq<Seq<char>>, contacts: Seq<Seq<char>>) -> bool {
    let ws = words(t);
    let open_word = t.len() > 0 && t.last() != ' ';
    if ws.len() == 0 || (ws.len() == 1 && open_word) {
        let p: Seq<char> = if ws.len() == 0 { Seq::empty() } else { ws[0] };
        c.start == word_start(t) && views(c.candidates@) == with_prefix(commands, p)
    } else if takes_contact(lower_of(ws[0])) && (ws.len() == 1 || (ws.len() == 2 && open_word)) {
        let p = lower_of(if ws.len() == 1 { Seq::<char>::empty() } else { ws[1] });
        c.start == word_start(t) && views(c.candidates@) == with_lower_prefix(contacts, p)
    } else {
        c.start == t.len() && c.candidates@.len() == 0
    }
}

fn takes_contact_word(w: &str) -> (r: bool)
    ensures
        r == takes_contact(w@),
{
    str_eq(w, "to") || str_eq(w, "msg") || str_eq(w, "m") || str_eq(w, "send") || str_eq(w, "cmd") || str_eq(w, "c") || str_eq(w, "login") || str_eq(w, "l") || str_eq(w, "logout") || str_eq(w, "contact_info") || str_eq(w, "ci") || str_eq(w, "path") || str_eq(w, "disc_path") || str_eq(w, "dp") || str_eq(w, "reset_path") || str_eq(w, "rp") || str_eq(w, "change_path") || str_eq(w, "cp") || str_eq(w, "change_flags") || str_eq(w, "cf") || str_eq(w, "share_contact") || str_eq(w, "sc") || str_eq(w, "export_contact") || str_eq(w, "ec") || str_eq(w, "remove_contact") || str_eq(w, "req_status") || str_eq(w, "rs") || str_eq(w, "req_neighbours") || str_eq(w, "rn") || str_eq(w, "req_telemetry") || str_eq(w, "rt") || str_eq(w, "req_mma") || str_eq(w, "rm") || str_eq(w, "req_binary") || str_eq(w, "rb")
}

fn word_start_of(t: &str) -> (r: usize)
    ensures
        r == word_start(t@),
{
    let n = t.unicode_len();
    let mut j: usize = n;
    assert(t@.subrange(0, n as int) =~= t@);
    while j > 0 && !crate::text::is_whitespace(t.get_char(j - 1))
        invariant
            n == t@.len(),
            j <= n,
            word_start(t@) == word_start(t@.subrange(0, j as int)),
        decreases j,
    {
        assert(t@.subrange(0, j as int).drop_last() =~= t@.subrange(0, j - 1));
        j = j - 1;
    }
    j
}

impl InteractiveHelper {
    /// No contacts yet, and every command word.
    pub fn new() -> (r: InteractiveHelper)
        ensures
            r.contacts@.len() == 0,
            r.commands@ == command_words(),
    {
        let commands: Vec<&'static str> = vec![
        "quit", "q", "exit", "help", "?", "to", "infos", "i",
        "ver", "v", "battery", "clock", "reboot", "sleep", "s", "advert",
        "a", "floodadv", "scope", "contacts", "list", "lc", "reload_contacts", "rc",
        "contact_info", "ci", "contact_name", "cn", "contact_key", "ck", "contact_type", "ct",
        "contact_lastmod", "clm", "dtrace", "dt", "path", "disc_path", "dp", "reset_path",
        "rp", "change_path", "cp", "change_flags", "cf", "share_contact", "sc", "export_contact",
        "ec", "import_contact", "ic", "remove_contact", "pending_contacts", "add_pending", "flush_pending", "msg",
        "m", "{", "send", "chan", "ch", "public", "dch", "recv",
        "r", "wait_msg", "wm", "wait_ack", "wa", "}", "sync_msgs", "sm",
        "msgs_subscribe", "ms", "get_channels", "gc", "get_channel", "set_channel", "remove_channel", "add_channel",
        "node_discover", "nd", "contact_timeout", "req_acl", "time", "login", "l", "logout",
        "cmd", "c", "[", "req_status", "rs", "req_neighbours", "rn", "req_telemetry",
        "rt", "req_mma", "rm", "req_binary", "rb", "trace", "tr", "wmt8",
        "]", "trywait_msg", "wmt", "get", "set", "stats", "export_key", "import_key",
        "get_vars", "set_var", "self_telemetry", "t", "card", "e", "script", "apply_to",
        "at",
        ];
        InteractiveHelper { contacts: Vec::new(), commands }
    }

    /// Replaces the contact names offered.
    pub fn update_contacts(&mut self, contacts: Vec<String>)
        ensures
            final(self).contacts == contacts,
            final(self).commands == old(self).commands,
    {
        self.contacts = contacts;
    }

    /// Completes `t`, the text before the cursor (see `completes`).
    pub fn complete(&self, t: &str) -> (r: Completion)
        ensures
            completes(r, t@, str_views(self.commands@), views(self.contacts@)),
    {
        let ws = split_words(t);
        let n = t.unicode_len();
        let open_word = n > 0 && t.get_char(n - 1) != ' ';
        assert(views(ws@).len() == ws@.len());
        assert(ws@.len() > 0 ==> ws@[0]@ == words(t@)[0]);
        assert(ws@.len() > 1 ==> ws@[1]@ == words(t@)[1]);
        if ws.len() == 0 || (ws.len() == 1 && open_word) {
            let p: &str = if ws.len() == 0 { "" } else { ws[0].as_str() };
            proof {
                reveal_strlit("");
            }
            assert(p@ == (if words(t@).len() == 0 { Seq::<char>::empty() } else { words(t@)[0] }));
            let mut out: Vec<String> = Vec::new();
            let m = self.commands.len();
            let mut i: usize = 0;
            while i < m
                invariant
                    m == self.commands@.len(),
                    i <= m,
                    views(out@) == with_prefix(str_views(self.commands@).take(i as int), p@),
                decreases m - i,
            {
                let c = self.commands[i];
                assert(str_views(self.commands@).take(i + 1).drop_last() =~= str_views(self.commands@).take(i as int));
                let ghost before = out@;
                if starts_with(c, p) {
                    out.push(c.to_string());
                    assert(views(out@) =~= views(before).push(c@));
                }
                i = i + 1;
            }
            assert(str_views(self.commands@).take(m as int) =~= str_views(self.commands@));
            return Completion { start: word_start_of(t), candidates: out };
        }
        let first = to_lower(ws[0].as_str());
        if takes_contact_word(first.as_str()) && (ws.len() == 1 || (ws.len() == 2 && open_word)) {
            let p = if ws.len() == 1 {
                let e = "";
                proof {
                    reveal_strlit("");
                }
                assert(e@ =~= Seq::<char>::empty());
                to_lower(e)
            } else {
                to_lower(ws[1].as_str())
            };
            assert(p@ == lower_of(if words(t@).len() == 1 { Seq::<char>::empty() } else { words(t@)[1] }));
            let mut out: Vec<String> = Vec::new();
            let m = self.contacts.len();
            let mut i: usize = 0;
            while i < m
                invariant
                    m == self.contacts@.len(),
                    i <= m,
                    views(out@) == with_lower_prefix(views(self.contacts@).take(i as int), p@),
                decreases m - i,
            {
                assert(views(self.contacts@).take(i + 1).drop_last() =~= views(self.contacts@).take(i as int));
                let ghost before = out@;
                let lc = to_lower(self.contacts[i].as_str());
                if starts_with(lc.as_str(), p.as_str()) {
                    out.push(self.contacts[i].clone());
                    assert(views(out@) =~= views(before).push(self.contacts@[i as int]@));
                }
                i = i + 1;
            }
            assert(views(self.contacts@).take(m as int) =~= views(self.contacts@));
            return Completion { start: word_start_of(t), candidates: out };
        }
        Completion { start: n, candidates: Vec::new() }
    }
}

} // verus!
