//! The command interpreter's front end: one line of text becomes exactly
//! one canonical action, a named command with its argument words, or an
//! "unknown command" result.

use vstd::prelude::*;
use vstd::string::*;
use crate::error::CliError;
use crate::text::{eq_ci, eq_ignore_ascii_case, is_whitespace, str_eq, trim, trim_str, white_space};
use crate::words::{skip_word, split_words, views, words};

verus! {

/// The commands of the interactive interpreter.
#[derive(Debug, Clone, Copy, PartialEq, Eq, Structural)]
pub enum CommandName {
    /// Device information.
    Infos,
    /// Firmware version.
    Ver,
    /// Battery level.
    Battery,
    /// Device clock.
    Clock,
    /// Set the device clock to the host's.
    SyncTime,
    /// Reboot the device.
    Reboot,
    /// Send an advertisement.
    Advert,
    /// Send a flood advertisement.
    FloodAdv,
    /// Show the device's contact card.
    Card,
    /// The device's own telemetry.
    SelfTelemetry,
    /// List contacts.
    Contacts,
    /// Reload the contact directory.
    ReloadContacts,
    /// Show one contact.
    ContactInfo,
    /// Show a contact's path.
    Path,
    /// Discover a contact's path.
    DiscPath,
    /// Reset a contact's path.
    ResetPath,
    /// List pending contacts.
    PendingContacts,
    /// Drop all pending contacts.
    FlushPending,
    /// Approve a pending contact.
    AddPending,
    /// Set a contact's path.
    ChangePath,
    /// Set a contact's flags.
    ChangeFlags,
    /// Share a contact.
    ShareContact,
    /// Export a contact, or the device's own card.
    ExportContact,
    /// Import a contact URI.
    ImportContact,
    /// Remove a contact.
    RemoveContact,
    /// Print a contact's name.
    ContactName,
    /// Print a contact's key.
    ContactKey,
    /// Print a contact's type.
    ContactType,
    /// Discover and show a contact's path.
    Dtrace,
    /// Print when a contact was last modified.
    ContactLastmod,
    /// Send a direct message.
    Msg,
    /// Read the next message.
    Recv,
    /// Read all waiting messages.
    SyncMsgs,
    /// Print messages as they arrive.
    MsgsSubscribe,
    /// Wait for an acknowledgement.
    WaitAck,
    /// Wait for a message.
    WaitMsg,
    /// Wait briefly for a message.
    TrywaitMsg,
    /// Send a channel message.
    Chan,
    /// Send on the public channel.
    Public,
    /// Log in to a repeater.
    Login,
    /// Log out of a repeater.
    Logout,
    /// Send a repeater command.
    Cmd,
    /// Ask a repeater for its status.
    ReqStatus,
    /// Wait eight seconds for a message.
    Wmt8,
    /// Trace a path.
    Trace,
    /// Send a binary request.
    ReqBinary,
    /// Ask a repeater for its neighbours.
    ReqNeighbours,
    /// Ask a contact for telemetry.
    ReqTelemetry,
    /// Ask a contact for min/max/average telemetry.
    ReqMma,
    /// List channels.
    GetChannels,
    /// Show one channel.
    GetChannel,
    /// Set a channel.
    SetChannel,
    /// Add a channel in the first free slot.
    AddChannel,
    /// Remove a channel.
    RemoveChannel,
    /// Set the flood scope.
    Scope,
    /// Discover nodes.
    NodeDiscover,
    /// Override a contact's timeout.
    ContactTimeout,
    /// Ask a repeater for its access list.
    ReqAcl,
    /// Set the device clock.
    Time,
    /// Read a device parameter.
    GetParam,
    /// Write a device parameter.
    SetParam,
    /// Device statistics.
    Stats,
    /// Pause.
    Sleep,
    /// Run a script file.
    Script,
    /// Run a command on every contact a filter selects.
    ApplyTo,
    /// Export the private key.
    ExportKey,
    /// Import a private key.
    ImportKey,
    /// Read custom variables.
    GetVars,
    /// Write a custom variable.
    SetVar,
}

/// The command that the word `w` names, ignoring ASCII case.
pub open spec fn command_of(w: Seq<char>) -> Option<CommandName> {
    if eq_ci(w, "infos"@) || eq_ci(w, "i"@) {
        Some(CommandName::Infos)
    } else if eq_ci(w, "ver"@) || eq_ci(w, "v"@) {
        Some(CommandName::Ver)
    } else if eq_ci(w, "battery"@) {
        Some(CommandName::Battery)
    } else if eq_ci(w, "clock"@) {
        Some(CommandName::Clock)
    } else if eq_ci(w, "sync_time"@) || eq_ci(w, "st"@) {
        Some(CommandName::SyncTime)
    } else if eq_ci(w, "reboot"@) {
        Some(CommandName::Reboot)
    } else if eq_ci(w, "advert"@) || eq_ci(w, "a"@) {
        Some(CommandName::Advert)
    } else if eq_ci(w, "floodadv"@) {
        Some(CommandName::FloodAdv)
    } else if eq_ci(w, "card"@) || eq_ci(w, "e"@) {
        Some(CommandName::Card)
    } else if eq_ci(w, "self_telemetry"@) || eq_ci(w, "t"@) {
        Some(CommandName::SelfTelemetry)
    } else if eq_ci(w, "contacts"@) || eq_ci(w, "list"@) || eq_ci(w, "lc"@) {
        Some(CommandName::Contacts)
    } else if eq_ci(w, "reload_contacts"@) || eq_ci(w, "rc"@) {
        Some(CommandName::ReloadContacts)
    } else if eq_ci(w, "contact_info"@) || eq_ci(w, "ci"@) {
        Some(CommandName::ContactInfo)
    } else if eq_ci(w, "path"@) {
        Some(CommandName::Path)
    } else if eq_ci(w, "disc_path"@) || eq_ci(w, "dp"@) {
        Some(CommandName::DiscPath)
    } else if eq_ci(w, "reset_path"@) || eq_ci(w, "rp"@) {
        Some(CommandName::ResetPath)
    } else if eq_ci(w, "pending_contacts"@) {
        Some(CommandName::PendingContacts)
    } else if eq_ci(w, "flush_pending"@) {
        Some(CommandName::FlushPending)
    } else if eq_ci(w, "add_pending"@) {
        Some(CommandName::AddPending)
    } else if eq_ci(w, "change_path"@) || eq_ci(w, "cp"@) {
        Some(CommandName::ChangePath)
    } else if eq_ci(w, "change_flags"@) || eq_ci(w, "cf"@) {
        Some(CommandName::ChangeFlags)
    } else if eq_ci(w, "share_contact"@) || eq_ci(w, "sc"@) {
        Some(CommandName::ShareContact)
    } else if eq_ci(w, "export_contact"@) || eq_ci(w, "ec"@) {
        Some(CommandName::ExportContact)
    } else if eq_ci(w, "import_contact"@) || eq_ci(w, "ic"@) {
        Some(CommandName::ImportContact)
    } else if eq_ci(w, "remove_contact"@) {
        Some(CommandName::RemoveContact)
    } else if eq_ci(w, "contact_name"@) || eq_ci(w, "cn"@) {
        Some(CommandName::ContactName)
    } else if eq_ci(w, "contact_key"@) || eq_ci(w, "ck"@) {
        Some(CommandName::ContactKey)
    } else if eq_ci(w, "contact_type"@) || eq_ci(w, "ct"@) {
        Some(CommandName::ContactType)
    } else if eq_ci(w, "dtrace"@) || eq_ci(w, "dt"@) {
        Some(CommandName::Dtrace)
    } else if eq_ci(w, "contact_lastmod"@) || eq_ci(w, "clm"@) {
        Some(CommandName::ContactLastmod)
    } else if eq_ci(w, "msg"@) || eq_ci(w, "m"@) || eq_ci(w, "{"@) {
        Some(CommandName::Msg)
    } else if eq_ci(w, "recv"@) || eq_ci(w, "r"@) {
        Some(CommandName::Recv)
    } else if eq_ci(w, "sync_msgs"@) || eq_ci(w, "sm"@) {
        Some(CommandName::SyncMsgs)
    } else if eq_ci(w, "msgs_subscribe"@) || eq_ci(w, "ms"@) {
        Some(CommandName::MsgsSubscribe)
    } else if eq_ci(w, "wait_ack"@) || eq_ci(w, "wa"@) || eq_ci(w, "}"@) {
        Some(CommandName::WaitAck)
    } else if eq_ci(w, "wait_msg"@) || eq_ci(w, "wm"@) {
        Some(CommandName::WaitMsg)
    } else if eq_ci(w, "trywait_msg"@) || eq_ci(w, "wmt"@) {
        Some(CommandName::TrywaitMsg)
    } else if eq_ci(w, "chan"@) || eq_ci(w, "ch"@) {
        Some(CommandName::Chan)
    } else if eq_ci(w, "public"@) || eq_ci(w, "dch"@) {
        Some(CommandName::Public)
    } else if eq_ci(w, "login"@) || eq_ci(w, "l"@) {
        Some(CommandName::Login)
    } else if eq_ci(w, "logout"@) {
        Some(CommandName::Logout)
    } else if eq_ci(w, "cmd"@) || eq_ci(w, "c"@) || eq_ci(w, "["@) {
        Some(CommandName::Cmd)
    } else if eq_ci(w, "req_status"@) || eq_ci(w, "rs"@) {
        Some(CommandName::ReqStatus)
    } else if eq_ci(w, "wmt8"@) || eq_ci(w, "]"@) {
        Some(CommandName::Wmt8)
    } else if eq_ci(w, "trace"@) || eq_ci(w, "tr"@) {
        Some(CommandName::Trace)
    } else if eq_ci(w, "req_binary"@) || eq_ci(w, "rb"@) {
        Some(CommandName::ReqBinary)
    } else if eq_ci(w, "req_neighbours"@) || eq_ci(w, "rn"@) {
        Some(CommandName::ReqNeighbours)
    } else if eq_ci(w, "req_telemetry"@) || eq_ci(w, "rt"@) {
        Some(CommandName::ReqTelemetry)
    } else if eq_ci(w, "req_mma"@) || eq_ci(w, "rm"@) {
        Some(CommandName::ReqMma)
    } else if eq_ci(w, "get_channels"@) || eq_ci(w, "gc"@) {
        Some(CommandName::GetChannels)
    } else if eq_ci(w, "get_channel"@) {
        Some(CommandName::GetChannel)
    } else if eq_ci(w, "set_channel"@) {
        Some(CommandName::SetChannel)
    } else if eq_ci(w, "add_channel"@) {
        Some(CommandName::AddChannel)
    } else if eq_ci(w, "remove_channel"@) {
        Some(CommandName::RemoveChannel)
    } else if eq_ci(w, "scope"@) {
        Some(CommandName::Scope)
    } else if eq_ci(w, "node_discover"@) || eq_ci(w, "nd"@) {
        Some(CommandName::NodeDiscover)
    } else if eq_ci(w, "contact_timeout"@) {
        Some(CommandName::ContactTimeout)
    } else if eq_ci(w, "req_acl"@) {
        Some(CommandName::ReqAcl)
    } else if eq_ci(w, "time"@) {
        Some(CommandName::Time)
    } else if eq_ci(w, "get"@) {
        Some(CommandName::GetParam)
    } else if eq_ci(w, "set"@) {
        Some(CommandName::SetParam)
    } else if eq_ci(w, "stats"@) {
        Some(CommandName::Stats)
    } else if eq_ci(w, "sleep"@) || eq_ci(w, "s"@) {
        Some(CommandName::Sleep)
    } else if eq_ci(w, "script"@) {
        Some(CommandName::Script)
    } else if eq_ci(w, "apply_to"@) || eq_ci(w, "at"@) {
        Some(CommandName::ApplyTo)
    } else if eq_ci(w, "export_key"@) {
        Some(CommandName::ExportKey)
    } else if eq_ci(w, "import_key"@) {
        Some(CommandName::ImportKey)
    } else if eq_ci(w, "get_vars"@) {
        Some(CommandName::GetVars)
    } else if eq_ci(w, "set_var"@) {
        Some(CommandName::SetVar)
    } else {
        None
    }
}

impl CommandName {
    /// How many argument words the command needs at least.
    pub open spec fn spec_min_words(self) -> nat {
        match self {
            CommandName::ContactInfo | CommandName::Path | CommandName::DiscPath | CommandName::ResetPath | CommandName::AddPending | CommandName::ShareContact | CommandName::ImportContact | CommandName::RemoveContact | CommandName::TrywaitMsg | CommandName::Public | CommandName::Logout | CommandName::ReqStatus | CommandName::Trace | CommandName::ReqNeighbours | CommandName::ReqTelemetry | CommandName::ReqMma | CommandName::GetChannel | CommandName::AddChannel | CommandName::RemoveChannel | CommandName::Scope | CommandName::ReqAcl | CommandName::Time | CommandName::GetParam | CommandName::Script | CommandName::ImportKey => 1,
            CommandName::ChangePath | CommandName::ChangeFlags | CommandName::Msg | CommandName::Chan | CommandName::Login | CommandName::Cmd | CommandName::ReqBinary | CommandName::ContactTimeout | CommandName::SetParam | CommandName::ApplyTo | CommandName::SetVar => 2,
            CommandName::SetChannel => 3,
            _ => 0,
        }
    }

    /// Whether the command stays a command while a contact is selected;
    /// any other first word makes the line a message to that contact.
    pub open spec fn spec_in_chat(self) -> bool {
        match self {
            CommandName::SyncTime | CommandName::FloodAdv | CommandName::ReloadContacts | CommandName::DiscPath | CommandName::ResetPath | CommandName::PendingContacts | CommandName::FlushPending | CommandName::TrywaitMsg | CommandName::Public | CommandName::ReqStatus | CommandName::Trace | CommandName::ReqBinary | CommandName::ReqNeighbours | CommandName::ReqTelemetry | CommandName::ReqMma | CommandName::GetChannels | CommandName::GetChannel | CommandName::SetChannel | CommandName::AddChannel | CommandName::RemoveChannel | CommandName::NodeDiscover | CommandName::ContactTimeout | CommandName::ReqAcl | CommandName::Time | CommandName::Sleep => false,
            _ => true,
        }
    }

    /// How many argument words the command needs at least.
    pub fn min_words(&self) -> (r: usize)
        ensures
            r == self.spec_min_words(),
    {
        match self {
            CommandName::ContactInfo | CommandName::Path | CommandName::DiscPath | CommandName::ResetPath | CommandName::AddPending | CommandName::ShareContact | CommandName::ImportContact | CommandName::RemoveContact | CommandName::TrywaitMsg | CommandName::Public | CommandName::Logout | CommandName::ReqStatus | CommandName::Trace | CommandName::ReqNeighbours | CommandName::ReqTelemetry | CommandName::ReqMma | CommandName::GetChannel | CommandName::AddChannel | CommandName::RemoveChannel | CommandName::Scope | CommandName::ReqAcl | CommandName::Time | CommandName::GetParam | CommandName::Script | CommandName::ImportKey => 1,
            CommandName::ChangePath | CommandName::ChangeFlags | CommandName::Msg | CommandName::Chan | CommandName::Login | CommandName::Cmd | CommandName::ReqBinary | CommandName::ContactTimeout | CommandName::SetParam | CommandName::ApplyTo | CommandName::SetVar => 2,
            CommandName::SetChannel => 3,
            _ => 0,
        }
    }

    /// Whether the command stays a command while a contact is selected.
    pub fn in_chat(&self) -> (r: bool)
        ensures
            r == self.spec_in_chat(),
    {
        match self {
            CommandName::SyncTime | CommandName::FloodAdv | CommandName::ReloadContacts | CommandName::DiscPath | CommandName::ResetPath | CommandName::PendingContacts | CommandName::FlushPending | CommandName::TrywaitMsg | CommandName::Public | CommandName::ReqStatus | CommandName::Trace | CommandName::ReqBinary | CommandName::ReqNeighbours | CommandName::ReqTelemetry | CommandName::ReqMma | CommandName::GetChannels | CommandName::GetChannel | CommandName::SetChannel | CommandName::AddChannel | CommandName::RemoveChannel | CommandName::NodeDiscover | CommandName::ContactTimeout | CommandName::ReqAcl | CommandName::Time | CommandName::Sleep => false,
            _ => true,
        }
    }
}

/// The command that the word `w` names, ignoring ASCII case.
pub fn command_named(w: &str) -> (r: Option<CommandName>)
    ensures
        r == command_of(w@),
{
    if eq_ignore_ascii_case(w, "infos") || eq_ignore_ascii_case(w, "i") {
        Some(CommandName::Infos)
    } else if eq_ignore_ascii_case(w, "ver") || eq_ignore_ascii_case(w, "v") {
        Some(CommandName::Ver)
    } else if eq_ignore_ascii_case(w, "battery") {
        Some(CommandName::Battery)
    } else if eq_ignore_ascii_case(w, "clock") {
        Some(CommandName::Clock)
    } else if eq_ignore_ascii_case(w, "sync_time") || eq_ignore_ascii_case(w, "st") {
        Some(CommandName::SyncTime)
    } else if eq_ignore_ascii_case(w, "reboot") {
        Some(CommandName::Reboot)
    } else if eq_ignore_ascii_case(w, "advert") || eq_ignore_ascii_case(w, "a") {
        Some(CommandName::Advert)
    } else if eq_ignore_ascii_case(w, "floodadv") {
        Some(CommandName::FloodAdv)
    } else if eq_ignore_ascii_case(w, "card") || eq_ignore_ascii_case(w, "e") {
        Some(CommandName::Card)
    } else if eq_ignore_ascii_case(w, "self_telemetry") || eq_ignore_ascii_case(w, "t") {
        Some(CommandName::SelfTelemetry)
    } else if eq_ignore_ascii_case(w, "contacts") || eq_ignore_ascii_case(w, "list") || eq_ignore_ascii_case(w, "lc") {
        Some(CommandName::Contacts)
    } else if eq_ignore_ascii_case(w, "reload_contacts") || eq_ignore_ascii_case(w, "rc") {
        Some(CommandName::ReloadContacts)
    } else if eq_ignore_ascii_case(w, "contact_info") || eq_ignore_ascii_case(w, "ci") {
        Some(CommandName::ContactInfo)
    } else if eq_ignore_ascii_case(w, "path") {
        Some(CommandName::Path)
    } else if eq_ignore_ascii_case(w, "disc_path") || eq_ignore_ascii_case(w, "dp") {
        Some(CommandName::DiscPath)
    } else if eq_ignore_ascii_case(w, "reset_path") || eq_ignore_ascii_case(w, "rp") {
        Some(CommandName::ResetPath)
    } else if eq_ignore_ascii_case(w, "pending_contacts") {
        Some(CommandName::PendingContacts)
    } else if eq_ignore_ascii_case(w, "flush_pending") {
        Some(CommandName::FlushPending)
    } else if eq_ignore_ascii_case(w, "add_pending") {
        Some(CommandName::AddPending)
    } else if eq_ignore_ascii_case(w, "change_path") || eq_ignore_ascii_case(w, "cp") {
        Some(CommandName::ChangePath)
    } else if eq_ignore_ascii_case(w, "change_flags") || eq_ignore_ascii_case(w, "cf") {
        Some(CommandName::ChangeFlags)
    } else if eq_ignore_ascii_case(w, "share_contact") || eq_ignore_ascii_case(w, "sc") {
        Some(CommandName::ShareContact)
    } else if eq_ignore_ascii_case(w, "export_contact") || eq_ignore_ascii_case(w, "ec") {
        Some(CommandName::ExportContact)
    } else if eq_ignore_ascii_case(w, "import_contact") || eq_ignore_ascii_case(w, "ic") {
        Some(CommandName::ImportContact)
    } else if eq_ignore_ascii_case(w, "remove_contact") {
        Some(CommandName::RemoveContact)
    } else if eq_ignore_ascii_case(w, "contact_name") || eq_ignore_ascii_case(w, "cn") {
        Some(CommandName::ContactName)
    } else if eq_ignore_ascii_case(w, "contact_key") || eq_ignore_ascii_case(w, "ck") {
        Some(CommandName::ContactKey)
    } else if eq_ignore_ascii_case(w, "contact_type") || eq_ignore_ascii_case(w, "ct") {
        Some(CommandName::ContactType)
    } else if eq_ignore_ascii_case(w, "dtrace") || eq_ignore_ascii_case(w, "dt") {
        Some(CommandName::Dtrace)
    } else if eq_ignore_ascii_case(w, "contact_lastmod") || eq_ignore_ascii_case(w, "clm") {
        Some(CommandName::ContactLastmod)
    } else if eq_ignore_ascii_case(w, "msg") || eq_ignore_ascii_case(w, "m") || eq_ignore_ascii_case(w, "{") {
        Some(CommandName::Msg)
    } else if eq_ignore_ascii_case(w, "recv") || eq_ignore_ascii_case(w, "r") {
        Some(CommandName::Recv)
    } else if eq_ignore_ascii_case(w, "sync_msgs") || eq_ignore_ascii_case(w, "sm") {
        Some(CommandName::SyncMsgs)
    } else if eq_ignore_ascii_case(w, "msgs_subscribe") || eq_ignore_ascii_case(w, "ms") {
        Some(CommandName::MsgsSubscribe)
    } else if eq_ignore_ascii_case(w, "wait_ack") || eq_ignore_ascii_case(w, "wa") || eq_ignore_ascii_case(w, "}") {
        Some(CommandName::WaitAck)
    } else if eq_ignore_ascii_case(w, "wait_msg") || eq_ignore_ascii_case(w, "wm") {
        Some(CommandName::WaitMsg)
    } else if eq_ignore_ascii_case(w, "trywait_msg") || eq_ignore_ascii_case(w, "wmt") {
        Some(CommandName::TrywaitMsg)
    } else if eq_ignore_ascii_case(w, "chan") || eq_ignore_ascii_case(w, "ch") {
        Some(CommandName::Chan)
    } else if eq_ignore_ascii_case(w, "public") || eq_ignore_ascii_case(w, "dch") {
        Some(CommandName::Public)
    } else if eq_ignore_ascii_case(w, "login") || eq_ignore_ascii_case(w, "l") {
        Some(CommandName::Login)
    } else if eq_ignore_ascii_case(w, "logout") {
        Some(CommandName::Logout)
    } else if eq_ignore_ascii_case(w, "cmd") || eq_ignore_ascii_case(w, "c") || eq_ignore_ascii_case(w, "[") {
        Some(CommandName::Cmd)
    } else if eq_ignore_ascii_case(w, "req_status") || eq_ignore_ascii_case(w, "rs") {
        Some(CommandName::ReqStatus)
    } else if eq_ignore_ascii_case(w, "wmt8") || eq_ignore_ascii_case(w, "]") {
        Some(CommandName::Wmt8)
    } else if eq_ignore_ascii_case(w, "trace") || eq_ignore_ascii_case(w, "tr") {
        Some(CommandName::Trace)
    } else if eq_ignore_ascii_case(w, "req_binary") || eq_ignore_ascii_case(w, "rb") {
        Some(CommandName::ReqBinary)
    } else if eq_ignore_ascii_case(w, "req_neighbours") || eq_ignore_ascii_case(w, "rn") {
        Some(CommandName::ReqNeighbours)
    } else if eq_ignore_ascii_case(w, "req_telemetry") || eq_ignore_ascii_case(w, "rt") {
        Some(CommandName::ReqTelemetry)
    } else if eq_ignore_ascii_case(w, "req_mma") || eq_ignore_ascii_case(w, "rm") {
        Some(CommandName::ReqMma)
    } else if eq_ignore_ascii_case(w, "get_channels") || eq_ignore_ascii_case(w, "gc") {
        Some(CommandName::GetChannels)
    } else if eq_ignore_ascii_case(w, "get_channel") {
        Some(CommandName::GetChannel)
    } else if eq_ignore_ascii_case(w, "set_channel") {
        Some(CommandName::SetChannel)
    } else if eq_ignore_ascii_case(w, "add_channel") {
        Some(CommandName::AddChannel)
    } else if eq_ignore_ascii_case(w, "remove_channel") {
        Some(CommandName::RemoveChannel)
    } else if eq_ignore_ascii_case(w, "scope") {
        Some(CommandName::Scope)
    } else if eq_ignore_ascii_case(w, "node_discover") || eq_ignore_ascii_case(w, "nd") {
        Some(CommandName::NodeDiscover)
    } else if eq_ignore_ascii_case(w, "contact_timeout") {
        Some(CommandName::ContactTimeout)
    } else if eq_ignore_ascii_case(w, "req_acl") {
        Some(CommandName::ReqAcl)
    } else if eq_ignore_ascii_case(w, "time") {
        Some(CommandName::Time)
    } else if eq_ignore_ascii_case(w, "get") {
        Some(CommandName::GetParam)
    } else if eq_ignore_ascii_case(w, "set") {
        Some(CommandName::SetParam)
    } else if eq_ignore_ascii_case(w, "stats") {
        Some(CommandName::Stats)
    } else if eq_ignore_ascii_case(w, "sleep") || eq_ignore_ascii_case(w, "s") {
        Some(CommandName::Sleep)
    } else if eq_ignore_ascii_case(w, "script") {
        Some(CommandName::Script)
    } else if eq_ignore_ascii_case(w, "apply_to") || eq_ignore_ascii_case(w, "at") {
        Some(CommandName::ApplyTo)
    } else if eq_ignore_ascii_case(w, "export_key") {
        Some(CommandName::ExportKey)
    } else if eq_ignore_ascii_case(w, "import_key") {
        Some(CommandName::ImportKey)
    } else if eq_ignore_ascii_case(w, "get_vars") {
        Some(CommandName::GetVars)
    } else if eq_ignore_ascii_case(w, "set_var") {
        Some(CommandName::SetVar)
    } else {
        None
    }
}

/// Where the first word of `t` ends: its first white space, or its end.
pub open spec fn head_end(t: Seq<char>) -> int {
    skip_word(t, 0)
}

/// The first word of `t`, up to its first white space.
pub open spec fn head(t: Seq<char>) -> Seq<char> {
    t.take(head_end(t))
}

/// What follows the first white space of `t` (nothing when there is none).
pub open spec fn tail(t: Seq<char>) -> Seq<char> {
    if head_end(t) < t.len() {
        t.skip(head_end(t) + 1)
    } else {
        Seq::empty()
    }
}

proof fn lemma_skip_word_bounds(s: Seq<char>, k: int)
    requires
        0 <= k <= s.len(),
    ensures
        k <= skip_word(s, k) <= s.len(),
    decreases s.len() - k,
{
    if k < s.len() && !white_space(s[k]) {
        lemma_skip_word_bounds(s, k + 1);
    }
}

/// Splits `t` at its first white space.
pub fn split_head<'a>(t: &'a str) -> (r: (&'a str, &'a str))
    ensures
        r.0@ == head(t@),
        r.1@ == tail(t@),
{
    let n = t.unicode_len();
    let mut k: usize = 0;
    while k < n && !is_whitespace(t.get_char(k))
        invariant
            n == t@.len(),
            k <= n,
            skip_word(t@, 0) == skip_word(t@, k as int),
        decreases n - k,
    {
        k = k + 1;
    }
    proof {
        lemma_skip_word_bounds(t@, k as int);
    }
    let h = t.substring_char(0, k);
    if k < n {
        let rest = t.substring_char(k + 1, n);
        assert(rest@ =~= t@.skip(k + 1));
        (h, rest)
    } else {
        (h, t.substring_char(n, n))
    }
}

/// A command with its arguments.
#[derive(Debug, Clone)]
pub struct Invocation {
    /// The command.
    pub command: CommandName,
    /// The argument words.
    pub args: Vec<String>,
    /// The argument text as typed, without surrounding white space.
    pub rest: String,
}

/// `e` reports the unknown command word `w`.
pub open spec fn is_unknown(e: CliError, w: Seq<char>) -> bool {
    match e {
        CliError::UnknownCommand(s) => s@ == w,
        _ => false,
    }
}

/// The line `line`, without surrounding white space, names a command with
/// enough argument words, and `inv` is that command with its arguments.
pub open spec fn invokes(inv: Invocation, line: Seq<char>) -> bool {
    let t = trim(line);
    &&& command_of(head(t)) == Some(inv.command)
    &&& views(inv.args@) == words(tail(t))
    &&& words(tail(t)).len() >= inv.command.spec_min_words()
    &&& inv.rest@ == trim(tail(t))
}

/// Reads one line as a command: its first word names the command (in any
/// ASCII case), the rest are its arguments. A word that names no command, or
/// a command with too few argument words, gives `UnknownCommand`.
pub fn interpret(line: &str) -> (r: Result<Invocation, CliError>)
    ensures
        match r {
            Ok(inv) => invokes(inv, line@),
            Err(e) => is_unknown(e, head(trim(line@))) && match command_of(head(trim(line@))) {
                Some(c) => words(tail(trim(line@))).len() < c.spec_min_words(),
                None => true,
            },
        },
{
    let t = trim_str(line);
    let (w, a) = split_head(t);
    match command_named(w) {
        Some(c) => {
            let args = split_words(a);
            if args.len() < c.min_words() {
                Err(CliError::UnknownCommand(w.to_string()))
            } else {
                Ok(Invocation { command: c, args, rest: trim_str(a).to_string() })
            }
        },
        None => Err(CliError::UnknownCommand(w.to_string())),
    }
}

/// What the interactive loop does with one line.
#[derive(Debug, Clone)]
pub enum LineAction {
    /// Nothing: an empty line, or `to` without a target.
    Nothing,
    /// Leave the loop.
    Quit,
    /// Print the help text.
    Help,
    /// Deselect the current contact (`to /`, `to ~`).
    GoRoot,
    /// Trade the current and previous contact (`to ..`).
    GoBack,
    /// Select the last sender (`to !`).
    GoLastSender,
    /// Select a contact, and a flood scope after `%` (`to name%scope`).
    Goto { name: String, scope: Option<String> },
    /// Send this text to the current contact (`send ...`).
    SendToCurrent(String),
    /// `send` with no contact selected.
    NoContactSelected,
    /// A line that is no command while a contact is selected: a message to it.
    Chat(String),
    /// Run a command.
    Run(Invocation),
    /// The first word names no command, or the command lacks arguments.
    Unknown(String),
}

/// The first position at or after `k` holding `c`, or `s.len()`.
pub open spec fn find_char(s: Seq<char>, k: int, c: char) -> int
    decreases s.len() - k,
{
    if k >= s.len() {
        s.len() as int
    } else if s[k] == c {
        k
    } else {
        find_char(s, k + 1, c)
    }
}

proof fn lemma_find_char(s: Seq<char>, k: int, c: char)
    requires
        0 <= k <= s.len(),
    ensures
        k <= find_char(s, k, c) <= s.len(),
    decreases s.len() - k,
{
    if k < s.len() && s[k] != c {
        lemma_find_char(s, k + 1, c);
    }
}

/// The word `w` keeps its meaning as a command while a contact is selected.
pub open spec fn is_chat_command(w: Seq<char>) -> bool {
    (command_of(w) matches Some(c) && c.spec_in_chat()) || eq_ci(w, "help"@) || eq_ci(w, "?"@)
}

/// What `line` asks of the interactive loop; `in_contact` says whether a
/// contact is selected.
pub open spec fn routes(r: LineAction, line: Seq<char>, in_contact: bool) -> bool {
    let t = trim(line);
    let w = head(t);
    let a = tail(t);
    let g = trim(a);
    let p = find_char(g, 0, '%');
    if t.len() == 0 {
        r is Nothing
    } else if eq_ci(t, "quit"@) || eq_ci(t, "q"@) || eq_ci(t, "exit"@) {
        r is Quit
    } else if eq_ci(t, "help"@) || eq_ci(t, "?"@) {
        r is Help
    } else if eq_ci(w, "to"@) {
        if g == "/"@ || g == "~"@ {
            r is GoRoot
        } else if g == ".."@ {
            r is GoBack
        } else if g == "!"@ {
            r is GoLastSender
        } else if g.len() == 0 {
            r is Nothing
        } else {
            r matches LineAction::Goto { name, scope } && name@ == g.take(p) && if p < g.len() {
                scope matches Some(s) && s@ == g.skip(p + 1)
            } else {
                scope is None
            }
        }
    } else if eq_ci(w, "send"@) || w == "\""@ {
        if in_contact {
            r matches LineAction::SendToCurrent(m) && m@ == a
        } else {
            r is NoContactSelected
        }
    } else if in_contact && !is_chat_command(w) && t[0] != '/' && t[0] != '.' {
        r matches LineAction::Chat(m) && m@ == t
    } else if command_of(w) matches Some(c) && words(a).len() >= c.spec_min_words() {
        r matches LineAction::Run(inv) && invokes(inv, line)
    } else {
        r matches LineAction::Unknown(u) && u@ == w
    }
}

fn chat_command(w: &str) -> (r: bool)
    ensures
        r == is_chat_command(w@),
{
    let known = match command_named(w) {
        Some(c) => c.in_chat(),
        None => false,
    };
    known || eq_ignore_ascii_case(w, "help") || eq_ignore_ascii_case(w, "?")
}

/// Decides what the interactive loop does with `line`.
pub fn route_line(line: &str, in_contact: bool) -> (r: LineAction)
    ensures
        routes(r, line@, in_contact),
{
    let t = trim_str(line);
    if t.unicode_len() == 0 {
        return LineAction::Nothing;
    }
    if eq_ignore_ascii_case(t, "quit") || eq_ignore_ascii_case(t, "q") || eq_ignore_ascii_case(t, "exit") {
        return LineAction::Quit;
    }
    if eq_ignore_ascii_case(t, "help") || eq_ignore_ascii_case(t, "?") {
        return LineAction::Help;
    }
    let (w, a) = split_head(t);
    if eq_ignore_ascii_case(w, "to") {
        let g = trim_str(a);
        if str_eq(g, "/") || str_eq(g, "~") {
            return LineAction::GoRoot;
        } else if str_eq(g, "..") {
            return LineAction::GoBack;
        } else if str_eq(g, "!") {
            return LineAction::GoLastSender;
        }
        let n = g.unicode_len();
        if n == 0 {
            return LineAction::Nothing;
        }
        let mut p: usize = 0;
        while p < n && g.get_char(p) != '%'
            invariant
                n == g@.len(),
                p <= n,
                find_char(g@, 0, '%') == find_char(g@, p as int, '%'),
            decreases n - p,
        {
            p = p + 1;
        }
        proof {
            lemma_find_char(g@, p as int, '%');
        }
        let name = g.substring_char(0, p).to_string();
        let scope = if p < n {
            let s = g.substring_char(p + 1, n);
            assert(s@ =~= g@.skip(p + 1));
            Some(s.to_string())
        } else {
            None
        };
        return LineAction::Goto { name, scope };
    }
    if eq_ignore_ascii_case(w, "send") || str_eq(w, "\"") {
        if in_contact {
            return LineAction::SendToCurrent(a.to_string());
        } else {
            return LineAction::NoContactSelected;
        }
    }
    if in_contact && !chat_command(w) {
        let c0 = t.get_char(0);
        if c0 != '/' && c0 != '.' {
            return LineAction::Chat(t.to_string());
        }
    }
    match interpret(line) {
        Ok(inv) => LineAction::Run(inv),
        Err(_) => LineAction::Unknown(w.to_string()),
    }
}

} // verus!
