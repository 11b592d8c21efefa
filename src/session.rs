//! The session state store: navigation between contacts, login flags,
//! pending (not yet approved) contacts and per-contact timeouts.

use vstd::prelude::*;
use crate::contact::{hex_of, to_hex, Contact};
use crate::keyed::KeyedList;
use crate::events::Event;
use crate::error::CliError;
use crate::contact::{lookup_sender_name, sender_name};
use crate::text::{eq_ci, eq_ignore_ascii_case, has_prefix, starts_with, str_eq};

verus! {

/// The view of an optional string.
pub open spec fn opt_view(o: Option<String>) -> Option<Seq<char>> {
    match o {
        Some(s) => Some(s@),
        None => None,
    }
}

/// The current and the previous contact.
pub type Nav = (Option<Seq<char>>, Option<Seq<char>>);

/// Navigation after selecting `c`: a change moves the old current contact
/// into the previous slot; selecting the current contact again changes nothing.
pub open spec fn nav_after_set(p: Nav, c: Option<Seq<char>>) -> Nav {
    if c != p.0 {
        (c, p.0)
    } else {
        p
    }
}

/// Navigation after going back: the two slots trade places.
pub open spec fn nav_after_swap(p: Nav) -> Nav {
    (p.1, p.0)
}

/// A contact that was heard but not yet approved.
#[derive(Debug, Clone)]
pub struct PendingContact {
    /// Public key hex, the entry's key.
    pub public_key: String,
    /// Display name, if known.
    pub name: Option<String>,
    /// The full record, if it came with a full advertisement.
    pub contact: Option<Contact>,
}

/// The mutable state of one session.
#[derive(Debug)]
pub struct SessionState {
    /// Name of the connected device.
    pub device_name: Option<String>,
    /// The contact that commands address by default.
    pub current_contact: Option<String>,
    /// The contact selected before the current one.
    pub previous_contact: Option<String>,
    /// Who last sent, or was last sent, a message.
    pub last_sender: Option<String>,
    /// Login flags of repeaters, by name.
    pub logged_in: KeyedList<bool>,
    /// Pending contacts, by public key hex.
    pub pending_contacts: KeyedList<PendingContact>,
    /// The active flood scope.
    pub flood_scope: Option<String>,
    /// Timeout overrides in seconds, by contact name.
    pub contact_timeouts: KeyedList<u64>,
}

fn same_name(a: &Option<String>, b: &Option<String>) -> (r: bool)
    ensures
        r == (opt_view(*a) == opt_view(*b)),
{
    match (a, b) {
        (Some(x), Some(y)) => str_eq(x.as_str(), y.as_str()),
        (None, None) => true,
        _ => false,
    }
}

impl SessionState {
    /// The maps are well formed.
    pub open spec fn wf(&self) -> bool {
        self.logged_in.wf() && self.pending_contacts.wf() && self.contact_timeouts.wf()
    }

    /// The current and previous contact.
    pub open spec fn nav(&self) -> Nav {
        (opt_view(self.current_contact), opt_view(self.previous_contact))
    }

    /// A fresh session: nothing selected, nothing recorded.
    pub fn new() -> (r: SessionState)
        ensures
            r.wf(),
            r.device_name is None,
            r.current_contact is None,
            r.previous_contact is None,
            r.last_sender is None,
            r.flood_scope is None,
            r.logged_in@ == Map::<Seq<char>, bool>::empty(),
            r.pending_contacts@ == Map::<Seq<char>, PendingContact>::empty(),
            r.contact_timeouts@ == Map::<Seq<char>, u64>::empty(),
    {
        SessionState {
            device_name: None,
            current_contact: None,
            previous_contact: None,
            last_sender: None,
            logged_in: KeyedList::new(),
            pending_contacts: KeyedList::new(),
            flood_scope: None,
            contact_timeouts: KeyedList::new(),
        }
    }

    /// Selects `contact` (or none); a change keeps the old selection as the
    /// previous one.
    pub fn set_contact(&mut self, contact: Option<String>)
        ensures
            final(self).nav() == nav_after_set(old(self).nav(), opt_view(contact)),
            opt_view(contact) != old(self).nav().0 ==> final(self).current_contact == contact
                && final(self).previous_contact == old(self).current_contact,
            opt_view(contact) == old(self).nav().0 ==> final(self).current_contact == old(self).current_contact
                && final(self).previous_contact == old(self).previous_contact,
            final(self).device_name == old(self).device_name,
            final(self).last_sender == old(self).last_sender,
            final(self).logged_in == old(self).logged_in,
            final(self).pending_contacts == old(self).pending_contacts,
            final(self).flood_scope == old(self).flood_scope,
            final(self).contact_timeouts == old(self).contact_timeouts,
    {
        if !same_name(&self.current_contact, &contact) {
            self.previous_contact = self.current_contact.take();
            self.current_contact = contact;
        }
    }

    /// Trades the current and the previous contact.
    pub fn swap_contacts(&mut self)
        ensures
            final(self).nav() == nav_after_swap(old(self).nav()),
            final(self).current_contact == old(self).previous_contact,
            final(self).previous_contact == old(self).current_contact,
            final(self).device_name == old(self).device_name,
            final(self).last_sender == old(self).last_sender,
            final(self).logged_in == old(self).logged_in,
            final(self).pending_contacts == old(self).pending_contacts,
            final(self).flood_scope == old(self).flood_scope,
            final(self).contact_timeouts == old(self).contact_timeouts,
    {
        std::mem::swap(&mut self.current_contact, &mut self.previous_contact);
    }

    /// Whether the repeater `name` is logged in; unknown means no.
    pub fn is_logged_in(&self, name: &str) -> (r: bool)
        requires
            self.wf(),
        ensures
            r == (self.logged_in@.contains_key(name@) && self.logged_in@[name@]),
    {
        match self.logged_in.get(name) {
            Some(v) => *v,
            None => false,
        }
    }

    /// Records the login state of the repeater `name`.
    pub fn set_logged_in(&mut self, name: &str, logged_in: bool)
        requires
            old(self).wf(),
        ensures
            final(self).wf(),
            final(self).logged_in@ == old(self).logged_in@.insert(name@, logged_in),
            final(self).pending_contacts == old(self).pending_contacts,
            final(self).contact_timeouts == old(self).contact_timeouts,
            final(self).nav() == old(self).nav(),
            final(self).last_sender == old(self).last_sender,
    {
        self.logged_in.insert(name.to_string(), logged_in);
    }

    /// Records a pending contact by key, with an optional name. A full record
    /// kept from an earlier advertisement of the same key stays.
    pub fn add_pending(&mut self, public_key: String, name: Option<String>)
        requires
            old(self).wf(),
        ensures
            final(self).wf(),
            final(self).pending_contacts@ == old(self).pending_contacts@.insert(
                public_key@,
                PendingContact {
                    public_key,
                    name,
                    contact: if old(self).pending_contacts@.contains_key(public_key@) {
                        old(self).pending_contacts@[public_key@].contact
                    } else {
                        None
                    },
                },
            ),
            final(self).logged_in == old(self).logged_in,
            final(self).contact_timeouts == old(self).contact_timeouts,
            final(self).nav() == old(self).nav(),
            final(self).last_sender == old(self).last_sender,
    {
        let earlier = self.pending_contacts.remove_entry(public_key.as_str());
        let contact = match earlier {
            Some(p) => p.contact,
            None => None,
        };
        let key = public_key.clone();
        self.pending_contacts.insert(key, PendingContact { public_key, name, contact });
        assert(self.pending_contacts@ =~= old(self).pending_contacts@.insert(
            public_key@,
            PendingContact { public_key, name, contact },
        ));
    }

    /// Records a pending contact with its full record, keyed by the hex of
    /// its public key.
    pub fn add_pending_contact(&mut self, contact: Contact)
        requires
            old(self).wf(),
        ensures
            final(self).wf(),
            final(self).pending_contacts@ == old(self).pending_contacts@.insert(
                hex_of(contact.public_key@),
                final(self).pending_contacts@[hex_of(contact.public_key@)],
            ),
            final(self).pending_contacts@[hex_of(contact.public_key@)].public_key@ == hex_of(contact.public_key@),
            opt_view(final(self).pending_contacts@[hex_of(contact.public_key@)].name) == Some(contact.name@),
            final(self).pending_contacts@[hex_of(contact.public_key@)].contact == Some(contact),
            final(self).logged_in == old(self).logged_in,
            final(self).contact_timeouts == old(self).contact_timeouts,
            final(self).nav() == old(self).nav(),
            final(self).last_sender == old(self).last_sender,
    {
        let public_key = to_hex(&contact.public_key);
        let key = public_key.clone();
        let name = Some(contact.name.clone());
        self.pending_contacts.insert(key, PendingContact { public_key, name, contact: Some(contact) });
    }

    /// Drops the pending contact with key `public_key`, if any.
    pub fn remove_pending(&mut self, public_key: &str)
        requires
            old(self).wf(),
        ensures
            final(self).wf(),
            final(self).pending_contacts@ == old(self).pending_contacts@.remove(public_key@),
            final(self).logged_in == old(self).logged_in,
            final(self).contact_timeouts == old(self).contact_timeouts,
            final(self).nav() == old(self).nav(),
            final(self).last_sender == old(self).last_sender,
    {
        self.pending_contacts.remove(public_key);
    }

    /// Drops every pending contact and says how many there were.
    pub fn clear_pending(&mut self) -> (r: usize)
        requires
            old(self).wf(),
        ensures
            final(self).wf(),
            final(self).pending_contacts@ == Map::<Seq<char>, PendingContact>::empty(),
            r == old(self).pending_contacts@.len(),
            final(self).logged_in == old(self).logged_in,
            final(self).contact_timeouts == old(self).contact_timeouts,
            final(self).nav() == old(self).nav(),
            final(self).last_sender == old(self).last_sender,
    {
        self.pending_contacts.clear()
    }

    /// The timeout for `contact`: its override, else `default`.
    pub fn get_timeout(&self, contact: &str, default: u64) -> (r: u64)
        requires
            self.wf(),
        ensures
            r == (if self.contact_timeouts@.contains_key(contact@) {
                self.contact_timeouts@[contact@]
            } else {
                default
            }),
    {
        match self.contact_timeouts.get(contact) {
            Some(v) => *v,
            None => default,
        }
    }

    /// Overrides the timeout for `contact`.
    pub fn set_timeout(&mut self, contact: &str, secs: u64)
        requires
            old(self).wf(),
        ensures
            final(self).wf(),
            final(self).contact_timeouts@ == old(self).contact_timeouts@.insert(contact@, secs),
            final(self).logged_in == old(self).logged_in,
            final(self).pending_contacts == old(self).pending_contacts,
            final(self).nav() == old(self).nav(),
            final(self).last_sender == old(self).last_sender,
    {
        self.contact_timeouts.insert(contact.to_string(), secs);
    }
}

/// `p`'s key starts with `id`, or its name is `id` in any ASCII case.
pub open spec fn pending_matches(p: PendingContact, id: Seq<char>) -> bool {
    has_prefix(p.public_key@, id) || (p.name matches Some(n) && eq_ci(n@, id))
}

/// What the background listener shows for one event.
#[derive(Debug, Clone)]
pub enum Notice {
    /// A direct message, with the sender's name (or key prefix hex).
    Message { sender: String, text: String },
    /// A channel message.
    Channel { channel: u8, text: String },
    /// An acknowledgement code.
    Ack { code: u32 },
    /// An advertisement, with the key hex.
    Advert { key: String },
    /// A new contact, with its name and key hex.
    NewContact { name: String, key: String },
    /// A login was accepted.
    LoginSuccess,
    /// A login was refused.
    LoginFailed,
    /// Messages wait on the device.
    MessagesWaiting,
    /// Nothing to show.
    Quiet,
}

/// How a login attempt ended.
#[derive(Debug, Clone, Copy, PartialEq, Eq, Structural)]
pub enum LoginOutcome {
    Success,
    Failed,
    TimedOut,
    Other,
}

impl SessionState {
    /// The first pending contact, in the order they were recorded, whose key
    /// starts with `id` or whose name is `id`; it must carry a full record to
    /// be approved.
    pub fn find_pending(&self, id: &str) -> (r: Result<&PendingContact, CliError>)
        requires
            self.wf(),
        ensures
            match r {
                Ok(p) => p.contact is Some && exists|i: int| 0 <= i < self.pending_contacts.values().len()
                    && *p == self.pending_contacts.values()[i] && pending_matches(*p, id@)
                    && forall|j: int| 0 <= j < i ==> !pending_matches(#[trigger] self.pending_contacts.values()[j], id@),
                Err(CliError::ContactNotFound(_)) => forall|j: int| 0 <= j < self.pending_contacts.values().len()
                    ==> !pending_matches(#[trigger] self.pending_contacts.values()[j], id@),
                Err(CliError::InvalidArgument(_)) => exists|i: int| 0 <= i < self.pending_contacts.values().len()
                    && pending_matches(self.pending_contacts.values()[i], id@)
                    && self.pending_contacts.values()[i].contact is None
                    && forall|j: int| 0 <= j < i ==> !pending_matches(#[trigger] self.pending_contacts.values()[j], id@),
                Err(_) => false,
            },
    {
        let n = self.pending_contacts.count();
        let mut i: usize = 0;
        while i < n
            invariant
                n == self.pending_contacts.values().len(),
                i <= n,
                forall|j: int| 0 <= j < i ==> !pending_matches(#[trigger] self.pending_contacts.values()[j], id@),
            decreases n - i,
        {
            let p = self.pending_contacts.value_at(i);
            let by_name = match &p.name {
                Some(name) => eq_ignore_ascii_case(name.as_str(), id),
                None => false,
            };
            if starts_with(p.public_key.as_str(), id) || by_name {
                if p.contact.is_some() {
                    return Ok(p);
                }
                return Err(CliError::InvalidArgument(
                    "Pending contact has no full data. Only contacts from NewContactAdvert can be added.".to_string(),
                ));
            }
            i = i + 1;
        }
        let mut m = "Pending contact not found: ".to_string();
        m.append(id);
        Err(CliError::ContactNotFound(m))
    }

    /// Takes in the device's answer to a sent message to `contact_name`: on
    /// `MessageSent` the contact becomes the last sender; an `Error` event
    /// becomes a `Command` error; any other answer changes nothing.
    pub fn note_send_reply(&mut self, contact_name: &str, reply: &Event) -> (r: Result<(), CliError>)
        ensures
            reply is MessageSent ==> r is Ok && opt_view(final(self).last_sender) == Some(contact_name@),
            !(reply is MessageSent) ==> final(self).last_sender == old(self).last_sender,
            reply matches Event::Error { message } ==> r matches Err(CliError::Command(m)) && m@ == message@,
            !(reply is MessageSent) && !(reply is Error) ==> r is Ok,
            final(self).nav() == old(self).nav(),
            final(self).logged_in == old(self).logged_in,
            final(self).pending_contacts == old(self).pending_contacts,
            final(self).contact_timeouts == old(self).contact_timeouts,
    {
        match reply {
            Event::MessageSent { .. } => {
                self.last_sender = Some(contact_name.to_string());
                Ok(())
            },
            Event::Error { message } => Err(CliError::Command(message.clone())),
            _ => Ok(()),
        }
    }

    /// Takes in how the wait for a login answer from `name` ended: success
    /// marks the repeater as logged in; failure, a timeout or anything else
    /// leaves the login state as it was.
    pub fn note_login_reply(&mut self, name: &str, reply: &Result<Event, CliError>) -> (r: LoginOutcome)
        requires
            old(self).wf(),
        ensures
            final(self).wf(),
            r == match reply {
                Ok(Event::LoginSuccess) => LoginOutcome::Success,
                Ok(Event::LoginFailed) => LoginOutcome::Failed,
                Ok(_) => LoginOutcome::Other,
                Err(_) => LoginOutcome::TimedOut,
            },
            r == LoginOutcome::Success ==> final(self).logged_in@ == old(self).logged_in@.insert(name@, true),
            r != LoginOutcome::Success ==> final(self).logged_in == old(self).logged_in,
            final(self).last_sender == old(self).last_sender,
            final(self).nav() == old(self).nav(),
            final(self).pending_contacts == old(self).pending_contacts,
            final(self).contact_timeouts == old(self).contact_timeouts,
    {
        match reply {
            Ok(Event::LoginSuccess) => {
                self.set_logged_in(name, true);
                LoginOutcome::Success
            },
            Ok(Event::LoginFailed) => LoginOutcome::Failed,
            Ok(_) => LoginOutcome::Other,
            Err(_) => LoginOutcome::TimedOut,
        }
    }

    /// Updates the session for one event seen by the background listener and
    /// says what to show: a direct message records its sender (named from
    /// `contacts`) as the last sender; an advertisement records a pending
    /// contact by key; a full advertisement records it with its record.
    pub fn apply_background_event(&mut self, event: Event, contacts: &Vec<Contact>) -> (r: Notice)
        requires
            old(self).wf(),
        ensures
            final(self).wf(),
            final(self).nav() == old(self).nav(),
            final(self).logged_in == old(self).logged_in,
            final(self).contact_timeouts == old(self).contact_timeouts,
            match event {
                Event::ContactMessage { sender_prefix, text, .. } => {
                    &&& opt_view(final(self).last_sender) == Some(sender_name(contacts@, sender_prefix@))
                    &&& r matches Notice::Message { sender, text: t } && sender@ == sender_name(contacts@, sender_prefix@)
                        && t == text
                    &&& final(self).pending_contacts == old(self).pending_contacts
                },
                Event::Advertisement { public_key } => {
                    let h = hex_of(public_key@);
                    &&& final(self).pending_contacts@ == old(self).pending_contacts@.insert(h, final(self).pending_contacts@[h])
                    &&& final(self).pending_contacts@[h].public_key@ == h
                    &&& final(self).pending_contacts@[h].name is None
                    &&& final(self).pending_contacts@[h].contact == if old(self).pending_contacts@.contains_key(h) {
                        old(self).pending_contacts@[h].contact
                    } else {
                        None
                    }
                    &&& r matches Notice::Advert { key } && key@ == h
                    &&& final(self).last_sender == old(self).last_sender
                },
                Event::NewContactAdvert(c) => {
                    let h = hex_of(c.public_key@);
                    &&& final(self).pending_contacts@ == old(self).pending_contacts@.insert(h, final(self).pending_contacts@[h])
                    &&& final(self).pending_contacts@[h].contact == Some(c)
                    &&& opt_view(final(self).pending_contacts@[h].name) == Some(c.name@)
                    &&& r matches Notice::NewContact { name, key } && name@ == c.name@ && key@ == h
                    &&& final(self).last_sender == old(self).last_sender
                },
                _ => {
                    &&& final(self).pending_contacts == old(self).pending_contacts
                    &&& final(self).last_sender == old(self).last_sender
                    &&& r == match event {
                        Event::ChannelMessage { channel, text } => Notice::Channel { channel, text },
                        Event::Ack { code } => Notice::Ack { code },
                        Event::LoginSuccess => Notice::LoginSuccess,
                        Event::LoginFailed => Notice::LoginFailed,
                        Event::MessagesWaiting => Notice::MessagesWaiting,
                        _ => Notice::Quiet,
                    }
                },
            },
    {
        match event {
            Event::ContactMessage { sender_prefix, text, .. } => {
                let sender = lookup_sender_name(contacts, sender_prefix.as_slice());
                self.last_sender = Some(sender.clone());
                Notice::Message { sender, text }
            },
            Event::Advertisement { public_key } => {
                let key = to_hex(&public_key);
                let shown = key.clone();
                self.add_pending(key, None);
                Notice::Advert { key: shown }
            },
            Event::NewContactAdvert(c) => {
                let key = to_hex(&c.public_key);
                let name = c.name.clone();
                self.add_pending_contact(c);
                Notice::NewContact { name, key }
            },
            Event::ChannelMessage { channel, text } => Notice::Channel { channel, text },
            Event::Ack { code } => Notice::Ack { code },
            Event::LoginSuccess => Notice::LoginSuccess,
            Event::LoginFailed => Notice::LoginFailed,
            Event::MessagesWaiting => Notice::MessagesWaiting,
            _ => Notice::Quiet,
        }
    }
}

/// The interactive prompt: the current contact, else the device name, else
/// the program's name; then `%` and the flood scope if one is set; then `> `.
pub open spec fn prompt_text(s: SessionState) -> Seq<char> {
    let base = match s.current_contact {
        Some(c) => c@,
        None => match s.device_name {
            Some(d) => d@,
            None => "meshcore-cli-rs"@,
        },
    };
    let scoped = match s.flood_scope {
        Some(f) => base + "%"@ + f@,
        None => base,
    };
    scoped + "> "@
}

impl SessionState {
    /// The interactive prompt (see `prompt_text`).
    pub fn prompt(&self) -> (r: String)
        ensures
            r@ == prompt_text(*self),
    {
        let mut r = match &self.current_contact {
            Some(c) => c.clone(),
            None => match &self.device_name {
                Some(d) => d.clone(),
                None => "meshcore-cli-rs".to_string(),
            },
        };
        if let Some(f) = &self.flood_scope {
            r.append("%");
            r.append(f.as_str());
        }
        r.append("> ");
        r
    }
}

/// Selecting a contact and then going back twice leaves the current and
/// previous contact as the selection left them.
pub proof fn lemma_swap_twice_restores(p: Nav, c: Option<Seq<char>>)
    ensures
        nav_after_swap(nav_after_swap(nav_after_set(p, c))) == nav_after_set(p, c),
{
}

/// A pending contact that was added and then removed by the same key is gone.
pub proof fn lemma_add_then_remove_pending(m: Map<Seq<char>, PendingContact>, k: Seq<char>, p: PendingContact)
    ensures
        !m.insert(k, p).remove(k).contains_key(k),
{
}

} // verus!
