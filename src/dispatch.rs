//! Bulk dispatch: one sub-command for each contact that a filter selected,
//! with each contact's failure kept to that contact.

use vstd::prelude::*;
use vstd::string::*;
use crate::contact::{Contact, ContactType};
use crate::text::{has_prefix, starts_with, str_eq};
use crate::words::{join_words, joined, split_words, views, words};

verus! {

/// What is run against one contact.
#[derive(Debug, Clone)]
pub enum SubCommand {
    /// Remove the contact from the device.
    RemoveContact,
    /// Send the contact this text.
    Message(String),
    /// Run these words as a repeater command on the contact.
    RepeaterCommand(Vec<String>),
    /// The contact's type does not take the command: skipped with a warning.
    Unsupported,
}

/// `s` without leading `c`s.
pub open spec fn strip_start(s: Seq<char>, c: char) -> Seq<char>
    decreases s.len(),
{
    if s.len() > 0 && s[0] == c {
        strip_start(s.skip(1), c)
    } else {
        s
    }
}

/// `s` without trailing `c`s.
pub open spec fn strip_end(s: Seq<char>, c: char) -> Seq<char>
    decreases s.len(),
{
    if s.len() > 0 && s.last() == c {
        strip_end(s.drop_last(), c)
    } else {
        s
    }
}

/// The sub-command that the command text `line` asks of a contact of type `t`:
/// `remove_contact` removes; `send <text>` or a `"`-quoted text sends a
/// message; anything else is a repeater command, for repeaters and rooms only.
pub open spec fn is_sub_command(r: SubCommand, line: Seq<char>, t: ContactType) -> bool {
    if line == "remove_contact"@ {
        r is RemoveContact
    } else if has_prefix(line, "send "@) {
        r matches SubCommand::Message(m) && m@ == line.skip(5)
    } else if line.len() > 0 && line[0] == '"' {
        r matches SubCommand::Message(m) && m@ == strip_end(strip_start(line, '"'), '"')
    } else if t == ContactType::Repeater || t == ContactType::Room {
        r matches SubCommand::RepeaterCommand(ws) && views(ws@) == words(line)
    } else {
        r is Unsupported
    }
}

/// `s` without leading and trailing `"`s.
pub fn strip_quotes(s: &str) -> (r: &str)
    ensures
        r@ == strip_end(strip_start(s@, '"'), '"'),
{
    let n = s.unicode_len();
    let mut i: usize = 0;
    assert(s@.skip(0) =~= s@);
    while i < n && s.get_char(i) == '"'
        invariant
            n == s@.len(),
            i <= n,
            strip_start(s@, '"') == strip_start(s@.skip(i as int), '"'),
        decreases n - i,
    {
        assert(s@.skip(i as int).skip(1) =~= s@.skip(i + 1));
        i = i + 1;
    }
    assert(s@.skip(i as int) =~= s@.subrange(i as int, n as int));
    let mut j: usize = n;
    while j > i && s.get_char(j - 1) == '"'
        invariant
            n == s@.len(),
            i <= j <= n,
            strip_end(strip_start(s@, '"'), '"') == strip_end(s@.subrange(i as int, j as int), '"'),
        decreases j - i,
    {
        assert(s@.subrange(i as int, j as int).drop_last() =~= s@.subrange(i as int, j - 1));
        j = j - 1;
    }
    s.substring_char(i, j)
}

/// The sub-command that `line` asks of a contact of type `t`.
pub fn sub_command_for(line: &str, t: ContactType) -> (r: SubCommand)
    ensures
        is_sub_command(r, line@, t),
{
    if str_eq(line, "remove_contact") {
        SubCommand::RemoveContact
    } else if starts_with(line, "send ") {
        proof {
            reveal_strlit("send ");
        }
        let n = line.unicode_len();
        SubCommand::Message(line.substring_char(5, n).to_string())
    } else if line.unicode_len() > 0 && line.get_char(0) == '"' {
        SubCommand::Message(strip_quotes(line).to_string())
    } else if t.takes_commands() {
        SubCommand::RepeaterCommand(split_words(line))
    } else {
        SubCommand::Unsupported
    }
}

/// One unit of bulk work: a contact, by position in the snapshot, and what
/// to run against it.
#[derive(Debug, Clone)]
pub struct DispatchStep {
    pub index: usize,
    pub action: SubCommand,
}

/// Plans a bulk dispatch: the words of `commands` are joined with spaces,
/// and each selected contact, in the order given, gets exactly one step.
pub fn plan_dispatch(contacts: &Vec<Contact>, selected: &Vec<usize>, commands: &Vec<String>) -> (r: Vec<DispatchStep>)
    requires
        forall|k: int| 0 <= k < selected@.len() ==> #[trigger] selected@[k] < contacts@.len(),
    ensures
        r@.len() == selected@.len(),
        forall|k: int| 0 <= k < r@.len() ==> (#[trigger] r@[k]).index == selected@[k] && is_sub_command(
            r@[k].action,
            joined(views(commands@)),
            contacts@[selected@[k] as int].device_type,
        ),
{
    let line = join_words(commands);
    let mut r: Vec<DispatchStep> = Vec::new();
    let n = selected.len();
    let mut k: usize = 0;
    while k < n
        invariant
            n == selected@.len(),
            k <= n,
            line@ == joined(views(commands@)),
            forall|j: int| 0 <= j < selected@.len() ==> #[trigger] selected@[j] < contacts@.len(),
            r@.len() == k,
            forall|j: int| 0 <= j < k ==> (#[trigger] r@[j]).index == selected@[j] && is_sub_command(
                r@[j].action,
                joined(views(commands@)),
                contacts@[selected@[j] as int].device_type,
            ),
        decreases n - k,
    {
        let i = selected[k];
        let action = sub_command_for(line.as_str(), contacts[i].device_type);
        r.push(DispatchStep { index: i, action });
        k = k + 1;
    }
    r
}

/// How one step ended.
#[derive(Debug, Clone)]
pub enum StepOutcome {
    /// The sub-command succeeded.
    Done,
    /// The sub-command failed with this message.
    Failed(String),
    /// The contact's type does not take the command.
    Skipped,
}

/// The result of a bulk dispatch.
#[derive(Debug, Clone)]
pub struct BulkReport {
    /// How many contacts the filter matched.
    pub matched: usize,
    /// Steps that failed, in order.
    pub failed: Vec<usize>,
    /// Steps that were skipped, in order.
    pub skipped: Vec<usize>,
}

/// `o` is a failure (`failures`) or a skip (`!failures`).
pub open spec fn picked(o: StepOutcome, failures: bool) -> bool {
    if failures {
        o is Failed
    } else {
        o is Skipped
    }
}

/// `v` lists, in increasing order, exactly the positions of `outcomes` below
/// `n` that are failures (`failures`) or skips (`!failures`).
pub open spec fn lists_exactly(v: Seq<usize>, outcomes: Seq<StepOutcome>, n: int, failures: bool) -> bool {
    &&& forall|a: int| 0 <= a < v.len() ==> #[trigger] v[a] < n && picked(outcomes[v[a] as int], failures)
    &&& forall|a: int, b: int| 0 <= a < b < v.len() ==> v[a] < v[b]
    &&& forall|k: int| 0 <= k < n && #[trigger] picked(outcomes[k], failures) ==> exists|a: int| 0 <= a < v.len() && v[a] == k
}

/// The report of a bulk dispatch whose steps ended as `outcomes` shows:
/// every step counts as matched, whatever became of the others.
pub open spec fn reports(r: BulkReport, outcomes: Seq<StepOutcome>) -> bool {
    &&& r.matched == outcomes.len()
    &&& lists_exactly(r.failed@, outcomes, outcomes.len() as int, true)
    &&& lists_exactly(r.skipped@, outcomes, outcomes.len() as int, false)
}

proof fn lemma_extend(v0: Seq<usize>, v: Seq<usize>, outcomes: Seq<StepOutcome>, i: int, failures: bool)
    requires
        0 <= i < outcomes.len(),
        i <= usize::MAX,
        lists_exactly(v0, outcomes, i, failures),
        if picked(outcomes[i], failures) { v == v0.push(i as usize) } else { v == v0 },
    ensures
        lists_exactly(v, outcomes, i + 1, failures),
{
    assert forall|k: int| 0 <= k < i + 1 && #[trigger] picked(outcomes[k], failures) implies exists|a: int|
        0 <= a < v.len() && v[a] == k by {
        if k < i {
            let a = choose|a: int| 0 <= a < v0.len() && v0[a] == k;
            assert(v[a] == k);
        } else {
            assert(v == v0.push(i as usize));
            assert(v[v.len() - 1] == k);
        }
    }
}

/// Sums up the outcomes of every step of a bulk dispatch.
pub fn summarize(outcomes: &Vec<StepOutcome>) -> (r: BulkReport)
    ensures
        reports(r, outcomes@),
{
    let n = outcomes.len();
    let mut failed: Vec<usize> = Vec::new();
    let mut skipped: Vec<usize> = Vec::new();
    let mut i: usize = 0;
    while i < n
        invariant
            n == outcomes@.len(),
            i <= n,
            lists_exactly(failed@, outcomes@, i as int, true),
            lists_exactly(skipped@, outcomes@, i as int, false),
        decreases n - i,
    {
        let ghost f0 = failed@;
        let ghost s0 = skipped@;
        match &outcomes[i] {
            StepOutcome::Failed(_) => {
                failed.push(i);
            },
            StepOutcome::Skipped => {
                skipped.push(i);
            },
            StepOutcome::Done => {},
        }
        proof {
            lemma_extend(f0, failed@, outcomes@, i as int, true);
            lemma_extend(s0, skipped@, outcomes@, i as int, false);
        }
        i = i + 1;
    }
    BulkReport { matched: n, failed, skipped }
}

} // verus!
