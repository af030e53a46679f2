//! The references of a repository, indexed by the short SHA they point to,
//! and the log entries decorated with them.
use vstd::prelude::*;

use super::log::{decoration_for_ref, ref_target, RefKind};
use super::types::{message_kind, CommandType, GitCommand, RefDecoration};

verus! {

/// Decorations (HEAD, branches, tags) found for commits, in the order they
/// were found.
#[derive(Debug)]
pub struct RefIndex {
    entries: Vec<(String, RefDecoration)>,
}

/// A decoration found for a commit: the commit's short SHA and the decoration.
pub type RefEntry = (Seq<char>, RefDecoration);

impl View for RefIndex {
    type V = Seq<RefEntry>;

    closed spec fn view(&self) -> Seq<RefEntry> {
        self.entries@.map_values(|e: (String, RefDecoration)| (e.0@, e.1))
    }
}

/// The decorations of the commit `sha`, in the order they were found.
pub open spec fn decorations_of(entries: Seq<RefEntry>, sha: Seq<char>) -> Seq<RefDecoration>
    decreases entries.len(),
{
    if entries.len() == 0 {
        seq![]
    } else {
        let rest = decorations_of(entries.drop_last(), sha);
        if entries.last().0 == sha {
            rest.push(entries.last().1)
        } else {
            rest
        }
    }
}

/// The decoration a reference name gives, if any.
pub open spec fn ref_decoration(name: Seq<char>, d: RefDecoration) -> bool {
    match ref_target(name) {
        Some((RefKind::Local, n)) => d matches RefDecoration::LocalBranch(b) && b@ == n,
        Some((RefKind::Remote, n)) => d matches RefDecoration::RemoteBranch(b) && b@ == n,
        Some((RefKind::Tag, n)) => d matches RefDecoration::Tag(b) && b@ == n,
        None => false,
    }
}

impl RefIndex {
    /// An index with no decorations.
    pub fn new() -> (res: Self)
        ensures
            res@ == Seq::<RefEntry>::empty(),
    {
        RefIndex { entries: Vec::new() }
    }

    /// Record a decoration of the commit `sha`.
    pub fn add(&mut self, sha: String, decoration: RefDecoration)
        ensures
            final(self)@ == old(self)@.push((sha@, decoration)),
    {
        let ghost e = (sha@, decoration);
        self.entries.push((sha, decoration));
        assert(self@ =~= old(self)@.push(e));
    }

    /// Record the reference `name` pointing at the commit `sha`: local and
    /// remote branches (but not a remote's `HEAD`) and tags decorate it, other
    /// references are skipped.  Tells whether it was recorded.
    pub fn add_ref(&mut self, sha: String, name: &str) -> (res: bool)
        ensures
            res == ref_target(name@) is Some,
            res ==> final(self)@.len() == old(self)@.len() + 1 && final(self)@.drop_last() == old(self)@ && final(self)@.last().0 == sha@ && ref_decoration(name@, final(self)@.last().1),
            !res ==> final(self)@ == old(self)@,
    {
        match decoration_for_ref(name) {
            Some(d) => {
                self.add(sha, d);
                true
            },
            None => false,
        }
    }

    /// The decorations of the commit `sha`, in the order they were found.
    pub fn decorations(&self, sha: &str) -> (res: Vec<RefDecoration>)
        ensures
            res@ == decorations_of(self@, sha@),
    {
        let mut res: Vec<RefDecoration> = Vec::new();
        let n = self.entries.len();
        for i in 0..n
            invariant
                n == self.entries@.len(),
                res@ == decorations_of(self@.take(i as int), sha@),
        {
            assert(self@.take(i + 1).drop_last() =~= self@.take(i as int));
            let entry = &self.entries[i];
            if crate::text::str_eq(entry.0.as_str(), sha) {
                res.push(entry.1.clone());
            }
        }
        assert(self@.take(n as int) =~= self@);
        res
    }
}

impl GitCommand {
    /// A commit of the log: its summary, time and short SHA, decorated with
    /// what points at it.
    pub fn commit(
        message: String,
        timestamp: i64,
        sha: String,
        refs: &RefIndex,
        is_remote_only: bool,
    ) -> (res: Self)
        ensures
            res.timestamp == timestamp,
            res.command_type == CommandType::Commit,
            res.message == message,
            res.sha matches Some(s) && s@ == sha@,
            res.decorations@ == decorations_of(refs@, sha@),
            res.is_remote_only == is_remote_only,
    {
        let decorations = refs.decorations(sha.as_str());
        GitCommand {
            timestamp,
            command_type: CommandType::Commit,
            message,
            sha: Some(sha),
            decorations,
            is_remote_only,
        }
    }

    /// An entry of the reflog: its message (which tells the kind of command),
    /// time and short SHA, decorated with what points at it.
    pub fn reflog_entry(message: String, timestamp: i64, sha: String, refs: &RefIndex) -> (res:
        Self)
        ensures
            res.timestamp == timestamp,
            res.command_type == message_kind(message@),
            res.message == message,
            res.sha matches Some(s) && s@ == sha@,
            res.decorations@ == decorations_of(refs@, sha@),
            !res.is_remote_only,
    {
        let command_type = CommandType::from_message(message.as_str());
        let decorations = refs.decorations(sha.as_str());
        GitCommand { timestamp, command_type, message, sha: Some(sha), decorations, is_remote_only: false }
    }
}

/// A decoration recorded for a commit comes last among that commit's
/// decorations; the other commits keep theirs.
pub proof fn lemma_add_then_decorations(
    entries: Seq<RefEntry>,
    sha: Seq<char>,
    d: RefDecoration,
    other: Seq<char>,
)
    ensures
        decorations_of(entries.push((sha, d)), other) == if other == sha {
            decorations_of(entries, other).push(d)
        } else {
            decorations_of(entries, other)
        },
{
    assert(entries.push((sha, d)).drop_last() =~= entries);
}

} // verus!
