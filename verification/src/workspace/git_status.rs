//! The state of a working tree in numbers: how far it is from its upstream
//! and how many entries are staged, modified, deleted, untracked, conflicted
//! or renamed.

use owo_colors::OwoColorize;
use vstd::prelude::*;
use vstd::string::*;

verus! {

/// The counts of a working tree's state.
#[derive(Debug)]
pub struct GitStatus {
    pub ahead: usize,
    pub behind: usize,
    pub staged: usize,
    pub modified: usize,
    pub deleted: usize,
    pub untracked: usize,
    pub conflicted: usize,
    pub renamed: usize,
}

impl Default for GitStatus {
    fn default() -> (status: GitStatus)
        ensures
            status == GitStatus::zero(),
    {
        GitStatus {
            ahead: 0,
            behind: 0,
            staged: 0,
            modified: 0,
            deleted: 0,
            untracked: 0,
            conflicted: 0,
            renamed: 0,
        }
    }
}

/// How an entry of the working tree differs from the index.
#[derive(Clone, Copy, Debug, PartialEq, Eq, Structural)]
pub enum Summary {
    Removed,
    Added,
    Modified,
    TypeChange,
    Renamed,
    Copied,
    IntentToAdd,
    Conflict,
}

/// How an entry of the index differs from the tree of `HEAD`.
#[derive(Clone, Copy, Debug, PartialEq, Eq, Structural)]
pub enum Change {
    Addition,
    Deletion,
    Modification,
    Rewrite { copy: bool },
}

/// One entry of a status walk.
#[derive(Clone, Copy, Debug, PartialEq, Eq, Structural)]
pub enum Item {
    /// The working tree against the index, with the summary of the
    /// difference where there is one.
    IndexWorktree(Option<Summary>),
    /// The index against the tree of `HEAD`.
    TreeIndex(Change),
}

/// The status after `item` has been counted into `status`.
pub open spec fn counted(status: GitStatus, item: Item) -> GitStatus {
    match item {
        Item::IndexWorktree(Some(Summary::Modified)) | Item::IndexWorktree(
            Some(Summary::TypeChange),
        ) => GitStatus { modified: (status.modified + 1) as usize, ..status },
        Item::IndexWorktree(Some(Summary::Removed)) => GitStatus {
            deleted: (status.deleted + 1) as usize,
            ..status
        },
        Item::IndexWorktree(Some(Summary::Added)) => GitStatus {
            untracked: (status.untracked + 1) as usize,
            ..status
        },
        Item::IndexWorktree(Some(Summary::Conflict)) => GitStatus {
            conflicted: (status.conflicted + 1) as usize,
            ..status
        },
        Item::IndexWorktree(Some(Summary::Renamed)) => GitStatus {
            renamed: (status.renamed + 1) as usize,
            ..status
        },
        Item::IndexWorktree(_) => status,
        Item::TreeIndex(Change::Deletion) => GitStatus {
            staged: (status.staged + 1) as usize,
            deleted: (status.deleted + 1) as usize,
            ..status
        },
        Item::TreeIndex(Change::Rewrite { copy: false }) => GitStatus {
            staged: (status.staged + 1) as usize,
            renamed: (status.renamed + 1) as usize,
            ..status
        },
        Item::TreeIndex(_) => GitStatus { staged: (status.staged + 1) as usize, ..status },
    }
}

/// The status after the first `items.len()` entries of a walk have been
/// counted, starting from `start`.
pub open spec fn tallied(start: GitStatus, items: Seq<Item>) -> GitStatus
    decreases items.len(),
{
    if items.len() == 0 {
        start
    } else {
        counted(tallied(start, items.drop_last()), items.last())
    }
}

/// The status before anything is counted: as far ahead of and behind the
/// upstream as `distance` says, and not at all where it says nothing.
pub open spec fn start_of(distance: Option<(usize, usize)>) -> GitStatus {
    match distance {
        Some((ahead, behind)) => GitStatus { ahead, behind, ..GitStatus::zero() },
        None => GitStatus::zero(),
    }
}

/// Whether no count of `status` is above `bound`.
pub open spec fn within(status: GitStatus, bound: int) -> bool {
    &&& status.staged <= bound
    &&& status.modified <= bound
    &&& status.deleted <= bound
    &&& status.untracked <= bound
    &&& status.conflicted <= bound
    &&& status.renamed <= bound
}

/// The character `mark` where `present`, else nothing.
pub open spec fn flag(present: bool, mark: char) -> Seq<char> {
    if present {
        seq![mark]
    } else {
        Seq::empty()
    }
}

/// The flags of a status, one character for each count that is not zero:
/// ahead, behind, staged, modified, deleted, renamed, untracked, conflicted.
pub open spec fn symbols(status: GitStatus) -> Seq<char> {
    flag(status.ahead > 0, '\u{21e1}') + flag(status.behind > 0, '\u{21e3}') + flag(
        status.staged > 0,
        '+',
    ) + flag(status.modified > 0, '!') + flag(status.deleted > 0, '\u{2718}') + flag(
        status.renamed > 0,
        '\u{bb}',
    ) + flag(status.untracked > 0, '?') + flag(status.conflicted > 0, '=')
}

/// Appends `mark`, which is one character, to `flags` where `present`.
fn push_flag(flags: &mut String, present: bool, mark: &str)
    requires
        mark@.len() == 1,
    ensures
        final(flags)@ == old(flags)@ + flag(present, mark@[0]),
{
    if present {
        flags.append(mark);
        assert(mark@ =~= seq![mark@[0]]);
    }
    assert(flags@ =~= old(flags)@ + flag(present, mark@[0]));
}

/// `text` between the sequence that selects red as foreground and the one
/// that selects the default foreground.
pub open spec fn red_text(text: Seq<char>) -> Seq<char> {
    seq!['\u{1b}', '[', '3', '1', 'm'] + text + seq!['\u{1b}', '[', '3', '9', 'm']
}

/// owo-colors' `OwoColorize::red` on a text, as its `Display` prints it: the
/// text between `ESC [ 31 m` and `ESC [ 39 m`.
#[verifier::external_body]
fn red(text: &str) -> (painted: String)
    ensures
        painted@ == red_text(text@),
{
    format!("{}", text.red())
}

impl GitStatus {
    /// The status with every count at zero.
    pub open spec fn zero() -> GitStatus {
        GitStatus {
            ahead: 0,
            behind: 0,
            staged: 0,
            modified: 0,
            deleted: 0,
            untracked: 0,
            conflicted: 0,
            renamed: 0,
        }
    }

    /// Whether anything is staged, modified, deleted, untracked, conflicted
    /// or renamed.
    pub fn is_dirty(&self) -> (dirty: bool)
        ensures
            dirty == (self.staged + self.modified + self.deleted + self.untracked + self.conflicted
                + self.renamed > 0),
    {
        self.staged > 0 || self.modified > 0 || self.deleted > 0 || self.untracked > 0
            || self.conflicted > 0 || self.renamed > 0
    }

    /// Counts one entry of a status walk.
    pub fn record(&mut self, item: Item)
        requires
            within(*old(self), usize::MAX - 1),
        ensures
            *final(self) == counted(*old(self), item),
    {
        match item {
            Item::IndexWorktree(summary) => match summary {
                Some(Summary::Modified) | Some(Summary::TypeChange) => {
                    self.modified += 1;
                },
                Some(Summary::Removed) => {
                    self.deleted += 1;
                },
                Some(Summary::Added) => {
                    self.untracked += 1;
                },
                Some(Summary::Conflict) => {
                    self.conflicted += 1;
                },
                Some(Summary::Renamed) => {
                    self.renamed += 1;
                },
                Some(Summary::Copied) | Some(Summary::IntentToAdd) | None => {},
            },
            Item::TreeIndex(change) => {
                self.staged += 1;
                match change {
                    Change::Deletion => {
                        self.deleted += 1;
                    },
                    Change::Rewrite { copy } => {
                        if !copy {
                            self.renamed += 1;
                        }
                    },
                    _ => {},
                }
            },
        }
    }

    /// The status of a walk: how far ahead of and behind the upstream, which
    /// is not at all where that could not be found out, and the walk's
    /// entries counted.
    pub fn tally(distance: Option<(usize, usize)>, items: &Vec<Item>) -> (status: GitStatus)
        ensures
            status == tallied(start_of(distance), items@),
    {
        let (ahead, behind) = match distance {
            Some((ahead, behind)) => (ahead, behind),
            None => (0, 0),
        };
        let ghost start = start_of(distance);
        let mut status = GitStatus {
            ahead,
            behind,
            staged: 0,
            modified: 0,
            deleted: 0,
            untracked: 0,
            conflicted: 0,
            renamed: 0,
        };
        let mut i: usize = 0;
        while i < items.len()
            invariant
                i <= items.len(),
                status == tallied(start, items@.take(i as int)),
                within(status, i as int),
            decreases items.len() - i,
        {
            proof {
                let next = items@.take(i + 1);
                assert(next.drop_last() =~= items@.take(i as int));
                assert(next.last() == items[i as int]);
            }
            status.record(items[i]);
            i += 1;
        }
        proof {
            assert(items@.take(items.len() as int) =~= items@);
        }
        status
    }

    /// The flags of the status, one character for each count that is not
    /// zero.
    pub fn symbols(&self) -> (flags: String)
        ensures
            flags@ == symbols(*self),
    {
        proof {
            reveal_strlit("\u{21e1}");
            reveal_strlit("\u{21e3}");
            reveal_strlit("+");
            reveal_strlit("!");
            reveal_strlit("\u{2718}");
            reveal_strlit("\u{bb}");
            reveal_strlit("?");
            reveal_strlit("=");
        }
        let mut flags = String::new();
        push_flag(&mut flags, self.ahead > 0, "\u{21e1}");
        push_flag(&mut flags, self.behind > 0, "\u{21e3}");
        push_flag(&mut flags, self.staged > 0, "+");
        push_flag(&mut flags, self.modified > 0, "!");
        push_flag(&mut flags, self.deleted > 0, "\u{2718}");
        push_flag(&mut flags, self.renamed > 0, "\u{bb}");
        push_flag(&mut flags, self.untracked > 0, "?");
        push_flag(&mut flags, self.conflicted > 0, "=");
        assert(flags@ =~= symbols(*self));
        flags
    }

    /// The status as it is shown: its flags, in red.
    pub fn to_string(&self) -> (shown: String)
        ensures
            shown@ == red_text(symbols(*self)),
    {
        let flags = self.symbols();
        red(flags.as_str())
    }
}

} // verus!
