//! Worktrees of a repository: the command that adds one, and the reading of
//! what `git worktree list --porcelain` prints.

use vstd::prelude::*;
use vstd::std_specs::iter::IteratorSpec;
use vstd::string::*;
use vstd::utf8::{decode_utf8, valid_utf8};

use crate::runner::cmd::decode;
use crate::text::{push_text, same_text, views};

verus! {

/// Why the worktrees could not be listed.
#[derive(Clone, Copy, Debug, PartialEq, Eq, Structural)]
pub enum ListError {
    /// `git worktree list` did not end in success.
    Failed,
    /// What it printed is no valid UTF-8.
    NotUtf8,
}

/// A line without the carriage return at its end, if it has one.
pub open spec fn chomp(line: Seq<char>) -> Seq<char> {
    if line.len() > 0 && line.last() == '\r' {
        line.drop_last()
    } else {
        line
    }
}

/// The lines of `text`, where `current` holds what has been read of the line
/// at hand. A line ends at a newline, which is left out together with a
/// carriage return in front of it; what follows the last newline is a line if
/// it is not empty.
pub open spec fn lines_from(text: Seq<char>, current: Seq<char>) -> Seq<Seq<char>>
    decreases text.len(),
{
    if text.len() == 0 {
        if current.len() == 0 {
            Seq::empty()
        } else {
            seq![current]
        }
    } else if text[0] == '\n' {
        seq![chomp(current)] + lines_from(text.skip(1), Seq::empty())
    } else {
        lines_from(text.skip(1), current.push(text[0]))
    }
}

/// The lines of `text`.
pub open spec fn lines(text: Seq<char>) -> Seq<Seq<char>> {
    lines_from(text, Seq::empty())
}

/// The path that a line of the listing names: what follows `worktree `.
pub open spec fn worktree_of(line: Seq<char>) -> Option<Seq<char>> {
    if line.len() >= 9 && line.take(9) == "worktree "@ {
        Some(line.skip(9))
    } else {
        None
    }
}

/// The paths that the lines name, in order.
pub open spec fn worktrees(lines: Seq<Seq<char>>) -> Seq<Seq<char>>
    decreases lines.len(),
{
    if lines.len() == 0 {
        Seq::empty()
    } else {
        match worktree_of(lines.last()) {
            Some(path) => worktrees(lines.drop_last()).push(path),
            None => worktrees(lines.drop_last()),
        }
    }
}

/// What a run of `git worktree list --porcelain` amounts to: the paths it
/// names, or why there are none to be had.
pub open spec fn listed(success: bool, stdout: Seq<u8>) -> Result<Seq<Seq<char>>, ListError> {
    if !success {
        Err(ListError::Failed)
    } else if !valid_utf8(stdout) {
        Err(ListError::NotUtf8)
    } else {
        Ok(worktrees(lines(decode_utf8(stdout))))
    }
}

/// Takes the line that stands in `text` from `start` to `end` and keeps the
/// path that it names, if it names one.
fn keep_worktree(paths: &mut Vec<String>, text: &str, start: usize, end: usize)
    requires
        start <= end <= text@.len(),
    ensures
        views(final(paths)@) == match worktree_of(text@.subrange(start as int, end as int)) {
            Some(path) => views(old(paths)@).push(path),
            None => views(old(paths)@),
        },
{
    let ghost line = text@.subrange(start as int, end as int);
    if end - start >= 9 {
        let head = text.substring_char(start, start + 9);
        assert(head@ =~= line.take(9));
        if same_text(head, "worktree ") {
            let path = text.substring_char(start + 9, end);
            assert(path@ =~= line.skip(9));
            push_text(paths, path);
        }
    }
}

/// Reads the paths of the worktrees from what `git worktree list
/// --porcelain` printed, given whether it ended in success.
pub fn process_list(success: bool, stdout: &[u8]) -> (paths: Result<Vec<String>, ListError>)
    ensures
        match paths {
            Ok(list) => Ok(views(list@)),
            Err(e) => Err(e),
        } == listed(success, stdout@),
{
    if !success {
        return Err(ListError::Failed);
    }
    let text = match decode(stdout) {
        Some(text) => text,
        None => {
            return Err(ListError::NotUtf8);
        },
    };
    let len = text.unicode_len();
    let mut paths: Vec<String> = Vec::new();
    let ghost mut done: Seq<Seq<char>> = Seq::empty();
    let mut start: usize = 0;
    let mut i: usize = 0;
    let mut after_return = false;
    proof {
        assert(text@.skip(0) =~= text@);
        assert(text@.subrange(0, 0) =~= Seq::<char>::empty());
        assert(views(paths@) =~= worktrees(done));
    }
    for c in it: text.chars()
        invariant
            len == text@.len(),
            it.seq() == text@,
            i == it.index(),
            start <= i <= len,
            after_return == (i > start && text@[i - 1] == '\r'),
            lines(text@) == done + lines_from(text@.skip(i as int), text@.subrange(start as int, i as int)),
            views(paths@) == worktrees(done),
    {
        let ghost rest = text@.skip(i as int);
        let ghost current = text@.subrange(start as int, i as int);
        proof {
            assert(rest[0] == c);
            assert(rest.skip(1) =~= text@.skip(i + 1));
        }
        if c == '\n' {
            let end = if after_return {
                i - 1
            } else {
                i
            };
            assert(text@.subrange(start as int, end as int) =~= chomp(current));
            keep_worktree(&mut paths, text, start, end);
            proof {
                let grown = done.push(chomp(current));
                assert(grown.drop_last() =~= done);
                assert(text@.subrange(i + 1, i + 1) =~= Seq::<char>::empty());
                assert(done + (seq![chomp(current)] + lines_from(rest.skip(1), Seq::empty()))
                    =~= grown + lines_from(rest.skip(1), Seq::empty()));
                done = grown;
            }
            start = i + 1;
            after_return = false;
        } else {
            proof {
                assert(current.push(c) =~= text@.subrange(start as int, i + 1));
            }
            after_return = c == '\r';
        }
        i += 1;
    }
    proof {
        assert(text@.skip(len as int) =~= Seq::<char>::empty());
    }
    if start < i {
        let ghost current = text@.subrange(start as int, i as int);
        keep_worktree(&mut paths, text, start, i);
        proof {
            let grown = done.push(current);
            assert(grown.drop_last() =~= done);
            assert(done + seq![current] =~= grown);
            done = grown;
        }
    } else {
        assert(done + Seq::<Seq<char>>::empty() =~= done);
    }
    Ok(paths)
}

/// The arguments of `git` that add a worktree at `path`.
pub open spec fn add_args(path: Seq<char>) -> Seq<Seq<char>> {
    seq!["git"@, "worktree"@, "add"@, path]
}

/// The command that adds a worktree at `path`.
pub fn add_argv(path: &str) -> (argv: Vec<String>)
    ensures
        views(argv@) == add_args(path@),
{
    let mut argv: Vec<String> = Vec::new();
    assert(views(argv@) =~= Seq::<Seq<char>>::empty());
    push_text(&mut argv, "git");
    push_text(&mut argv, "worktree");
    push_text(&mut argv, "add");
    push_text(&mut argv, path);
    argv
}

/// The arguments of `git` that list the worktrees in a form made for
/// reading by programs.
pub open spec fn list_args() -> Seq<Seq<char>> {
    seq!["worktree"@, "list"@, "--porcelain"@]
}

/// The arguments of `git` that list the worktrees.
pub fn list_argv() -> (argv: Vec<String>)
    ensures
        views(argv@) == list_args(),
{
    let mut argv: Vec<String> = Vec::new();
    assert(views(argv@) =~= Seq::<Seq<char>>::empty());
    push_text(&mut argv, "worktree");
    push_text(&mut argv, "list");
    push_text(&mut argv, "--porcelain");
    argv
}

} // verus!
