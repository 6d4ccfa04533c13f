//! A unit file of systemd, as it was read.

use vstd::prelude::*;
use crate::text::opt_text;
use vstd::string::*;
use crate::install::IoError;
use crate::install::init::{COMMENT_PREAMBLE, COMMENT_SUFFIX};
use crate::install::init::extract_path::unsystemd_quote::{first_segement, first_segment,
    UnquoteError};
use crate::paths::{file_name, file_name_of, file_stem, file_stem_of};
use crate::text::{chars_of, contains_text, is_whitespace, lemma_trim_end_is_prefix, lines_of,
    matches_at, skip_whitespace, slice_of, split_lines, str_contains, string_of, texts, trim,
    trim_start, trimmed_end};

verus! {

/// One unit file: what it holds, where it lies and what it is called.
#[derive(Debug, Clone, PartialEq, Eq)]
pub struct Unit {
    /// The text of the file.
    pub body: String,
    /// The path of the file.
    pub path: String,
    /// The last component of the path.
    pub file_name: String,
    /// The last component of the path without its extension.
    pub stem: String,
}

/// Why the executable of a service could not be found. Without it the
/// installation cannot be removed safely.
#[derive(Debug, Clone, PartialEq, Eq)]
pub enum FindExeError {
    /// The unit file could not be read.
    ReadingUnit { err: IoError, path: String },
    /// The unit file at this path has no `ExecStart=` line.
    ExecLineMissing(String),
    /// The first item of the `ExecStart=` line of the unit file at this
    /// path cannot be read.
    ExecLineUnreadable { path: String, error: UnquoteError },
    /// The path that the unit starts does not lead to a file.
    ExecPathNotFile(String),
}

/// Why a file could not be taken for a unit.
#[derive(Debug, Clone, PartialEq, Eq)]
pub enum Error {
    /// The path has no last component.
    NoName,
    /// The file could not be read.
    FailedToRead(IoError),
}

/// What stands behind `ExecStart=` in the first line that, white space at
/// its ends aside, starts with it.
pub open spec fn exec_start_value(lines: Seq<Seq<char>>) -> Option<Seq<char>>
    decreases lines.len(),
{
    if lines.len() == 0 {
        None
    } else if "ExecStart="@.is_prefix_of(trim(lines[0])) {
        Some(trim(lines[0]).skip("ExecStart="@.len() as int))
    } else {
        exec_start_value(lines.drop_first())
    }
}

/// The path that a unit with this text starts: the first item of its
/// `ExecStart=` line.
pub open spec fn exec_start_path(body: Seq<char>) -> Option<Result<Seq<char>, UnquoteError>> {
    match exec_start_value(lines_of(body)) {
        Some(value) => Some(first_segment(value)),
        None => None,
    }
}

/// Whether a unit with this text was written by this crate: it holds the
/// beginning and the end of the landmark comment.
pub open spec fn is_ours(body: Seq<char>) -> bool {
    contains_text(body, COMMENT_PREAMBLE@) && contains_text(body, COMMENT_SUFFIX@)
}

fn exec_value(lines: &Vec<String>) -> (value: Option<String>)
    ensures
        opt_text(value) == exec_start_value(texts(lines@)),
{
    let key = chars_of("ExecStart=");
    let mut i: usize = 0;
    let ghost all = texts(lines@);
    assert(all.skip(0) =~= all);
    while i < lines.len()
        invariant
            i <= lines.len(),
            all == texts(lines@),
            key@ == "ExecStart="@,
            exec_start_value(all.skip(i as int)) == exec_start_value(all),
        decreases lines.len() - i,
    {
        let v = chars_of(lines[i].as_str());
        let from = skip_whitespace(&v, 0);
        let to = trimmed_end(&v, from);
        assert(v@.skip(0) =~= v@);
        let t = slice_of(&v, from, to);
        assert(t@ == trim(all[i as int]));
        assert(all.skip(i as int)[0] == all[i as int]);
        assert(all.skip(i as int).drop_first() =~= all.skip(i + 1));
        if matches_at(&t, &key, 0) {
            assert(t@.subrange(0, key@.len() as int) =~= t@.take(key@.len() as int));
            let value = slice_of(&t, key.len(), t.len());
            assert(value@ =~= t@.skip(key@.len() as int));
            return Some(string_of(&value));
        }
        proof {
            if key@.is_prefix_of(t@) {
                assert(t@.subrange(0, key@.len() as int) =~= key@);
            }
        }
        i += 1;
    }
    None
}

impl Unit {
    /// Takes the file at `path`, whose text is `body`, for a unit. A path
    /// without a last component is no unit file.
    pub fn from_path(path: String, body: Result<String, IoError>) -> (unit: Result<Unit, Error>)
        ensures
            match unit {
                Ok(unit) => body matches Ok(text) && unit.body@ == text@ && unit.path@ == path@
                    && file_name_of(path@) == Some(unit.file_name@) && file_stem_of(path@) == Some(
                    unit.stem@,
                ),
                Err(Error::FailedToRead(e)) => body == Err::<String, IoError>(e),
                Err(Error::NoName) => body is Ok && (file_name_of(path@) is None || file_stem_of(
                    path@,
                ) is None),
            },
    {
        let body = match body {
            Ok(text) => text,
            Err(e) => {
                return Err(Error::FailedToRead(e));
            },
        };
        let file_name = match file_name(path.as_str()) {
            Some(name) => name,
            None => {
                return Err(Error::NoName);
            },
        };
        let stem = match file_stem(path.as_str()) {
            Some(stem) => stem,
            None => {
                return Err(Error::NoName);
            },
        };
        Ok(Unit { body, path, file_name, stem })
    }

    /// Reads the path of the executable that the unit starts: the first
    /// item behind `ExecStart=`.
    pub fn exec_start(&self) -> (path: Result<String, FindExeError>)
        ensures
            match path {
                Ok(p) => exec_start_path(self.body@) == Some(Ok::<Seq<char>, UnquoteError>(p@)),
                Err(FindExeError::ExecLineMissing(at)) => exec_start_path(self.body@) is None
                    && at@ == self.path@,
                Err(FindExeError::ExecLineUnreadable { path: at, error }) => exec_start_path(
                    self.body@,
                ) == Some(Err::<Seq<char>, UnquoteError>(error)) && at@ == self.path@,
                Err(_) => false,
            },
    {
        let lines = split_lines(self.body.as_str());
        let value = match exec_value(&lines) {
            Some(value) => value,
            None => {
                return Err(FindExeError::ExecLineMissing(self.path.clone()));
            },
        };
        match first_segement(value.as_str()) {
            Ok(path) => Ok(path),
            Err(error) => Err(FindExeError::ExecLineUnreadable { path: self.path.clone(), error }),
        }
    }

    /// The path of the executable that the unit starts, which has to lead
    /// to a file. `is_file` says whether the path that `exec_start` reads
    /// does.
    pub fn exe_path(&self, is_file: bool) -> (path: Result<String, FindExeError>)
        ensures
            match path {
                Ok(p) => is_file && exec_start_path(self.body@) == Some(
                    Ok::<Seq<char>, UnquoteError>(p@),
                ),
                Err(FindExeError::ExecPathNotFile(p)) => !is_file && exec_start_path(self.body@)
                    == Some(Ok::<Seq<char>, UnquoteError>(p@)),
                Err(FindExeError::ExecLineMissing(at)) => exec_start_path(self.body@) is None
                    && at@ == self.path@,
                Err(FindExeError::ExecLineUnreadable { path: at, error }) => exec_start_path(
                    self.body@,
                ) == Some(Err::<Seq<char>, UnquoteError>(error)) && at@ == self.path@,
                Err(FindExeError::ReadingUnit { .. }) => false,
            },
    {
        let exe_path = self.exec_start()?;
        if is_file {
            Ok(exe_path)
        } else {
            Err(FindExeError::ExecPathNotFile(exe_path))
        }
    }

    /// Whether this crate wrote the unit: its text holds the beginning and
    /// the end of the landmark comment.
    pub fn our_service(&self) -> (ours: bool)
        ensures
            ours == is_ours(self.body@),
    {
        str_contains(self.body.as_str(), COMMENT_PREAMBLE) && str_contains(
            self.body.as_str(),
            COMMENT_SUFFIX,
        )
    }

    /// Whether the unit has an `[Install]` section: it is started on boot
    /// and not by a timer.
    pub fn has_install(&self) -> (found: bool)
        ensures
            found == contains_text(self.body@, "[Install]"@),
    {
        str_contains(self.body.as_str(), "[Install]")
    }

    /// A copy of the unit.
    pub fn copy(&self) -> (copy: Unit)
        ensures
            copy == *self,
    {
        Unit {
            body: self.body.clone(),
            path: self.path.clone(),
            file_name: self.file_name.clone(),
            stem: self.stem.clone(),
        }
    }

    /// The name of the unit: its file name without the extension.
    pub fn name(&self) -> (name: String)
        ensures
            name@ == self.stem@,
    {
        self.stem.clone()
    }
}

/// Whether a line begins unlike `Ex`: it is empty, or it begins with
/// something that is neither white space nor `E`, or with an `E` that no
/// `x` follows.
pub open spec fn begins_apart(line: Seq<char>) -> bool {
    line.len() == 0 || (!is_whitespace(line[0]) && line[0] != 'E') || (line.len() >= 2 && line[0]
        == 'E' && line[1] != 'x')
}

/// A line that begins unlike `Ex` is no `ExecStart=` line.
pub proof fn lemma_no_exec_line(line: Seq<char>)
    requires
        begins_apart(line),
    ensures
        !"ExecStart="@.is_prefix_of(trim(line)),
{
    reveal_strlit("ExecStart=");
    let key = "ExecStart="@;
    let t = trim(line);
    if line.len() > 0 {
        assert(!is_whitespace('E'));
        assert(trim_start(line) == line);
        lemma_trim_end_is_prefix(line);
        if key.is_prefix_of(t) {
            assert(t.subrange(0, 10)[0] == t[0]);
            assert(t.subrange(0, 10)[1] == t[1]);
            assert(line.subrange(0, t.len() as int)[0] == line[0]);
            assert(line.subrange(0, t.len() as int)[1] == line[1]);
        }
    } else {
        assert(trim_start(line) == line);
        assert(t.len() == 0);
    }
}

/// Lines that begin unlike `Ex` are passed over when the `ExecStart=` line
/// is looked for.
pub proof fn lemma_exec_value_behind(header: Seq<Seq<char>>, rest: Seq<Seq<char>>)
    requires
        forall|i: int| 0 <= i < header.len() ==> begins_apart(#[trigger] header[i]),
    ensures
        exec_start_value(header + rest) == exec_start_value(rest),
    decreases header.len(),
{
    if header.len() == 0 {
        assert(header + rest =~= rest);
    } else {
        let all = header + rest;
        lemma_no_exec_line(header[0]);
        assert(all[0] == header[0]);
        assert(all.drop_first() =~= header.drop_first() + rest);
        assert forall|i: int| 0 <= i < header.drop_first().len() implies begins_apart(
            #[trigger] header.drop_first()[i],
        ) by {
            assert(header.drop_first()[i] == header[i + 1]);
        }
        lemma_exec_value_behind(header.drop_first(), rest);
    }
}

} // verus!
