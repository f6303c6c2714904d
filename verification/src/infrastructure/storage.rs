//! Keeping boards: what a store of boards must offer, what can go wrong in one, and where the
//! board of a project lies.
//!
//! The library reads and writes no file itself. A store is handed to the services when they
//! are made, and every access to a board goes through it.

use crate::domain::board::Board;
use crate::text::optional_text;
use std::path::Path;
use std::path::PathBuf;
use vstd::prelude::*;

verus! {

/// `std::path::Path`, a file system path. The library hands paths on and joins names to
/// them; what a path holds it knows only as [`path_bytes`].
#[verifier::external_type_specification]
#[verifier::external_body]
pub struct ExPath(Path);

/// `std::path::PathBuf`, a path that owns its text; what it holds is [`path_buf_bytes`].
#[verifier::external_type_specification]
#[verifier::external_body]
pub struct ExPathBuf(PathBuf);

/// What a path holds: the bytes of its text, as the platform writes paths.
pub uninterp spec fn path_bytes(path: &Path) -> Seq<u8>;

/// What an owned path holds: the bytes of its text, as the platform writes paths.
pub uninterp spec fn path_buf_bytes(path: PathBuf) -> Seq<u8>;

/// What `Path::join` makes of a path and a part that is put behind it.
pub uninterp spec fn joined_bytes(base: Seq<u8>, part: Seq<char>) -> Seq<u8>;

/// What `Path::ancestors` gives for a path: the path itself, its parent, the parent's parent
/// and so on, each as the bytes of its text.
pub uninterp spec fn ancestor_bytes(path: Seq<u8>) -> Seq<Seq<u8>>;

/// How `Path::display` shows a path in a message.
pub uninterp spec fn shown_path(path: Seq<u8>) -> Seq<char>;

/// What `Path::file_name` gives for a path, as text: the last part of the path, or nothing
/// where the path has none or the part is not valid Unicode.
pub uninterp spec fn file_name_of(path: Seq<u8>) -> Option<Seq<char>>;

/// What each of a list of owned paths holds.
pub open spec fn all_path_bytes(paths: Seq<PathBuf>) -> Seq<Seq<u8>> {
    paths.map_values(|path: PathBuf| path_buf_bytes(path))
}

/// What the path of the directory `.clicky` under a directory holds.
pub open spec fn clicky_dir_bytes(base: Seq<u8>) -> Seq<u8> {
    joined_bytes(base, ".clicky"@)
}

/// What the path of the board of a project holds: `board.json` joined to `.clicky` joined to
/// the project's directory.
pub open spec fn board_path_bytes(base: Seq<u8>) -> Seq<u8> {
    joined_bytes(clicky_dir_bytes(base), "board.json"@)
}

/// `PathBuf::as_path`: the path, borrowed. Believed: it holds what the owned path holds.
pub assume_specification[ PathBuf::as_path ](path: &PathBuf) -> (borrowed: &Path)
    ensures
        path_bytes(borrowed) == path_buf_bytes(*path),
;

/// `Path::join`: the path with `part` behind it. Believed: what the joined path holds
/// depends on what the path holds and on the part alone; [`joined_bytes`] is its name. Where
/// the separator stands and what an absolute part does is the platform's business and is not
/// stated.
#[verifier::external_body]
pub(crate) fn join(base: &Path, part: &str) -> (joined: PathBuf)
    ensures
        path_buf_bytes(joined) == joined_bytes(path_bytes(base), part@),
{
    base.join(part)
}

/// `Path::display`, written out: the path as text, for messages. Believed: the text depends
/// on what the path holds alone; [`shown_path`] is its name.
#[verifier::external_body]
pub(crate) fn path_text(path: &Path) -> (text: String)
    ensures
        text@ == shown_path(path_bytes(path)),
{
    format!("{}", path.display())
}

/// `Path::file_name`, as text: the last part of the path, where it has one and that part is
/// valid Unicode. Believed: the answer depends on what the path holds alone;
/// [`file_name_of`] is its name.
#[verifier::external_body]
pub(crate) fn file_name_text(path: &Path) -> (name: Option<String>)
    ensures
        optional_text(name) == file_name_of(path_bytes(path)),
{
    match path.file_name() {
        Some(name) => match name.to_str() {
            Some(text) => Some(text.to_string()),
            None => None,
        },
        None => None,
    }
}

/// `Path::ancestors`, collected: the path itself, then its parent, then the parent's parent
/// and so on to the root. Believed: which paths these are depends on what the path holds
/// alone; [`ancestor_bytes`] is its name.
#[verifier::external_body]
pub(crate) fn ancestors(path: &Path) -> (list: Vec<PathBuf>)
    ensures
        all_path_bytes(list@) == ancestor_bytes(path_bytes(path)),
{
    path.ancestors().map(|ancestor| ancestor.to_path_buf()).collect()
}

/// What can go wrong in a store of boards.
#[derive(Debug)]
pub enum StorageError {
    /// Reading or writing failed; the text is the system's account of it.
    Io(String),
    /// The stored text is not a board, or the board could not be written as text.
    Serialization(String),
    /// No board lies at this path.
    BoardNotFound(PathBuf),
    /// A board lies at this path already.
    BoardAlreadyExists(PathBuf),
    /// The stored board is not one that can be used.
    InvalidData(String),
}

impl StorageError {
    /// The message of this error. Where the error names a path, the path is shown as
    /// `Path::display` shows it.
    pub open spec fn message_text(self) -> Seq<char> {
        match self {
            StorageError::Io(detail) => "IO error: "@ + detail@,
            StorageError::Serialization(detail) => "Serialization error: "@ + detail@,
            StorageError::BoardNotFound(path) => "Board not found at "@ + shown_path(
                path_buf_bytes(path),
            ),
            StorageError::BoardAlreadyExists(path) => "Board already exists at "@ + shown_path(
                path_buf_bytes(path),
            ),
            StorageError::InvalidData(detail) => "Invalid board data: "@ + detail@,
        }
    }

    /// The message of the error, for the user.
    pub fn message(&self) -> (text: String)
        ensures
            text@ == self.message_text(),
    {
        match self {
            StorageError::Io(detail) => {
                let mut text = String::from_str("IO error: ");
                text.append(detail.as_str());
                text
            },
            StorageError::Serialization(detail) => {
                let mut text = String::from_str("Serialization error: ");
                text.append(detail.as_str());
                text
            },
            StorageError::BoardNotFound(path) => {
                let mut text = String::from_str("Board not found at ");
                let shown = path_text(path.as_path());
                text.append(shown.as_str());
                assert(text@ == "Board not found at "@ + shown@);
                text
            },
            StorageError::BoardAlreadyExists(path) => {
                let mut text = String::from_str("Board already exists at ");
                let shown = path_text(path.as_path());
                text.append(shown.as_str());
                assert(text@ == "Board already exists at "@ + shown@);
                text
            },
            StorageError::InvalidData(detail) => {
                let mut text = String::from_str("Invalid board data: ");
                text.append(detail.as_str());
                text
            },
        }
    }
}

/// A store of boards, one to a path. The library works with any store: a file system, a
/// database, a table in memory.
///
/// Nothing is promised of a store. What it loads need not be what was saved last, and need
/// not be a consistent board: the services take whatever comes.
pub trait BoardRepository {
    /// The board at `path`, or `StorageError::BoardNotFound` where there is none.
    fn load(&self, path: &Path) -> Result<Board, StorageError>;

    /// Keeps `board` at `path`, in place of what was there.
    fn save(&self, board: &Board, path: &Path) -> Result<(), StorageError>;

    /// Whether a board is kept at `path`.
    fn board_exists(&self, path: &Path) -> bool;

    /// Removes the board at `path`, or fails with `StorageError::BoardNotFound` where there
    /// is none.
    fn delete(&self, path: &Path) -> Result<(), StorageError>;
}

/// Whether the answer at `i` is the first that says yes.
pub open spec fn is_nearest_present(answers: Seq<bool>, i: int) -> bool {
    &&& 0 <= i < answers.len()
    &&& answers[i]
    &&& forall|j: int| 0 <= j < i ==> !answers[j]
}

/// The place of the first answer that says yes: the nearest of the places asked about at
/// which something is present.
pub fn nearest_present(answers: &Vec<bool>) -> (found: Option<usize>)
    ensures
        match found {
            Some(i) => i < answers.len() && answers[i as int] && forall|j: int|
                0 <= j < i ==> !answers[j],
            None => forall|j: int| 0 <= j < answers.len() ==> !answers[j],
        },
{
    let mut i: usize = 0;
    while i < answers.len()
        invariant
            i <= answers.len(),
            forall|j: int| 0 <= j < i ==> !answers[j],
        decreases answers.len() - i,
    {
        if answers[i] {
            return Some(i);
        }
        i += 1;
    }
    None
}

/// Where the board of a project lies.
pub struct BoardStorage;

impl BoardStorage {
    /// The directory, within the project's, that holds the board.
    pub const CLICKY_DIR: &'static str = ".clicky";

    /// The file, within that directory, that is the board.
    pub const BOARD_FILE: &'static str = "board.json";

    /// The path of the board of the project at `base_path`: the file `board.json` in the
    /// directory `.clicky` under it. The same directory always gives the same path, so that
    /// a board is looked for where it was saved.
    pub fn board_path(base_path: &Path) -> (path: PathBuf)
        ensures
            path_buf_bytes(path) == board_path_bytes(path_bytes(base_path)),
    {
        let directory = join(base_path, ".clicky");
        join(directory.as_path(), "board.json")
    }

    /// The path of the directory `.clicky` under `base_path`.
    pub fn clicky_dir(base_path: &Path) -> (path: PathBuf)
        ensures
            path_buf_bytes(path) == clicky_dir_bytes(path_bytes(base_path)),
    {
        join(base_path, ".clicky")
    }

    /// The board that a search comes to, given the directories that were tried, nearest first,
    /// and what the store said of each: the first directory of which it said that its board
    /// exists, with the path of that board. Nothing where it said so of none of them.
    pub fn nearest_board(candidates: Vec<PathBuf>, answers: &Vec<bool>) -> (found: Option<
        (PathBuf, PathBuf),
    >)
        ensures
            match found {
                Some((directory, board_path)) => exists|i: int|
                    {
                        &&& #[trigger] is_nearest_present(answers@, i)
                        &&& i < candidates.len()
                        &&& directory == candidates[i]
                        &&& path_buf_bytes(board_path) == board_path_bytes(
                            path_buf_bytes(directory),
                        )
                    },
                None => forall|i: int|
                    0 <= i < candidates.len() ==> !#[trigger] is_nearest_present(answers@, i),
            },
    {
        let mut candidates = candidates;
        match nearest_present(answers) {
            Some(position) => {
                if position < candidates.len() {
                    let directory = candidates.remove(position);
                    let board_path = Self::board_path(directory.as_path());
                    assert(is_nearest_present(answers@, position as int));
                    Some((directory, board_path))
                } else {
                    assert forall|i: int| 0 <= i < candidates.len() implies !#[trigger] is_nearest_present(
                        answers@,
                        i,
                    ) by {
                        assert(i < position);
                    }
                    None
                }
            },
            None => None,
        }
    }

    /// Looks for a board from `start_path` upwards: in the directory itself, then in its
    /// parent, and so on to the root. The store is asked of each in turn, until it says of
    /// one that its board exists; what the search comes to is then what
    /// [`BoardStorage::nearest_board`] makes of the answers.
    ///
    /// Whether a board is found, and in which of the directories, is for the store to say.
    /// Whatever it says, a directory that is returned is `start_path` or one of the
    /// directories above it, and the path returned with it is the path of that directory's
    /// board.
    pub fn find_board<R: BoardRepository>(repository: &R, start_path: &Path) -> (found: Option<
        (PathBuf, PathBuf),
    >)
        ensures
            found matches Some((directory, board_path)) ==> {
                &&& ancestor_bytes(path_bytes(start_path)).contains(path_buf_bytes(directory))
                &&& path_buf_bytes(board_path) == board_path_bytes(path_buf_bytes(directory))
            },
    {
        let candidates = ancestors(start_path);
        let mut answers: Vec<bool> = Vec::new();
        let mut present = false;
        while answers.len() < candidates.len() && !present
            invariant
                answers.len() <= candidates.len(),
            decreases candidates.len() - answers.len() + if present { 0int } else { 1int },
        {
            let board_path = Self::board_path(candidates[answers.len()].as_path());
            present = repository.board_exists(board_path.as_path());
            answers.push(present);
        }
        let ghost all = all_path_bytes(candidates@);
        let found = Self::nearest_board(candidates, &answers);
        proof {
            if found is Some {
                let directory = found->Some_0.0;
                let i = choose|i: int|
                    #[trigger] is_nearest_present(answers@, i) && i < candidates.len()
                        && directory == candidates[i];
                assert(all[i] == path_buf_bytes(directory));
            }
        }
        found
    }

    /// Looks for a board from `start_path` upwards, as [`BoardStorage::find_board`] does, and
    /// returns the path of the first board found: the path of the board of `start_path` or
    /// of one of the directories above it.
    pub fn find_board_path<R: BoardRepository>(repository: &R, start_path: &Path) -> (found:
        Option<PathBuf>)
        ensures
            found matches Some(board_path) ==> exists|directory: Seq<u8>|
                ancestor_bytes(path_bytes(start_path)).contains(directory)
                    && path_buf_bytes(board_path) == #[trigger] board_path_bytes(directory),
    {
        match Self::find_board(repository, start_path) {
            Some((directory, board_path)) => {
                assert(path_buf_bytes(board_path) == board_path_bytes(
                    path_buf_bytes(directory),
                ));
                Some(board_path)
            },
            None => None,
        }
    }
}

} // verus!
