//! Transforms of a path's text: tilde expansion and contraction, and the
//! absolute form. The home directory and the working directory are values
//! that the caller supplies once, when the normalizer is made.

use crate::error::{Error, ErrorView};
use crate::system;
use crate::system::lexical_absolute;
use vstd::prelude::*;
use vstd::string::*;

verus! {

/// Whether a path begins with a tilde.
pub open spec fn starts_with_tilde(path: Seq<char>) -> bool {
    path.len() > 0 && path[0] == '~'
}

/// Whether a path begins at the root.
pub open spec fn is_absolute(path: Seq<char>) -> bool {
    path.len() > 0 && path[0] == '/'
}

/// A path with its leading tilde replaced by `home`; a path without a
/// leading tilde is left as it is.
pub open spec fn expanded(path: Seq<char>, home: Seq<char>) -> Seq<char> {
    if starts_with_tilde(path) {
        home + path.skip(1)
    } else {
        path
    }
}

/// A path with its leading `home` replaced by a tilde; a path that does not
/// begin with `home` is left as it is.
pub open spec fn contracted(path: Seq<char>, home: Seq<char>) -> Seq<char> {
    if home.is_prefix_of(path) {
        seq!['~'] + path.skip(home.len() as int)
    } else {
        path
    }
}

/// What is said when no usable working directory was supplied.
pub open spec fn no_working_directory() -> Seq<char> {
    "the working directory is not available as an absolute path"@
}

/// The surroundings in which paths are normalized.
#[derive(Debug)]
pub struct PathNormalizer {
    home: Option<String>,
    current_dir: Option<String>,
}

/// The mathematical content of a [`PathNormalizer`].
pub struct NormalizerView {
    /// The home directory, where it is known.
    pub home: Option<Seq<char>>,
    /// The working directory, where it is known.
    pub current_dir: Option<Seq<char>>,
}

/// The text of an optional string.
pub open spec fn text_of(value: Option<String>) -> Option<Seq<char>> {
    match value {
        Some(text) => Some(text@),
        None => None,
    }
}

/// The content of the outcome of a transform.
pub open spec fn outcome_of(outcome: Result<String, Error>) -> Result<Seq<char>, ErrorView> {
    match outcome {
        Ok(text) => Ok(text@),
        Err(e) => Err(e@),
    }
}

impl View for PathNormalizer {
    type V = NormalizerView;

    closed spec fn view(&self) -> NormalizerView {
        NormalizerView { home: text_of(self.home), current_dir: text_of(self.current_dir) }
    }
}

impl NormalizerView {
    /// Tilde expansion: it needs the home directory only for a path that
    /// begins with a tilde, and fails only where it needs it and has none.
    pub open spec fn expand_user(self, path: Seq<char>) -> Result<Seq<char>, ErrorView> {
        if !starts_with_tilde(path) {
            Ok(path)
        } else {
            match self.home {
                Some(home) => Ok(expanded(path, home)),
                None => Err(ErrorView::HomeDirUnavailable { path }),
            }
        }
    }

    /// Tilde contraction: it always needs the home directory.
    pub open spec fn contract_user(self, path: Seq<char>) -> Result<Seq<char>, ErrorView> {
        match self.home {
            Some(home) => Ok(contracted(path, home)),
            None => Err(ErrorView::HomeDirUnavailable { path }),
        }
    }

    /// Whether an absolute working directory is at hand.
    pub open spec fn has_working_directory(self) -> bool {
        self.current_dir matches Some(cwd) && is_absolute(cwd)
    }

    /// The absolute form: the tilde is expanded first, then the path is made
    /// absolute from the working directory by its text alone.
    pub open spec fn absolutize(self, path: Seq<char>) -> Result<Seq<char>, ErrorView> {
        match self.expand_user(path) {
            Err(e) => Err(e),
            Ok(full) => if self.has_working_directory() {
                Ok(lexical_absolute(full, self.current_dir->0))
            } else {
                Err(ErrorView::FilesystemError { path, reason: no_working_directory() })
            },
        }
    }
}

impl PathNormalizer {
    /// A normalizer for the given home directory and working directory,
    /// either of which may be unknown.
    pub fn new(home: Option<String>, current_dir: Option<String>) -> (normalizer: Self)
        ensures
            normalizer@ == (NormalizerView {
                home: text_of(home),
                current_dir: text_of(current_dir),
            }),
    {
        Self { home, current_dir }
    }

    /// The home directory, where it is known.
    pub fn home(&self) -> (home: Option<&String>)
        ensures
            match home {
                Some(text) => self@.home == Some(text@),
                None => self@.home is None,
            },
    {
        self.home.as_ref()
    }

    /// The working directory, where it is known.
    pub fn current_dir(&self) -> (current_dir: Option<&String>)
        ensures
            match current_dir {
                Some(text) => self@.current_dir == Some(text@),
                None => self@.current_dir is None,
            },
    {
        self.current_dir.as_ref()
    }

    /// Replaces a leading tilde by the home directory.
    pub fn expand_user(&self, path: &str) -> (outcome: Result<String, Error>)
        ensures
            outcome_of(outcome) == self@.expand_user(path@),
    {
        let length = path.unicode_len();
        if length > 0 && path.get_char(0) == '~' {
            match &self.home {
                Some(home) => {
                    let mut text = home.clone();
                    text.append(path.substring_char(1, length));
                    assert(text@ =~= expanded(path@, home@));
                    Ok(text)
                },
                None => Err(Error::HomeDirUnavailable { path: String::from_str(path) }),
            }
        } else {
            Ok(String::from_str(path))
        }
    }

    /// Replaces a leading home directory by a tilde, and hands the text back.
    pub fn contract_user(&self, path: &str) -> (outcome: Result<String, Error>)
        ensures
            outcome_of(outcome) == self@.contract_user(path@),
    {
        match &self.home {
            Some(home) => {
                let length = path.unicode_len();
                let home_length = home.as_str().unicode_len();
                if home_length <= length && String::from_str(path.substring_char(0, home_length))
                    == *home {
                    proof {
                        reveal_strlit("~");
                    }
                    let mut text = String::from_str("~");
                    text.append(path.substring_char(home_length, length));
                    assert(text@ =~= contracted(path@, home@));
                    Ok(text)
                } else {
                    Ok(String::from_str(path))
                }
            },
            None => Err(Error::HomeDirUnavailable { path: String::from_str(path) }),
        }
    }

    /// Makes a path absolute without asking whether it exists: a leading
    /// tilde is expanded, a relative path is taken from the working
    /// directory, and `.` and `..` are resolved in the text.
    pub fn absolutize(&self, path: &str) -> (outcome: Result<String, Error>)
        ensures
            outcome_of(outcome) == self@.absolutize(path@),
            outcome matches Ok(text) ==> is_absolute(text@),
    {
        let full = match self.expand_user(path) {
            Ok(full) => full,
            Err(e) => {
                return Err(e);
            },
        };
        match &self.current_dir {
            Some(cwd) => {
                if cwd.as_str().unicode_len() > 0 && cwd.as_str().get_char(0) == '/' {
                    match system::absolutize_from(full.as_str(), cwd.as_str()) {
                        Some(text) => {
                            return Ok(text);
                        },
                        None => {},
                    }
                }
            },
            None => {},
        }
        Err(
            Error::FilesystemError {
                path: String::from_str(path),
                reason: String::from_str(
                    "the working directory is not available as an absolute path",
                ),
            },
        )
    }
}

/// Contracting a path that lies under the home directory and expanding the
/// result gives the path back.
pub proof fn lemma_contract_then_expand(surroundings: NormalizerView, path: Seq<char>)
    requires
        surroundings.home matches Some(home) && home.is_prefix_of(path),
    ensures
        surroundings.contract_user(path) matches Ok(short) && surroundings.expand_user(short)
            == Ok::<Seq<char>, ErrorView>(path),
{
    let home = surroundings.home->0;
    let short = contracted(path, home);
    assert(short.skip(1) =~= path.skip(home.len() as int));
    assert(home + path.skip(home.len() as int) =~= path);
}

/// An absolute path is made absolute without the home directory: with a
/// working directory at hand the transform cannot fail, and all that it does
/// is resolve the path's text. This holds of every path that
/// [`PathNormalizer::absolutize`] hands back.
pub proof fn lemma_absolute_needs_no_home(surroundings: NormalizerView, path: Seq<char>)
    requires
        is_absolute(path),
        surroundings.has_working_directory(),
    ensures
        surroundings.expand_user(path) == Ok::<Seq<char>, ErrorView>(path),
        surroundings.absolutize(path) == Ok::<Seq<char>, ErrorView>(
            lexical_absolute(path, surroundings.current_dir->0),
        ),
{
}

} // verus!
