//! The decisions behind the operations that change the file system. The
//! library decides what is to be asked of the operating system and says so
//! in a [`Request`]; the caller carries the request out.

use crate::error::{Error, ErrorView};
use crate::file_types::FileTypes;
use vstd::prelude::*;
use vstd::string::*;

verus! {

/// One request to the operating system.
#[derive(Debug, PartialEq, Eq)]
pub enum Request {
    /// There is nothing to do.
    Nothing,
    /// Create an empty file, or empty the one that is there.
    CreateFile { path: String },
    /// Create a directory and the directories above it that are missing.
    CreateDirectoryTree { path: String },
    /// Remove a file or a symbolic link.
    RemoveFile { path: String },
    /// Remove a directory with all that is in it.
    RemoveDirectoryTree { path: String },
    /// Ask for the length of a file in bytes.
    QueryLength { path: String },
    /// Count the entries of a directory.
    CountEntries { path: String },
    /// Read the entries of a directory.
    ReadEntries { path: String },
    /// Ask for the mode of a file, which holds its permission bits.
    QueryMode { path: String },
    /// Rename `from` to `to`.
    Rename { from: String, to: String },
    /// Copy the contents of `from` to `to`.
    CopyContents { from: String, to: String },
    /// Create the symbolic link `link`, which leads to `original`.
    SymbolicLink { original: String, link: String },
    /// Create the hard link `link` to the file `original`.
    HardLink { original: String, link: String },
}

/// The mathematical content of a [`Request`].
pub enum RequestView {
    Nothing,
    CreateFile { path: Seq<char> },
    CreateDirectoryTree { path: Seq<char> },
    RemoveFile { path: Seq<char> },
    RemoveDirectoryTree { path: Seq<char> },
    QueryLength { path: Seq<char> },
    CountEntries { path: Seq<char> },
    ReadEntries { path: Seq<char> },
    QueryMode { path: Seq<char> },
    Rename { from: Seq<char>, to: Seq<char> },
    CopyContents { from: Seq<char>, to: Seq<char> },
    SymbolicLink { original: Seq<char>, link: Seq<char> },
    HardLink { original: Seq<char>, link: Seq<char> },
}

impl View for Request {
    type V = RequestView;

    open spec fn view(&self) -> RequestView {
        match self {
            Request::Nothing => RequestView::Nothing,
            Request::CreateFile { path } => RequestView::CreateFile { path: path@ },
            Request::CreateDirectoryTree { path } => RequestView::CreateDirectoryTree {
                path: path@,
            },
            Request::RemoveFile { path } => RequestView::RemoveFile { path: path@ },
            Request::RemoveDirectoryTree { path } => RequestView::RemoveDirectoryTree {
                path: path@,
            },
            Request::QueryLength { path } => RequestView::QueryLength { path: path@ },
            Request::CountEntries { path } => RequestView::CountEntries { path: path@ },
            Request::ReadEntries { path } => RequestView::ReadEntries { path: path@ },
            Request::QueryMode { path } => RequestView::QueryMode { path: path@ },
            Request::Rename { from, to } => RequestView::Rename { from: from@, to: to@ },
            Request::CopyContents { from, to } => RequestView::CopyContents {
                from: from@,
                to: to@,
            },
            Request::SymbolicLink { original, link } => RequestView::SymbolicLink {
                original: original@,
                link: link@,
            },
            Request::HardLink { original, link } => RequestView::HardLink {
                original: original@,
                link: link@,
            },
        }
    }
}

/// The ways of bringing a file to a destination.
#[derive(Debug, Clone, Copy, PartialEq, Eq, Structural)]
pub enum Transfer {
    Move,
    Copy,
    SymbolicLink,
    HardLink,
}

/// The content of a planned request or of the refusal to plan one.
pub open spec fn plan_of(plan: Result<Request, Error>) -> Result<RequestView, ErrorView> {
    match plan {
        Ok(request) => Ok(request@),
        Err(e) => Err(e@),
    }
}

/// The path of the entry `name` in `directory`.
pub open spec fn in_directory(directory: Seq<char>, name: Seq<char>) -> Seq<char> {
    directory + seq!['/'] + name
}

/// Where a file called `name` arrives when it is sent to `destination`:
/// inside it where the destination is a directory, and else at the
/// destination itself.
pub open spec fn arrival(name: Seq<char>, destination: Seq<char>, kind: Option<FileTypes>) -> Seq<
    char,
> {
    if kind == Some(FileTypes::Directory) {
        in_directory(destination, name)
    } else {
        destination
    }
}

impl RequestView {
    /// The request that creates a file of the given kind at `path`. A
    /// symbolic link is not created this way: it needs a target.
    pub open spec fn create(path: Seq<char>, kind: FileTypes) -> RequestView {
        match kind {
            FileTypes::File => RequestView::CreateFile { path },
            FileTypes::Directory => RequestView::CreateDirectoryTree { path },
            FileTypes::Symlink => RequestView::Nothing,
        }
    }

    /// The request that removes what is at `path`, which is of kind `kind`.
    pub open spec fn remove(path: Seq<char>, kind: Option<FileTypes>) -> Result<
        RequestView,
        ErrorView,
    > {
        match kind {
            None => Err(ErrorView::NotFound { path }),
            Some(FileTypes::Directory) => Ok(RequestView::RemoveDirectoryTree { path }),
            Some(_) => Ok(RequestView::RemoveFile { path }),
        }
    }

    /// The request that measures what is at `path`: the size of a directory
    /// is the number of its entries, the size of anything else its length
    /// in bytes.
    pub open spec fn size(path: Seq<char>, kind: Option<FileTypes>) -> Result<
        RequestView,
        ErrorView,
    > {
        match kind {
            None => Err(ErrorView::NotFound { path }),
            Some(FileTypes::Directory) => Ok(RequestView::CountEntries { path }),
            Some(_) => Ok(RequestView::QueryLength { path }),
        }
    }

    /// The request that lists what is in `path`, which must be a directory.
    pub open spec fn list(path: Seq<char>, kind: Option<FileTypes>) -> Result<
        RequestView,
        ErrorView,
    > {
        match kind {
            None => Err(ErrorView::NotFound { path }),
            Some(FileTypes::Directory) => Ok(RequestView::ReadEntries { path }),
            Some(_) => Err(ErrorView::NotADirectory { path }),
        }
    }

    /// The request that brings `from` to `to`.
    pub open spec fn transfer(how: Transfer, from: Seq<char>, to: Seq<char>) -> RequestView {
        match how {
            Transfer::Move => RequestView::Rename { from, to },
            Transfer::Copy => RequestView::CopyContents { from, to },
            Transfer::SymbolicLink => RequestView::SymbolicLink { original: from, link: to },
            Transfer::HardLink => RequestView::HardLink { original: from, link: to },
        }
    }

    /// The request that brings `from` to `to`, where `taken` tells what is
    /// at `to` already: nothing is ever overwritten.
    pub open spec fn claim(
        how: Transfer,
        from: Seq<char>,
        to: Seq<char>,
        taken: Option<FileTypes>,
    ) -> Result<RequestView, ErrorView> {
        if taken is Some {
            Err(ErrorView::AlreadyExists { path: to })
        } else {
            Ok(Self::transfer(how, from, to))
        }
    }

    /// The path at which a transfer arrives, or `None` for a request that
    /// is no transfer.
    pub open spec fn arrives_at(self) -> Option<Seq<char>> {
        match self {
            RequestView::Rename { to, .. } => Some(to),
            RequestView::CopyContents { to, .. } => Some(to),
            RequestView::SymbolicLink { link, .. } => Some(link),
            RequestView::HardLink { link, .. } => Some(link),
            _ => None,
        }
    }
}

impl Request {
    /// The path at which a transfer arrives, or `None` for a request that
    /// is no transfer.
    pub fn arrives_at(&self) -> (path: Option<&String>)
        ensures
            match path {
                Some(text) => self@.arrives_at() == Some(text@),
                None => self@.arrives_at() is None,
            },
    {
        match self {
            Request::Rename { to, .. } => Some(to),
            Request::CopyContents { to, .. } => Some(to),
            Request::SymbolicLink { link, .. } => Some(link),
            Request::HardLink { link, .. } => Some(link),
            _ => None,
        }
    }

    /// Plans the creation of a file of the given kind at `path`.
    pub fn create(path: &str, kind: FileTypes) -> (request: Request)
        ensures
            request@ == RequestView::create(path@, kind),
    {
        match kind {
            FileTypes::File => Request::CreateFile { path: String::from_str(path) },
            FileTypes::Directory => Request::CreateDirectoryTree { path: String::from_str(path) },
            FileTypes::Symlink => Request::Nothing,
        }
    }

    /// Plans the removal of what is at `path`, from its kind.
    pub fn remove(path: &str, kind: Option<FileTypes>) -> (plan: Result<Request, Error>)
        ensures
            plan_of(plan) == RequestView::remove(path@, kind),
    {
        let path = String::from_str(path);
        match kind {
            None => Err(Error::NotFound { path }),
            Some(FileTypes::Directory) => Ok(Request::RemoveDirectoryTree { path }),
            Some(_) => Ok(Request::RemoveFile { path }),
        }
    }

    /// Plans the measuring of what is at `path`, from its kind.
    pub fn size(path: &str, kind: Option<FileTypes>) -> (plan: Result<Request, Error>)
        ensures
            plan_of(plan) == RequestView::size(path@, kind),
    {
        let path = String::from_str(path);
        match kind {
            None => Err(Error::NotFound { path }),
            Some(FileTypes::Directory) => Ok(Request::CountEntries { path }),
            Some(_) => Ok(Request::QueryLength { path }),
        }
    }

    /// Plans the listing of the directory at `path`, from its kind.
    pub fn list(path: &str, kind: Option<FileTypes>) -> (plan: Result<Request, Error>)
        ensures
            plan_of(plan) == RequestView::list(path@, kind),
    {
        let path = String::from_str(path);
        match kind {
            None => Err(Error::NotFound { path }),
            Some(FileTypes::Directory) => Ok(Request::ReadEntries { path }),
            Some(_) => Err(Error::NotADirectory { path }),
        }
    }

    /// Tells where a file called `name` arrives when it is sent to
    /// `destination`, which is of kind `kind`.
    pub fn arrival(name: &str, destination: &str, kind: Option<FileTypes>) -> (path: String)
        ensures
            path@ == arrival(name@, destination@, kind),
    {
        let mut path = String::from_str(destination);
        match kind {
            Some(FileTypes::Directory) => {
                proof {
                    reveal_strlit("/");
                }
                path.append("/");
                path.append(name);
                assert(path@ =~= in_directory(destination@, name@));
            },
            _ => {},
        }
        path
    }

    /// Plans bringing `from` to `to`, where `taken` tells what is at `to`
    /// already.
    pub fn claim(how: Transfer, from: &str, to: String, taken: Option<FileTypes>) -> (plan: Result<
        Request,
        Error,
    >)
        ensures
            plan_of(plan) == RequestView::claim(how, from@, to@, taken),
    {
        if taken.is_some() {
            return Err(Error::AlreadyExists { path: to });
        }
        let from = String::from_str(from);
        Ok(
            match how {
                Transfer::Move => Request::Rename { from, to },
                Transfer::Copy => Request::CopyContents { from, to },
                Transfer::SymbolicLink => Request::SymbolicLink { original: from, link: to },
                Transfer::HardLink => Request::HardLink { original: from, link: to },
            },
        )
    }
}

} // verus!
