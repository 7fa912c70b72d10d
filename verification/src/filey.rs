//! The handle on one path.

use crate::decimal::{decimal, decimal_string};
use crate::error::{Error, ErrorView, OsFailureView};
use crate::file_types::FileTypes;
use crate::normalizer::{is_absolute, outcome_of, text_of, PathNormalizer};
use crate::request::{arrival, plan_of, Request, RequestView, Transfer};
use crate::system;
use crate::system::{file_name_of, file_stem_of, parent_of};
use crate::unit_of_information::UnitOfInfo;
use vstd::prelude::*;
use vstd::string::*;

verus! {

/// A path, with the operations that tell what lies at it. The handle holds
/// the path's text and nothing of the file system: every question is asked
/// anew.
#[derive(Debug, Eq, PartialOrd, Ord, Hash)]
pub struct Filey {
    path: String,
}

impl View for Filey {
    type V = Seq<char>;

    closed spec fn view(&self) -> Seq<char> {
        self.path@
    }
}

/// The size of a file as it is shown: for a directory the number of its
/// entries, for anything else its length in bytes in compact notation.
pub open spec fn styled_size(kind: FileTypes, size: nat) -> Seq<char> {
    if kind == FileTypes::Directory {
        decimal(size)
    } else {
        UnitOfInfo::formatted(size)
    }
}

impl Filey {
    /// The name under which the file arrives in another directory: its file
    /// name, or the whole path where it has none.
    pub open spec fn carried_name(self) -> Seq<char> {
        match file_name_of(self@) {
            Some(name) => name,
            None => self@,
        }
    }

    /// Whether `plan` is a plan for bringing the file to `destination` that
    /// fits some state of the file system: some kind of the destination,
    /// and something or nothing at the place of arrival.
    pub open spec fn transfers(
        self,
        how: Transfer,
        destination: Seq<char>,
        plan: Result<Request, Error>,
    ) -> bool {
        exists|kind: Option<FileTypes>, taken: Option<FileTypes>|
            (kind != Some(FileTypes::Directory) ==> taken == kind) && plan_of(plan)
                == #[trigger] RequestView::claim(
                how,
                self@,
                arrival(self.carried_name(), destination, kind),
                taken,
            )
    }

    /// Constructs a new Filey.
    pub fn new(path: &str) -> (file: Self)
        ensures
            file@ == path@,
    {
        Filey { path: String::from_str(path) }
    }

    /// Returns path to the file.
    pub fn path(&self) -> (path: &String)
        ensures
            path@ == self@,
    {
        &self.path
    }

    /// The path as an owned string.
    pub fn to_string(&self) -> (text: String)
        ensures
            text@ == self@,
    {
        self.path.clone()
    }

    /// Returns the file name or the directory name, or `None` where the
    /// path ends in `..` or is a root.
    pub fn file_name(&self) -> (name: Option<String>)
        ensures
            text_of(name) == file_name_of(self@),
    {
        system::file_name(self.path.as_str())
    }

    /// Returns the stem portion of the file name, or `None` where there is
    /// no file name.
    pub fn file_stem(&self) -> (stem: Option<String>)
        ensures
            text_of(stem) == file_stem_of(self@),
    {
        system::file_stem(self.path.as_str())
    }

    /// Returns the parent directory, or `None` where the path is a root or
    /// empty.
    pub fn parent_dir(&self) -> (parent: Option<String>)
        ensures
            text_of(parent) == parent_of(self@),
    {
        system::parent(self.path.as_str())
    }

    /// Returns the type of the file, as the file system tells it now.
    /// Nothing at the path is the failure `NotFound`.
    pub fn file_type(&self) -> (outcome: Result<FileTypes, Error>)
        ensures
            outcome matches Err(e) ==> e@ == (ErrorView::NotFound { path: self@ }),
    {
        FileTypes::found(FileTypes::which(self.path.as_str()), self.path.as_str())
    }

    /// Shows a size that was measured for a file of kind `kind`.
    pub fn style_size(kind: FileTypes, size: u64) -> (text: String)
        ensures
            text@ == styled_size(kind, size as nat),
    {
        match kind {
            FileTypes::Directory => decimal_string(size),
            _ => UnitOfInfo::format(size),
        }
    }

    /// Shows the size `size`, which the caller measured for this file, as
    /// befits the kind that the file has now.
    pub fn size_styled(&self, size: u64) -> (outcome: Result<String, Error>)
        ensures
            match outcome {
                Ok(text) => exists|kind: FileTypes| text@ == styled_size(kind, size as nat),
                Err(e) => e@ == (ErrorView::NotFound { path: self@ }),
            },
    {
        match self.file_type() {
            Ok(kind) => {
                let text = Self::style_size(kind, size);
                assert(text@ == styled_size(kind, size as nat));
                Ok(text)
            },
            Err(e) => Err(e),
        }
    }

    /// Returns the handle on the absolute form of the path; see
    /// [`PathNormalizer::absolutize`].
    pub fn absolutized(&self, normalizer: &PathNormalizer) -> (outcome: Result<Filey, Error>)
        ensures
            match outcome {
                Ok(file) => normalizer@.absolutize(self@) == Ok::<Seq<char>, ErrorView>(file@)
                    && is_absolute(file@),
                Err(e) => normalizer@.absolutize(self@) == Err::<Seq<char>, ErrorView>(e@),
            },
    {
        match normalizer.absolutize(self.path.as_str()) {
            Ok(path) => Ok(Filey { path }),
            Err(e) => Err(e),
        }
    }

    /// Makes the path absolute in place. On failure the handle is left as
    /// it was.
    pub fn absolutize(&mut self, normalizer: &PathNormalizer) -> (outcome: Result<&mut Self, Error>)
        ensures
            match outcome {
                Ok(same) => normalizer@.absolutize(old(self)@) == Ok::<Seq<char>, ErrorView>(same@)
                    && is_absolute(same@) && *final(self) == *final(same),
                Err(e) => normalizer@.absolutize(old(self)@) == Err::<Seq<char>, ErrorView>(e@)
                    && final(self)@ == old(self)@,
            },
    {
        match normalizer.absolutize(self.path.as_str()) {
            Ok(path) => {
                self.path = path;
                Ok(self)
            },
            Err(e) => Err(e),
        }
    }

    /// Returns the handle on the path with a leading tilde replaced by the
    /// home directory.
    pub fn expand_user(&self, normalizer: &PathNormalizer) -> (outcome: Result<Filey, Error>)
        ensures
            match outcome {
                Ok(file) => normalizer@.expand_user(self@) == Ok::<Seq<char>, ErrorView>(file@),
                Err(e) => normalizer@.expand_user(self@) == Err::<Seq<char>, ErrorView>(e@),
            },
    {
        match normalizer.expand_user(self.path.as_str()) {
            Ok(path) => Ok(Filey { path }),
            Err(e) => Err(e),
        }
    }

    /// Returns the path's text with a leading home directory replaced by a
    /// tilde.
    pub fn contract_user(&self, normalizer: &PathNormalizer) -> (outcome: Result<String, Error>)
        ensures
            outcome_of(outcome) == normalizer@.contract_user(self@),
    {
        normalizer.contract_user(self.path.as_str())
    }

    /// Another name for [`Filey::contract_user`].
    pub fn close_user(&self, normalizer: &PathNormalizer) -> (outcome: Result<String, Error>)
        ensures
            outcome_of(outcome) == normalizer@.contract_user(self@),
    {
        self.contract_user(normalizer)
    }

    /// Returns the handle on the real path: absolute, with every symbolic
    /// link followed, as the file system resolves it now. A failure names
    /// this path.
    pub fn canonicalized(&self) -> (outcome: Result<Filey, Error>)
        ensures
            match outcome {
                Ok(file) => is_absolute(file@),
                Err(e) => exists|failure: OsFailureView|
                    e@ == ErrorView::of_failure(failure, self@),
            },
    {
        match system::canonicalize(self.path.as_str()) {
            Ok(path) => Ok(Filey { path }),
            Err(failure) => {
                let e = Error::from_failure(failure, self.path.as_str());
                assert(e@ == ErrorView::of_failure(failure@, self@));
                Err(e)
            },
        }
    }

    /// Replaces the path by the real path in place. On failure the handle
    /// is left as it was.
    pub fn canonicalize(&mut self) -> (outcome: Result<&mut Self, Error>)
        ensures
            match outcome {
                Ok(same) => is_absolute(same@) && *final(self) == *final(same),
                Err(e) => final(self)@ == old(self)@ && exists|failure: OsFailureView|
                    e@ == ErrorView::of_failure(failure, old(self)@),
            },
    {
        match system::canonicalize(self.path.as_str()) {
            Ok(path) => {
                self.path = path;
                Ok(self)
            },
            Err(failure) => {
                let e = Error::from_failure(failure, self.path.as_str());
                assert(e@ == ErrorView::of_failure(failure@, self@));
                Err(e)
            },
        }
    }

    /// Plans the creation of a file of the given kind at the path. The
    /// caller carries the request out.
    pub fn create(&self, kind: FileTypes) -> (request: Request)
        ensures
            request@ == RequestView::create(self@, kind),
    {
        Request::create(self.path.as_str(), kind)
    }

    /// Plans the creation of an empty file at the path.
    pub fn create_file(&self) -> (request: Request)
        ensures
            request@ == (RequestView::CreateFile { path: self@ }),
    {
        self.create(FileTypes::File)
    }

    /// Plans the creation of a directory at the path, with the directories
    /// above it that are missing.
    pub fn create_dir(&self) -> (request: Request)
        ensures
            request@ == (RequestView::CreateDirectoryTree { path: self@ }),
    {
        self.create(FileTypes::Directory)
    }

    /// Plans the removal of what is at the path now: a directory goes with
    /// all that is in it. In the contract `kind` is what the file system
    /// says of the path.
    pub fn remove(&self) -> (plan: Result<Request, Error>)
        ensures
            exists|kind: Option<FileTypes>| plan_of(plan) == RequestView::remove(self@, kind),
    {
        let kind = FileTypes::which(self.path.as_str());
        let plan = Request::remove(self.path.as_str(), kind);
        assert(plan_of(plan) == RequestView::remove(self@, kind));
        plan
    }

    /// Plans the measuring of what is at the path now: the entries of a
    /// directory are counted, of anything else the length is asked for. In
    /// the contract `kind` is what the file system says of the path.
    pub fn size(&self) -> (plan: Result<Request, Error>)
        ensures
            exists|kind: Option<FileTypes>| plan_of(plan) == RequestView::size(self@, kind),
    {
        let kind = FileTypes::which(self.path.as_str());
        let plan = Request::size(self.path.as_str(), kind);
        assert(plan_of(plan) == RequestView::size(self@, kind));
        plan
    }

    /// Plans the listing of the directory at the path. In the contract
    /// `kind` is what the file system says of the path.
    pub fn list(&self) -> (plan: Result<Request, Error>)
        ensures
            exists|kind: Option<FileTypes>| plan_of(plan) == RequestView::list(self@, kind),
    {
        let kind = FileTypes::which(self.path.as_str());
        let plan = Request::list(self.path.as_str(), kind);
        assert(plan_of(plan) == RequestView::list(self@, kind));
        plan
    }

    /// Plans the reading of the file's mode, from which
    /// [`Permissions::from_mode`](crate::permissions::Permissions::from_mode)
    /// tells the rights.
    pub fn permissions(&self) -> (request: Request)
        ensures
            request@ == (RequestView::QueryMode { path: self@ }),
    {
        Request::QueryMode { path: self.path.clone() }
    }

    /// Plans bringing the file to `destination` in the given way. Where the
    /// destination is a directory now, the file arrives inside it under its
    /// own name; else it arrives at the destination itself. Where something
    /// is at the place of arrival already, the plan fails and names it.
    ///
    /// In the contract `kind` is what the file system says of the
    /// destination and `taken` what it says of the place of arrival; the
    /// two are one question where the destination is no directory.
    pub fn transfer(&self, how: Transfer, destination: &str) -> (plan: Result<Request, Error>)
        ensures
            self.transfers(how, destination@, plan),
    {
        let kind = FileTypes::which(destination);
        let name = match self.file_name() {
            Some(name) => name,
            None => self.path.clone(),
        };
        let to = Request::arrival(name.as_str(), destination, kind);
        let taken = match kind {
            Some(FileTypes::Directory) => FileTypes::which(to.as_str()),
            _ => kind,
        };
        let plan = Request::claim(how, self.path.as_str(), to, taken);
        assert(plan_of(plan) == RequestView::claim(
            how,
            self@,
            arrival(self.carried_name(), destination@, kind),
            taken,
        ));
        plan
    }

    /// Plans moving the file to `destination`; see [`Filey::transfer`].
    pub fn move_to(&self, destination: &str) -> (plan: Result<Request, Error>)
        ensures
            self.transfers(Transfer::Move, destination@, plan),
    {
        self.transfer(Transfer::Move, destination)
    }

    /// Plans copying the file's contents to `destination`; see
    /// [`Filey::transfer`].
    pub fn copy(&self, destination: &str) -> (plan: Result<Request, Error>)
        ensures
            self.transfers(Transfer::Copy, destination@, plan),
    {
        self.transfer(Transfer::Copy, destination)
    }

    /// Plans a symbolic link at `destination` that leads to the file; see
    /// [`Filey::transfer`].
    pub fn symlink(&self, destination: &str) -> (plan: Result<Request, Error>)
        ensures
            self.transfers(Transfer::SymbolicLink, destination@, plan),
    {
        self.transfer(Transfer::SymbolicLink, destination)
    }

    /// Plans a hard link to the file at `destination`; see
    /// [`Filey::transfer`].
    pub fn hard_link(&self, destination: &str) -> (plan: Result<Request, Error>)
        ensures
            self.transfers(Transfer::HardLink, destination@, plan),
    {
        self.transfer(Transfer::HardLink, destination)
    }

    /// Whether anything is at the path now, be it a symbolic link whose
    /// target is missing: whether [`FileTypes::which`] finds a kind.
    pub fn is_present(&self) -> (found: bool) {
        FileTypes::which(self.path.as_str()).is_some()
    }

    /// Whether the path leads to a regular file now.
    pub fn is_file(&self) -> (regular: bool) {
        system::is_file(self.path.as_str())
    }

    /// Whether the path leads to a directory now.
    pub fn is_dir(&self) -> (directory: bool) {
        system::is_dir(self.path.as_str())
    }

    /// Whether the path itself is a symbolic link now.
    pub fn is_symlink(&self) -> (link: bool) {
        system::is_symlink(self.path.as_str())
    }
}

impl Clone for Filey {
    fn clone(&self) -> (copy: Self)
        ensures
            copy@ == self@,
    {
        Filey { path: self.path.clone() }
    }
}

impl PartialEq for Filey {
    fn eq(&self, other: &Self) -> (equal: bool) {
        self.path == other.path
    }
}

impl vstd::std_specs::cmp::PartialEqSpecImpl for Filey {
    open spec fn obeys_eq_spec() -> bool {
        true
    }

    open spec fn eq_spec(&self, other: &Self) -> bool {
        self@ == other@
    }
}

} // verus!
