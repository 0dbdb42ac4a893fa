//! The session with the file server: where the connection stands, which
//! folder is the destination, and what an upload into it looks like.

use crate::error::HarvestError;
use crate::listing::{folders_of, list_folders};
use vstd::prelude::*;
use vstd::string::StringExecFns;

verus! {

/// Whether `name` is one of `names`.
fn holds(names: &Vec<String>, name: &str) -> (found: bool)
    ensures
        found == names.deep_view().contains(name@),
{
    let wanted = name.to_owned();
    let mut i: usize = 0;
    while i < names.len()
        invariant
            i <= names.len(),
            wanted@ == name@,
            forall|k: int| 0 <= k < i ==> names.deep_view()[k] != name@,
        decreases names.len() - i,
    {
        if names[i] == wanted {
            assert(names.deep_view()[i as int] == name@);
            return true;
        }
        i += 1;
    }
    false
}

/// How far a session with the file server has come.
#[derive(Clone, Copy, Debug, PartialEq, Eq, Structural)]
pub enum RelayState {
    Disconnected,
    Authenticated,
    FolderSelected,
}

/// How the file server answered the attempt to connect and log in.
#[derive(Clone, Copy, Debug, PartialEq, Eq, Structural)]
pub enum LoginReply {
    /// Connected, and the credentials were accepted.
    Accepted,
    /// Connected, but the credentials were rejected.
    Rejected,
    /// No connection.
    Unreachable,
}

impl LoginReply {
    /// What the attempt comes to: rejected credentials are an `Auth`
    /// failure, a failed connection a `Transport` failure.
    pub open spec fn result(self) -> Result<(), HarvestError> {
        match self {
            LoginReply::Accepted => Ok(()),
            LoginReply::Rejected => Err(HarvestError::Auth),
            LoginReply::Unreachable => Err(HarvestError::Transport),
        }
    }
}

/// One file to store: the folder it is for, which is the one that the
/// session has selected, its name and its whole content.
#[derive(Clone, Debug, PartialEq, Eq)]
pub struct Upload {
    pub folder: String,
    pub file_name: String,
    pub content: String,
}

/// An upload as plain text.
pub struct UploadView {
    pub folder: Seq<char>,
    pub file_name: Seq<char>,
    pub content: Seq<char>,
}

impl View for Upload {
    type V = UploadView;

    open spec fn view(&self) -> UploadView {
        UploadView { folder: self.folder@, file_name: self.file_name@, content: self.content@ }
    }
}

/// The file that carries a problem's accepted source text into a folder:
/// named after the problem, with the text as its whole content.
pub open spec fn upload_for(folder: Seq<char>, pid: Seq<char>, code: Seq<char>) -> UploadView {
    UploadView { folder, file_name: pid + ".cpp"@, content: code }
}

/// What a session knows: its state, the folders last listed, the folder selected.
pub struct RelayView {
    pub state: RelayState,
    pub folders: Seq<Seq<char>>,
    pub folder: Seq<char>,
}

/// The session with the file server: it keeps track of where the connection
/// stands, and decides which folder may be entered.
#[derive(Debug)]
pub struct RelaySession {
    state: RelayState,
    folders: Vec<String>,
    folder: String,
}

impl View for RelaySession {
    type V = RelayView;

    closed spec fn view(&self) -> RelayView {
        RelayView { state: self.state, folders: self.folders.deep_view(), folder: self.folder@ }
    }
}

impl RelayView {
    /// A session that is not connected.
    pub open spec fn disconnected() -> RelayView {
        RelayView { state: RelayState::Disconnected, folders: Seq::empty(), folder: Seq::empty() }
    }

    /// A session that has just logged in.
    pub open spec fn authenticated() -> RelayView {
        RelayView { state: RelayState::Authenticated, folders: Seq::empty(), folder: Seq::empty() }
    }

    /// The session after it entered `folder`: what was listed before does not
    /// hold of the new folder, so it is forgotten.
    pub open spec fn selected(folder: Seq<char>) -> RelayView {
        RelayView { state: RelayState::FolderSelected, folders: Seq::empty(), folder }
    }

    /// The session after a listing of the current folder named `folders`.
    pub open spec fn listed(self, folders: Seq<Seq<char>>) -> RelayView {
        RelayView { folders, ..self }
    }
}

impl RelaySession {
    /// A session that is not connected.
    pub fn new() -> (session: RelaySession)
        ensures
            session@ == RelayView::disconnected(),
    {
        let session = RelaySession {
            state: RelayState::Disconnected,
            folders: Vec::new(),
            folder: String::new(),
        };
        assert(session.folders.deep_view() =~= Seq::empty());
        session
    }

    /// Where the session stands.
    pub fn state(&self) -> (state: RelayState)
        ensures
            state == self@.state,
    {
        self.state
    }

    /// The folders of the last listing.
    pub fn folders(&self) -> (folders: &Vec<String>)
        ensures
            folders.deep_view() == self@.folders,
    {
        &self.folders
    }

    /// The folder that was selected; empty before any was.
    pub fn folder(&self) -> (folder: &str)
        ensures
            folder@ == self@.folder,
    {
        self.folder.as_str()
    }

    /// Takes note of how connecting and logging in went. Accepted
    /// credentials open a fresh session; rejected ones fail with `Auth`, a
    /// failed connection with `Transport`, and both leave the session
    /// disconnected.
    pub fn ftp_login(&mut self, reply: LoginReply) -> (r: Result<(), HarvestError>)
        ensures
            r == reply.result(),
            reply is Accepted ==> final(self)@ == RelayView::authenticated(),
            !(reply is Accepted) ==> final(self)@ == RelayView::disconnected(),
    {
        self.folders = Vec::new();
        self.folder = String::new();
        assert(self.folders.deep_view() =~= Seq::empty());
        match reply {
            LoginReply::Accepted => {
                self.state = RelayState::Authenticated;
                Ok(())
            },
            LoginReply::Rejected => {
                self.state = RelayState::Disconnected;
                Err(HarvestError::Auth)
            },
            LoginReply::Unreachable => {
                self.state = RelayState::Disconnected;
                Err(HarvestError::Transport)
            },
        }
    }

    /// Takes note of a directory listing of the current folder, `None` where
    /// the listing failed, and returns the folders it names. A failed listing
    /// is a `Transport` failure and changes nothing.
    pub fn list(&mut self, listing: Option<Vec<String>>) -> (r: Result<Vec<String>, HarvestError>)
        requires
            old(self)@.state != RelayState::Disconnected,
        ensures
            listing is None ==> r == Err::<Vec<String>, _>(HarvestError::Transport),
            listing is None ==> final(self)@ == old(self)@,
            listing matches Some(lines) ==> ({
                &&& r matches Ok(folders)
                &&& folders.deep_view() == folders_of(lines.deep_view())
                &&& final(self)@ == old(self)@.listed(folders_of(lines.deep_view()))
            }),
    {
        match listing {
            Some(lines) => {
                let folders = list_folders(&lines);
                self.folders = folders.clone();
                proof {
                    vstd::std_specs::vec::vec_clone_deep_view_proof(folders, self.folders);
                }
                Ok(folders)
            },
            None => Err(HarvestError::Transport),
        }
    }

    /// Selects the folder `name` as the destination. It must be among the
    /// folders last listed, else the selection fails with `NotFound` and
    /// changes nothing.
    pub fn select_folder(&mut self, name: &str) -> (r: Result<(), HarvestError>)
        requires
            old(self)@.state != RelayState::Disconnected,
        ensures
            old(self)@.folders.contains(name@) ==> r is Ok && final(self)@ == RelayView::selected(
                name@,
            ),
            !old(self)@.folders.contains(name@) ==> r == Err::<(), _>(HarvestError::NotFound)
                && final(self)@ == old(self)@,
    {
        if holds(&self.folders, name) {
            self.enter(name.to_owned());
            Ok(())
        } else {
            Err(HarvestError::NotFound)
        }
    }

    /// Selects the folder at position `index` of the last listing, and
    /// returns its name. A position past the end fails with `NotFound` and
    /// changes nothing.
    pub fn select_homework(&mut self, index: usize) -> (r: Result<String, HarvestError>)
        requires
            old(self)@.state != RelayState::Disconnected,
        ensures
            index < old(self)@.folders.len() ==> ({
                &&& r matches Ok(name)
                &&& name@ == old(self)@.folders[index as int]
                &&& final(self)@ == RelayView::selected(name@)
            }),
            index >= old(self)@.folders.len() ==> r == Err::<String, _>(HarvestError::NotFound)
                && final(self)@ == old(self)@,
    {
        if index < self.folders.len() {
            let name = self.folders[index].clone();
            assert(name@ == self.folders.deep_view()[index as int]);
            self.enter(name.clone());
            Ok(name)
        } else {
            Err(HarvestError::NotFound)
        }
    }

    fn enter(&mut self, folder: String)
        ensures
            final(self)@ == RelayView::selected(folder@),
    {
        self.state = RelayState::FolderSelected;
        self.folders = Vec::new();
        self.folder = folder;
        assert(self.folders.deep_view() =~= Seq::empty());
    }

    /// The upload that puts a problem's source text into the selected
    /// folder: the file `{pid}.cpp`, holding the text unchanged.
    pub fn ftp_put(&self, pid: &str, code: &str) -> (upload: Upload)
        requires
            self@.state == RelayState::FolderSelected,
        ensures
            upload@ == upload_for(self@.folder, pid@, code@),
    {
        Upload {
            folder: self.folder.clone(),
            file_name: pid.to_owned().concat(".cpp"),
            content: code.to_owned(),
        }
    }
}

} // verus!
