//! The state every request handler shares, and the decision to serve a download.
use crate::error::{ModeError, QrSyncError};
use crate::reference::{decode_reference, decodes_to, outcome_view, reference_of, ReferenceError};
use crate::routes::Page;
use std::path::PathBuf;
use vstd::prelude::*;

verus! {

/// The state of a session that request handlers share: the file offered in send mode (none in
/// receive mode) and the directory files are read from and written to. It does not change
/// once built.
#[derive(Debug)]
pub struct State {
    file_name: Option<String>,
    root_dir: PathBuf,
}

/// The answer to a download request.
#[derive(Clone, Debug)]
pub enum DownloadReply {
    /// Send the bytes of `file_name`, read from the root directory, with status 200 and
    /// `disposition` as the `Content-Disposition` header.
    Serve { file_name: String, disposition: String },
    /// Redirect the client to a page.
    Redirect(Page),
}

/// The view of an optional file name.
pub open spec fn name_view(n: Option<String>) -> Option<Seq<char>> {
    match n {
        Some(s) => Some(s@),
        None => None,
    }
}

/// The view of a result that carries a file name.
pub open spec fn served_view(r: Result<String, QrSyncError>) -> Result<Seq<char>, QrSyncError> {
    match r {
        Ok(s) => Ok(s@),
        Err(e) => Err(e),
    }
}

/// What a download request gets, once its reference is decoded: a reference that does not
/// decode fails as such; otherwise the decoded name must be the selected file, and a session
/// with no selected file serves nothing.
pub open spec fn download_decision(
    selected: Option<Seq<char>>,
    decoded: Result<Seq<char>, ReferenceError>,
) -> Result<Seq<char>, QrSyncError> {
    match decoded {
        Err(e) => Err(QrSyncError::Reference(e)),
        Ok(name) => match selected {
            None => Err(QrSyncError::Mode(ModeError::NotSendMode)),
            Some(file) => if file == name {
                Ok(file)
            } else {
                Err(QrSyncError::Mode(ModeError::Mismatch))
            },
        },
    }
}

/// The `Content-Disposition` header of a download: an attachment under the file's own name.
pub open spec fn disposition_of(name: Seq<char>) -> Seq<char> {
    "attachment; filename=\""@ + name + "\""@
}

/// The value of the `Content-Disposition` header that offers `name` as an attachment.
pub fn content_disposition(name: &str) -> (r: String)
    ensures
        r@ == disposition_of(name@),
{
    let mut value = "attachment; filename=\"".to_owned();
    value.append(name);
    value.append("\"");
    value
}

impl State {
    /// The shared state of a session.
    pub fn new(file_name: Option<String>, root_dir: PathBuf) -> (r: State)
        ensures
            r.selected() == name_view(file_name),
            r.spec_root_dir() == root_dir,
    {
        State { file_name, root_dir }
    }

    /// The file offered for download, if any.
    pub closed spec fn selected(&self) -> Option<Seq<char>> {
        name_view(self.file_name)
    }

    /// The directory files are read from and written to.
    pub closed spec fn spec_root_dir(&self) -> PathBuf {
        self.root_dir
    }

    /// The directory files are read from and written to.
    pub fn root_dir(&self) -> (r: &PathBuf)
        ensures
            *r == self.spec_root_dir(),
    {
        &self.root_dir
    }

    /// Decides a download request from its decoded reference: the name of the file to serve,
    /// or why nothing is served.
    pub fn decide_download(&self, decoded: Result<String, ReferenceError>) -> (r: Result<
        String,
        QrSyncError,
    >)
        ensures
            served_view(r) == download_decision(self.selected(), outcome_view(decoded)),
    {
        match decoded {
            Err(e) => Err(QrSyncError::Reference(e)),
            Ok(name) => match &self.file_name {
                None => Err(QrSyncError::Mode(ModeError::NotSendMode)),
                Some(file) => if *file == name {
                    Ok(name)
                } else {
                    Err(QrSyncError::Mode(ModeError::Mismatch))
                },
            },
        }
    }

    /// Decides a download request for `reference`: the name of the file to serve, which is the
    /// selected file, exactly when `reference` is that file's reference. Without a selected
    /// file nothing is served, whatever the reference.
    pub fn download_file(&self, reference: &str) -> (r: Result<String, QrSyncError>)
        ensures
            exists|decoded: Result<Seq<char>, ReferenceError>|
                decodes_to(reference@, decoded) && served_view(r) == download_decision(
                    self.selected(),
                    decoded,
                ),
            r is Ok <==> (self.selected() matches Some(file) && reference@ == reference_of(file)),
            r matches Ok(name) ==> self.selected() == Some(name@),
            self.selected() is None ==> r is Err,
            r matches Err(QrSyncError::Reference(e)) ==> decodes_to(reference@, Err(e)),
            r == Err::<String, QrSyncError>(QrSyncError::Mode(ModeError::NotSendMode)) ==> (
            self.selected() is None && exists|name: Seq<char>| decodes_to(reference@, Ok(name))),
            r == Err::<String, QrSyncError>(QrSyncError::Mode(ModeError::Mismatch)) ==> exists|
                name: Seq<char>,
            | decodes_to(reference@, Ok(name)) && self.selected() != Some(name),
    {
        let decoded = decode_reference(reference);
        proof {
            if let Some(file) = self.selected() {
                if reference@ == reference_of(file) {
                    assert(outcome_view(decoded) == Ok::<Seq<char>, ReferenceError>(file));
                }
            }
        }
        self.decide_download(decoded)
    }

    /// Answers a download request for `reference`: the selected file, offered as an attachment
    /// under its own name, when `reference` is that file's reference; a redirect to the error
    /// page otherwise, and always when no file is selected.
    pub fn download_reply(&self, reference: &str) -> (r: DownloadReply)
        ensures
            match r {
                DownloadReply::Serve { file_name, disposition } => {
                    &&& self.selected() == Some(file_name@)
                    &&& reference@ == reference_of(file_name@)
                    &&& disposition@ == disposition_of(file_name@)
                },
                DownloadReply::Redirect(page) => {
                    &&& page == Page::Error
                    &&& !(self.selected() matches Some(file) && reference@ == reference_of(file))
                },
            },
            self.selected() is None ==> r == DownloadReply::Redirect(Page::Error),
    {
        match self.download_file(reference) {
            Ok(file_name) => {
                let disposition = content_disposition(file_name.as_str());
                DownloadReply::Serve { file_name, disposition }
            },
            Err(_) => DownloadReply::Redirect(Page::Error),
        }
    }
}

} // verus!
