//! A run of the tool: one upload after the other, in the order given.

use vstd::prelude::*;
use vstd::string::*;
use crate::config::{setting_text, text_or_empty, Committer, Config};
use crate::error::{ArgumentError, UploadError};
use crate::path::suffix;
use crate::upload::{base64_fits, finish_upload, is_outcome_for, is_request_for, UploadRequest};
use crate::url::{build_repo_url, is_short_id, new_object_url, object_url, repo_url};

verus! {

/// What is sent for one image, and where.
#[derive(Debug, Clone, PartialEq, Eq)]
pub struct Upload {
    pub url: String,
    pub request: UploadRequest,
}

/// The state of a run: what every upload needs, the paths of the images, and
/// how many of them are done.
#[derive(Debug, Clone, PartialEq, Eq)]
pub struct Uploader {
    pub repo_url: String,
    pub proxy: String,
    pub committer: Committer,
    pub paths: Vec<String>,
    pub done: usize,
}

/// A run, as plain values.
pub struct UploaderView {
    pub repo_url: Seq<char>,
    pub proxy: Seq<char>,
    pub committer: (Seq<char>, Seq<char>),
    pub paths: Seq<Seq<char>>,
    pub done: nat,
}

impl UploaderView {
    /// The path of the image that is uploaded next, if one is left.
    pub open spec fn current(self) -> Option<Seq<char>> {
        if self.done < self.paths.len() {
            Some(self.paths[self.done as int])
        } else {
            None
        }
    }

    /// The run with the current image done.
    pub open spec fn advanced(self) -> UploaderView {
        if self.done < self.paths.len() {
            UploaderView { done: self.done + 1, ..self }
        } else {
            self
        }
    }
}

/// The paths as sequences of characters.
pub open spec fn path_views(paths: Seq<String>) -> Seq<Seq<char>> {
    paths.map_values(|p: String| p@)
}

impl View for Uploader {
    type V = UploaderView;

    open spec fn view(&self) -> UploaderView {
        UploaderView {
            repo_url: self.repo_url@,
            proxy: self.proxy@,
            committer: self.committer@,
            paths: path_views(self.paths@),
            done: self.done as nat,
        }
    }
}

impl Uploader {
    /// A run over `paths` under `config`, with no image done yet. Without a
    /// path there is no run.
    pub fn new(config: &Config, paths: Vec<String>) -> (out: Result<Uploader, ArgumentError>)
        ensures
            out is Err <==> paths@.len() == 0,
            out matches Ok(uploader) ==> uploader@ == (UploaderView {
                repo_url: repo_url(
                    config.repo.owner@,
                    config.repo.repo@,
                    text_or_empty(config.repo.path),
                ),
                proxy: text_or_empty(config.github_proxy),
                committer: config.committer@,
                paths: path_views(paths@),
                done: 0,
            }),
    {
        if paths.len() == 0 {
            return Err(ArgumentError);
        }
        Ok(
            Uploader {
                repo_url: build_repo_url(&config.repo),
                proxy: String::from_str(setting_text(&config.github_proxy)),
                committer: Committer {
                    name: config.committer.name.clone(),
                    email: config.committer.email.clone(),
                },
                paths,
                done: 0,
            },
        )
    }

    /// The path of the image to upload next: the first that is not done.
    /// `None` once every image is done.
    pub fn current(&self) -> (out: Option<&str>)
        ensures
            match out {
                Some(path) => self@.current() == Some(path@),
                None => self@.current() is None,
            },
    {
        if self.done < self.paths.len() {
            Some(self.paths[self.done].as_str())
        } else {
            None
        }
    }

    /// What to send for the current image, whose contents are `image`: the
    /// request for it, and an address under the base URL with a fresh
    /// identifier and the suffix of the image's path. `None` once every image
    /// is done.
    pub fn prepare(&self, image: &[u8]) -> (out: Option<Upload>)
        requires
            base64_fits(image@.len()),
        ensures
            match self@.current() {
                Some(path) => out matches Some(upload) && is_request_for(
                    upload.request,
                    self.committer,
                    image@,
                ) && suffix(upload.url@) == suffix(path) && exists|id: Seq<char>|
                    is_short_id(id) && upload.url@ == object_url(self@.repo_url, id, path),
                None => out is None,
            },
    {
        match self.current() {
            Some(path) => Some(
                Upload {
                    url: new_object_url(self.repo_url.as_str(), path),
                    request: UploadRequest::new(&self.committer, image),
                },
            ),
            None => None,
        }
    }

    /// The run after the request to `url` for the current image was answered
    /// with `response`. Where the answer holds a download URL, the image is
    /// done and the line to print for it comes with the run; where it holds
    /// none, the run is over, and only the error is left.
    pub fn finish(self, url: &str, response: &str) -> (out: Result<(Uploader, String), UploadError>)
        ensures
            match out {
                Ok((next, line)) => next@ == self@.advanced() && is_outcome_for(
                    Ok(line),
                    self@.proxy,
                    url@,
                    response@,
                ),
                Err(e) => is_outcome_for(Err(e), self@.proxy, url@, response@),
            },
    {
        match finish_upload(self.proxy.as_str(), url, response) {
            Ok(line) => {
                let done: usize = if self.done < self.paths.len() {
                    self.done + 1
                } else {
                    self.done
                };
                Ok(
                    (
                        Uploader {
                            repo_url: self.repo_url,
                            proxy: self.proxy,
                            committer: self.committer,
                            paths: self.paths,
                            done,
                        },
                        line,
                    ),
                )
            },
            Err(e) => Err(e),
        }
    }
}

} // verus!
