//! The addresses that the tool composes.

use vstd::prelude::*;
use vstd::string::*;
use crate::config::{setting_text, text_or_empty, Repo};
use crate::path::{
    extension, get_suffix, lemma_extension_of_dotted, lemma_extension_of_plain,
    lemma_extension_shape, suffix,
};
use crate::text::{chars_of, lemma_without_trailing, len_without_trailing, without_trailing};

verus! {

/// The contents API of a repository starts here.
pub const API_ROOT: &'static str = "https://api.github.com/repos/";

/// The address under which the contents of a directory of a repository are
/// created: the API root, the owner, the repository, `contents` and the
/// directory, with no `/` left at the end.
pub open spec fn repo_url(owner: Seq<char>, repo: Seq<char>, path: Seq<char>) -> Seq<char> {
    without_trailing(API_ROOT@ + owner + "/"@ + repo + "/contents/"@ + path, '/')
}

/// The base URL never ends in `/`, whatever the owner, the repository and the
/// directory are, and it is never empty.
pub proof fn lemma_repo_url_has_no_trailing_slash(
    owner: Seq<char>,
    repo: Seq<char>,
    path: Seq<char>,
)
    ensures
        repo_url(owner, repo, path).len() > 0,
        repo_url(owner, repo, path).last() != '/',
{
    let full = API_ROOT@ + owner + "/"@ + repo + "/contents/"@ + path;
    reveal_strlit("https://api.github.com/repos/");
    assert(full[0] == 'h');
    lemma_without_trailing(full, '/');
}

/// The base URL of `repo`. It never ends in `/`, whatever the directory is.
pub fn build_repo_url(repo: &Repo) -> (url: String)
    ensures
        url@ == repo_url(repo.owner@, repo.repo@, text_or_empty(repo.path)),
        url@.len() > 0,
        url@.last() != '/',
{
    let mut full = String::from_str(API_ROOT);
    full.append(repo.owner.as_str());
    full.append("/");
    full.append(repo.repo.as_str());
    full.append("/contents/");
    full.append(setting_text(&repo.path));
    let chars = chars_of(full.as_str());
    let kept: usize = len_without_trailing(&chars, '/');
    proof {
        lemma_repo_url_has_no_trailing_slash(repo.owner@, repo.repo@, text_or_empty(repo.path));
    }
    String::from_str(full.as_str().substring_char(0, kept))
}

/// Whether `c` is one of the 58 characters that identifiers are written in:
/// the digits but `0`, and the letters but `l`, `I` and `O`.
pub open spec fn is_id_char(c: char) -> bool {
    let v = c as u32;
    ||| 0x31 <= v <= 0x39
    ||| (0x61 <= v <= 0x7A && v != 0x6C)
    ||| (0x41 <= v <= 0x5A && v != 0x49 && v != 0x4F)
}

/// Whether `id` has the form of a generated identifier: 22 characters of
/// the alphabet.
pub open spec fn is_short_id(id: Seq<char>) -> bool {
    &&& id.len() == 22
    &&& forall|i: int| 0 <= i < id.len() ==> is_id_char(#[trigger] id[i])
}

/// The address at which an image is created: the base URL, `/`, the
/// identifier, and the suffix of the image's path.
pub open spec fn object_url(repo_url: Seq<char>, id: Seq<char>, img_path: Seq<char>) -> Seq<char> {
    repo_url + "/"@ + id + suffix(img_path)
}

/// An image keeps its suffix: the object URL under a generated identifier
/// has the suffix of the image's path, whatever the base URL is.
pub proof fn lemma_object_url_keeps_suffix(
    repo_url: Seq<char>,
    id: Seq<char>,
    img_path: Seq<char>,
)
    requires
        is_short_id(id),
    ensures
        suffix(object_url(repo_url, id, img_path)) == suffix(img_path),
{
    reveal_strlit("/");
    let dir = repo_url + "/"@;
    lemma_extension_shape(img_path);
    match extension(img_path) {
        Some(ext) => {
            lemma_extension_of_dotted(dir, id, ext);
            assert(object_url(repo_url, id, img_path) == dir + (id + seq!['.'] + ext));
        },
        None => {
            lemma_extension_of_plain(dir, id);
        },
    }
}

/// The object URL for the image at `img_path` under the name `id`.
pub fn build_object_url(repo_url: &str, id: &str, img_path: &str) -> (url: String)
    ensures
        url@ == object_url(repo_url@, id@, img_path@),
{
    let mut url = String::from_str(repo_url);
    url.append("/");
    url.append(id);
    url.append(get_suffix(img_path).as_str());
    url
}

/// `ShortUuid::generate` of the `short_uuid` crate, written out: a random
/// UUID in base 58, which always takes 22 characters of the crate's
/// alphabet. Which ones is left open.
#[verifier::external_body]
fn generate_id() -> (id: String)
    ensures
        is_short_id(id@),
{
    short_uuid::ShortUuid::generate().to_string()
}

/// The object URL for the image at `img_path` under a fresh identifier.
pub fn new_object_url(repo_url: &str, img_path: &str) -> (url: String)
    ensures
        exists|id: Seq<char>| is_short_id(id) && url@ == object_url(repo_url@, id, img_path@),
        suffix(url@) == suffix(img_path@),
{
    let id = generate_id();
    proof {
        lemma_object_url_keeps_suffix(repo_url@, id@, img_path@);
    }
    build_object_url(repo_url, id.as_str(), img_path)
}

} // verus!
