//! The configuration record.

use vstd::prelude::*;

verus! {

/// Where the configuration file lies, from the user's home directory.
pub const CONFIG_FILE: &'static str = ".config/pic_to_github.toml";

/// The repository that receives the images.
#[derive(Debug, Clone, PartialEq, Eq)]
pub struct Repo {
    pub owner: String,
    pub repo: String,
    /// The directory inside the repository; absent means its root.
    pub path: Option<String>,
}

/// The identity recorded with every upload.
#[derive(Debug, Clone, PartialEq, Eq)]
pub struct Committer {
    pub name: String,
    pub email: String,
}

impl View for Committer {
    type V = (Seq<char>, Seq<char>);

    /// The name and the address.
    open spec fn view(&self) -> (Seq<char>, Seq<char>) {
        (self.name@, self.email@)
    }
}

/// Everything the tool is told before it starts.
#[derive(Debug, Clone, PartialEq, Eq)]
pub struct Config {
    pub token: String,
    /// Put in front of every download URL that is printed.
    pub github_proxy: Option<String>,
    pub repo: Repo,
    pub committer: Committer,
}

/// The text of an optional setting: empty where it is absent.
pub open spec fn text_or_empty(setting: Option<String>) -> Seq<char> {
    match setting {
        Some(text) => text@,
        None => Seq::empty(),
    }
}

/// The text of an optional setting, empty where it is absent.
pub fn setting_text(setting: &Option<String>) -> (text: &str)
    ensures
        text@ == text_or_empty(*setting),
{
    match setting {
        Some(text) => text.as_str(),
        None => {
            proof {
                reveal_strlit("");
            }
            ""
        },
    }
}

} // verus!
