//! Where the releases of the upstream repository are found.

use vstd::prelude::*;
use vstd::string::*;

verus! {

/// The address below which GitHub serves the repositories.
pub const API_ROOT: &'static str = "https://api.github.com/repos";

/// The address that serves the release tagged `tag` of the repository
/// `repo_name` of `owner_name`.
pub open spec fn release_address(owner_name: Seq<char>, repo_name: Seq<char>, tag: Seq<char>) -> Seq<
    char,
> {
    "https://api.github.com/repos"@ + "/"@ + owner_name + "/"@ + repo_name + "/releases/tags/"@
        + tag
}

/// A repository on GitHub, named by its owner and its own name.
#[derive(Debug)]
pub struct GithubClient {
    owner_name: String,
    repo_name: String,
}

impl GithubClient {
    /// The name of the repository's owner.
    pub closed spec fn owner_name(&self) -> Seq<char> {
        self.owner_name@
    }

    /// The name of the repository.
    pub closed spec fn repo_name(&self) -> Seq<char> {
        self.repo_name@
    }

    /// A client for the repository `repo_name` of `owner_name`.
    pub fn new(owner_name: &str, repo_name: &str) -> (client: GithubClient)
        ensures
            client.owner_name() == owner_name@,
            client.repo_name() == repo_name@,
    {
        GithubClient { owner_name: owner_name.to_owned(), repo_name: repo_name.to_owned() }
    }

    /// The address from which the release tagged `tag` is fetched.
    pub fn release_url(&self, tag: &str) -> (url: String)
        ensures
            url@ == release_address(self.owner_name(), self.repo_name(), tag@),
    {
        let mut url = API_ROOT.to_owned();
        url.append("/");
        url.append(self.owner_name.as_str());
        url.append("/");
        url.append(self.repo_name.as_str());
        url.append("/releases/tags/");
        url.append(tag);
        url
    }
}

} // verus!
