//! The publisher's settings, their builder, and the request that creates the
//! remote repository.

use std::path::PathBuf;
use vstd::prelude::*;
use vstd::string::StringExecFns;

verus! {

/// `std::path::PathBuf`, carried through as an opaque value.
#[verifier::external_type_specification]
#[verifier::external_body]
pub struct ExPathBuf(std::path::PathBuf);

/// What a publisher is made of, as mathematical values.
pub struct Settings {
    pub host: Seq<char>,
    pub user: Seq<char>,
    pub token: Seq<char>,
    pub sshuser: Seq<char>,
    pub workdir: Seq<char>,
    pub files: Seq<PathBuf>,
}

/// The settings that a fresh builder holds for `username` and `token`.
pub open spec fn default_settings(username: Seq<char>, token: Seq<char>) -> Settings {
    Settings {
        host: "github.com"@,
        user: username,
        token: token,
        sshuser: "git"@,
        workdir: ".gistit"@,
        files: Seq::empty(),
    }
}

/// Address of the API endpoint that creates gists on `host`.
pub open spec fn api_uri_of(host: Seq<char>) -> Seq<char> {
    "https://api."@ + host + "/gists"@
}

/// Value of the `Authorization` header that carries `token`.
pub open spec fn authorization_of(token: Seq<char>) -> Seq<char> {
    "token "@ + token
}

/// Address over which the gist `gist_id` on `host` is pushed as `sshuser`:
/// the user, `@`, the host, `:`, the id and `.git`.
pub open spec fn ssh_url_of(sshuser: Seq<char>, host: Seq<char>, gist_id: Seq<char>) -> Seq<char> {
    sshuser + "@"@ + host + ":"@ + gist_id + ".git"@
}

/// The description of a created gist, as the API returns it.
#[derive(Debug)]
pub struct ApiResponse {
    pub id: String,
    pub commits_url: String,
    pub forks_url: String,
    pub git_pull_url: String,
    pub git_push_url: String,
    pub html_url: String,
    pub public: bool,
}

/// A publisher: where gists are created, as whom, and where clones live.
#[derive(Debug)]
pub struct Gist {
    host: String,
    user: String,
    token: String,
    sshuser: String,
    workdir: String,
    files: Vec<PathBuf>,
}

impl View for Gist {
    type V = Settings;

    closed spec fn view(&self) -> Settings {
        Settings {
            host: self.host@,
            user: self.user@,
            token: self.token@,
            sshuser: self.sshuser@,
            workdir: self.workdir@,
            files: self.files@,
        }
    }
}

impl Gist {
    /// Address of the API endpoint that creates gists.
    pub fn api_uri(&self) -> (uri: String)
        ensures
            uri@ == api_uri_of(self@.host),
    {
        let uri = String::from_str("https://api.").concat(self.host.as_str()).concat("/gists");
        uri
    }

    /// Value of the `Authorization` header of a creation request.
    pub fn authorization(&self) -> (header: String)
        ensures
            header@ == authorization_of(self@.token),
    {
        String::from_str("token ").concat(self.token.as_str())
    }

    /// Address over which the gist `gist_id` is pushed: the push user at
    /// the publisher's host. A NUL character in the id is still there in the
    /// address.
    pub fn sshurl(&self, gist_id: &str) -> (url: String)
        ensures
            url@ == ssh_url_of(self@.sshuser, self@.host, gist_id@),
            gist_id@.contains('\0') ==> url@.contains('\0'),
    {
        let url = self.sshuser.clone().concat("@").concat(self.host.as_str()).concat(":").concat(
            gist_id,
        ).concat(".git");
        proof {
            if gist_id@.contains('\0') {
                lemma_ssh_url_keeps_nul(self@.sshuser, self@.host, gist_id@);
            }
        }
        url
    }

    /// Host on which gists are created.
    pub fn host(&self) -> (host: &str)
        ensures
            host@ == self@.host,
    {
        self.host.as_str()
    }

    /// Account that owns the created gists.
    pub fn user(&self) -> (user: &str)
        ensures
            user@ == self@.user,
    {
        self.user.as_str()
    }

    /// Directory, below the home directory, that holds the clones.
    pub fn workdir(&self) -> (workdir: &str)
        ensures
            workdir@ == self@.workdir,
    {
        self.workdir.as_str()
    }

    /// Number of files that are to be published.
    pub fn file_count(&self) -> (count: usize)
        ensures
            count == self@.files.len(),
    {
        self.files.len()
    }

    /// The `i`-th file that is to be published.
    pub fn file(&self, i: usize) -> (file: Option<&PathBuf>)
        ensures
            i < self@.files.len() ==> file == Some(&self@.files[i as int]),
            i >= self@.files.len() ==> file.is_none(),
    {
        if i < self.files.len() {
            Some(&self.files[i])
        } else {
            None
        }
    }
}

/// Collects a publisher's settings.
#[derive(Debug, Clone)]
pub struct GistBuilder {
    host: String,
    user: String,
    token: String,
    sshuser: String,
    workdir: String,
    files: Vec<PathBuf>,
}

impl View for GistBuilder {
    type V = Settings;

    closed spec fn view(&self) -> Settings {
        Settings {
            host: self.host@,
            user: self.user@,
            token: self.token@,
            sshuser: self.sshuser@,
            workdir: self.workdir@,
            files: self.files@,
        }
    }
}

/// `<PathBuf as Clone>::clone`: the copy is the same path.
#[verifier::external_body]
fn clone_path(path: &PathBuf) -> (copy: PathBuf)
    ensures
        copy == *path,
{
    path.clone()
}

/// Copies a list of paths, one by one.
fn clone_paths(paths: &Vec<PathBuf>) -> (copy: Vec<PathBuf>)
    ensures
        copy@ == paths@,
{
    let mut copy: Vec<PathBuf> = Vec::new();
    let mut i: usize = 0;
    while i < paths.len()
        invariant
            i <= paths.len(),
            copy@ == paths@.take(i as int),
        decreases paths.len() - i,
    {
        copy.push(clone_path(&paths[i]));
        proof {
            assert(paths@.take(i + 1) == paths@.take(i as int).push(paths@[i as int]));
        }
        i = i + 1;
    }
    proof {
        assert(paths@.take(paths@.len() as int) == paths@);
    }
    copy
}

impl GistBuilder {
    /// A builder for `username` and `token`, with the public host, the `git`
    /// account for pushes, the default working directory and no files.
    pub fn new(username: &str, token: &str) -> (builder: GistBuilder)
        ensures
            builder@ == default_settings(username@, token@),
    {
        GistBuilder {
            host: String::from_str("github.com"),
            user: String::from_str(username),
            token: String::from_str(token),
            sshuser: String::from_str("git"),
            workdir: String::from_str(".gistit"),
            files: Vec::new(),
        }
    }

    /// Replaces the host and changes nothing else.
    pub fn with_host(&mut self, host: String) -> (builder: &mut Self)
        ensures
            builder@ == (Settings { host: host@, ..old(self)@ }),
            *final(self) == *final(builder),
    {
        self.host = host;
        self
    }

    /// Replaces the files and changes nothing else.
    pub fn with_files(&mut self, files: Vec<PathBuf>) -> (builder: &mut Self)
        ensures
            builder@ == (Settings { files: files@, ..old(self)@ }),
            *final(self) == *final(builder),
    {
        self.files = files;
        self
    }

    /// The publisher with the settings collected so far.
    pub fn finalize(&self) -> (gist: Gist)
        ensures
            gist@ == self@,
    {
        Gist {
            host: self.host.clone(),
            user: self.user.clone(),
            token: self.token.clone(),
            sshuser: self.sshuser.clone(),
            workdir: self.workdir.clone(),
            files: clone_paths(&self.files),
        }
    }
}

/// A NUL character in the gist's id is still there in the address that the
/// gist is pushed over.
pub proof fn lemma_ssh_url_keeps_nul(sshuser: Seq<char>, host: Seq<char>, gist_id: Seq<char>)
    requires
        gist_id.contains('\0'),
    ensures
        ssh_url_of(sshuser, host, gist_id).contains('\0'),
{
    let i = choose|i: int| 0 <= i < gist_id.len() && gist_id[i] == '\0';
    let prefix = sshuser + "@"@ + host + ":"@;
    let url = ssh_url_of(sshuser, host, gist_id);
    assert(url == prefix + gist_id + ".git"@);
    assert(url[prefix.len() + i] == '\0');
}

} // verus!
