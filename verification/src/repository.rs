//! Repository metadata parsed from a clone URL, and the checks the
//! companion clone tool makes before it runs `git clone`.

use vstd::prelude::*;

use vstd::string::StrSliceExecFns;

use crate::strutil::{spec_contains, str_contains};

verus! {

/// What the fixed Azure DevOps URL pattern captures from a URL, if it
/// matches: owner, project, repository name, and host.
pub uninterp spec fn azure_url_parts(u: Seq<char>) -> Option<
    (Seq<char>, Seq<char>, Seq<char>, Seq<char>),
>;

/// What the fixed GitHub/GitLab URL pattern captures from a URL, if it
/// matches: owner, repository name, host, and top-level domain.
pub uninterp spec fn hosted_url_parts(u: Seq<char>) -> Option<
    (Seq<char>, Seq<char>, Seq<char>, Seq<char>),
>;

/// The captured strings, seen at the ghost level.
pub open spec fn parts_view(r: Option<(String, String, String, String)>) -> Option<
    (Seq<char>, Seq<char>, Seq<char>, Seq<char>),
> {
    match r {
        Option::Some(p) => Option::Some((p.0@, p.1@, p.2@, p.3@)),
        Option::None => Option::None,
    }
}

/// Relies on regex::Regex::captures with a fixed, valid Azure DevOps URL
/// pattern: whether and what it captures is a function of the URL alone.
#[verifier::external_body]
fn capture_azure(url: &str) -> (r: Option<(String, String, String, String)>)
    ensures
        parts_view(r) == azure_url_parts(url@),
{
    let re = regex::Regex::new(
        r"^(https://\w+@|git@ssh\.)(?<host>dev\.azure\.(?<dns>com)(:v\d)?)/(?<repo_owner>[\w\-]+)/(?<repo_project>[\w\-.]+)(/_git)?/(?<repo_name>[\w\-.]+)$",
    ).unwrap();
    re.captures(url).map(
        |c|
            (
                c["repo_owner"].to_string(),
                c["repo_project"].to_string(),
                c["repo_name"].to_string(),
                c["host"].to_string(),
            ),
    )
}

/// Relies on regex::Regex::captures with a fixed, valid GitHub/GitLab URL
/// pattern: whether and what it captures is a function of the URL alone.
#[verifier::external_body]
fn capture_hosted(url: &str) -> (r: Option<(String, String, String, String)>)
    ensures
        parts_view(r) == hosted_url_parts(url@),
{
    let re = regex::Regex::new(
        r"^(https?://|git@)?(?<host>github|gitlab(\.[\w\-]*)?)\.(?<dns>com|org)(/|:)(?<repo_owner>[\w\-]+)/(?<repo_name>[\w\-.]+)\.git$",
    ).unwrap();
    re.captures(url).map(
        |c|
            (
                c["repo_owner"].to_string(),
                c["repo_name"].to_string(),
                c["host"].to_string(),
                c["dns"].to_string(),
            ),
    )
}

/// The SSH clone URL rebuilt for an Azure DevOps repository.
pub open spec fn spec_azure_ssh(
    owner: Seq<char>,
    project: Seq<char>,
    name: Seq<char>,
    host: Seq<char>,
) -> Seq<char> {
    "git@ssh."@ + host + "/"@ + owner + "/"@ + project + "/"@ + name
}

/// The HTTPS clone URL rebuilt for an Azure DevOps repository.
pub open spec fn spec_azure_https(
    owner: Seq<char>,
    project: Seq<char>,
    name: Seq<char>,
    host: Seq<char>,
) -> Seq<char> {
    "https://"@ + owner + "@"@ + host + "/"@ + owner + "/"@ + project + "/_git/"@ + name
}

/// The SSH clone URL rebuilt for a GitHub/GitLab repository.
pub open spec fn spec_hosted_ssh(
    owner: Seq<char>,
    name: Seq<char>,
    host: Seq<char>,
    dns: Seq<char>,
) -> Seq<char> {
    "git@"@ + host + "."@ + dns + ":"@ + owner + "/"@ + name
}

/// The HTTPS clone URL rebuilt for a GitHub/GitLab repository.
pub open spec fn spec_hosted_https(
    owner: Seq<char>,
    name: Seq<char>,
    host: Seq<char>,
    dns: Seq<char>,
) -> Seq<char> {
    "https://"@ + host + "."@ + dns + "/"@ + owner + "/"@ + name
}

/// The metadata of one remote repository, with both clone URLs rebuilt in
/// canonical form.
#[derive(Debug)]
pub struct Repository {
    pub owner: String,
    pub name: String,
    pub https: String,
    pub ssh: String,
    pub host: String,
}

/// What the surrounding shell found out about the destination path: the
/// outcome of probing the filesystem for it.
#[derive(Debug, Clone, Copy, PartialEq, Eq, Structural)]
pub enum DestProbe {
    Exists,
    Missing,
    Unknown,
}

/// The path a repository is cloned to: the given destination as it stands, a
/// directory of the repository's name under it when it ends in a slash, or
/// one under the current directory when none is given.
pub open spec fn spec_destination_path(name: Seq<char>, dest: Option<Seq<char>>) -> Seq<char> {
    match dest {
        Option::Some(d) => if d.len() > 0 && d.last() == '/' {
            d + name
        } else {
            d
        },
        Option::None => "./"@ + name,
    }
}

impl Repository {
    /// Parses a clone URL into its repository metadata. A URL mentioning
    /// azure is held to the Azure DevOps shape, any other to the
    /// GitHub/GitLab shape; a URL matching neither is rejected.
    pub fn from_url(url: &str) -> (r: Result<Repository, String>)
        ensures
            match r {
                Result::Ok(repo) => {
                    if spec_contains(url@, "azure"@) {
                        azure_url_parts(url@) matches Option::Some(p) && {
                            &&& repo.owner@ == p.0
                            &&& repo.name@ == p.2
                            &&& repo.host@ == p.3
                            &&& repo.ssh@ == spec_azure_ssh(p.0, p.1, p.2, p.3)
                            &&& repo.https@ == spec_azure_https(p.0, p.1, p.2, p.3)
                        }
                    } else {
                        hosted_url_parts(url@) matches Option::Some(p) && {
                            &&& repo.owner@ == p.0
                            &&& repo.name@ == p.1
                            &&& repo.host@ == p.2
                            &&& repo.ssh@ == spec_hosted_ssh(p.0, p.1, p.2, p.3)
                            &&& repo.https@ == spec_hosted_https(p.0, p.1, p.2, p.3)
                        }
                    }
                },
                Result::Err(m) => {
                    &&& m@ == "Invalid URL provided"@
                    &&& if spec_contains(url@, "azure"@) {
                        azure_url_parts(url@) is None
                    } else {
                        hosted_url_parts(url@) is None
                    }
                },
            },
    {
        if str_contains(url, "azure") {
            match capture_azure(url) {
                Option::None => Result::Err(String::from_str("Invalid URL provided")),
                Option::Some((owner, project, name, host)) => {
                    let mut ssh = String::from_str("git@ssh.");
                    ssh.append(host.as_str());
                    ssh.append("/");
                    ssh.append(owner.as_str());
                    ssh.append("/");
                    ssh.append(project.as_str());
                    ssh.append("/");
                    ssh.append(name.as_str());
                    let mut https = String::from_str("https://");
                    https.append(owner.as_str());
                    https.append("@");
                    https.append(host.as_str());
                    https.append("/");
                    https.append(owner.as_str());
                    https.append("/");
                    https.append(project.as_str());
                    https.append("/_git/");
                    https.append(name.as_str());
                    Result::Ok(Repository { owner, name, https, ssh, host })
                },
            }
        } else {
            match capture_hosted(url) {
                Option::None => Result::Err(String::from_str("Invalid URL provided")),
                Option::Some((owner, name, host, dns)) => {
                    let mut ssh = String::from_str("git@");
                    ssh.append(host.as_str());
                    ssh.append(".");
                    ssh.append(dns.as_str());
                    ssh.append(":");
                    ssh.append(owner.as_str());
                    ssh.append("/");
                    ssh.append(name.as_str());
                    let mut https = String::from_str("https://");
                    https.append(host.as_str());
                    https.append(".");
                    https.append(dns.as_str());
                    https.append("/");
                    https.append(owner.as_str());
                    https.append("/");
                    https.append(name.as_str());
                    Result::Ok(Repository { owner, name, https, ssh, host })
                },
            }
        }
    }

    /// The path this repository would be cloned to for the given
    /// destination.
    pub fn destination_path(&self, dest: &Option<String>) -> (r: String)
        ensures
            match dest {
                Option::Some(d) => r@ == spec_destination_path(self.name@, Option::Some(d@)),
                Option::None => r@ == spec_destination_path(self.name@, Option::None),
            },
    {
        match dest {
            Option::Some(d) => {
                let len = d.as_str().unicode_len();
                if len > 0 && d.as_str().get_char(len - 1) == '/' {
                    let mut r = d.clone();
                    r.append(self.name.as_str());
                    r
                } else {
                    d.clone()
                }
            },
            Option::None => {
                let mut r = String::from_str("./");
                r.append(self.name.as_str());
                r
            },
        }
    }

    /// Decides whether the clone may proceed, given what the shell's probe
    /// of the destination path found: only a path that verifiably does not
    /// exist yet is accepted, and comes back as the clone path.
    pub fn check_destination(&self, dest: &Option<String>, probe: DestProbe) -> (r: Result<
        String,
        String,
    >)
        ensures
            probe is Missing ==> (r matches Ok(p) && match dest {
                Option::Some(d) => p@ == spec_destination_path(self.name@, Option::Some(d@)),
                Option::None => p@ == spec_destination_path(self.name@, Option::None),
            }),
            probe is Exists ==> (r matches Err(m) && m@
                == "Can't write to destination. Path already exists!"@),
            probe is Unknown ==> (r matches Err(m) && m@ == "Can't verify destination."@),
    {
        match probe {
            DestProbe::Unknown => Result::Err(String::from_str("Can't verify destination.")),
            DestProbe::Exists => Result::Err(
                String::from_str("Can't write to destination. Path already exists!"),
            ),
            DestProbe::Missing => Result::Ok(self.destination_path(dest)),
        }
    }

    /// The URL the clone actually uses, by transport.
    pub fn clone_url(&self, ssh: bool) -> (r: &String)
        ensures
            ssh ==> r == &self.ssh,
            !ssh ==> r == &self.https,
    {
        if ssh {
            &self.ssh
        } else {
            &self.https
        }
    }
}

/// The arguments of the `git` invocation that clones `url` to `clone_path`.
pub fn clone_args(url: &String, clone_path: &String) -> (r: Vec<String>)
    ensures
        r.deep_view() == seq!["clone"@, url@, clone_path@],
{
    let mut r: Vec<String> = Vec::new();
    r.push(String::from_str("clone"));
    r.push(url.clone());
    r.push(clone_path.clone());
    assert(r.deep_view() =~= seq!["clone"@, url@, clone_path@]);
    r
}

/// Every choice the clone tool runs on.
#[derive(Debug)]
pub struct Options {
    pub url: String,
    pub dest: Option<String>,
    pub ssh: bool,
}

/// The clone tool's command-line arguments, as plain values.
#[derive(Debug)]
pub struct Args {
    pub url: String,
    pub dest: Option<String>,
    pub ssh: bool,
}

impl From<Args> for Options {
    fn from(value: Args) -> (r: Self)
        ensures
            r.url == value.url,
            r.dest == value.dest,
            r.ssh == value.ssh,
    {
        Options { url: value.url, dest: value.dest, ssh: value.ssh }
    }
}

impl vstd::std_specs::convert::FromSpecImpl<Args> for Options {
    open spec fn obeys_from_spec() -> bool {
        true
    }

    open spec fn from_spec(value: Args) -> Options {
        Options { url: value.url, dest: value.dest, ssh: value.ssh }
    }
}

} // verus!
