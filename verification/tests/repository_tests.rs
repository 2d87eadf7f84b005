use seedrs::repository::{clone_args, DestProbe, Options, Repository};

#[test]
fn parses_a_github_https_url() {
    let repo = Repository::from_url("https://github.com/rust-lang/cargo.git").unwrap();
    assert_eq!(repo.owner, "rust-lang");
    assert_eq!(repo.name, "cargo");
    assert_eq!(repo.host, "github");
    assert_eq!(repo.ssh, "git@github.com:rust-lang/cargo");
    assert_eq!(repo.https, "https://github.com/rust-lang/cargo");
}

#[test]
fn parses_a_gitlab_ssh_url() {
    let repo = Repository::from_url("git@gitlab.com:some-group/some.project.git").unwrap();
    assert_eq!(repo.owner, "some-group");
    assert_eq!(repo.name, "some.project");
    assert_eq!(repo.host, "gitlab");
    assert_eq!(repo.ssh, "git@gitlab.com:some-group/some.project");
    assert_eq!(repo.https, "https://gitlab.com/some-group/some.project");
}

#[test]
fn parses_an_azure_devops_url() {
    let repo = Repository::from_url("https://myorg@dev.azure.com/myorg/my-project/_git/my-repo")
        .unwrap();
    assert_eq!(repo.owner, "myorg");
    assert_eq!(repo.name, "my-repo");
    assert_eq!(repo.host, "dev.azure.com");
    assert_eq!(repo.ssh, "git@ssh.dev.azure.com/myorg/my-project/my-repo");
    assert_eq!(repo.https, "https://myorg@dev.azure.com/myorg/my-project/_git/my-repo");
}

#[test]
fn rejects_a_url_that_matches_no_known_host() {
    let err = Repository::from_url("ftp://example.com/foo").unwrap_err();
    assert_eq!(err, "Invalid URL provided");
    let err = Repository::from_url("https://github.com/missing-suffix").unwrap_err();
    assert_eq!(err, "Invalid URL provided");
}

fn sample_repo() -> Repository {
    Repository::from_url("https://github.com/rust-lang/cargo.git").unwrap()
}

#[test]
fn destination_defaults_to_a_directory_named_after_the_repository() {
    let repo = sample_repo();
    let path = repo.check_destination(&None, DestProbe::Missing).unwrap();
    assert_eq!(path, "./cargo");
}

#[test]
fn destination_ending_in_a_slash_gets_the_repository_name_appended() {
    let repo = sample_repo();
    let path = repo
        .check_destination(&Some(String::from("workdir/")), DestProbe::Missing)
        .unwrap();
    assert_eq!(path, "workdir/cargo");
    let path = repo
        .check_destination(&Some(String::from("workdir")), DestProbe::Missing)
        .unwrap();
    assert_eq!(path, "workdir");
}

#[test]
fn an_existing_or_unverifiable_destination_is_refused() {
    let repo = sample_repo();
    let err = repo.check_destination(&None, DestProbe::Exists).unwrap_err();
    assert_eq!(err, "Can't write to destination. Path already exists!");
    let err = repo.check_destination(&None, DestProbe::Unknown).unwrap_err();
    assert_eq!(err, "Can't verify destination.");
}

#[test]
fn the_clone_invocation_uses_the_chosen_transport() {
    let repo = sample_repo();
    assert_eq!(repo.clone_url(true), "git@github.com:rust-lang/cargo");
    assert_eq!(repo.clone_url(false), "https://github.com/rust-lang/cargo");
    let args = clone_args(repo.clone_url(false), &String::from("./cargo"));
    assert_eq!(args, vec!["clone", "https://github.com/rust-lang/cargo", "./cargo"]);
}

#[test]
fn clone_tool_args_become_options() {
    let args = seedrs::repository::Args {
        url: String::from("https://github.com/a/b.git"),
        dest: Some(String::from("here")),
        ssh: true,
    };
    let opts = Options::from(args);
    assert_eq!(opts.url, "https://github.com/a/b.git");
    assert_eq!(opts.dest, Some(String::from("here")));
    assert!(opts.ssh);
}
