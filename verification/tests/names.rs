use git_mirror::utils::get_repo_name;

#[test]
fn get_repo_name_test() {
    assert_eq!(get_repo_name("https://github.com/Bond-009/git-mirror.git"), "git-mirror");
}

#[test]
fn repo_name_without_git_suffix_is_unchanged() {
    assert_eq!(get_repo_name("https://h/o/repo"), "repo");
}

#[test]
fn repo_name_strips_git_suffix() {
    assert_eq!(get_repo_name("https://h/o/repo.git"), "repo");
}

#[test]
fn repo_name_of_url_without_slash_is_whole_url() {
    assert_eq!(get_repo_name("repo"), "repo");
    assert_eq!(get_repo_name("repo.git"), "repo");
    assert_eq!(get_repo_name("host:repo.git"), "host:repo");
}

#[test]
fn repo_name_strips_the_suffix_once() {
    assert_eq!(get_repo_name("https://h/o/repo.git.git"), "repo.git");
}

#[test]
fn repo_name_keeps_a_suffix_that_is_not_at_the_end() {
    assert_eq!(get_repo_name("https://h/o/repo.github"), "repo.github");
    assert_eq!(get_repo_name("https://h/o.git/repo"), "repo");
}

#[test]
fn repo_name_of_short_and_empty_urls() {
    assert_eq!(get_repo_name(""), "");
    assert_eq!(get_repo_name("/"), "");
    assert_eq!(get_repo_name(".git"), "");
    assert_eq!(get_repo_name("a/.git"), "");
    assert_eq!(get_repo_name("git"), "git");
    assert_eq!(get_repo_name("https://h/o/"), "");
}

#[test]
fn repo_name_counts_characters_not_bytes() {
    assert_eq!(get_repo_name("https://h/ö/dépôt.git"), "dépôt");
    assert_eq!(get_repo_name("日本/語"), "語");
    assert_eq!(get_repo_name("ü.git"), "ü");
}

#[test]
fn repo_name_borrows_from_the_url() {
    let url = String::from("ssh://git@host/group/project.git");
    let name = get_repo_name(&url);
    assert_eq!(name, "project");
    assert_eq!(name.as_ptr(), url[21..].as_ptr());
}
