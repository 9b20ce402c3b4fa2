use cacheman::configuration::cache_dir_query;
use cacheman::configuration::get_all_repository_urls;
use cacheman::configuration::get_cache_dirs;
use cacheman::configuration::get_repositories;
use cacheman::configuration::get_urls_from_repository;
use cacheman::configuration::pacman_conf;
use cacheman::configuration::pacman_conf_arguments;
use cacheman::configuration::pacman_conf_result;
use cacheman::configuration::repository_list_query;
use cacheman::configuration::repository_server_query;
use cacheman::configuration::CommandOutput;
use cacheman::configuration::QUERY_TOOL;
use cacheman::error::Error;

fn output(success: bool, stdout: &[u8], stderr: &[u8]) -> CommandOutput {
    CommandOutput { success, stdout: stdout.to_vec(), stderr: stderr.to_vec() }
}

#[test]
fn fail() {
    let output = pacman_conf(output(
        false,
        b"",
        b"pacman-conf: unrecognized option '--invalid-option'\n",
    ));
    assert!(output.is_err(), "Expected error, but got: {:?}", output);
    assert_eq!(
        output,
        Err(Error::ConfigQueryFailed(
            "pacman-conf: unrecognized option '--invalid-option'\n".to_string()
        ))
    );
}

#[test]
fn default_cache_dir() {
    let answer = pacman_conf(output(true, b"/var/cache/pacman/pkg\n", b"")).unwrap();
    assert_eq!(get_cache_dirs(&answer), vec!["/var/cache/pacman/pkg"]);
}

#[test]
fn custom_cache_dir() {
    let answer = pacman_conf(output(true, b"/tmp/pacman-cache\n", b"")).unwrap();
    assert_eq!(get_cache_dirs(&answer), vec!["/tmp/pacman-cache"]);
}

#[test]
fn multiple_cache_dirs() {
    let answer =
        pacman_conf(output(true, b"/var/cache/pacman/pkg\n/tmp/pacman-cache\n", b"")).unwrap();
    assert_eq!(get_cache_dirs(&answer), vec!["/var/cache/pacman/pkg", "/tmp/pacman-cache"]);
}

#[test]
fn test_get_repositories() {
    let repositories = get_repositories("core\n");
    assert_eq!(repositories, vec!["core"]);
}

#[test]
fn test_get_urls_from_repository() {
    let urls = get_urls_from_repository("https://geo.mirror.pkgbuild.com/core/os/x86_64\n");
    assert_eq!(urls, vec!["https://geo.mirror.pkgbuild.com/core/os/x86_64"]);
}

#[test]
fn test_get_urls_from_repository_not_found() {
    let repositories = get_repositories("core\nextra\nmultilib\n");
    let answers = vec![
        "https://geo.mirror.pkgbuild.com/core/os/x86_64\n".to_string(),
        "https://geo.mirror.pkgbuild.com/extra/os/x86_64\n".to_string(),
        "https://geo.mirror.pkgbuild.com/multilib/os/x86_64\n".to_string(),
    ];
    let all_urls = get_all_repository_urls(&repositories, &answers);
    let list_1 = [
        ("core", "https://geo.mirror.pkgbuild.com/core/os/x86_64"),
        ("extra", "https://geo.mirror.pkgbuild.com/extra/os/x86_64"),
        ("multilib", "https://geo.mirror.pkgbuild.com/multilib/os/x86_64"),
    ];
    for (repository, url) in list_1 {
        assert_eq!(all_urls.get(repository), Some(&vec![url.to_string()]));
    }
    assert_eq!(all_urls.get("testing"), None);
}

#[test]
fn later_answer_counts_for_a_repository_named_twice() {
    let repositories = vec!["core".to_string(), "core".to_string()];
    let answers = vec!["http://first\n".to_string(), "http://second\nhttp://third".to_string()];
    let all_urls = get_all_repository_urls(&repositories, &answers);
    assert_eq!(
        all_urls.get("core"),
        Some(&vec!["http://second".to_string(), "http://third".to_string()])
    );
}

#[test]
fn repository_without_answer_is_left_out() {
    let repositories = vec!["core".to_string(), "extra".to_string()];
    let answers = vec!["http://core\n".to_string()];
    let all_urls = get_all_repository_urls(&repositories, &answers);
    assert_eq!(all_urls.get("core"), Some(&vec!["http://core".to_string()]));
    assert_eq!(all_urls.get("extra"), None);
    let all_urls = get_all_repository_urls(&Vec::new(), &answers);
    assert_eq!(all_urls.get("core"), None);
}

#[test]
fn repository_with_empty_answer_has_no_mirrors() {
    let all_urls = get_all_repository_urls(&vec!["core".to_string()], &vec![String::new()]);
    assert_eq!(all_urls.get("core"), Some(&Vec::new()));
}

#[test]
fn query_tool_is_named() {
    assert_eq!(QUERY_TOOL, "pacman-conf");
}

#[test]
fn queries_have_their_arguments() {
    assert_eq!(cache_dir_query(), vec!["CacheDir"]);
    assert_eq!(repository_list_query(), vec!["--repo-list"]);
    assert_eq!(repository_server_query("core"), vec!["--repo", "core", "Server"]);
}

#[test]
fn config_file_follows_the_query() {
    assert_eq!(pacman_conf_arguments(None, cache_dir_query()), vec!["CacheDir"]);
    assert_eq!(
        pacman_conf_arguments(Some("/tmp/pacman.conf"), cache_dir_query()),
        vec!["CacheDir", "--config", "/tmp/pacman.conf"]
    );
    assert_eq!(
        pacman_conf_arguments(Some("p"), repository_server_query("extra")),
        vec!["--repo", "extra", "Server", "--config", "p"]
    );
    assert_eq!(pacman_conf_arguments(Some("p"), Vec::new()), vec!["--config", "p"]);
}

#[test]
fn output_is_decoded_as_utf8() {
    assert_eq!(pacman_conf(output(true, "päckchen\n".as_bytes(), b"")), Ok("päckchen\n".to_string()));
    assert_eq!(pacman_conf(output(true, b"", b"ignored")), Ok(String::new()));
    assert_eq!(
        pacman_conf(output(true, &[0x66, 0xff, 0x6f], b"")),
        Err(Error::ConfigQueryFailed("output is not valid UTF-8".to_string()))
    );
}

#[test]
fn error_stream_is_decoded_leniently() {
    assert_eq!(
        pacman_conf(output(false, b"ignored", &[0x66, 0xff, 0x6f])),
        Err(Error::ConfigQueryFailed("f\u{fffd}o".to_string()))
    );
    assert_eq!(
        pacman_conf(output(false, b"", "größer".as_bytes())),
        Err(Error::ConfigQueryFailed("größer".to_string()))
    );
}

#[test]
fn result_goes_by_the_exit_first() {
    assert_eq!(
        pacman_conf_result(false, Some("out".to_string()), "err".to_string()),
        Err(Error::ConfigQueryFailed("err".to_string()))
    );
    assert_eq!(
        pacman_conf_result(true, Some("out".to_string()), "err".to_string()),
        Ok("out".to_string())
    );
    assert_eq!(
        pacman_conf_result(true, None, "err".to_string()),
        Err(Error::ConfigQueryFailed("output is not valid UTF-8".to_string()))
    );
}
