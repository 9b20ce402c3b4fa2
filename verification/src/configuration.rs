//! The package manager's configuration, as its query tool reports it.
//!
//! The tool is run by the caller. This module says with which arguments,
//! and turns what the tool wrote into the cache directories, the
//! repositories and their mirror lists.

use crate::error::text_result;
use crate::error::Error;
use crate::error::ErrorView;
use crate::text::lines;
use crate::text::split_lines;
use crate::upstream::RepositoryMirrorMap;
use vstd::prelude::*;
use vstd::string::*;
use vstd::utf8::decode_utf8;
use vstd::utf8::valid_utf8;

verus! {

/// The name of the query tool.
pub const QUERY_TOOL: &'static str = "pacman-conf";

/// What a run of the query tool left behind.
#[derive(Debug)]
pub struct CommandOutput {
    /// The tool exited with success.
    pub success: bool,
    /// What it wrote to its output stream.
    pub stdout: Vec<u8>,
    /// What it wrote to its error stream.
    pub stderr: Vec<u8>,
}

/// The text that the bytes of an error stream are shown as: what they
/// spell in UTF-8, with a replacement character for each part that spells
/// nothing.
pub uninterp spec fn lossy_text(bytes: Seq<u8>) -> Seq<char>;

/// The text that `bytes` spell in UTF-8, if they spell one.
pub open spec fn utf8_text(bytes: Seq<u8>) -> Option<Seq<char>> {
    if valid_utf8(bytes) {
        Some(decode_utf8(bytes))
    } else {
        None
    }
}

/// The arguments of a query: the query's own, then the configuration file
/// to read, where one is given in place of the default.
pub open spec fn query_arguments(config_file_path: Option<Seq<char>>, args: Seq<Seq<char>>) -> Seq<
    Seq<char>,
> {
    match config_file_path {
        Some(path) => args + seq!["--config"@, path],
        None => args,
    }
}

/// The result of a query, from how the tool exited, the text of its output
/// if the output was text, and the text of its error stream.
pub open spec fn query_result(success: bool, stdout: Option<Seq<char>>, stderr: Seq<char>) -> Result<
    Seq<char>,
    ErrorView,
> {
    if !success {
        Err(ErrorView::ConfigQueryFailed(stderr))
    } else {
        match stdout {
            Some(text) => Ok(text),
            None => Err(ErrorView::ConfigQueryFailed("output is not valid UTF-8"@)),
        }
    }
}

/// The mirror lists of the first `upto` repositories, each taken from the
/// lines of the answer to its query. Of a repository named twice, the later
/// answer counts.
pub open spec fn collected_mirrors(
    repositories: Seq<Seq<char>>,
    answers: Seq<Seq<char>>,
    upto: int,
) -> Map<Seq<char>, Seq<Seq<char>>>
    decreases upto,
{
    if upto <= 0 || upto > repositories.len() || upto > answers.len() {
        Map::empty()
    } else {
        collected_mirrors(repositories, answers, upto - 1).insert(
            repositories[upto - 1],
            lines(answers[upto - 1]),
        )
    }
}

/// Calls `String::from_utf8`: the text that the bytes spell, or `None`
/// where they are not valid UTF-8.
#[verifier::external_body]
fn decode_text(bytes: Vec<u8>) -> (text: Option<String>)
    ensures
        match text {
            Some(text) => utf8_text(bytes@) == Some(text@),
            None => utf8_text(bytes@) is None,
        },
{
    match String::from_utf8(bytes) {
        Ok(text) => Some(text),
        Err(_) => None,
    }
}

/// Calls `String::from_utf8_lossy`: the text that the bytes are shown as.
/// Bytes that are valid UTF-8 are shown as the text they spell.
#[verifier::external_body]
fn decode_text_lossy(bytes: &Vec<u8>) -> (text: String)
    ensures
        text@ == lossy_text(bytes@),
        valid_utf8(bytes@) ==> text@ == decode_utf8(bytes@),
{
    String::from_utf8_lossy(bytes).into_owned()
}

/// The arguments with which the query tool is run.
pub fn pacman_conf_arguments(config_file_path: Option<&str>, args: Vec<String>) -> (arguments: Vec<
    String,
>)
    ensures
        arguments.deep_view() == query_arguments(
            match config_file_path {
                Some(path) => Some(path@),
                None => None,
            },
            args.deep_view(),
        ),
{
    let mut arguments = args;
    match config_file_path {
        Some(path) => {
            let ghost before = arguments.deep_view();
            arguments.push(String::from_str("--config"));
            arguments.push(String::from_str(path));
            assert(arguments.deep_view() =~= before + seq!["--config"@, path@]);
        },
        None => {},
    }
    arguments
}

/// The result of a query, from how the tool exited, the text of its output
/// and the text of its error stream. A tool that failed gives
/// `ConfigQueryFailed` with what it wrote to its error stream; so does
/// output that is no text.
pub fn pacman_conf_result(success: bool, stdout: Option<String>, stderr: String) -> (result: Result<
    String,
    Error,
>)
    ensures
        text_result(result) == query_result(
            success,
            match stdout {
                Some(text) => Some(text@),
                None => None,
            },
            stderr@,
        ),
{
    if !success {
        return Err(Error::ConfigQueryFailed(stderr));
    }
    match stdout {
        Some(text) => Ok(text),
        None => Err(Error::ConfigQueryFailed(String::from_str("output is not valid UTF-8"))),
    }
}

/// The result of a query, from what the run of the tool left behind.
pub fn pacman_conf(output: CommandOutput) -> (result: Result<String, Error>)
    ensures
        text_result(result) == query_result(
            output.success,
            utf8_text(output.stdout@),
            lossy_text(output.stderr@),
        ),
{
    if output.success {
        pacman_conf_result(true, decode_text(output.stdout), String::new())
    } else {
        pacman_conf_result(false, None, decode_text_lossy(&output.stderr))
    }
}

/// The arguments of the query for the cache directories.
pub fn cache_dir_query() -> (args: Vec<String>)
    ensures
        args.deep_view() == seq!["CacheDir"@],
{
    let mut args: Vec<String> = Vec::new();
    args.push(String::from_str("CacheDir"));
    assert(args.deep_view() =~= seq!["CacheDir"@]);
    args
}

/// The arguments of the query for the names of the repositories.
pub fn repository_list_query() -> (args: Vec<String>)
    ensures
        args.deep_view() == seq!["--repo-list"@],
{
    let mut args: Vec<String> = Vec::new();
    args.push(String::from_str("--repo-list"));
    assert(args.deep_view() =~= seq!["--repo-list"@]);
    args
}

/// The arguments of the query for the mirrors of one repository.
pub fn repository_server_query(repository: &str) -> (args: Vec<String>)
    ensures
        args.deep_view() == seq!["--repo"@, repository@, "Server"@],
{
    let mut args: Vec<String> = Vec::new();
    args.push(String::from_str("--repo"));
    args.push(String::from_str(repository));
    args.push(String::from_str("Server"));
    assert(args.deep_view() =~= seq!["--repo"@, repository@, "Server"@]);
    args
}

/// The cache directories that the answer to their query names: one in each
/// line, in the order of the lines.
pub fn get_cache_dirs(answer: &str) -> (cache_dirs: Vec<String>)
    ensures
        cache_dirs.deep_view() == lines(answer@),
{
    split_lines(answer)
}

/// The repositories that the answer to their query names: one in each line.
pub fn get_repositories(answer: &str) -> (repositories: Vec<String>)
    ensures
        repositories.deep_view() == lines(answer@),
{
    split_lines(answer)
}

/// The mirrors that the answer to a repository's query names: one in each
/// line, in the order of the lines.
pub fn get_urls_from_repository(answer: &str) -> (urls: Vec<String>)
    ensures
        urls.deep_view() == lines(answer@),
{
    split_lines(answer)
}

/// The mirror lists of the repositories, from the answers to their queries:
/// `answers[i]` is the answer to the query for `repositories[i]`. A
/// repository without an answer, and an answer without a repository, is
/// left out.
pub fn get_all_repository_urls(repositories: &Vec<String>, answers: &Vec<String>) -> (all_urls:
    RepositoryMirrorMap)
    ensures
        all_urls@ == collected_mirrors(
            repositories.deep_view(),
            answers.deep_view(),
            if repositories.len() <= answers.len() {
                repositories.len() as int
            } else {
                answers.len() as int
            },
        ),
{
    let mut all_urls = RepositoryMirrorMap::new();
    let mut i: usize = 0;
    while i < repositories.len() && i < answers.len()
        invariant
            i <= repositories.len(),
            i <= answers.len(),
            all_urls@ == collected_mirrors(
                repositories.deep_view(),
                answers.deep_view(),
                i as int,
            ),
        decreases repositories.len() - i,
    {
        let urls = get_urls_from_repository(answers[i].as_str());
        all_urls.insert(repositories[i].clone(), urls);
        i += 1;
    }
    all_urls
}

} // verus!
