//! Resolving a request to its upstream mirror.
//!
//! Each repository has an ordered list of mirror URL templates. A template
//! holds the placeholders `$repo` and `$arch`; the first template of the
//! repository, with both filled in, is the directory from which the file is
//! fetched.

use crate::error::text_result;
use crate::error::Error;
use crate::error::ErrorView;
use crate::probe::is_success;
use crate::probe::HeadRequest;
use crate::probe::HeadResponse;
use crate::text::ends_with;
use crate::text::replace;
use crate::text::str_ends_with;
use crate::text::str_replace;
use vstd::hash_map::StringHashMap;
use vstd::prelude::*;
use vstd::string::*;

verus! {

/// The seconds after which the check of a mirror at startup is given up.
pub const MIRROR_CHECK_TIMEOUT_SECS: u64 = 3;

/// A template with its placeholders filled in: first every `$repo`, then
/// every `$arch` of what that gave. Nothing is escaped.
pub open spec fn fill_template(template: Seq<char>, repo: Seq<char>, arch: Seq<char>) -> Seq<
    char,
> {
    replace(replace(template, "$repo"@, repo), "$arch"@, arch)
}

/// The address of `file_name` below a mirror template.
pub open spec fn mirror_url(
    template: Seq<char>,
    repo: Seq<char>,
    arch: Seq<char>,
    file_name: Seq<char>,
) -> Seq<char> {
    fill_template(template, repo, arch) + "/"@ + file_name
}

/// Where a request for `file_name` of `repo` goes upstream: to the first
/// mirror of the repository. An unknown repository and a repository without
/// mirrors are failures.
pub open spec fn resolve(
    mirrors: Map<Seq<char>, Seq<Seq<char>>>,
    repo: Seq<char>,
    arch: Seq<char>,
    file_name: Seq<char>,
) -> Result<Seq<char>, ErrorView> {
    if !mirrors.contains_key(repo) {
        Err(ErrorView::RepositoryUnknown(repo))
    } else if mirrors[repo].len() == 0 {
        Err(ErrorView::NoMirrorConfigured(repo))
    } else {
        Ok(mirror_url(mirrors[repo][0], repo, arch, file_name))
    }
}

/// The address of a repository's database below a mirror: the mirror's
/// address, a slash unless it ends in one, the repository's name and `.db`.
pub open spec fn database_url(url_base: Seq<char>, repository: Seq<char>) -> Seq<char> {
    if ends_with(url_base, "/"@) {
        url_base + repository + ".db"@
    } else {
        url_base + "/"@ + repository + ".db"@
    }
}

/// The first `upto` of `urls` without those that were not found reachable.
/// A mirror without a verdict counts as unreachable.
pub open spec fn reachable_among(urls: Seq<Seq<char>>, reachable: Seq<bool>, upto: int) -> Seq<
    Seq<char>,
>
    decreases upto,
{
    if upto <= 0 || upto > urls.len() {
        Seq::empty()
    } else if upto <= reachable.len() && reachable[upto - 1] {
        reachable_among(urls, reachable, upto - 1).push(urls[upto - 1])
    } else {
        reachable_among(urls, reachable, upto - 1)
    }
}

/// `urls` without those that were not found reachable, in their order.
pub open spec fn reachable_mirrors(urls: Seq<Seq<char>>, reachable: Seq<bool>) -> Seq<Seq<char>> {
    reachable_among(urls, reachable, urls.len() as int)
}

/// The mirror lists of the configured repositories. It is filled at startup
/// and read from then on.
pub struct RepositoryMirrorMap {
    mirrors: StringHashMap<Vec<String>>,
}

impl View for RepositoryMirrorMap {
    type V = Map<Seq<char>, Seq<Seq<char>>>;

    closed spec fn view(&self) -> Map<Seq<char>, Seq<Seq<char>>> {
        Map::new(
            |repo: Seq<char>| self.mirrors@.contains_key(repo),
            |repo: Seq<char>| self.mirrors@[repo].deep_view(),
        )
    }
}

impl RepositoryMirrorMap {
    /// A map without repositories.
    pub fn new() -> (map: Self)
        ensures
            map@ == Map::<Seq<char>, Seq<Seq<char>>>::empty(),
    {
        let map = RepositoryMirrorMap { mirrors: StringHashMap::new() };
        assert(map@ =~= Map::<Seq<char>, Seq<Seq<char>>>::empty());
        map
    }

    /// Sets the mirror list of `repo`, in place of any it had.
    pub fn insert(&mut self, repo: String, urls: Vec<String>)
        ensures
            final(self)@ == old(self)@.insert(repo@, urls.deep_view()),
    {
        self.mirrors.insert(repo, urls);
        assert(self@ =~= old(self)@.insert(repo@, urls.deep_view()));
    }

    /// The mirror list of `repo`, if the repository is configured.
    pub fn get(&self, repo: &str) -> (urls: Option<&Vec<String>>)
        ensures
            match urls {
                Some(urls) => self@.contains_key(repo@) && self@[repo@] == urls.deep_view(),
                None => !self@.contains_key(repo@),
            },
    {
        self.mirrors.get(repo)
    }
}

/// The address to which a request for `file_name` of the repository `repo`
/// and the architecture `arch` is sent upstream.
pub fn redirect_to_upstream(
    repo: &str,
    arch: &str,
    file_name: &str,
    upstream_urls: &RepositoryMirrorMap,
) -> (result: Result<String, Error>)
    ensures
        text_result(result) == resolve(upstream_urls@, repo@, arch@, file_name@),
{
    match upstream_urls.get(repo) {
        None => Err(Error::RepositoryUnknown(repo.to_owned())),
        Some(urls) => {
            if urls.len() == 0 {
                assert(urls.deep_view().len() == 0);
                Err(Error::NoMirrorConfigured(repo.to_owned()))
            } else {
                assert(urls.deep_view()[0] == urls[0]@);
                let with_repo = str_replace(urls[0].as_str(), "$repo", repo);
                let mut url = str_replace(with_repo.as_str(), "$arch", arch);
                url.append("/");
                url.append(file_name);
                Ok(url)
            }
        },
    }
}

/// The request that checks at startup whether a mirror serves the
/// repository: for the headers of the repository's database below it.
pub fn mirror_check_request(url_base: &str, repository: &str) -> (request: HeadRequest)
    ensures
        request.url@ == database_url(url_base@, repository@),
        request.timeout_secs == MIRROR_CHECK_TIMEOUT_SECS,
{
    let mut url = String::from_str(url_base);
    if !str_ends_with(url_base, "/") {
        url.append("/");
    }
    url.append(repository);
    url.append(".db");
    HeadRequest { url, timeout_secs: MIRROR_CHECK_TIMEOUT_SECS }
}

/// Whether the answer to a mirror's check shows that the mirror can be
/// used: only a success status does.
pub fn check_is_valid_upstream(response: HeadResponse) -> (valid: bool)
    ensures
        valid == (response matches HeadResponse::Status(status) && is_success(status)),
{
    match response {
        HeadResponse::Status(status) => 200 <= status && status < 300,
        HeadResponse::Failed => false,
    }
}

/// The mirrors of `urls` that were found reachable, in their order.
/// `reachable[i]` is the verdict on `urls[i]`.
pub fn retain_reachable(urls: Vec<String>, reachable: &Vec<bool>) -> (kept: Vec<String>)
    ensures
        kept.deep_view() == reachable_mirrors(urls.deep_view(), reachable@),
{
    let mut kept: Vec<String> = Vec::new();
    let mut i: usize = 0;
    assert(kept.deep_view() =~= Seq::<Seq<char>>::empty());
    while i < urls.len()
        invariant
            i <= urls.len(),
            kept.deep_view() == reachable_among(urls.deep_view(), reachable@, i as int),
        decreases urls.len() - i,
    {
        if i < reachable.len() && reachable[i] {
            let ghost before = kept.deep_view();
            kept.push(urls[i].clone());
            assert(kept.deep_view() =~= before.push(urls.deep_view()[i as int]));
        }
        i += 1;
    }
    kept
}

} // verus!
