use vstd::prelude::*;
use crate::config::ParsedConfig;
use crate::image::tag_or_latest;
use crate::text::{first_piece, second_piece, split_pair, has_char, same_text, opt_view, copy_opt};

verus! {

/// Splits an image name into namespace and repository: at the first `/`
/// where there is one (the repository ends at the next `/`), otherwise the
/// name serves as both.
pub fn image_url_split(image_url: String) -> (r: [String; 2])
    ensures
        image_url@.contains('/') ==> r[0]@ == first_piece(image_url@, '/') && r[1]@
            == second_piece(image_url@, '/'),
        !image_url@.contains('/') ==> r[0]@ == image_url@ && r[1]@ == image_url@,
{
    if has_char(image_url.as_str(), '/') {
        let (namespace, repository) = split_pair(image_url.as_str(), '/');
        let repository = match repository {
            Some(r) => r,
            None => String::new(),
        };
        [namespace, repository]
    } else {
        let copy = image_url.clone();
        [image_url, copy]
    }
}

/// The body of a login request.
#[derive(Debug)]
pub struct RequestLogin {
    pub username: String,
    pub password: String,
}

/// A request to send to the registry: where, and what.
#[derive(Debug)]
pub struct LoginRequest {
    pub url: String,
    pub body: RequestLogin,
}

/// A query for an image's tags: where, and the authorization header value.
#[derive(Debug)]
pub struct RegistryQuery {
    pub url: String,
    pub authorization: String,
}

/// One tag of an image in the registry.
#[derive(Debug)]
pub struct RegistryTag {
    pub tag: String,
    pub is_current: bool,
}

/// One image in the registry: its digest and tags.
#[derive(Debug)]
pub struct RegistryImage {
    pub digest: String,
    pub tags: Option<Vec<RegistryTag>>,
}

/// One page of a repository's images, as the registry lists them.
#[derive(Debug)]
pub struct RegistryImagePage {
    /// Whether the answer is a listing (it carries a count); only then are
    /// its results read.
    pub listed: bool,
    pub results: Vec<RegistryImage>,
}

pub struct RegistryTagView {
    pub tag: Seq<char>,
    pub is_current: bool,
}

pub struct RegistryImageView {
    pub digest: Seq<char>,
    pub tags: Seq<RegistryTagView>,
}

impl View for RegistryTag {
    type V = RegistryTagView;

    open spec fn view(&self) -> RegistryTagView {
        RegistryTagView { tag: self.tag@, is_current: self.is_current }
    }
}

pub open spec fn tags_view(t: Option<Vec<RegistryTag>>) -> Seq<RegistryTagView> {
    match t {
        Some(v) => v@.map_values(|x: RegistryTag| x@),
        None => Seq::empty(),
    }
}

impl View for RegistryImage {
    type V = RegistryImageView;

    open spec fn view(&self) -> RegistryImageView {
        RegistryImageView { digest: self.digest@, tags: tags_view(self.tags) }
    }
}

pub open spec fn page_view(p: RegistryImagePage) -> Seq<RegistryImageView> {
    p.results@.map_values(|x: RegistryImage| x@)
}

/// Whether an image carries `tag` as a current tag.
pub open spec fn has_current_tag(tags: Seq<RegistryTagView>, tag: Seq<char>) -> bool {
    exists|j: int| 0 <= j < tags.len() && (#[trigger] tags[j]).is_current && tags[j].tag == tag
}

/// The digest of the first listed image that carries `tag` as a current tag.
pub open spec fn registry_digest(images: Seq<RegistryImageView>, tag: Seq<char>) -> Option<Seq<char>>
    decreases images.len(),
{
    if images.len() == 0 {
        None
    } else if has_current_tag(images[0].tags, tag) {
        Some(images[0].digest)
    } else {
        registry_digest(images.drop_first(), tag)
    }
}

/// The answer to "which digest does this image have in the registry".
#[derive(Debug)]
pub struct IGetDigestResult {
    pub found: bool,
    pub digest: Option<String>,
    pub image_url: String,
    pub tag: String,
}

pub struct IGetDigestResultView {
    pub found: bool,
    pub digest: Option<Seq<char>>,
    pub image_url: Seq<char>,
    pub tag: Seq<char>,
}

impl View for IGetDigestResult {
    type V = IGetDigestResultView;

    open spec fn view(&self) -> IGetDigestResultView {
        IGetDigestResultView {
            found: self.found,
            digest: opt_view(self.digest),
            image_url: self.image_url@,
            tag: self.tag@,
        }
    }
}

/// A client of the image registry.
#[derive(Debug)]
pub struct Registry {
    registry_url: String,
    username: Option<String>,
    password: Option<String>,
    is_authenticated: bool,
    pub token: Option<String>,
}

pub struct RegistryView {
    pub registry_url: Seq<char>,
    pub username: Option<Seq<char>>,
    pub password: Option<Seq<char>>,
    pub is_authenticated: bool,
    pub token: Option<Seq<char>>,
}

impl View for Registry {
    type V = RegistryView;

    closed spec fn view(&self) -> RegistryView {
        RegistryView {
            registry_url: self.registry_url@,
            username: opt_view(self.username),
            password: opt_view(self.password),
            is_authenticated: self.is_authenticated,
            token: opt_view(self.token),
        }
    }
}

/// The address of an image listing for `namespace/repository`.
pub open spec fn images_url(base: Seq<char>, namespace: Seq<char>, repository: Seq<char>) -> Seq<char> {
    base + "/v2/namespaces/"@ + namespace + "/repositories/"@ + repository
        + "/images?status=active&currently_tagged=1&page=1&page_size=100"@
}

/// Namespace and repository of an image name.
pub open spec fn url_parts(image_url: Seq<char>) -> (Seq<char>, Seq<char>) {
    if image_url.contains('/') {
        (first_piece(image_url, '/'), second_piece(image_url, '/'))
    } else {
        (image_url, image_url)
    }
}

/// The digest result that a page (if any) yields for `image_url:tag`.
pub open spec fn digest_result(
    image_url: Seq<char>,
    tag: Seq<char>,
    page: Option<Seq<RegistryImageView>>,
) -> IGetDigestResultView {
    let d = match page {
        Some(p) => registry_digest(p, tag),
        None => None,
    };
    IGetDigestResultView { found: d is Some, digest: d, image_url, tag }
}

impl Registry {
    /// A client of the registry that the configuration names, reached over
    /// https, with the configured credentials and no token yet.
    pub fn new(config: &ParsedConfig) -> (r: Registry)
        ensures
            r@ == (RegistryView {
                registry_url: "https://"@ + config@.repository.registry_url,
                username: config@.repository.registry_username,
                password: config@.repository.registry_password,
                is_authenticated: false,
                token: None,
            }),
    {
        let mut url = String::from_str("https://");
        url.append(config.repository.registry_url.as_str());
        Registry {
            registry_url: url,
            username: copy_opt(&config.repository.registry_username),
            password: copy_opt(&config.repository.registry_password),
            is_authenticated: false,
            token: None,
        }
    }

    /// The login request: posted to `/v2/users/login` of the registry, with
    /// the configured user name and password (`anonymous` for either that
    /// is missing).
    pub fn login_request(&self) -> (r: LoginRequest)
        ensures
            r.url@ == self@.registry_url + "/v2/users/login"@,
            r.body.username@ == (match self@.username {
                Some(u) => u,
                None => "anonymous"@,
            }),
            r.body.password@ == (match self@.password {
                Some(p) => p,
                None => "anonymous"@,
            }),
    {
        let mut url = self.registry_url.clone();
        url.append("/v2/users/login");
        let username = match &self.username {
            Some(u) => u.clone(),
            None => String::from_str("anonymous"),
        };
        let password = match &self.password {
            Some(p) => p.clone(),
            None => String::from_str("anonymous"),
        };
        LoginRequest { url, body: RequestLogin { username, password } }
    }

    /// Keeps the token that a successful login handed out.
    pub fn record_token(&mut self, token: String)
        ensures
            final(self)@ == (RegistryView { token: Some(token@), ..old(self)@ }),
    {
        self.token = Some(token);
    }

    /// The query that lists the images of `image_url`'s repository, with the
    /// token as bearer; none without a token.
    pub fn digest_query(&self, image_url: String) -> (r: Option<RegistryQuery>)
        ensures
            self@.token is None ==> r is None,
            self@.token matches Some(t) ==> (r matches Some(q) && q.url@ == images_url(
                self@.registry_url,
                url_parts(image_url@).0,
                url_parts(image_url@).1,
            ) && q.authorization@ == "Bearer "@ + t),
    {
        match &self.token {
            None => None,
            Some(t) => {
                let parts = image_url_split(image_url);
                let mut url = self.registry_url.clone();
                url.append("/v2/namespaces/");
                url.append(parts[0].as_str());
                url.append("/repositories/");
                url.append(parts[1].as_str());
                url.append("/images?status=active&currently_tagged=1&page=1&page_size=100");
                let mut authorization = String::from_str("Bearer ");
                authorization.append(t.as_str());
                Some(RegistryQuery { url, authorization })
            },
        }
    }

    /// Which digest the registry gives `image_url:tag` (tag `latest` where
    /// none is given): the digest of the first listed image that carries the
    /// tag as a current tag. Without a token, or without a readable answer
    /// that is a listing, nothing is found.
    pub fn get_digest_of_image(
        &self,
        image_url: String,
        tag: Option<String>,
        page: Option<RegistryImagePage>,
    ) -> (r: IGetDigestResult)
        ensures
            r@ == digest_result(
                image_url@,
                tag_or_latest(opt_view(tag)),
                if self@.token is Some {
                    match page {
                        Some(p) => if p.listed {
                            Some(page_view(p))
                        } else {
                            None
                        },
                        None => None,
                    }
                } else {
                    None
                },
            ),
    {
        let target = match tag {
            Some(t) => t,
            None => String::from_str("latest"),
        };
        if self.token.is_none() {
            return IGetDigestResult { found: false, digest: None, image_url, tag: target };
        }
        match page {
            None => IGetDigestResult { found: false, digest: None, image_url, tag: target },
            Some(p) if !p.listed => IGetDigestResult {
                found: false,
                digest: None,
                image_url,
                tag: target,
            },
            Some(p) => {
                let d = find_digest(&p, target.as_str());
                IGetDigestResult { found: d.is_some(), digest: d, image_url, tag: target }
            },
        }
    }
}

/// Why a login was not accepted.
#[derive(Clone, Copy, Debug, PartialEq, Eq, Structural)]
pub enum LoginError {
    /// The registry answered with an error detail.
    Rejected,
    /// The answer holds no token.
    NoToken,
}

/// The token that a login answer hands out: refused where the answer holds
/// an error detail, missing where it holds no token text. Both are errors
/// here, on which the program stops with a panic.
pub fn login_token(detail_present: bool, token: Option<String>) -> (r: Result<String, LoginError>)
    ensures
        detail_present ==> r == Err::<String, LoginError>(LoginError::Rejected),
        !detail_present && token is None ==> r == Err::<String, LoginError>(LoginError::NoToken),
        !detail_present && token is Some ==> (r matches Ok(t) && t@ == token->0@),
{
    if detail_present {
        return Err(LoginError::Rejected);
    }
    match token {
        Some(t) => Ok(t),
        None => Err(LoginError::NoToken),
    }
}

fn has_current_tag_exec(tags: &Option<Vec<RegistryTag>>, tag: &str) -> (r: bool)
    ensures
        r == has_current_tag(tags_view(*tags), tag@),
{
    match tags {
        None => false,
        Some(ts) => {
            let ghost tv = tags_view(*tags);
            let mut j: usize = 0;
            while j < ts.len()
                invariant
                    tv == ts@.map_values(|x: RegistryTag| x@),
                    tv == tags_view(*tags),
                    j <= ts.len(),
                    forall|k: int| 0 <= k < j ==> !((#[trigger] tv[k]).is_current && tv[k].tag == tag@),
                decreases ts.len() - j,
            {
                assert(tv[j as int] == ts@[j as int]@);
                if ts[j].is_current && same_text(ts[j].tag.as_str(), tag) {
                    return true;
                }
                j = j + 1;
            }
            false
        },
    }
}

proof fn lemma_registry_digest_prefix(images: Seq<RegistryImageView>, tag: Seq<char>, i: int)
    requires
        0 <= i <= images.len(),
        forall|k: int| 0 <= k < i ==> !has_current_tag(#[trigger] images[k].tags, tag),
    ensures
        registry_digest(images, tag) == registry_digest(images.skip(i), tag),
    decreases i,
{
    if i > 0 {
        let rest = images.drop_first();
        assert(!has_current_tag(images[0].tags, tag));
        assert forall|k: int| 0 <= k < i - 1 implies !has_current_tag(#[trigger] rest[k].tags, tag) by {
            assert(rest[k] == images[k + 1]);
        }
        lemma_registry_digest_prefix(rest, tag, i - 1);
        assert(rest.skip(i - 1) =~= images.skip(i));
    } else {
        assert(images.skip(0) =~= images);
    }
}

fn find_digest(page: &RegistryImagePage, tag: &str) -> (r: Option<String>)
    ensures
        opt_view(r) == registry_digest(page_view(*page), tag@),
{
    let ghost pv = page_view(*page);
    let mut i: usize = 0;
    while i < page.results.len()
        invariant
            pv == page_view(*page),
            i <= page.results.len(),
            forall|k: int| 0 <= k < i ==> !has_current_tag(#[trigger] pv[k].tags, tag@),
        decreases page.results.len() - i,
    {
        assert(pv[i as int] == page.results@[i as int]@);
        proof {
            lemma_registry_digest_prefix(pv, tag@, i as int);
            assert(pv.skip(i as int)[0] == pv[i as int]);
            assert(pv.skip(i as int).drop_first() =~= pv.skip(i + 1));
        }
        if has_current_tag_exec(&page.results[i].tags, tag) {
            return Some(page.results[i].digest.clone());
        }
        i = i + 1;
    }
    proof {
        lemma_registry_digest_prefix(pv, tag@, i as int);
    }
    None
}

} // verus!
