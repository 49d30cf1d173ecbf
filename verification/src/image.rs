use vstd::prelude::*;
use crate::text::{first_piece, second_piece, split_pair, same_text, opt_view};

verus! {

/// An image that the local container engine holds, as far as the search reads it.
#[derive(Debug)]
pub struct ImageSummary {
    pub id: String,
    pub repo_digests: Option<Vec<String>>,
    pub repo_tags: Option<Vec<String>>,
}

/// An image's id, repository digests and tags (a missing list is empty).
pub struct ImageSummaryView {
    pub id: Seq<char>,
    pub repo_digests: Seq<Seq<char>>,
    pub repo_tags: Seq<Seq<char>>,
}

pub open spec fn texts_view(v: Option<Vec<String>>) -> Seq<Seq<char>> {
    match v {
        Some(v) => v@.map_values(|s: String| s@),
        None => Seq::empty(),
    }
}

impl View for ImageSummary {
    type V = ImageSummaryView;

    open spec fn view(&self) -> ImageSummaryView {
        ImageSummaryView {
            id: self.id@,
            repo_digests: texts_view(self.repo_digests),
            repo_tags: texts_view(self.repo_tags),
        }
    }
}

pub open spec fn images_view(v: Seq<ImageSummary>) -> Seq<ImageSummaryView> {
    v.map_values(|i: ImageSummary| i@)
}

/// The result of looking for an image in the local engine.
#[derive(Debug)]
pub struct LocalImageSearchResult {
    pub found: bool,
    pub image_url: String,
    pub image_tag: String,
    pub image_digest: Option<String>,
    pub image_id: Option<String>,
}

pub struct LocalImageSearchResultView {
    pub found: bool,
    pub image_url: Seq<char>,
    pub image_tag: Seq<char>,
    pub image_digest: Option<Seq<char>>,
    pub image_id: Option<Seq<char>>,
}

impl View for LocalImageSearchResult {
    type V = LocalImageSearchResultView;

    open spec fn view(&self) -> LocalImageSearchResultView {
        LocalImageSearchResultView {
            found: self.found,
            image_url: self.image_url@,
            image_tag: self.image_tag@,
            image_digest: opt_view(self.image_digest),
            image_id: opt_view(self.image_id),
        }
    }
}

/// The tag searched for: the one given, or `latest`.
pub open spec fn tag_or_latest(tag: Option<Seq<char>>) -> Seq<char> {
    match tag {
        Some(t) => t,
        None => "latest"@,
    }
}

/// The digest an image is known by: the part after `@` of the last
/// repository digest that holds one, or empty where none does.
pub open spec fn digest_of(digests: Seq<Seq<char>>) -> Seq<char>
    decreases digests.len(),
{
    if digests.len() == 0 {
        Seq::empty()
    } else if digests.last().contains('@') {
        second_piece(digests.last(), '@')
    } else {
        digest_of(digests.drop_last())
    }
}

/// How a scan of repository tags ends.
pub enum TagScan {
    /// A tag names the repository and tag searched for.
    Match,
    /// No tag does, and every tag has the form `repository:tag`.
    NoMatch,
    /// A tag without `:` comes before any match.
    Malformed,
}

/// Scans `tags` in order for `url:tag`.
pub open spec fn scan_tags(tags: Seq<Seq<char>>, url: Seq<char>, tag: Seq<char>) -> TagScan
    decreases tags.len(),
{
    if tags.len() == 0 {
        TagScan::NoMatch
    } else if !tags[0].contains(':') {
        TagScan::Malformed
    } else if first_piece(tags[0], ':') == url && second_piece(tags[0], ':') == tag {
        TagScan::Match
    } else {
        scan_tags(tags.drop_first(), url, tag)
    }
}

/// How a scan of images ends.
pub enum ImageScan {
    /// The image at this index is the first whose tags match.
    Found(nat),
    /// No image matches and no tag is malformed.
    Missing,
    /// A malformed tag comes before any match.
    Malformed,
}

/// Scans `images` in order for one tagged `url:tag`.
pub open spec fn scan_images(images: Seq<ImageSummaryView>, url: Seq<char>, tag: Seq<char>) -> ImageScan
    decreases images.len(),
{
    if images.len() == 0 {
        ImageScan::Missing
    } else {
        match scan_tags(images[0].repo_tags, url, tag) {
            TagScan::Match => ImageScan::Found(0),
            TagScan::Malformed => ImageScan::Malformed,
            TagScan::NoMatch => match scan_images(images.drop_first(), url, tag) {
                ImageScan::Found(k) => ImageScan::Found(k + 1),
                other => other,
            },
        }
    }
}

/// What a search for `url:tag` among `images` reports.
pub open spec fn local_search(images: Seq<ImageSummaryView>, url: Seq<char>, tag: Seq<char>) -> LocalImageSearchResultView {
    match scan_images(images, url, tag) {
        ImageScan::Found(k) => LocalImageSearchResultView {
            found: true,
            image_url: url,
            image_tag: tag,
            image_digest: Some(digest_of(images[k as int].repo_digests)),
            image_id: Some(images[k as int].id),
        },
        _ => LocalImageSearchResultView {
            found: false,
            image_url: url,
            image_tag: tag,
            image_digest: None,
            image_id: None,
        },
    }
}

proof fn lemma_scan_images_prefix(images: Seq<ImageSummaryView>, url: Seq<char>, tag: Seq<char>, i: int)
    requires
        0 <= i <= images.len(),
        forall|k: int| 0 <= k < i ==> scan_tags(#[trigger] images[k].repo_tags, url, tag) is NoMatch,
    ensures
        scan_images(images, url, tag) == (match scan_images(images.skip(i), url, tag) {
            ImageScan::Found(k) => ImageScan::Found(k + i as nat),
            other => other,
        }),
    decreases i,
{
    if i > 0 {
        assert(scan_tags(images[0].repo_tags, url, tag) is NoMatch);
        let rest = images.drop_first();
        assert forall|k: int| 0 <= k < i - 1 implies scan_tags(#[trigger] rest[k].repo_tags, url, tag) is NoMatch by {
            assert(rest[k] == images[k + 1]);
        }
        lemma_scan_images_prefix(rest, url, tag, i - 1);
        assert(rest.skip(i - 1) =~= images.skip(i));
    } else {
        assert(images.skip(0) =~= images);
    }
}

proof fn lemma_scan_tags_prefix(tags: Seq<Seq<char>>, url: Seq<char>, tag: Seq<char>, j: int)
    requires
        0 <= j <= tags.len(),
        forall|k: int| 0 <= k < j ==> (#[trigger] tags[k]).contains(':') && !(first_piece(tags[k], ':') == url && second_piece(tags[k], ':') == tag),
    ensures
        scan_tags(tags, url, tag) == scan_tags(tags.skip(j), url, tag),
    decreases j,
{
    if j > 0 {
        let rest = tags.drop_first();
        assert(tags[0].contains(':'));
        assert forall|k: int| 0 <= k < j - 1 implies (#[trigger] rest[k]).contains(':') && !(first_piece(rest[k], ':') == url && second_piece(rest[k], ':') == tag) by {
            assert(rest[k] == tags[k + 1]);
        }
        lemma_scan_tags_prefix(rest, url, tag, j - 1);
        assert(rest.skip(j - 1) =~= tags.skip(j));
    } else {
        assert(tags.skip(0) =~= tags);
    }
}

fn digest_of_exec(digests: &Option<Vec<String>>) -> (r: String)
    ensures
        r@ == digest_of(texts_view(*digests)),
{
    let mut r = String::new();
    match digests {
        None => {
            assert(texts_view(*digests) =~= Seq::<Seq<char>>::empty());
        },
        Some(ds) => {
            let ghost dv = texts_view(*digests);
            let mut i: usize = 0;
            assert(dv.take(0) =~= Seq::<Seq<char>>::empty());
            while i < ds.len()
                invariant
                    dv == ds@.map_values(|s: String| s@),
                    i <= ds.len(),
                    r@ == digest_of(dv.take(i as int)),
                decreases ds.len() - i,
            {
                let (_, second) = split_pair(ds[i].as_str(), '@');
                assert(dv.take(i + 1).drop_last() =~= dv.take(i as int));
                assert(dv.take(i + 1).last() == ds@[i as int]@);
                match second {
                    Some(d) => {
                        r = d;
                    },
                    None => {},
                }
                i = i + 1;
            }
            assert(dv.take(i as int) =~= dv);
        },
    }
    r
}

/// Scans one image's tags; gives `Some(true)` on a match, `Some(false)` when
/// none matches, `None` on a malformed tag.
fn scan_tags_exec(tags: &Option<Vec<String>>, url: &str, tag: &str) -> (r: Option<bool>)
    ensures
        r == (match scan_tags(texts_view(*tags), url@, tag@) {
            TagScan::Match => Some(true),
            TagScan::NoMatch => Some(false),
            TagScan::Malformed => None::<bool>,
        }),
{
    match tags {
        None => {
            assert(texts_view(*tags) =~= Seq::<Seq<char>>::empty());
            Some(false)
        },
        Some(ts) => {
            let ghost tv = texts_view(*tags);
            let mut j: usize = 0;
            while j < ts.len()
                invariant
                    tv == ts@.map_values(|s: String| s@),
                    tv == texts_view(*tags),
                    j <= ts.len(),
                    forall|k: int| 0 <= k < j ==> (#[trigger] tv[k]).contains(':') && !(first_piece(tv[k], ':') == url@ && second_piece(tv[k], ':') == tag@),
                decreases ts.len() - j,
            {
                let (first, second) = split_pair(ts[j].as_str(), ':');
                proof {
                    assert(tv[j as int] == ts@[j as int]@);
                    lemma_scan_tags_prefix(tv, url@, tag@, j as int);
                    assert(tv.skip(j as int)[0] == tv[j as int]);
                    assert(tv.skip(j as int).drop_first() =~= tv.skip(j + 1));
                }
                match second {
                    None => {
                        return None;
                    },
                    Some(s) => {
                        if same_text(first.as_str(), url) && same_text(s.as_str(), tag) {
                            return Some(true);
                        }
                    },
                }
                j = j + 1;
            }
            proof {
                lemma_scan_tags_prefix(tv, url@, tag@, j as int);
                assert(tv.skip(j as int).len() == 0);
            }
            Some(false)
        },
    }
}

/// Whether a search for `url:tag` among `images` meets no malformed tag
/// before it ends.
pub fn image_tags_well_formed(images: &Vec<ImageSummary>, image_url: &str, tag: &str) -> (r: bool)
    ensures
        r == !(scan_images(images_view(images@), image_url@, tag@) is Malformed),
{
    let ghost iv = images_view(images@);
    let mut i: usize = 0;
    while i < images.len()
        invariant
            iv == images_view(images@),
            i <= images.len(),
            forall|k: int| 0 <= k < i ==> scan_tags(#[trigger] iv[k].repo_tags, image_url@, tag@) is NoMatch,
        decreases images.len() - i,
    {
        let s = scan_tags_exec(&images[i].repo_tags, image_url, tag);
        proof {
            assert(iv[i as int] == images@[i as int]@);
            lemma_scan_images_prefix(iv, image_url@, tag@, i as int);
            assert(iv.skip(i as int)[0] == iv[i as int]);
            assert(iv.skip(i as int).drop_first() =~= iv.skip(i + 1));
        }
        match s {
            None => {
                return false;
            },
            Some(true) => {
                return true;
            },
            Some(false) => {},
        }
        i = i + 1;
    }
    proof {
        lemma_scan_images_prefix(iv, image_url@, tag@, i as int);
    }
    true
}

/// Looks for the image `image_url:tag` (tag `latest` where none is given)
/// among the images the local engine holds, and reports its digest and id.
pub fn get_local_image_digest(images: &Vec<ImageSummary>, image_url: String, tag: Option<String>) -> (r: LocalImageSearchResult)
    requires
        !(scan_images(images_view(images@), image_url@, tag_or_latest(opt_view(tag))) is Malformed),
    ensures
        r@ == local_search(images_view(images@), image_url@, tag_or_latest(opt_view(tag))),
{
    let ghost wanted = tag_or_latest(opt_view(tag));
    let target = match tag {
        Some(t) => t,
        None => String::from_str("latest"),
    };
    let ghost iv = images_view(images@);
    let mut i: usize = 0;
    while i < images.len()
        invariant
            iv == images_view(images@),
            target@ == wanted,
            wanted == tag_or_latest(opt_view(tag)),
            i <= images.len(),
            !(scan_images(iv, image_url@, target@) is Malformed),
            forall|k: int| 0 <= k < i ==> scan_tags(#[trigger] iv[k].repo_tags, image_url@, target@) is NoMatch,
        decreases images.len() - i,
    {
        let s = scan_tags_exec(&images[i].repo_tags, image_url.as_str(), target.as_str());
        proof {
            assert(iv[i as int] == images@[i as int]@);
            lemma_scan_images_prefix(iv, image_url@, target@, i as int);
            assert(iv.skip(i as int)[0] == iv[i as int]);
            assert(iv.skip(i as int).drop_first() =~= iv.skip(i + 1));
        }
        match s {
            Some(true) => {
                let digest = digest_of_exec(&images[i].repo_digests);
                proof {
                    assert(scan_images(iv.skip(i as int), image_url@, target@) == ImageScan::Found(0));
                    assert(scan_images(iv, image_url@, target@) == ImageScan::Found(i as nat));
                }
                let id = images[i].id.clone();
                let r = LocalImageSearchResult {
                    found: true,
                    image_url,
                    image_tag: target,
                    image_digest: Some(digest),
                    image_id: Some(id),
                };
                return r;
            },
            _ => {},
        }
        i = i + 1;
    }
    proof {
        lemma_scan_images_prefix(iv, image_url@, target@, i as int);
    }
    LocalImageSearchResult {
        found: false,
        image_url,
        image_tag: target,
        image_digest: None,
        image_id: None,
    }
}

/// What to ask the engine to pull.
#[derive(Debug)]
pub struct PullRequest {
    pub image: String,
    pub tag: String,
}

/// The image and tag to pull for `image_url` and `tag`: the image is
/// `image_url:tag` (tag `latest` where none is given); with credentials the
/// tag is that tag, without them it is `latest`.
pub fn pull_request(image_url: &str, tag: Option<String>, authenticated: bool) -> (r: PullRequest)
    ensures
        r.image@ == image_url@ + ":"@ + tag_or_latest(opt_view(tag)),
        r.tag@ == (if authenticated { tag_or_latest(opt_view(tag)) } else { "latest"@ }),
{
    let t = match tag {
        Some(t) => t,
        None => String::from_str("latest"),
    };
    let mut image = String::from_str(image_url);
    image.append(":");
    image.append(t.as_str());
    if authenticated {
        PullRequest { image, tag: t }
    } else {
        PullRequest { image, tag: String::from_str("latest") }
    }
}

} // verus!
