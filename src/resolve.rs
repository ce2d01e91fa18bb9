use vstd::prelude::*;

use crate::error::RegistryError;
use crate::json::Json;
use crate::manifest::{
    blob_fields, config_digest, config_digest_of, created_text, created_text_of, error_revision,
    error_revision_of, texts, ManifestBlob, TagManifest, TagManifestView,
};
use crate::platform::{
    architecture_names, is_linux_amd64, lemma_first_where_at, preferred, EntryView, Preference, architectures, entries_from_json, entries_of, representative,
    representative_index,
};
use crate::request::{blob_path, manifest_path, Accept, Method, Request, RequestView};
use crate::text::{contains, contains_text};
use crate::timestamp::{parse_timestamp, timestamp_of, Timestamp};

verus! {

/// What the registry answered to one call, as far as the resolution reads it.
///
/// A call that could not be made, or whose body was not JSON, is no `Response`.
pub struct Response {
    /// The `content-type` header.
    pub content_type: Option<String>,
    /// The `docker-content-digest` header.
    pub digest: Option<String>,
    /// The body.
    pub body: Json,
}

/// Which answer a resolution is waiting for.
pub enum Stage {
    /// The manifest of the tag.
    Manifest,
    /// The config blob of a single-platform image whose digest is known.
    ConfigBlob { digest: String },
    /// The manifest of the representative platform of a manifest list.
    PlatformManifest { digest: String, architectures: Vec<String> },
    /// The config blob of the representative platform of a manifest list.
    PlatformConfigBlob { digest: String, architectures: Vec<String> },
}

/// The mathematical value of a [`Stage`].
pub enum StageView {
    Manifest,
    ConfigBlob { digest: Seq<char> },
    PlatformManifest { digest: Seq<char>, architectures: Seq<Seq<char>> },
    PlatformConfigBlob { digest: Seq<char>, architectures: Seq<Seq<char>> },
}

impl View for Stage {
    type V = StageView;

    open spec fn view(&self) -> StageView {
        match self {
            Stage::Manifest => StageView::Manifest,
            Stage::ConfigBlob { digest } => StageView::ConfigBlob { digest: digest@ },
            Stage::PlatformManifest { digest, architectures } => StageView::PlatformManifest {
                digest: digest@,
                architectures: texts(architectures@),
            },
            Stage::PlatformConfigBlob { digest, architectures } => StageView::PlatformConfigBlob {
                digest: digest@,
                architectures: texts(architectures@),
            },
        }
    }
}

/// A resolution of one tag of one image, between two calls to the registry.
pub struct Resolver {
    image: String,
    stage: Stage,
}

/// The mathematical value of a [`Resolver`].
pub struct ResolverView {
    pub image: Seq<char>,
    pub stage: StageView,
}

impl View for Resolver {
    type V = ResolverView;

    closed spec fn view(&self) -> ResolverView {
        ResolverView { image: self.image@, stage: self.stage@ }
    }
}

/// What to do next: make a call and hand its answer to the resolver, or stop.
pub enum Step {
    Fetch(Resolver, Request),
    Done(Result<TagManifest, RegistryError>),
}

/// The mathematical value of a [`Step`].
pub enum StepView {
    Fetch(ResolverView, RequestView),
    Done(Result<TagManifestView, RegistryError>),
}

impl View for Step {
    type V = StepView;

    open spec fn view(&self) -> StepView {
        match self {
            Step::Fetch(r, q) => StepView::Fetch(r@, q@),
            Step::Done(Ok(m)) => StepView::Done(Ok(m@)),
            Step::Done(Err(e)) => StepView::Done(Err(*e)),
        }
    }
}

/// A `content-type` that names a manifest list or an image index.
pub open spec fn is_list_media_type(content_type: Option<String>) -> bool {
    content_type matches Some(c) && (contains(c@, "manifest.list"@) || contains(c@, "image.index"@))
}

/// The first call of the resolution of `image:tag`.
pub open spec fn start_model(image: Seq<char>, tag: Seq<char>) -> StepView {
    StepView::Fetch(
        ResolverView { image, stage: StageView::Manifest },
        RequestView {
            method: Method::Get,
            path: manifest_path(image, tag),
            accept: Accept::AllManifests,
        },
    )
}

/// The outcome of a single-platform image, from its digest and its config blob.
pub open spec fn nominal_outcome(digest: Seq<char>, blob: Json) -> Result<
    TagManifestView,
    RegistryError,
> {
    match blob_fields(blob) {
        Some((architecture, created)) => match timestamp_of(created) {
            Some(t) => Ok(TagManifestView::Nominal { digest, created: t, architecture }),
            None => Err(RegistryError::MalformedManifest),
        },
        None => Err(RegistryError::MalformedManifest),
    }
}

/// What follows the answer to the tag's manifest.
pub open spec fn after_manifest(image: Seq<char>, reply: Option<Response>) -> StepView {
    match reply {
        None => StepView::Done(Err(RegistryError::Transport)),
        Some(resp) => if is_list_media_type(resp.content_type) {
            match resp.digest {
                None => StepView::Done(Err(RegistryError::MalformedManifest)),
                Some(d) => match entries_of(resp.body) {
                    None => StepView::Done(Err(RegistryError::MalformedManifest)),
                    Some(es) => if es.len() == 0 {
                        StepView::Done(Ok(TagManifestView::Error { digest: d@ }))
                    } else {
                        StepView::Fetch(
                            ResolverView {
                                image,
                                stage: StageView::PlatformManifest {
                                    digest: d@,
                                    architectures: architecture_names(es),
                                },
                            },
                            RequestView {
                                method: Method::Get,
                                path: manifest_path(image, es[representative(es)].digest),
                                accept: Accept::SingleManifest,
                            },
                        )
                    },
                },
            }
        } else {
            match resp.digest {
                Some(d) => match config_digest_of(resp.body) {
                    Some(c) => StepView::Fetch(
                        ResolverView { image, stage: StageView::ConfigBlob { digest: d@ } },
                        RequestView {
                            method: Method::Get,
                            path: blob_path(image, c),
                            accept: Accept::AllManifests,
                        },
                    ),
                    None => StepView::Done(Err(RegistryError::MalformedManifest)),
                },
                None => match error_revision_of(resp.body) {
                    Some(rev) => StepView::Done(Ok(TagManifestView::Error { digest: rev })),
                    None => StepView::Done(Err(RegistryError::MalformedManifest)),
                },
            }
        },
    }
}

/// The creation time found in the representative platform's config blob, if any.
pub open spec fn platform_created(reply: Option<Response>) -> Option<Timestamp> {
    match reply {
        Some(resp) => match created_text_of(resp.body) {
            Some(c) => timestamp_of(c),
            None => None,
        },
        None => None,
    }
}

/// What follows an answer, given the stage that waited for it.
pub open spec fn next_step(r: ResolverView, reply: Option<Response>) -> StepView {
    match r.stage {
        StageView::Manifest => after_manifest(r.image, reply),
        StageView::ConfigBlob { digest } => match reply {
            None => StepView::Done(Err(RegistryError::Transport)),
            Some(resp) => StepView::Done(nominal_outcome(digest, resp.body)),
        },
        StageView::PlatformManifest { digest, architectures } => match reply {
            Some(resp) => match config_digest_of(resp.body) {
                Some(c) => StepView::Fetch(
                    ResolverView {
                        image: r.image,
                        stage: StageView::PlatformConfigBlob { digest, architectures },
                    },
                    RequestView {
                        method: Method::Get,
                        path: blob_path(r.image, c),
                        accept: Accept::AllManifests,
                    },
                ),
                None => StepView::Done(
                    Ok(TagManifestView::MultiArch { digest, architectures, created: None }),
                ),
            },
            None => StepView::Done(
                Ok(TagManifestView::MultiArch { digest, architectures, created: None }),
            ),
        },
        StageView::PlatformConfigBlob { digest, architectures } => StepView::Done(
            Ok(
                TagManifestView::MultiArch {
                    digest,
                    architectures,
                    created: platform_created(reply),
                },
            ),
        ),
    }
}

/// Where a resolution stands after the given answers, one per call it asked for.
pub open spec fn run(s: StepView, replies: Seq<Option<Response>>) -> StepView
    decreases replies.len(),
{
    if replies.len() == 0 {
        s
    } else {
        match s {
            StepView::Fetch(r, _) => run(next_step(r, replies[0]), replies.drop_first()),
            StepView::Done(_) => s,
        }
    }
}

/// Where the resolution of `image:tag` stands after the given answers.
pub open spec fn resolution(image: Seq<char>, tag: Seq<char>, replies: Seq<Option<Response>>) -> StepView {
    run(start_model(image, tag), replies)
}

/// Builds the outcome of a single-platform image from its digest, its config
/// blob, and the blob's `created` text read as a timestamp.
pub fn nominal(digest: String, blob: ManifestBlob, created: Option<Timestamp>) -> (r: Result<
    TagManifest,
    RegistryError,
>)
    ensures
        match created {
            Some(t) => r matches Ok(m) && m@ == (TagManifestView::Nominal {
                digest: digest@,
                created: t,
                architecture: blob.architecture@,
            }),
            None => r == Err::<TagManifest, RegistryError>(RegistryError::MalformedManifest),
        },
{
    match created {
        Some(t) => Ok(TagManifest::Nominal { digest, created: t, architecture: blob.architecture }),
        None => Err(RegistryError::MalformedManifest),
    }
}

fn is_list_content_type(content_type: &Option<String>) -> (r: bool)
    ensures
        r == is_list_media_type(*content_type),
{
    match content_type {
        Some(c) => contains_text(c.as_str(), "manifest.list") || contains_text(
            c.as_str(),
            "image.index",
        ),
        None => false,
    }
}

impl Resolver {
    /// Starts resolving `image:tag`: the first call fetches the tag's manifest.
    pub fn start(image: &str, tag: &str) -> (r: Step)
        ensures
            r@ == start_model(image@, tag@),
    {
        let request = Request::manifest(image, tag, Accept::AllManifests);
        Step::Fetch(Resolver { image: String::from_str(image), stage: Stage::Manifest }, request)
    }

    fn after_manifest(image: String, reply: Option<Response>) -> (r: Step)
        ensures
            r@ == after_manifest(image@, reply),
    {
        let resp = match reply {
            None => return Step::Done(Err(RegistryError::Transport)),
            Some(resp) => resp,
        };
        if is_list_content_type(&resp.content_type) {
            let digest = match resp.digest {
                None => return Step::Done(Err(RegistryError::MalformedManifest)),
                Some(d) => d,
            };
            let entries = match entries_from_json(&resp.body) {
                None => return Step::Done(Err(RegistryError::MalformedManifest)),
                Some(es) => es,
            };
            if entries.len() == 0 {
                return Step::Done(Ok(TagManifest::Error { digest }));
            }
            let names = architectures(&entries);
            let k = representative_index(&entries);
            let request = Request::manifest(
                image.as_str(),
                entries[k].digest.as_str(),
                Accept::SingleManifest,
            );
            Step::Fetch(
                Resolver { image, stage: Stage::PlatformManifest { digest, architectures: names } },
                request,
            )
        } else {
            match resp.digest {
                Some(digest) => match config_digest(&resp.body) {
                    Some(c) => {
                        let request = Request::blob(image.as_str(), c.as_str());
                        Step::Fetch(Resolver { image, stage: Stage::ConfigBlob { digest } }, request)
                    },
                    None => Step::Done(Err(RegistryError::MalformedManifest)),
                },
                None => match error_revision(&resp.body) {
                    Some(rev) => Step::Done(Ok(TagManifest::Error { digest: rev })),
                    None => Step::Done(Err(RegistryError::MalformedManifest)),
                },
            }
        }
    }

    /// Takes the answer to the call of the previous step, `None` when that
    /// call could not be made or its body was not JSON, and says what follows.
    pub fn step(self, reply: Option<Response>) -> (r: Step)
        ensures
            r@ == next_step(self@, reply),
    {
        let Resolver { image, stage } = self;
        match stage {
            Stage::Manifest => Resolver::after_manifest(image, reply),
            Stage::ConfigBlob { digest } => match reply {
                None => Step::Done(Err(RegistryError::Transport)),
                Some(resp) => match ManifestBlob::from_json(&resp.body) {
                    Some(blob) => {
                        let created = parse_timestamp(blob.created.as_str());
                        Step::Done(nominal(digest, blob, created))
                    },
                    None => Step::Done(Err(RegistryError::MalformedManifest)),
                },
            },
            Stage::PlatformManifest { digest, architectures } => {
                let config = match reply {
                    Some(resp) => config_digest(&resp.body),
                    None => None,
                };
                match config {
                    Some(c) => {
                        let request = Request::blob(image.as_str(), c.as_str());
                        Step::Fetch(
                            Resolver { image, stage: Stage::PlatformConfigBlob { digest, architectures } },
                            request,
                        )
                    },
                    None => Step::Done(
                        Ok(TagManifest::MultiArch { digest, architectures, created: None }),
                    ),
                }
            },
            Stage::PlatformConfigBlob { digest, architectures } => {
                let created = match reply {
                    Some(resp) => match created_text(&resp.body) {
                        Some(c) => parse_timestamp(c.as_str()),
                        None => None,
                    },
                    None => None,
                };
                Step::Done(Ok(TagManifest::MultiArch { digest, architectures, created }))
            },
        }
    }
}

/// A resolution that is over stays over, whatever further answers come.
proof fn lemma_run_done(s: StepView, replies: Seq<Option<Response>>)
    requires
        s is Done,
    ensures
        run(s, replies) == s,
{
}

/// A single-platform manifest with its digest header and a `config.digest`,
/// followed by a config blob with a string `architecture` and an RFC 3339
/// `created`, resolves to `Nominal` with the header's digest, the blob's
/// architecture and the instant that `created` denotes; the second call
/// fetches the blob named by `config.digest`.
pub proof fn lemma_single_platform_is_nominal(
    image: Seq<char>,
    tag: Seq<char>,
    manifest: Response,
    blob: Response,
    architecture: Seq<char>,
    created: Seq<char>,
)
    requires
        !is_list_media_type(manifest.content_type),
        manifest.digest is Some,
        config_digest_of(manifest.body) is Some,
        blob_fields(blob.body) == Some((architecture, created)),
        timestamp_of(created) is Some,
    ensures
        resolution(image, tag, seq![Some(manifest)]) == StepView::Fetch(
            ResolverView { image, stage: StageView::ConfigBlob { digest: manifest.digest->0@ } },
            RequestView {
                method: Method::Get,
                path: blob_path(image, config_digest_of(manifest.body)->0),
                accept: Accept::AllManifests,
            },
        ),
        resolution(image, tag, seq![Some(manifest), Some(blob)]) == StepView::Done(
            Ok(
                TagManifestView::Nominal {
                    digest: manifest.digest->0@,
                    created: timestamp_of(created)->0,
                    architecture,
                },
            ),
        ),
{
    reveal_with_fuel(run, 4);
    let one = seq![Some(manifest)];
    let two = seq![Some(manifest), Some(blob)];
    assert(one.drop_first() =~= Seq::<Option<Response>>::empty());
    assert(two.drop_first() =~= seq![Some(blob)]);
    assert(seq![Some(blob)].drop_first() =~= Seq::<Option<Response>>::empty());
}

/// A single-platform answer without a digest header is a registry error body:
/// it resolves to `Error` holding `errors[0].detail.Revision` when that string
/// is there, and fails as malformed otherwise.
pub proof fn lemma_missing_digest_reads_error_body(image: Seq<char>, tag: Seq<char>, manifest: Response)
    requires
        !is_list_media_type(manifest.content_type),
        manifest.digest is None,
    ensures
        resolution(image, tag, seq![Some(manifest)]) == StepView::Done(
            match error_revision_of(manifest.body) {
                Some(rev) => Ok(TagManifestView::Error { digest: rev }),
                None => Err(RegistryError::MalformedManifest),
            },
        ),
{
    reveal_with_fuel(run, 4);
    assert(seq![Some(manifest)].drop_first() =~= Seq::<Option<Response>>::empty());
}

/// In a manifest list with a `linux/amd64` entry, wherever it stands, the
/// creation time is looked up through the first such entry.
pub proof fn lemma_linux_amd64_is_representative(
    image: Seq<char>,
    tag: Seq<char>,
    list: Response,
    k: int,
)
    requires
        is_list_media_type(list.content_type),
        list.digest is Some,
        entries_of(list.body) is Some,
        0 <= k < entries_of(list.body)->0.len(),
        is_linux_amd64(entries_of(list.body)->0[k]),
        forall|j: int| 0 <= j < k ==> !is_linux_amd64(#[trigger] entries_of(list.body)->0[j]),
    ensures
        resolution(image, tag, seq![Some(list)]) is Fetch,
        resolution(image, tag, seq![Some(list)])->Fetch_1 == (RequestView {
            method: Method::Get,
            path: manifest_path(image, entries_of(list.body)->0[k].digest),
            accept: Accept::SingleManifest,
        }),
{
    reveal_with_fuel(run, 4);
    let es = entries_of(list.body)->0;
    assert forall|j: int| 0 <= j < k implies !preferred(
        #[trigger] es[j],
        Preference::LinuxAmd64,
    ) by {
        assert(!is_linux_amd64(es[j]));
    }
    lemma_first_where_at(es, Preference::LinuxAmd64, k);
    assert(seq![Some(list)].drop_first() =~= Seq::<Option<Response>>::empty());
}

/// Once a manifest list with entries has been read, the resolution gives
/// `MultiArch` with the list's digest and platforms, whatever the two later
/// calls bring: the creation time is the one the representative's config blob
/// gives, and is absent when either later call fails.
pub proof fn lemma_platform_lookup_never_fails(
    image: Seq<char>,
    tag: Seq<char>,
    list: Response,
    second: Option<Response>,
    third: Option<Response>,
)
    requires
        is_list_media_type(list.content_type),
        list.digest is Some,
        entries_of(list.body) is Some,
        entries_of(list.body)->0.len() > 0,
    ensures
        resolution(image, tag, seq![Some(list), second, third]) == StepView::Done(
            Ok(
                TagManifestView::MultiArch {
                    digest: list.digest->0@,
                    architectures: architecture_names(entries_of(list.body)->0),
                    created: if second is Some && config_digest_of(second->0.body) is Some {
                        platform_created(third)
                    } else {
                        None
                    },
                },
            ),
        ),
        (second is None || third is None) ==> resolution(
            image,
            tag,
            seq![Some(list), second, third],
        ) == StepView::Done(
            Ok(
                TagManifestView::MultiArch {
                    digest: list.digest->0@,
                    architectures: architecture_names(entries_of(list.body)->0),
                    created: None,
                },
            ),
        ),
{
    reveal_with_fuel(run, 4);
    let three = seq![Some(list), second, third];
    assert(three.drop_first() =~= seq![second, third]);
    assert(seq![second, third].drop_first() =~= seq![third]);
    assert(seq![third].drop_first() =~= Seq::<Option<Response>>::empty());
    let s1 = next_step(start_model(image, tag)->Fetch_0, Some(list));
    let s2 = next_step(s1->Fetch_0, second);
    if s2 is Done {
        lemma_run_done(s2, seq![third]);
    }
}

/// A manifest list with no entry at all resolves to `Error` holding the
/// list's own digest.
pub proof fn lemma_empty_list_is_error(image: Seq<char>, tag: Seq<char>, list: Response)
    requires
        is_list_media_type(list.content_type),
        list.digest is Some,
        entries_of(list.body) == Some(Seq::<EntryView>::empty()),
    ensures
        resolution(image, tag, seq![Some(list)]) == StepView::Done(
            Ok(TagManifestView::Error { digest: list.digest->0@ }),
        ),
{
    reveal_with_fuel(run, 4);
    assert(seq![Some(list)].drop_first() =~= Seq::<Option<Response>>::empty());
}

/// Every resolution is over after at most three calls, with exactly one outcome.
pub proof fn lemma_at_most_three_calls(image: Seq<char>, tag: Seq<char>, replies: Seq<Option<Response>>)
    requires
        replies.len() >= 3,
    ensures
        resolution(image, tag, replies) is Done,
{
    let s1 = next_step(start_model(image, tag)->Fetch_0, replies[0]);
    let r1 = replies.drop_first();
    assert(resolution(image, tag, replies) == run(s1, r1));
    if s1 is Done {
        lemma_run_done(s1, r1);
    } else {
        let s2 = next_step(s1->Fetch_0, r1[0]);
        let r2 = r1.drop_first();
        assert(run(s1, r1) == run(s2, r2));
        if s2 is Done {
            lemma_run_done(s2, r2);
        } else {
            let s3 = next_step(s2->Fetch_0, r2[0]);
            let r3 = r2.drop_first();
            assert(run(s2, r2) == run(s3, r3));
            assert(s3 is Done);
            lemma_run_done(s3, r3);
        }
    }
}

} // verus!
