use vstd::prelude::*;

use crate::json::Json;
use crate::timestamp::Timestamp;

verus! {

/// The views of a list of strings.
pub open spec fn texts(v: Seq<String>) -> Seq<Seq<char>> {
    v.map_values(|s: String| s@)
}

/// What a tag resolves to.
#[allow(inconsistent_fields)]
pub enum TagManifest {
    /// A single-platform image.
    Nominal { digest: String, created: Timestamp, architecture: String },
    /// A manifest list: the platforms it covers, as `os/architecture[/variant]`,
    /// and, when it could be found, the creation time of a representative platform.
    MultiArch { digest: String, architectures: Vec<String>, created: Option<Timestamp> },
    /// The registry refused to serve the manifest; `digest` holds its diagnostic text.
    Error { digest: String },
}

/// The mathematical value of a [`TagManifest`].
#[allow(inconsistent_fields)]
pub enum TagManifestView {
    Nominal { digest: Seq<char>, created: Timestamp, architecture: Seq<char> },
    MultiArch { digest: Seq<char>, architectures: Seq<Seq<char>>, created: Option<Timestamp> },
    Error { digest: Seq<char> },
}

impl View for TagManifest {
    type V = TagManifestView;

    open spec fn view(&self) -> TagManifestView {
        match self {
            TagManifest::Nominal { digest, created, architecture } => TagManifestView::Nominal {
                digest: digest@,
                created: *created,
                architecture: architecture@,
            },
            TagManifest::MultiArch { digest, architectures, created } => TagManifestView::MultiArch {
                digest: digest@,
                architectures: texts(architectures@),
                created: *created,
            },
            TagManifest::Error { digest } => TagManifestView::Error { digest: digest@ },
        }
    }
}

/// The two fields read from an image's config blob.
pub struct ManifestBlob {
    pub architecture: String,
    pub created: String,
}

/// `architecture` and `created` of a config blob, when both are strings.
pub open spec fn blob_fields(body: Json) -> Option<(Seq<char>, Seq<char>)> {
    match (body.field("architecture"@), body.field("created"@)) {
        (Some(Json::Str(a)), Some(Json::Str(c))) => Some((a@, c@)),
        _ => None,
    }
}

impl ManifestBlob {
    /// Reads a config blob: an object with string members `architecture` and `created`.
    pub fn from_json(body: &Json) -> (r: Option<ManifestBlob>)
        ensures
            match blob_fields(*body) {
                Some((a, c)) => r matches Some(b) && b.architecture@ == a && b.created@ == c,
                None => r is None,
            },
    {
        let architecture = match body.get("architecture") {
            Some(Json::Str(a)) => a.clone(),
            _ => return None,
        };
        let created = match body.get("created") {
            Some(Json::Str(c)) => c.clone(),
            _ => return None,
        };
        Some(ManifestBlob { architecture, created })
    }
}

/// The `config.digest` string of an image manifest.
pub open spec fn config_digest_of(body: Json) -> Option<Seq<char>> {
    match body.field("config"@) {
        Some(config) => match config.field("digest"@) {
            Some(Json::Str(d)) => Some(d@),
            _ => None,
        },
        None => None,
    }
}

/// Reads `config.digest` from an image manifest.
pub fn config_digest(body: &Json) -> (r: Option<String>)
    ensures
        match config_digest_of(*body) {
            Some(d) => r matches Some(s) && s@ == d,
            None => r is None,
        },
{
    match body.get("config") {
        Some(config) => match config.get("digest") {
            Some(Json::Str(d)) => Some(d.clone()),
            _ => None,
        },
        None => None,
    }
}

/// The `errors[0].detail.Revision` string of a registry error body.
pub open spec fn error_revision_of(body: Json) -> Option<Seq<char>> {
    match body.field("errors"@) {
        Some(Json::Array(errors)) => if errors@.len() > 0 {
            match errors@[0].field("detail"@) {
                Some(detail) => match detail.field("Revision"@) {
                    Some(Json::Str(r)) => Some(r@),
                    _ => None,
                },
                None => None,
            }
        } else {
            None
        },
        _ => None,
    }
}

/// Reads `errors[0].detail.Revision` from a registry error body.
pub fn error_revision(body: &Json) -> (r: Option<String>)
    ensures
        match error_revision_of(*body) {
            Some(d) => r matches Some(s) && s@ == d,
            None => r is None,
        },
{
    match body.get("errors") {
        Some(Json::Array(errors)) => {
            if errors.len() == 0 {
                return None;
            }
            match errors[0].get("detail") {
                Some(detail) => match detail.get("Revision") {
                    Some(Json::Str(rev)) => Some(rev.clone()),
                    _ => None,
                },
                None => None,
            }
        },
        _ => None,
    }
}

/// The `created` string of a config blob.
pub open spec fn created_text_of(body: Json) -> Option<Seq<char>> {
    match body.field("created"@) {
        Some(Json::Str(c)) => Some(c@),
        _ => None,
    }
}

/// Reads `created` from a config blob.
pub fn created_text(body: &Json) -> (r: Option<String>)
    ensures
        match created_text_of(*body) {
            Some(d) => r matches Some(s) && s@ == d,
            None => r is None,
        },
{
    match body.get("created") {
        Some(Json::Str(c)) => Some(c.clone()),
        _ => None,
    }
}

} // verus!
