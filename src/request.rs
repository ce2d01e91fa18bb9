use vstd::prelude::*;

use crate::text::joined;

verus! {

/// The media types a manifest request accepts: every kind of manifest and manifest list.
pub const ALL_MANIFEST_TYPES: &'static str = "application/vnd.docker.distribution.manifest.v2+json, application/vnd.oci.image.manifest.v1+json, application/vnd.oci.image.index.v1+json, application/vnd.docker.distribution.manifest.list.v2+json";

/// The media types of a single-platform image manifest.
pub const SINGLE_MANIFEST_TYPES: &'static str = "application/vnd.docker.distribution.manifest.v2+json, application/vnd.oci.image.manifest.v1+json";

/// HTTP method of a registry call.
#[derive(Debug, Clone, Copy, PartialEq, Eq, Structural)]
pub enum Method {
    Get,
    Delete,
}

/// Which `Accept` header a registry call carries.
#[derive(Debug, Clone, Copy, PartialEq, Eq, Structural)]
pub enum Accept {
    /// Every manifest and manifest-list media type.
    AllManifests,
    /// Only the single-platform manifest media types.
    SingleManifest,
    /// No `Accept` header.
    Unspecified,
}

impl Accept {
    /// The header's value, if the call carries one.
    pub fn header_value(&self) -> (r: Option<&'static str>)
        ensures
            *self == Accept::AllManifests ==> r == Some(ALL_MANIFEST_TYPES),
            *self == Accept::SingleManifest ==> r == Some(SINGLE_MANIFEST_TYPES),
            *self == Accept::Unspecified ==> r is None,
    {
        match self {
            Accept::AllManifests => Some(ALL_MANIFEST_TYPES),
            Accept::SingleManifest => Some(SINGLE_MANIFEST_TYPES),
            Accept::Unspecified => None,
        }
    }
}

/// A call to make against the registry's `/v2/` API; `path` is relative to it.
pub struct Request {
    pub method: Method,
    pub path: String,
    pub accept: Accept,
}

/// The mathematical value of a [`Request`].
pub struct RequestView {
    pub method: Method,
    pub path: Seq<char>,
    pub accept: Accept,
}

impl View for Request {
    type V = RequestView;

    open spec fn view(&self) -> RequestView {
        RequestView { method: self.method, path: self.path@, accept: self.accept }
    }
}

/// `{image}/manifests/{reference}`: a manifest, by tag or by digest.
pub open spec fn manifest_path(image: Seq<char>, reference: Seq<char>) -> Seq<char> {
    image + "/manifests/"@ + reference
}

/// `{image}/blobs/{digest}`: a blob, such as an image's config.
pub open spec fn blob_path(image: Seq<char>, digest: Seq<char>) -> Seq<char> {
    image + "/blobs/"@ + digest
}

/// `{image}/tags/list`: the tags of a repository.
pub open spec fn tags_path(image: Seq<char>) -> Seq<char> {
    image + "/tags/list"@
}

fn three(a: &str, b: &str, c: &str) -> (r: String)
    ensures
        r@ == a@ + b@ + c@,
{
    let mut s = joined(a, b);
    s.append(c);
    s
}

impl Request {
    /// `GET _catalog`: the repositories of the registry.
    pub fn catalog() -> (r: Request)
        ensures
            r@ == (RequestView { method: Method::Get, path: "_catalog"@, accept: Accept::AllManifests }),
    {
        Request { method: Method::Get, path: String::from_str("_catalog"), accept: Accept::AllManifests }
    }

    /// `GET {image}/tags/list`.
    pub fn tags(image: &str) -> (r: Request)
        ensures
            r@ == (RequestView {
                method: Method::Get,
                path: tags_path(image@),
                accept: Accept::AllManifests,
            }),
    {
        Request { method: Method::Get, path: joined(image, "/tags/list"), accept: Accept::AllManifests }
    }

    /// `GET {image}/manifests/{reference}` with the given `Accept` header.
    pub fn manifest(image: &str, reference: &str, accept: Accept) -> (r: Request)
        ensures
            r@ == (RequestView {
                method: Method::Get,
                path: manifest_path(image@, reference@),
                accept,
            }),
    {
        Request { method: Method::Get, path: three(image, "/manifests/", reference), accept }
    }

    /// `GET {image}/blobs/{digest}`.
    pub fn blob(image: &str, digest: &str) -> (r: Request)
        ensures
            r@ == (RequestView {
                method: Method::Get,
                path: blob_path(image@, digest@),
                accept: Accept::AllManifests,
            }),
    {
        Request { method: Method::Get, path: three(image, "/blobs/", digest), accept: Accept::AllManifests }
    }

    /// `DELETE {image}/manifests/{digest}`.
    pub fn delete_manifest(image: &str, digest: &str) -> (r: Request)
        ensures
            r@ == (RequestView {
                method: Method::Delete,
                path: manifest_path(image@, digest@),
                accept: Accept::Unspecified,
            }),
    {
        Request {
            method: Method::Delete,
            path: three(image, "/manifests/", digest),
            accept: Accept::Unspecified,
        }
    }
}

/// Where the registry is and how to log in to it.
pub struct Endpoint {
    base_url: String,
    username: String,
    password: String,
}

impl Endpoint {
    /// The API root `{registry_url}/v2`, with the basic-auth credentials.
    pub fn new(registry_url: &str, username: String, password: String) -> (r: Endpoint)
        ensures
            r.base_url_view() == registry_url@ + "/v2"@,
            r.username_view() == username@,
            r.password_view() == password@,
    {
        Endpoint { base_url: joined(registry_url, "/v2"), username, password }
    }

    pub closed spec fn base_url_view(&self) -> Seq<char> {
        self.base_url@
    }

    pub closed spec fn username_view(&self) -> Seq<char> {
        self.username@
    }

    pub closed spec fn password_view(&self) -> Seq<char> {
        self.password@
    }

    /// The API root, `{registry_url}/v2`.
    pub fn base_url(&self) -> (r: &str)
        ensures
            r@ == self.base_url_view(),
    {
        self.base_url.as_str()
    }

    /// The basic-auth user name.
    pub fn username(&self) -> (r: &str)
        ensures
            r@ == self.username_view(),
    {
        self.username.as_str()
    }

    /// The basic-auth password.
    pub fn password(&self) -> (r: &str)
        ensures
            r@ == self.password_view(),
    {
        self.password.as_str()
    }

    /// The full URL of a request: `{base_url}/{path}`.
    pub fn url(&self, request: &Request) -> (r: String)
        ensures
            r@ == self.base_url_view() + "/"@ + request.path@,
    {
        three(self.base_url.as_str(), "/", request.path.as_str())
    }
}

} // verus!
