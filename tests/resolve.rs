use registry_explorer::error::RegistryError;
use registry_explorer::json::{Json, JsonMember};
use registry_explorer::manifest::{ManifestBlob, TagManifest};
use registry_explorer::request::{Accept, Method, Request};
use registry_explorer::resolve::{nominal, Resolver, Response, Step};
use registry_explorer::timestamp::Timestamp;

fn text(s: &str) -> Json {
    Json::Str(s.to_string())
}

fn object(members: Vec<(&str, Json)>) -> Json {
    Json::Object(
        members
            .into_iter()
            .map(|(k, v)| JsonMember { key: k.to_string(), value: v })
            .collect(),
    )
}

fn answer(content_type: Option<&str>, digest: Option<&str>, body: Json) -> Option<Response> {
    Some(Response {
        content_type: content_type.map(|c| c.to_string()),
        digest: digest.map(|d| d.to_string()),
        body,
    })
}

fn platform(os: &str, architecture: &str, variant: Option<&str>) -> Json {
    let mut members = vec![("os", text(os)), ("architecture", text(architecture))];
    if let Some(v) = variant {
        members.push(("variant", text(v)));
    }
    object(members)
}

fn entry(digest: &str, platform: Option<Json>) -> Json {
    let mut members = vec![("digest", text(digest))];
    if let Some(p) = platform {
        members.push(("platform", p));
    }
    object(members)
}

const SINGLE: &str = "application/vnd.docker.distribution.manifest.v2+json";
const INDEX: &str = "application/vnd.oci.image.index.v1+json";
const LIST: &str = "application/vnd.docker.distribution.manifest.list.v2+json";

fn expect_fetch(step: Step) -> (Resolver, Request) {
    match step {
        Step::Fetch(r, q) => (r, q),
        Step::Done(_) => panic!("resolution ended early"),
    }
}

fn expect_done(step: Step) -> Result<TagManifest, RegistryError> {
    match step {
        Step::Done(r) => r,
        Step::Fetch(_, q) => panic!("resolution asked for {}", q.path),
    }
}

fn manifest_with_config(config_digest: &str) -> Json {
    object(vec![("config", object(vec![("digest", text(config_digest))]))])
}

fn list_of(entries: Vec<Json>) -> Json {
    object(vec![("manifests", Json::Array(entries))])
}

#[test]
fn first_call_fetches_tag_manifest() {
    let (_, request) = expect_fetch(Resolver::start("foo", "v1"));
    assert_eq!(request.method, Method::Get);
    assert_eq!(request.path, "foo/manifests/v1");
    assert_eq!(request.accept, Accept::AllManifests);
}

#[test]
fn single_platform_resolves_to_nominal() {
    let (resolver, _) = expect_fetch(Resolver::start("foo", "v1"));
    let (resolver, request) = expect_fetch(resolver.step(answer(
        Some(SINGLE),
        Some("sha256:abc"),
        manifest_with_config("sha256:cfg"),
    )));
    assert_eq!(request.method, Method::Get);
    assert_eq!(request.path, "foo/blobs/sha256:cfg");
    let blob = object(vec![
        ("architecture", text("amd64")),
        ("created", text("2024-01-02T03:04:05Z")),
        ("os", text("linux")),
    ]);
    match expect_done(resolver.step(answer(Some("application/octet-stream"), None, blob))) {
        Ok(TagManifest::Nominal { digest, created, architecture }) => {
            assert_eq!(digest, "sha256:abc");
            assert_eq!(created, Timestamp { seconds: 1704164645, nanos: 0 });
            assert_eq!(architecture, "amd64");
        }
        _ => panic!("expected a single-platform image"),
    }
}

#[test]
fn created_with_offset_is_taken_to_utc() {
    let (resolver, _) = expect_fetch(Resolver::start("foo", "v1"));
    let (resolver, _) = expect_fetch(resolver.step(answer(
        None,
        Some("sha256:abc"),
        manifest_with_config("sha256:cfg"),
    )));
    let blob = object(vec![
        ("architecture", text("arm64")),
        ("created", text("2024-01-02T05:04:05.5+02:00")),
    ]);
    match expect_done(resolver.step(answer(None, None, blob))) {
        Ok(TagManifest::Nominal { created, architecture, .. }) => {
            assert_eq!(created, Timestamp { seconds: 1704164645, nanos: 500_000_000 });
            assert_eq!(architecture, "arm64");
        }
        _ => panic!("expected a single-platform image"),
    }
}

#[test]
fn unparsable_created_is_malformed() {
    let (resolver, _) = expect_fetch(Resolver::start("foo", "v1"));
    let (resolver, _) = expect_fetch(resolver.step(answer(
        Some(SINGLE),
        Some("sha256:abc"),
        manifest_with_config("sha256:cfg"),
    )));
    let blob = object(vec![("architecture", text("amd64")), ("created", text("yesterday"))]);
    assert!(matches!(
        expect_done(resolver.step(answer(None, None, blob))),
        Err(RegistryError::MalformedManifest)
    ));
}

#[test]
fn blob_without_architecture_is_malformed() {
    let (resolver, _) = expect_fetch(Resolver::start("foo", "v1"));
    let (resolver, _) = expect_fetch(resolver.step(answer(
        Some(SINGLE),
        Some("sha256:abc"),
        manifest_with_config("sha256:cfg"),
    )));
    let blob = object(vec![("created", text("2024-01-02T03:04:05Z"))]);
    assert!(matches!(
        expect_done(resolver.step(answer(None, None, blob))),
        Err(RegistryError::MalformedManifest)
    ));
}

#[test]
fn failed_blob_fetch_is_transport_error() {
    let (resolver, _) = expect_fetch(Resolver::start("foo", "v1"));
    let (resolver, _) = expect_fetch(resolver.step(answer(
        Some(SINGLE),
        Some("sha256:abc"),
        manifest_with_config("sha256:cfg"),
    )));
    assert!(matches!(expect_done(resolver.step(None)), Err(RegistryError::Transport)));
}

#[test]
fn failed_manifest_fetch_is_transport_error() {
    let (resolver, _) = expect_fetch(Resolver::start("foo", "v1"));
    assert!(matches!(expect_done(resolver.step(None)), Err(RegistryError::Transport)));
}

#[test]
fn missing_config_digest_is_malformed() {
    let (resolver, _) = expect_fetch(Resolver::start("foo", "v1"));
    let body = object(vec![("config", object(vec![("digest", Json::Number("7".to_string()))]))]);
    assert!(matches!(
        expect_done(resolver.step(answer(Some(SINGLE), Some("sha256:abc"), body))),
        Err(RegistryError::MalformedManifest)
    ));
}

#[test]
fn missing_digest_header_reads_error_revision() {
    let (resolver, _) = expect_fetch(Resolver::start("foo", "v1"));
    let body = object(vec![(
        "errors",
        Json::Array(vec![object(vec![
            ("code", text("MANIFEST_UNKNOWN")),
            ("detail", object(vec![("Revision", text("sha256:0123"))])),
        ])]),
    )]);
    match expect_done(resolver.step(answer(Some("application/json"), None, body))) {
        Ok(TagManifest::Error { digest }) => assert_eq!(digest, "sha256:0123"),
        _ => panic!("expected a registry error"),
    }
}

#[test]
fn missing_digest_header_without_revision_is_malformed() {
    let (resolver, _) = expect_fetch(Resolver::start("foo", "v1"));
    let body = object(vec![("errors", Json::Array(vec![]))]);
    assert!(matches!(
        expect_done(resolver.step(answer(Some("application/json"), None, body))),
        Err(RegistryError::MalformedManifest)
    ));
}

#[test]
fn manifest_list_resolves_through_linux_amd64() {
    let (resolver, _) = expect_fetch(Resolver::start("foo", "latest"));
    let body = list_of(vec![
        entry("sha256:arm", Some(platform("linux", "arm64", None))),
        entry("sha256:att", Some(platform("unknown", "unknown", None))),
        entry("sha256:amd", Some(platform("linux", "amd64", None))),
        entry("sha256:v7", Some(platform("linux", "arm", Some("v7")))),
    ]);
    let (resolver, request) =
        expect_fetch(resolver.step(answer(Some(INDEX), Some("sha256:list"), body)));
    assert_eq!(request.path, "foo/manifests/sha256:amd");
    assert_eq!(request.accept, Accept::SingleManifest);
    let (resolver, request) =
        expect_fetch(resolver.step(answer(Some(SINGLE), None, manifest_with_config("sha256:amdcfg"))));
    assert_eq!(request.path, "foo/blobs/sha256:amdcfg");
    let blob = object(vec![("created", text("2023-06-30T12:00:00Z"))]);
    match expect_done(resolver.step(answer(None, None, blob))) {
        Ok(TagManifest::MultiArch { digest, architectures, created }) => {
            assert_eq!(digest, "sha256:list");
            assert_eq!(architectures, vec!["linux/arm64", "linux/amd64", "linux/arm/v7"]);
            assert_eq!(created, Some(Timestamp { seconds: 1688126400, nanos: 0 }));
        }
        _ => panic!("expected a multi-platform image"),
    }
}

#[test]
fn unknown_platform_is_left_out() {
    let (resolver, _) = expect_fetch(Resolver::start("foo", "latest"));
    let body = list_of(vec![
        entry("sha256:att", Some(platform("unknown", "unknown", None))),
        entry("sha256:arm", Some(platform("linux", "arm64", None))),
    ]);
    let (resolver, request) =
        expect_fetch(resolver.step(answer(Some(LIST), Some("sha256:list"), body)));
    assert_eq!(request.path, "foo/manifests/sha256:arm");
    match expect_done(resolver.step(None)) {
        Ok(TagManifest::MultiArch { architectures, .. }) => {
            assert_eq!(architectures, vec!["linux/arm64"]);
        }
        _ => panic!("expected a multi-platform image"),
    }
}

#[test]
fn list_without_platforms_uses_first_entry() {
    let (resolver, _) = expect_fetch(Resolver::start("foo", "latest"));
    let body = list_of(vec![entry("sha256:one", None), entry("sha256:two", None)]);
    let (resolver, request) =
        expect_fetch(resolver.step(answer(Some(INDEX), Some("sha256:list"), body)));
    assert_eq!(request.path, "foo/manifests/sha256:one");
    match expect_done(resolver.step(None)) {
        Ok(TagManifest::MultiArch { architectures, created, .. }) => {
            assert!(architectures.is_empty());
            assert_eq!(created, None);
        }
        _ => panic!("expected a multi-platform image"),
    }
}

#[test]
fn missing_platform_blob_leaves_created_absent() {
    let (resolver, _) = expect_fetch(Resolver::start("foo", "latest"));
    let body = list_of(vec![entry("sha256:amd", Some(platform("linux", "amd64", None)))]);
    let (resolver, _) = expect_fetch(resolver.step(answer(Some(INDEX), Some("sha256:list"), body)));
    let (resolver, _) =
        expect_fetch(resolver.step(answer(Some(SINGLE), None, manifest_with_config("sha256:cfg"))));
    let not_found = object(vec![(
        "errors",
        Json::Array(vec![object(vec![("code", text("BLOB_UNKNOWN"))])]),
    )]);
    match expect_done(resolver.step(answer(Some("application/json"), None, not_found))) {
        Ok(TagManifest::MultiArch { digest, architectures, created }) => {
            assert_eq!(digest, "sha256:list");
            assert_eq!(architectures, vec!["linux/amd64"]);
            assert_eq!(created, None);
        }
        _ => panic!("expected a multi-platform image"),
    }
}

#[test]
fn failed_platform_manifest_leaves_created_absent() {
    let (resolver, _) = expect_fetch(Resolver::start("foo", "latest"));
    let body = list_of(vec![entry("sha256:amd", Some(platform("linux", "amd64", None)))]);
    let (resolver, _) = expect_fetch(resolver.step(answer(Some(INDEX), Some("sha256:list"), body)));
    match expect_done(resolver.step(None)) {
        Ok(TagManifest::MultiArch { created, .. }) => assert_eq!(created, None),
        _ => panic!("expected a multi-platform image"),
    }
}

#[test]
fn empty_manifest_list_is_registry_error() {
    let (resolver, _) = expect_fetch(Resolver::start("foo", "latest"));
    let body = list_of(vec![]);
    match expect_done(resolver.step(answer(Some(INDEX), Some("sha256:list"), body))) {
        Ok(TagManifest::Error { digest }) => assert_eq!(digest, "sha256:list"),
        _ => panic!("expected a registry error"),
    }
}

#[test]
fn manifest_list_without_digest_is_malformed() {
    let (resolver, _) = expect_fetch(Resolver::start("foo", "latest"));
    let body = list_of(vec![entry("sha256:amd", Some(platform("linux", "amd64", None)))]);
    assert!(matches!(
        expect_done(resolver.step(answer(Some(INDEX), None, body))),
        Err(RegistryError::MalformedManifest)
    ));
}

#[test]
fn manifest_list_with_bad_entry_is_malformed() {
    let (resolver, _) = expect_fetch(Resolver::start("foo", "latest"));
    let body = list_of(vec![entry("sha256:amd", Some(text("linux/amd64")))]);
    assert!(matches!(
        expect_done(resolver.step(answer(Some(INDEX), Some("sha256:list"), body))),
        Err(RegistryError::MalformedManifest)
    ));
}

#[test]
fn nominal_needs_a_timestamp() {
    let blob = ManifestBlob { architecture: "amd64".to_string(), created: "x".to_string() };
    assert!(matches!(
        nominal("sha256:abc".to_string(), blob, None),
        Err(RegistryError::MalformedManifest)
    ));
    let blob = ManifestBlob { architecture: "amd64".to_string(), created: "x".to_string() };
    let t = Timestamp { seconds: 5, nanos: 6 };
    match nominal("sha256:abc".to_string(), blob, Some(t)) {
        Ok(TagManifest::Nominal { digest, created, architecture }) => {
            assert_eq!(digest, "sha256:abc");
            assert_eq!(created, t);
            assert_eq!(architecture, "amd64");
        }
        _ => panic!("expected a single-platform image"),
    }
}
