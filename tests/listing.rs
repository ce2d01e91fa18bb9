use registry_explorer::error::RegistryError;
use registry_explorer::json::{Json, JsonMember};
use registry_explorer::listing::{delete_outcome, images, CatalogResponse, TagsResponse};
use registry_explorer::request::{Accept, Endpoint, Method, Request, ALL_MANIFEST_TYPES};

fn string_array(items: &[&str]) -> Json {
    Json::Array(items.iter().map(|s| Json::Str(s.to_string())).collect())
}

fn single_member(key: &str, value: Json) -> Json {
    Json::Object(vec![JsonMember { key: key.to_string(), value }])
}

#[test]
fn catalog_lists_repositories() {
    let body = single_member("repositories", string_array(&["foo", "bar"]));
    let catalog = CatalogResponse::from_json(&body).unwrap();
    assert_eq!(catalog.repositories, vec!["foo", "bar"]);
    assert!(CatalogResponse::from_json(&Json::Object(vec![])).is_none());
    let mixed = single_member("repositories", Json::Array(vec![Json::Null]));
    assert!(CatalogResponse::from_json(&mixed).is_none());
}

#[test]
fn missing_tag_list_counts_as_none() {
    let absent = TagsResponse::from_json(&single_member("name", Json::Str("foo".to_string()))).unwrap();
    assert_eq!(absent.count(), 0);
    assert!(absent.into_names().is_empty());
    let null = TagsResponse::from_json(&single_member("tags", Json::Null)).unwrap();
    assert!(null.tags.is_none());
    let listed = TagsResponse::from_json(&single_member("tags", string_array(&["v1", "v2"]))).unwrap();
    assert_eq!(listed.count(), 2);
    assert_eq!(listed.into_names(), vec!["v1", "v2"]);
    assert!(TagsResponse::from_json(&single_member("tags", Json::Bool(true))).is_none());
    assert!(TagsResponse::from_json(&Json::Null).is_none());
}

#[test]
fn images_pair_names_with_counts() {
    let list = images(vec!["foo".to_string(), "bar".to_string()], vec![3, 0]);
    assert_eq!(list.len(), 2);
    assert_eq!(list[0].name, "foo");
    assert_eq!(list[0].tag_count, 3);
    assert_eq!(list[1].name, "bar");
    assert_eq!(list[1].tag_count, 0);
}

#[test]
fn deletion_targets_manifest_by_digest() {
    let request = Request::delete_manifest("foo", "sha256:deadbeef");
    assert_eq!(request.method, Method::Delete);
    assert_eq!(request.path, "foo/manifests/sha256:deadbeef");
    assert_eq!(request.accept.header_value(), None);
    assert!(matches!(delete_outcome(404), Err(RegistryError::Transport)));
    assert!(delete_outcome(202).is_ok());
    assert!(delete_outcome(200).is_ok());
    assert!(delete_outcome(301).is_err());
    assert!(delete_outcome(500).is_err());
}

#[test]
fn requests_address_registry_api() {
    let endpoint = Endpoint::new("http://registry:5000", "reg".to_string(), "pw".to_string());
    assert_eq!(endpoint.base_url(), "http://registry:5000/v2");
    assert_eq!(endpoint.username(), "reg");
    assert_eq!(endpoint.password(), "pw");
    let catalog = Request::catalog();
    assert_eq!(endpoint.url(&catalog), "http://registry:5000/v2/_catalog");
    assert_eq!(catalog.accept.header_value(), Some(ALL_MANIFEST_TYPES));
    let tags = Request::tags("foo/bar");
    assert_eq!(tags.path, "foo/bar/tags/list");
    assert_eq!(tags.method, Method::Get);
    let blob = Request::blob("foo", "sha256:1");
    assert_eq!(blob.path, "foo/blobs/sha256:1");
    let manifest = Request::manifest("foo", "v1", Accept::SingleManifest);
    assert_eq!(
        manifest.accept.header_value(),
        Some("application/vnd.docker.distribution.manifest.v2+json, application/vnd.oci.image.manifest.v1+json")
    );
}
