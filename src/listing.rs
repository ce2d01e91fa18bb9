use vstd::prelude::*;

use crate::error::RegistryError;
use crate::json::Json;
use crate::manifest::texts;

verus! {

/// The strings of an array, or nothing when one element is not a string.
pub open spec fn strings_in(items: Seq<Json>) -> Option<Seq<Seq<char>>>
    decreases items.len(),
{
    if items.len() == 0 {
        Some(Seq::empty())
    } else {
        match (strings_in(items.drop_last()), items.last()) {
            (Some(ss), Json::Str(s)) => Some(ss.push(s@)),
            _ => None,
        }
    }
}

proof fn lemma_strings_in_prefix_fails(items: Seq<Json>, n: int)
    requires
        0 <= n <= items.len(),
        strings_in(items.subrange(0, n)) is None,
    ensures
        strings_in(items) is None,
    decreases items.len() - n,
{
    if n < items.len() {
        let next = items.subrange(0, n + 1);
        assert(next.drop_last() =~= items.subrange(0, n));
        lemma_strings_in_prefix_fails(items, n + 1);
    } else {
        assert(items.subrange(0, n) =~= items);
    }
}

/// Reads an array of strings.
fn string_list(items: &Vec<Json>) -> (r: Option<Vec<String>>)
    ensures
        match strings_in(items@) {
            Some(ss) => r matches Some(v) && texts(v@) == ss,
            None => r is None,
        },
{
    let mut out: Vec<String> = Vec::new();
    let mut i: usize = 0;
    while i < items.len()
        invariant
            i <= items@.len(),
            strings_in(items@.subrange(0, i as int)) == Some(texts(out@)),
        decreases items@.len() - i,
    {
        let ghost next = items@.subrange(0, i + 1);
        assert(next.drop_last() =~= items@.subrange(0, i as int));
        assert(next.last() == items@[i as int]);
        match &items[i] {
            Json::Str(s) => {
                out.push(s.clone());
                assert(texts(out@) =~= texts(out@.drop_last()).push(s@));
            },
            _ => {
                proof {
                    lemma_strings_in_prefix_fails(items@, i as int + 1);
                }
                return None;
            },
        }
        i = i + 1;
    }
    assert(items@.subrange(0, items@.len() as int) =~= items@);
    Some(out)
}

/// The repositories of the registry, as `GET _catalog` lists them.
pub struct CatalogResponse {
    pub repositories: Vec<String>,
}

/// The `repositories` array of a catalog body.
pub open spec fn repositories_of(body: Json) -> Option<Seq<Seq<char>>> {
    match body.field("repositories"@) {
        Some(Json::Array(items)) => strings_in(items@),
        _ => None,
    }
}

impl CatalogResponse {
    /// Reads a catalog body: an object whose `repositories` is an array of strings.
    pub fn from_json(body: &Json) -> (r: Option<CatalogResponse>)
        ensures
            match repositories_of(*body) {
                Some(names) => r matches Some(c) && texts(c.repositories@) == names,
                None => r is None,
            },
    {
        match body.get("repositories") {
            Some(Json::Array(items)) => match string_list(items) {
                Some(repositories) => Some(CatalogResponse { repositories }),
                None => None,
            },
            _ => None,
        }
    }
}

/// The tags of a repository, as `GET {image}/tags/list` lists them; a
/// repository without tags may have no list at all.
pub struct TagsResponse {
    pub tags: Option<Vec<String>>,
}

/// The `tags` member of a tag list body: absent or `null` is no list.
pub open spec fn tags_of(body: Json) -> Option<Option<Seq<Seq<char>>>> {
    match body {
        Json::Object(_) => match body.field("tags"@) {
            None => Some(None),
            Some(Json::Null) => Some(None),
            Some(Json::Array(items)) => match strings_in(items@) {
                Some(ss) => Some(Some(ss)),
                None => None,
            },
            _ => None,
        },
        _ => None,
    }
}

impl TagsResponse {
    /// The tag names; no list counts as no tag.
    pub open spec fn names(self) -> Seq<Seq<char>> {
        match self.tags {
            Some(v) => texts(v@),
            None => Seq::empty(),
        }
    }

    /// Reads a tag list body: an object whose `tags` is absent, `null`, or an
    /// array of strings.
    pub fn from_json(body: &Json) -> (r: Option<TagsResponse>)
        ensures
            match tags_of(*body) {
                Some(Some(names)) => r matches Some(t) && t.tags matches Some(v) && texts(v@)
                    == names,
                Some(None) => r matches Some(t) && t.tags is None,
                None => r is None,
            },
    {
        match body {
            Json::Object(_) => match body.get("tags") {
                None => Some(TagsResponse { tags: None }),
                Some(Json::Null) => Some(TagsResponse { tags: None }),
                Some(Json::Array(items)) => match string_list(items) {
                    Some(tags) => Some(TagsResponse { tags: Some(tags) }),
                    None => None,
                },
                _ => None,
            },
            _ => None,
        }
    }

    /// Number of tags; a missing list counts as none.
    pub fn count(&self) -> (r: usize)
        ensures
            r == self.names().len(),
    {
        match &self.tags {
            Some(v) => v.len(),
            None => 0,
        }
    }

    /// The tag names; a missing list gives none.
    pub fn into_names(self) -> (r: Vec<String>)
        ensures
            texts(r@) == self.names(),
    {
        match self.tags {
            Some(v) => v,
            None => Vec::new(),
        }
    }
}

/// A repository and how many tags it has.
pub struct Image {
    pub name: String,
    pub tag_count: usize,
}

/// Pairs each repository name with its tag count, in order.
pub fn images(names: Vec<String>, tag_counts: Vec<usize>) -> (r: Vec<Image>)
    requires
        names@.len() == tag_counts@.len(),
    ensures
        r@.len() == names@.len(),
        forall|i: int|
            0 <= i < names@.len() ==> (#[trigger] r@[i]).name@ == names@[i]@ && r@[i].tag_count
                == tag_counts@[i],
{
    let mut rest = names;
    let mut out: Vec<Image> = Vec::new();
    let ghost all = rest@;
    while rest.len() > 0
        invariant
            all.len() == tag_counts@.len(),
            out@.len() + rest@.len() == all.len(),
            rest@ == all.subrange(out@.len() as int, all.len() as int),
            forall|i: int|
                0 <= i < out@.len() ==> (#[trigger] out@[i]).name@ == all[i]@ && out@[i].tag_count
                    == tag_counts@[i],
        decreases rest@.len(),
    {
        let name = rest.remove(0);
        let k = out.len();
        out.push(Image { name, tag_count: tag_counts[k] });
    }
    out
}

/// The outcome of a deletion, from the registry's status code: only a 2xx
/// status is a success.
pub fn delete_outcome(status: u16) -> (r: Result<(), RegistryError>)
    ensures
        r is Ok <==> 200 <= status < 300,
        r is Err ==> r == Err::<(), RegistryError>(RegistryError::Transport),
{
    if 200 <= status && status < 300 {
        Ok(())
    } else {
        Err(RegistryError::Transport)
    }
}

} // verus!
