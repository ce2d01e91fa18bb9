use vstd::prelude::*;

use crate::json::Json;
use crate::text::{joined, same_text};
use crate::manifest::texts;

verus! {

/// The platform an entry of a manifest list is built for.
pub struct Platform {
    pub os: String,
    pub architecture: String,
    pub variant: Option<String>,
}

/// One entry of a manifest list: its own digest and, when given, its platform.
pub struct ManifestPlatformEntry {
    pub digest: String,
    pub platform: Option<Platform>,
}

/// The mathematical value of a [`Platform`].
pub struct PlatformView {
    pub os: Seq<char>,
    pub architecture: Seq<char>,
    pub variant: Option<Seq<char>>,
}

/// The mathematical value of a [`ManifestPlatformEntry`].
pub struct EntryView {
    pub digest: Seq<char>,
    pub platform: Option<PlatformView>,
}

impl View for Platform {
    type V = PlatformView;

    open spec fn view(&self) -> PlatformView {
        PlatformView {
            os: self.os@,
            architecture: self.architecture@,
            variant: match self.variant {
                Some(v) => Some(v@),
                None => None,
            },
        }
    }
}

impl View for ManifestPlatformEntry {
    type V = EntryView;

    open spec fn view(&self) -> EntryView {
        EntryView {
            digest: self.digest@,
            platform: match self.platform {
                Some(p) => Some(p@),
                None => None,
            },
        }
    }
}

/// The views of a list of entries.
pub open spec fn entry_views(v: Seq<ManifestPlatformEntry>) -> Seq<EntryView> {
    v.map_values(|e: ManifestPlatformEntry| e@)
}

/// A member that may be absent, `null`, or a string.
pub open spec fn optional_text(member: Option<Json>) -> Option<Option<Seq<char>>> {
    match member {
        None => Some(None),
        Some(Json::Null) => Some(None),
        Some(Json::Str(s)) => Some(Some(s@)),
        _ => None,
    }
}

/// A `platform` object: string `os` and `architecture`, optional string `variant`.
pub open spec fn platform_of(p: Json) -> Option<PlatformView> {
    match (p.field("os"@), p.field("architecture"@), optional_text(p.field("variant"@))) {
        (Some(Json::Str(os)), Some(Json::Str(a)), Some(v)) => Some(
            PlatformView { os: os@, architecture: a@, variant: v },
        ),
        _ => None,
    }
}

/// A manifest list entry: a string `digest` and an optional `platform` object.
pub open spec fn entry_of(e: Json) -> Option<EntryView> {
    match e.field("digest"@) {
        Some(Json::Str(d)) => match e.field("platform"@) {
            None => Some(EntryView { digest: d@, platform: None }),
            Some(Json::Null) => Some(EntryView { digest: d@, platform: None }),
            Some(p) => match platform_of(p) {
                Some(pv) => Some(EntryView { digest: d@, platform: Some(pv) }),
                None => None,
            },
        },
        _ => None,
    }
}

/// All entries of a list, or nothing when one of them is malformed.
pub open spec fn entries_in(items: Seq<Json>) -> Option<Seq<EntryView>>
    decreases items.len(),
{
    if items.len() == 0 {
        Some(Seq::empty())
    } else {
        match (entries_in(items.drop_last()), entry_of(items.last())) {
            (Some(es), Some(e)) => Some(es.push(e)),
            _ => None,
        }
    }
}

/// The entries of a manifest list body: its `manifests` array.
pub open spec fn entries_of(body: Json) -> Option<Seq<EntryView>> {
    match body.field("manifests"@) {
        Some(Json::Array(items)) => entries_in(items@),
        _ => None,
    }
}

fn optional_text_exec(member: Option<&Json>) -> (r: Option<Option<String>>)
    ensures
        match optional_text(
            match member {
                Some(j) => Some(*j),
                None => None,
            },
        ) {
            Some(Some(t)) => r matches Some(Some(s)) && s@ == t,
            Some(None) => r matches Some(None),
            None => r is None,
        },
{
    match member {
        None => Some(None),
        Some(Json::Null) => Some(None),
        Some(Json::Str(s)) => Some(Some(s.clone())),
        _ => None,
    }
}

impl Platform {
    /// Reads a `platform` object.
    pub fn from_json(p: &Json) -> (r: Option<Platform>)
        ensures
            match platform_of(*p) {
                Some(v) => r matches Some(q) && q@ == v,
                None => r is None,
            },
    {
        let os = match p.get("os") {
            Some(Json::Str(s)) => s.clone(),
            _ => return None,
        };
        let architecture = match p.get("architecture") {
            Some(Json::Str(s)) => s.clone(),
            _ => return None,
        };
        let variant = match optional_text_exec(p.get("variant")) {
            Some(v) => v,
            None => return None,
        };
        Some(Platform { os, architecture, variant })
    }

    /// `os/architecture`, then `/variant` when there is one.
    pub open spec fn name_of(p: PlatformView) -> Seq<char> {
        match p.variant {
            Some(v) => p.os + "/"@ + p.architecture + "/"@ + v,
            None => p.os + "/"@ + p.architecture,
        }
    }

    /// The platform as `os/architecture[/variant]`.
    pub fn name(&self) -> (r: String)
        ensures
            r@ == Platform::name_of(self@),
    {
        let mut s = joined(self.os.as_str(), "/");
        s.append(self.architecture.as_str());
        match &self.variant {
            Some(v) => {
                s.append("/");
                s.append(v.as_str());
            },
            None => {},
        }
        s
    }
}

impl ManifestPlatformEntry {
    /// Reads one entry of a manifest list.
    pub fn from_json(e: &Json) -> (r: Option<ManifestPlatformEntry>)
        ensures
            match entry_of(*e) {
                Some(v) => r matches Some(q) && q@ == v,
                None => r is None,
            },
    {
        let digest = match e.get("digest") {
            Some(Json::Str(s)) => s.clone(),
            _ => return None,
        };
        let platform = match e.get("platform") {
            None => None,
            Some(Json::Null) => None,
            Some(p) => match Platform::from_json(p) {
                Some(q) => Some(q),
                None => return None,
            },
        };
        Some(ManifestPlatformEntry { digest, platform })
    }
}

/// Reads the `manifests` array of a manifest list.
pub fn entries_from_json(body: &Json) -> (r: Option<Vec<ManifestPlatformEntry>>)
    ensures
        match entries_of(*body) {
            Some(es) => r matches Some(v) && entry_views(v@) == es,
            None => r is None,
        },
{
    let items = match body.get("manifests") {
        Some(Json::Array(items)) => items,
        _ => return None,
    };
    let mut out: Vec<ManifestPlatformEntry> = Vec::new();
    let mut i: usize = 0;
    while i < items.len()
        invariant
            entries_of(*body) == entries_in(items@),
            i <= items@.len(),
            entries_in(items@.subrange(0, i as int)) == Some(entry_views(out@)),
        decreases items@.len() - i,
    {
        let ghost prefix = items@.subrange(0, i as int);
        let ghost next = items@.subrange(0, i + 1);
        assert(next.drop_last() =~= prefix);
        assert(next.last() == items@[i as int]);
        match ManifestPlatformEntry::from_json(&items[i]) {
            Some(e) => {
                out.push(e);
                assert(entry_views(out@) =~= entry_views(out@.drop_last()).push(e@));
            },
            None => {
                proof {
                    lemma_entries_in_prefix_fails(items@, i as int + 1);
                }
                return None;
            },
        }
        i = i + 1;
    }
    assert(items@.subrange(0, items@.len() as int) =~= items@);
    Some(out)
}

proof fn lemma_entries_in_prefix_fails(items: Seq<Json>, n: int)
    requires
        0 <= n <= items.len(),
        entries_in(items.subrange(0, n)) is None,
    ensures
        entries_in(items) is None,
    decreases items.len() - n,
{
    if n < items.len() {
        let next = items.subrange(0, n + 1);
        assert(next.drop_last() =~= items.subrange(0, n));
        lemma_entries_in_prefix_fails(items, n + 1);
    } else {
        assert(items.subrange(0, n) =~= items);
    }
}

/// Whether an entry names a real platform: it has one, and it is not the
/// `unknown/unknown` placeholder that registries give to attestations.
pub open spec fn has_real_platform(e: EntryView) -> bool {
    e.platform matches Some(q) && !(q.os == "unknown"@ && q.architecture == "unknown"@)
}

/// Whether an entry's platform is exactly `linux/amd64`.
pub open spec fn is_linux_amd64(e: EntryView) -> bool {
    e.platform matches Some(q) && q.os == "linux"@ && q.architecture == "amd64"@ && q.variant is None
}

/// The two kinds of entry that the representative is looked for among, best first.
pub enum Preference {
    LinuxAmd64,
    RealPlatform,
}

/// Whether `e` is of the kind `pref`.
pub open spec fn preferred(e: EntryView, pref: Preference) -> bool {
    match pref {
        Preference::LinuxAmd64 => is_linux_amd64(e),
        Preference::RealPlatform => has_real_platform(e),
    }
}

/// Index of the first entry of the kind `pref`.
pub open spec fn first_where(entries: Seq<EntryView>, pref: Preference) -> Option<int>
    decreases entries.len(),
{
    if entries.len() == 0 {
        None
    } else if preferred(entries[0], pref) {
        Some(0)
    } else {
        match first_where(entries.drop_first(), pref) {
            Some(i) => Some(i + 1),
            None => None,
        }
    }
}

/// The entry whose creation time stands for the whole list: the first
/// `linux/amd64` entry, else the first entry with a real platform, else the first.
pub open spec fn representative(entries: Seq<EntryView>) -> int {
    match first_where(entries, Preference::LinuxAmd64) {
        Some(i) => i,
        None => match first_where(entries, Preference::RealPlatform) {
            Some(i) => i,
            None => 0,
        },
    }
}

/// The platform names of the entries with a real platform, in list order.
pub open spec fn architecture_names(entries: Seq<EntryView>) -> Seq<Seq<char>>
    decreases entries.len(),
{
    if entries.len() == 0 {
        Seq::empty()
    } else {
        let rest = architecture_names(entries.drop_last());
        if has_real_platform(entries.last()) {
            rest.push(Platform::name_of(entries.last().platform->0))
        } else {
            rest
        }
    }
}

/// The first entry of kind `pref` is at `i` when `i` is of that kind and none before it is.
pub proof fn lemma_first_where_at(entries: Seq<EntryView>, pref: Preference, i: int)
    requires
        0 <= i < entries.len(),
        preferred(entries[i], pref),
        forall|k: int| 0 <= k < i ==> !preferred(#[trigger] entries[k], pref),
    ensures
        first_where(entries, pref) == Some(i),
    decreases i,
{
    if i > 0 {
        let rest = entries.drop_first();
        assert(!preferred(entries[0], pref));
        assert forall|k: int| 0 <= k < i - 1 implies !preferred(#[trigger] rest[k], pref) by {
            assert(rest[k] == entries[k + 1]);
        }
        lemma_first_where_at(rest, pref, i - 1);
    }
}

/// There is no first entry of kind `pref` when no entry is of that kind.
pub proof fn lemma_first_where_none(entries: Seq<EntryView>, pref: Preference)
    requires
        forall|k: int| 0 <= k < entries.len() ==> !preferred(#[trigger] entries[k], pref),
    ensures
        first_where(entries, pref) is None,
    decreases entries.len(),
{
    if entries.len() > 0 {
        let rest = entries.drop_first();
        assert(!preferred(entries[0], pref));
        assert forall|k: int| 0 <= k < rest.len() implies !preferred(#[trigger] rest[k], pref) by {
            assert(rest[k] == entries[k + 1]);
        }
        lemma_first_where_none(rest, pref);
    }
}

impl ManifestPlatformEntry {
    /// Whether the entry names a real platform.
    pub fn has_real_platform(&self) -> (r: bool)
        ensures
            r == has_real_platform(self@),
    {
        match &self.platform {
            Some(q) => !(same_text(q.os.as_str(), "unknown") && same_text(
                q.architecture.as_str(),
                "unknown",
            )),
            None => false,
        }
    }

    /// Whether the entry's platform is exactly `linux/amd64`.
    pub fn is_linux_amd64(&self) -> (r: bool)
        ensures
            r == is_linux_amd64(self@),
    {
        match &self.platform {
            Some(q) => same_text(q.os.as_str(), "linux") && same_text(
                q.architecture.as_str(),
                "amd64",
            ) && q.variant.is_none(),
            None => false,
        }
    }

    fn is_preferred(&self, pref: &Preference) -> (r: bool)
        ensures
            r == preferred(self@, *pref),
    {
        match pref {
            Preference::LinuxAmd64 => self.is_linux_amd64(),
            Preference::RealPlatform => self.has_real_platform(),
        }
    }
}

fn find_first(entries: &Vec<ManifestPlatformEntry>, pref: Preference) -> (r: Option<usize>)
    ensures
        r matches Some(k) ==> first_where(entry_views(entries@), pref) == Some(k as int) && k
            < entries@.len(),
        r is None ==> first_where(entry_views(entries@), pref) is None,
{
    let ghost views = entry_views(entries@);
    let mut i: usize = 0;
    while i < entries.len()
        invariant
            views == entry_views(entries@),
            i <= entries@.len(),
            forall|k: int| 0 <= k < i ==> !preferred(#[trigger] views[k], pref),
        decreases entries@.len() - i,
    {
        if entries[i].is_preferred(&pref) {
            proof {
                lemma_first_where_at(views, pref, i as int);
            }
            return Some(i);
        }
        i = i + 1;
    }
    proof {
        lemma_first_where_none(views, pref);
    }
    None
}

/// Index of the representative entry of a non-empty manifest list.
pub fn representative_index(entries: &Vec<ManifestPlatformEntry>) -> (r: usize)
    requires
        entries@.len() > 0,
    ensures
        r == representative(entry_views(entries@)),
        r < entries@.len(),
{
    match find_first(entries, Preference::LinuxAmd64) {
        Some(i) => i,
        None => match find_first(entries, Preference::RealPlatform) {
            Some(i) => i,
            None => 0,
        },
    }
}

/// The platform names of the entries with a real platform, in list order.
pub fn architectures(entries: &Vec<ManifestPlatformEntry>) -> (r: Vec<String>)
    ensures
        texts(r@) == architecture_names(entry_views(entries@)),
{
    let ghost views = entry_views(entries@);
    let mut out: Vec<String> = Vec::new();
    let mut i: usize = 0;
    while i < entries.len()
        invariant
            views == entry_views(entries@),
            i <= entries@.len(),
            texts(out@) == architecture_names(views.subrange(0, i as int)),
        decreases entries@.len() - i,
    {
        let ghost next = views.subrange(0, i + 1);
        assert(next.drop_last() =~= views.subrange(0, i as int));
        assert(next.last() == entries@[i as int]@);
        if entries[i].has_real_platform() {
            match &entries[i].platform {
                Some(q) => {
                    let name = q.name();
                    out.push(name);
                    assert(texts(out@) =~= texts(out@.drop_last()).push(name@));
                },
                None => {},
            }
        }
        i = i + 1;
    }
    assert(views.subrange(0, entries@.len() as int) =~= views);
    out
}

} // verus!
