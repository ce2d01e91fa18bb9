use vstd::prelude::*;

use crate::manifest::{texts, TagManifest};
use crate::pagination::Paginated;
use crate::timestamp::Timestamp;

verus! {

/// One row of an image's tag table.
pub struct Tag {
    pub name: String,
    pub digest: String,
    /// The registry refused the manifest; `digest` holds its diagnostic.
    pub error: bool,
    /// The platforms of the image: one for a single-platform image.
    pub architectures: Vec<String>,
    pub created: Option<Timestamp>,
}

/// The tags of an image shown on one page.
pub struct ImageInfo {
    pub tags: Paginated<Tag>,
}

impl Tag {
    /// The row for tag `name` that resolved to `manifest`.
    pub fn from_manifest(name: String, manifest: TagManifest) -> (r: Tag)
        ensures
            r.name@ == name@,
            match manifest {
                TagManifest::Nominal { digest, created, architecture } => {
                    &&& r.digest@ == digest@
                    &&& !r.error
                    &&& texts(r.architectures@) == seq![architecture@]
                    &&& r.created == Some(created)
                },
                TagManifest::MultiArch { digest, architectures, created } => {
                    &&& r.digest@ == digest@
                    &&& !r.error
                    &&& texts(r.architectures@) == texts(architectures@)
                    &&& r.created == created
                },
                TagManifest::Error { digest } => {
                    &&& r.digest@ == digest@
                    &&& r.error
                    &&& r.architectures@.len() == 0
                    &&& r.created is None
                },
            },
    {
        match manifest {
            TagManifest::Nominal { digest, created, architecture } => {
                let ghost a = architecture@;
                let mut architectures: Vec<String> = Vec::new();
                architectures.push(architecture);
                assert(texts(architectures@) =~= seq![a]);
                Tag { name, digest, error: false, architectures, created: Some(created) }
            },
            TagManifest::MultiArch { digest, architectures, created } => {
                Tag { name, digest, error: false, architectures, created }
            },
            TagManifest::Error { digest } => {
                Tag { name, digest, error: true, architectures: Vec::new(), created: None }
            },
        }
    }
}

/// `a` sorts before or level with `b`: the later creation time first, and a
/// missing one after every known one.
pub open spec fn created_first(a: Option<Timestamp>, b: Option<Timestamp>) -> bool {
    match (a, b) {
        (_, None) => true,
        (None, Some(_)) => false,
        (Some(x), Some(y)) => x.not_before(y),
    }
}

/// `a` sorts strictly before `b`.
pub open spec fn created_strictly_first(a: Option<Timestamp>, b: Option<Timestamp>) -> bool {
    created_first(a, b) && !created_first(b, a)
}

fn is_strictly_first(a: &Option<Timestamp>, b: &Option<Timestamp>) -> (r: bool)
    ensures
        r == created_strictly_first(*a, *b),
{
    match (a, b) {
        (Some(x), Some(y)) => !y.is_not_before(x),
        (Some(_), None) => true,
        (None, _) => false,
    }
}

/// Rows ordered by creation time, latest first, rows without one last.
pub open spec fn sorted_by_created(s: Seq<Tag>) -> bool {
    forall|i: int, j: int| 0 <= i < j < s.len() ==> created_first(s[i].created, s[j].created)
}

proof fn lemma_created_first_transitive(a: Option<Timestamp>, b: Option<Timestamp>, c: Option<Timestamp>)
    requires
        created_first(a, b),
        created_first(b, c),
    ensures
        created_first(a, c),
{
}

proof fn lemma_insert_sorted(before: Seq<Tag>, p: int, t: Tag)
    requires
        sorted_by_created(before),
        0 <= p <= before.len(),
        forall|k: int| 0 <= k < p ==> created_first(#[trigger] before[k].created, t.created),
        p < before.len() ==> created_strictly_first(t.created, before[p].created),
    ensures
        sorted_by_created(before.insert(p, t)),
{
    let after = before.insert(p, t);
    assert forall|k: int| p <= k < before.len() implies created_first(
        t.created,
        #[trigger] before[k].created,
    ) by {
        if k > p {
            lemma_created_first_transitive(t.created, before[p].created, before[k].created);
        }
    }
    assert forall|i: int, j: int| 0 <= i < j < after.len() implies created_first(
        after[i].created,
        after[j].created,
    ) by {
        if j < p {
            assert(after[i] == before[i] && after[j] == before[j]);
        } else if j == p {
            assert(after[i] == before[i]);
        } else if i < p {
            assert(after[i] == before[i] && after[j] == before[j - 1]);
            lemma_created_first_transitive(before[i].created, t.created, before[j - 1].created);
        } else if i == p {
            assert(after[j] == before[j - 1]);
        } else {
            assert(after[i] == before[i - 1] && after[j] == before[j - 1]);
        }
    }
}

/// Index in `out` at which `t` goes: after every row that sorts before or level with it.
fn insertion_point(out: &Vec<Tag>, t: &Tag) -> (p: usize)
    ensures
        p <= out@.len(),
        forall|k: int| 0 <= k < p ==> created_first(#[trigger] out@[k].created, t.created),
        p < out@.len() ==> created_strictly_first(t.created, out@[p as int].created),
{
    let mut p: usize = 0;
    while p < out.len() && !is_strictly_first(&t.created, &out[p].created)
        invariant
            p <= out@.len(),
            forall|k: int| 0 <= k < p ==> created_first(#[trigger] out@[k].created, t.created),
        decreases out@.len() - p,
    {
        p = p + 1;
    }
    p
}

/// The same rows ordered by creation time, latest first, rows without one last.
pub fn sort_by_created(tags: Vec<Tag>) -> (r: Vec<Tag>)
    ensures
        r@.to_multiset() == tags@.to_multiset(),
        sorted_by_created(r@),
{
    let ghost all = tags@;
    let mut rest = tags;
    let mut out: Vec<Tag> = Vec::new();
    proof {
        assert(all.subrange(0, 0) =~= Seq::<Tag>::empty());
        assert(out@ =~= Seq::<Tag>::empty());
    }
    while rest.len() > 0
        invariant
            rest@.len() <= all.len(),
            rest@ == all.subrange(all.len() - rest@.len(), all.len() as int),
            out@.to_multiset() == all.subrange(0, all.len() - rest@.len()).to_multiset(),
            sorted_by_created(out@),
        decreases rest@.len(),
    {
        let ghost done = all.len() - rest@.len();
        let t = rest.remove(0);
        let p = insertion_point(&out, &t);
        let ghost before = out@;
        proof {
            lemma_insert_sorted(before, p as int, t);
        }
        out.insert(p, t);
        proof {
            let after = out@;
            assert(after.remove(p as int) =~= before);
            after.to_multiset_ensures();
            assert(after[p as int] == t);
            assert(after.contains(t));
            assert(after.to_multiset() =~= before.to_multiset().insert(t));
            assert(all.subrange(0, done + 1) =~= all.subrange(0, done).push(t));
            all.subrange(0, done).to_multiset_ensures();
        }
    }
    proof {
        assert(all.subrange(0, all.len() as int) =~= all);
    }
    out
}

/// The unit an age is shown in.
#[derive(Debug, Clone, Copy, PartialEq, Eq, Structural)]
pub enum AgeUnit {
    Days,
    Hours,
    Minutes,
    Seconds,
}

impl AgeUnit {
    /// The unit's word as a row shows it.
    pub fn label(&self) -> (r: &'static str)
        ensures
            *self == AgeUnit::Days ==> r@ == "day(s)"@,
            *self == AgeUnit::Hours ==> r@ == "hour(s)"@,
            *self == AgeUnit::Minutes ==> r@ == "minute(s)"@,
            *self == AgeUnit::Seconds ==> r@ == "second(s)"@,
    {
        match self {
            AgeUnit::Days => "day(s)",
            AgeUnit::Hours => "hour(s)",
            AgeUnit::Minutes => "minute(s)",
            AgeUnit::Seconds => "second(s)",
        }
    }
}

/// How long ago something happened, in the largest whole unit that fits.
#[derive(Debug, Clone, Copy, PartialEq, Eq, Structural)]
pub struct Age {
    pub amount: i64,
    pub unit: AgeUnit,
}

/// The age shown for `elapsed` whole seconds: days from a full day on, hours
/// from a full hour, minutes from a full minute, seconds below that.
pub open spec fn age_spec(elapsed: i64) -> Age {
    if elapsed >= 86400 {
        Age { amount: (elapsed / 86400) as i64, unit: AgeUnit::Days }
    } else if elapsed >= 3600 {
        Age { amount: (elapsed / 3600) as i64, unit: AgeUnit::Hours }
    } else if elapsed >= 60 {
        Age { amount: (elapsed / 60) as i64, unit: AgeUnit::Minutes }
    } else {
        Age { amount: elapsed, unit: AgeUnit::Seconds }
    }
}

/// The age shown for `elapsed` whole seconds.
pub fn age_of(elapsed: i64) -> (r: Age)
    ensures
        r == age_spec(elapsed),
{
    if elapsed >= 86400 {
        Age { amount: elapsed / 86400, unit: AgeUnit::Days }
    } else if elapsed >= 3600 {
        Age { amount: elapsed / 3600, unit: AgeUnit::Hours }
    } else if elapsed >= 60 {
        Age { amount: elapsed / 60, unit: AgeUnit::Minutes }
    } else {
        Age { amount: elapsed, unit: AgeUnit::Seconds }
    }
}

} // verus!
