//! Reconciliation of the stored profiles against the live mounts.
use vstd::prelude::*;
use crate::model::{contains_str, views};

verus! {

/// Where a profile id stands.
#[derive(Clone, Copy, Debug, PartialEq, Eq, Structural)]
pub enum MountStatus {
    /// Stored, not mounted.
    Available,
    /// Stored and mounted.
    Mounted,
    /// Mounted with no stored profile.
    Orphaned,
}

/// One id with its status.
#[derive(Clone, Debug)]
pub struct ClassifiedId {
    pub id: String,
    pub status: MountStatus,
}

/// The status of `id` given the stored ids `known` and the mounted ids
/// `mounted`; meaningful for an id of either set.
pub open spec fn status_of(id: Seq<char>, known: Set<Seq<char>>, mounted: Set<Seq<char>>) -> MountStatus {
    if known.contains(id) {
        if mounted.contains(id) {
            MountStatus::Mounted
        } else {
            MountStatus::Available
        }
    } else {
        MountStatus::Orphaned
    }
}

/// The ids of `known` and `mounted` that have status `s`.
pub open spec fn ids_with_status(
    s: MountStatus,
    known: Set<Seq<char>>,
    mounted: Set<Seq<char>>,
) -> Set<Seq<char>> {
    (known + mounted).filter(|id: Seq<char>| status_of(id, known, mounted) == s)
}

pub open spec fn id_set(v: Seq<String>) -> Set<Seq<char>> {
    views(v).to_set()
}

pub open spec fn classified_ids(r: Seq<ClassifiedId>) -> Seq<Seq<char>> {
    r.map_values(|c: ClassifiedId| c.id@)
}

/// Every classified id carries the status that `known` and `mounted` give it.
pub open spec fn statuses_hold(r: Seq<ClassifiedId>, known: Set<Seq<char>>, mounted: Set<Seq<char>>) -> bool {
    forall|i: int| 0 <= i < r.len() ==> (#[trigger] r[i]).status == status_of(r[i].id@, known, mounted)
}

proof fn lemma_push_contains(s: Seq<Seq<char>>, a: Seq<char>, x: Seq<char>)
    ensures
        s.push(a).contains(x) <==> (s.contains(x) || x == a),
{
    if s.push(a).contains(x) {
        let w = choose|w: int| 0 <= w < s.push(a).len() && s.push(a)[w] == x;
        if w < s.len() {
            assert(s[w] == x);
        }
    }
    if s.contains(x) {
        let w = choose|w: int| 0 <= w < s.len() && s[w] == x;
        assert(s.push(a)[w] == x);
    }
    if x == a {
        assert(s.push(a)[s.len() as int] == x);
    }
}

fn has_id(r: &Vec<ClassifiedId>, id: &String) -> (b: bool)
    ensures
        b == classified_ids(r@).contains(id@),
{
    let mut i: usize = 0;
    while i < r.len()
        invariant
            i <= r@.len(),
            forall|j: int| 0 <= j < i ==> r@[j].id@ != id@,
        decreases r@.len() - i,
    {
        if r[i].id.eq(id) {
            assert(classified_ids(r@)[i as int] == id@);
            return true;
        }
        i = i + 1;
    }
    assert forall|j: int| 0 <= j < classified_ids(r@).len() implies classified_ids(r@)[j] != id@ by {
        assert(classified_ids(r@)[j] == r@[j].id@);
    }
    false
}

/// Appends `c` to `r`, an id not yet in `r`.
fn push_new(r: &mut Vec<ClassifiedId>, c: ClassifiedId)
    requires
        classified_ids(old(r)@).no_duplicates(),
        !classified_ids(old(r)@).contains(c.id@),
    ensures
        final(r)@ == old(r)@.push(c),
        classified_ids(final(r)@) == classified_ids(old(r)@).push(c.id@),
        classified_ids(final(r)@).no_duplicates(),
{
    r.push(c);
    assert(classified_ids(r@) =~= classified_ids(old(r)@).push(c.id@));
}

/// Classifies each id of `known` (the stored profiles) and of `mounted` (the
/// ids found mounted) once: `Mounted` when in both, `Available` when only
/// stored, `Orphaned` when only mounted. The order is not significant.
pub fn classify_all(known: &Vec<String>, mounted: &Vec<String>) -> (r: Vec<ClassifiedId>)
    ensures
        classified_ids(r@).no_duplicates(),
        classified_ids(r@).to_set() == id_set(known@) + id_set(mounted@),
        statuses_hold(r@, id_set(known@), id_set(mounted@)),
{
    let ghost k = id_set(known@);
    let ghost m = id_set(mounted@);
    let mut r: Vec<ClassifiedId> = Vec::new();
    let mut i: usize = 0;
    while i < known.len()
        invariant
            i <= known@.len(),
            k == id_set(known@),
            m == id_set(mounted@),
            classified_ids(r@).no_duplicates(),
            statuses_hold(r@, k, m),
            forall|x: Seq<char>|
                classified_ids(r@).contains(x) <==> views(known@).subrange(0, i as int).contains(x),
        decreases known@.len() - i,
    {
        let id = &known[i];
        assert(views(known@).subrange(0, i + 1) =~= views(known@).subrange(0, i as int).push(id@));
        assert(views(known@)[i as int] == id@);
        let ghost before = classified_ids(r@);
        if !has_id(&r, id) {
            let status = if contains_str(mounted, id) {
                MountStatus::Mounted
            } else {
                MountStatus::Available
            };
            push_new(&mut r, ClassifiedId { id: id.clone(), status });
        }
        assert forall|x: Seq<char>|
            classified_ids(r@).contains(x) <==> views(known@).subrange(0, i + 1).contains(x) by {
            lemma_push_contains(before, id@, x);
            lemma_push_contains(views(known@).subrange(0, i as int), id@, x);
        }
        i = i + 1;
    }
    assert(views(known@).subrange(0, known@.len() as int) =~= views(known@));
    let mut j: usize = 0;
    while j < mounted.len()
        invariant
            j <= mounted@.len(),
            k == id_set(known@),
            m == id_set(mounted@),
            classified_ids(r@).no_duplicates(),
            statuses_hold(r@, k, m),
            forall|x: Seq<char>|
                classified_ids(r@).contains(x) <==> (views(known@).contains(x) || views(
                    mounted@,
                ).subrange(0, j as int).contains(x)),
        decreases mounted@.len() - j,
    {
        let id = &mounted[j];
        assert(views(mounted@).subrange(0, j + 1) =~= views(mounted@).subrange(0, j as int).push(id@));
        assert(views(mounted@)[j as int] == id@);
        let ghost before = classified_ids(r@);
        if !has_id(&r, id) {
            push_new(&mut r, ClassifiedId { id: id.clone(), status: MountStatus::Orphaned });
        }
        assert forall|x: Seq<char>|
            classified_ids(r@).contains(x) <==> (views(known@).contains(x) || views(
                mounted@,
            ).subrange(0, j + 1).contains(x)) by {
            lemma_push_contains(before, id@, x);
            lemma_push_contains(views(mounted@).subrange(0, j as int), id@, x);
        }
        j = j + 1;
    }
    assert(views(mounted@).subrange(0, mounted@.len() as int) =~= views(mounted@));
    assert(classified_ids(r@).to_set() =~= k + m);
    r
}

/// Classification partitions the ids: every id of `known` or `mounted` has
/// exactly one status; the `Available` ids are the stored ids that are not
/// mounted, the `Mounted` ids those both stored and mounted, the `Orphaned`
/// ids the mounted ids with no stored profile; the three sets are pairwise
/// disjoint and together make up `known ∪ mounted`.
pub proof fn lemma_classification_partition(known: Set<Seq<char>>, mounted: Set<Seq<char>>)
    ensures
        ids_with_status(MountStatus::Available, known, mounted) == known.difference(mounted),
        ids_with_status(MountStatus::Mounted, known, mounted) == known.intersect(mounted),
        ids_with_status(MountStatus::Orphaned, known, mounted) == mounted.difference(known),
        ids_with_status(MountStatus::Available, known, mounted).disjoint(
            ids_with_status(MountStatus::Mounted, known, mounted),
        ),
        ids_with_status(MountStatus::Available, known, mounted).disjoint(
            ids_with_status(MountStatus::Orphaned, known, mounted),
        ),
        ids_with_status(MountStatus::Mounted, known, mounted).disjoint(
            ids_with_status(MountStatus::Orphaned, known, mounted),
        ),
        ids_with_status(MountStatus::Available, known, mounted) + ids_with_status(
            MountStatus::Mounted,
            known,
            mounted,
        ) + ids_with_status(MountStatus::Orphaned, known, mounted) == known + mounted,
{
    assert(ids_with_status(MountStatus::Available, known, mounted) =~= known.difference(mounted));
    assert(ids_with_status(MountStatus::Mounted, known, mounted) =~= known.intersect(mounted));
    assert(ids_with_status(MountStatus::Orphaned, known, mounted) =~= mounted.difference(known));
    assert(known.difference(mounted) + known.intersect(mounted) + mounted.difference(known)
        =~= known + mounted);
}

} // verus!
