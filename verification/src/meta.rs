//! An executable model of the metadata store.
//!
//! The store holds three relations: `images(id)`, `annotations(image, x1,
//! y1, x2, y2)` and `dimensions(image, width, height)`. Image ids are
//! generated by the store itself from a private counter, exactly as a
//! relational store hands back a generated key from an insert of a default
//! row. Every operation states its effect on the abstract state
//! [`MetaView`]; the transactional replace of an annotation set is a single
//! operation here, mirroring the all-or-nothing batch the real store runs.

use vstd::prelude::*;
use crate::annotation::Annotation;
use crate::annotation::AnnotationGroup;
use crate::annotation::AnnotationGroupView;
use crate::annotation::AnnotationView;
use crate::annotation::anns_view;

verus! {

/// One row of the annotations relation.
#[derive(Debug, PartialEq)]
pub struct AnnRow {
    pub image: u64,
    pub annotation: Annotation,
}

/// The mathematical value of an [`AnnRow`].
pub struct AnnRowView {
    pub image: u64,
    pub annotation: AnnotationView,
}

impl View for AnnRow {
    type V = AnnRowView;

    open spec fn view(&self) -> AnnRowView {
        AnnRowView { image: self.image, annotation: self.annotation@ }
    }
}

/// One row of the dimensions relation.
#[derive(Clone, Copy, Debug, PartialEq, Eq, Structural)]
pub struct DimRow {
    pub image: u64,
    pub width: u64,
    pub height: u64,
}

/// The views of a sequence of annotation rows.
pub open spec fn rows_view(rows: Seq<AnnRow>) -> Seq<AnnRowView> {
    rows.map_values(|r: AnnRow| r@)
}

/// The predicate keeping the annotation rows of images other than `image`.
pub open spec fn keeps_other(image: u64) -> spec_fn(AnnRowView) -> bool {
    |r: AnnRowView| r.image != image
}

/// The predicate selecting the annotation rows of `image`.
pub open spec fn of_image(image: u64) -> spec_fn(AnnRowView) -> bool {
    |r: AnnRowView| r.image == image
}

/// The projection from an annotation row to its annotation.
pub open spec fn row_ann() -> spec_fn(AnnRowView) -> AnnotationView {
    |r: AnnRowView| r.annotation
}

/// The predicate keeping image ids other than `image`.
pub open spec fn other_id(image: u64) -> spec_fn(u64) -> bool {
    |x: u64| x != image
}

/// The predicate selecting image ids that no row of `rows` references.
pub open spec fn lacks_row(rows: Seq<AnnRowView>) -> spec_fn(u64) -> bool {
    |x: u64| !has_row(rows, x)
}

/// The metadata store: the three relations and the id counter generated
/// identifiers are drawn from.
pub struct MetaStore {
    pub next_id: u64,
    pub images: Vec<u64>,
    pub annotations: Vec<AnnRow>,
    pub dimensions: Vec<DimRow>,
}

/// The abstract state of a [`MetaStore`].
#[verifier::ext_equal]
pub struct MetaView {
    pub next_id: u64,
    pub images: Seq<u64>,
    pub annotations: Seq<AnnRowView>,
    pub dimensions: Seq<DimRow>,
}

impl View for MetaStore {
    type V = MetaView;

    open spec fn view(&self) -> MetaView {
        MetaView {
            next_id: self.next_id,
            images: self.images@,
            annotations: rows_view(self.annotations@),
            dimensions: self.dimensions@,
        }
    }
}

impl MetaView {
    /// Every image id was drawn from the counter, and no id occurs twice.
    pub open spec fn wf(self) -> bool {
        &&& forall|i: int| 0 <= i < self.images.len() ==> #[trigger] self.images[i] < self.next_id
        &&& forall|i: int, j: int| 0 <= i < j < self.images.len() ==> self.images[i] != self.images[j]
    }
}

/// The annotation rows one replace payload creates for `image`, in payload
/// order.
pub open spec fn group_rows(image: u64, anns: Seq<AnnotationView>) -> Seq<AnnRowView> {
    anns.map_values(|a: AnnotationView| AnnRowView { image, annotation: a })
}

/// The abstract effect of one committed replace transaction: all prior
/// annotation rows of `image` are gone, the payload's rows stand in their
/// place, and one dimensions row is appended.
pub open spec fn spec_replace(m: MetaView, image: u64, g: AnnotationGroupView) -> MetaView {
    MetaView {
        next_id: m.next_id,
        images: m.images,
        annotations: m.annotations.filter(keeps_other(image)) + group_rows(image, g.annotations),
        dimensions: m.dimensions.push(DimRow { image, width: g.width, height: g.height }),
    }
}

/// Whether some annotation row references `image`.
pub open spec fn has_row(rows: Seq<AnnRowView>, image: u64) -> bool {
    exists|j: int| 0 <= j < rows.len() && rows[j].image == image
}

/// The annotation set of `image` in store order: the annotations of the
/// rows that reference it.
pub open spec fn anns_of(m: MetaView, image: u64) -> Seq<AnnotationView> {
    m.annotations.filter(of_image(image)).map_values(row_ann())
}

/// Filtering a sequence of pairwise-distinct ids keeps its elements from
/// the original and keeps them pairwise distinct.
proof fn lemma_filter_distinct_u64(s: Seq<u64>, pred: spec_fn(u64) -> bool)
    requires
        forall|i: int, j: int| 0 <= i < j < s.len() ==> s[i] != s[j],
    ensures
        forall|k: int| 0 <= k < s.filter(pred).len() ==> s.contains(#[trigger] s.filter(pred)[k]),
        forall|a: int, b: int|
            0 <= a < b < s.filter(pred).len() ==> s.filter(pred)[a] != s.filter(pred)[b],
    decreases s.len(),
{
    reveal(Seq::filter);
    if s.len() > 0 {
        let d = s.drop_last();
        assert(forall|i: int, j: int| 0 <= i < j < d.len() ==> d[i] != d[j]);
        lemma_filter_distinct_u64(d, pred);
        assert(forall|k: int| 0 <= k < d.filter(pred).len() ==> s.contains(
            #[trigger] d.filter(pred)[k],
        )) by {
            assert(forall|k: int| 0 <= k < d.filter(pred).len() ==> d.contains(
                #[trigger] d.filter(pred)[k],
            ));
            assert(forall|j: int| 0 <= j < d.len() ==> d[j] == s[j]);
        }
        if pred(s.last()) {
            assert(s.filter(pred) == d.filter(pred).push(s.last()));
            assert(forall|k: int| 0 <= k < d.filter(pred).len() ==> d.filter(pred)[k]
                != s.last()) by {
                assert(forall|j: int| 0 <= j < d.len() ==> d[j] != s.last());
            }
        } else {
            assert(s.filter(pred) == d.filter(pred));
        }
    }
}

impl MetaStore {
    /// An empty store whose counter starts at one, as a fresh database does.
    pub fn new() -> (s: MetaStore)
        ensures
            s@.next_id == 1,
            s@.images == Seq::<u64>::empty(),
            s@.annotations == Seq::<AnnRowView>::empty(),
            s@.dimensions == Seq::<DimRow>::empty(),
            s@.wf(),
    {
        let s = MetaStore {
            next_id: 1,
            images: Vec::new(),
            annotations: Vec::new(),
            dimensions: Vec::new(),
        };
        proof {
            assert(s@.annotations =~= Seq::<AnnRowView>::empty());
        }
        s
    }

    /// Inserts a default row into the images relation and returns the
    /// generated id, which is fresh: no existing row carries it.
    pub fn reserve(&mut self) -> (id: u64)
        requires
            old(self)@.wf(),
            old(self)@.next_id < u64::MAX,
        ensures
            final(self)@.wf(),
            id == old(self)@.next_id,
            !old(self)@.images.contains(id),
            final(self)@.next_id == old(self)@.next_id + 1,
            final(self)@.images == old(self)@.images.push(id),
            final(self)@.annotations == old(self)@.annotations,
            final(self)@.dimensions == old(self)@.dimensions,
    {
        let id = self.next_id;
        self.images.push(id);
        self.next_id = self.next_id + 1;
        proof {
            if old(self)@.images.contains(id) {
                let i = choose|i: int|
                    0 <= i < old(self)@.images.len() && old(self)@.images[i] == id;
                assert(old(self)@.images[i] < id);
            }
        }
        id
    }

    /// Deletes the image row with the given id, leaving every other row of
    /// every relation untouched.
    pub fn delete_image(&mut self, image: u64)
        requires
            old(self)@.wf(),
        ensures
            final(self)@.wf(),
            final(self)@.next_id == old(self)@.next_id,
            final(self)@.images == old(self)@.images.filter(other_id(image)),
            final(self)@.annotations == old(self)@.annotations,
            final(self)@.dimensions == old(self)@.dimensions,
    {
        let mut kept: Vec<u64> = Vec::new();
        let mut i: usize = 0;
        while i < self.images.len()
            invariant
                i <= self.images.len(),
                self.images@ == old(self)@.images,
                kept@ == self.images@.take(i as int).filter(other_id(image)),
            decreases self.images.len() - i,
        {
            let x = self.images[i];
            proof {
                reveal(Seq::filter);
                let all = self.images@;
                assert(all.take(i as int + 1).drop_last() =~= all.take(i as int));
                assert(all.take(i as int + 1).last() == x);
                assert(other_id(image)(x) == (x != image));
            }
            if x != image {
                kept.push(x);
            }
            i = i + 1;
        }
        proof {
            assert(self.images@.take(self.images@.len() as int) =~= self.images@);
            lemma_filter_distinct_u64(self.images@, other_id(image));
        }
        self.images = kept;
    }

    /// Whether some annotation row references `image`.
    pub fn has_annotation(&self, image: u64) -> (b: bool)
        ensures
            b == has_row(self@.annotations, image),
    {
        let mut j: usize = 0;
        while j < self.annotations.len()
            invariant
                j <= self.annotations.len(),
                forall|k: int| 0 <= k < j ==> rows_view(self.annotations@)[k].image != image,
            decreases self.annotations.len() - j,
        {
            if self.annotations[j].image == image {
                proof {
                    assert(rows_view(self.annotations@)[j as int].image == image);
                }
                return true;
            }
            proof {
                assert(rows_view(self.annotations@)[j as int].image != image);
            }
            j = j + 1;
        }
        false
    }

    /// The images that no annotation row references, in store order: the
    /// pool the front page draws a not-yet-annotated image from.
    pub fn unannotated_images(&self) -> (ids: Vec<u64>)
        ensures
            ids@ == self@.images.filter(lacks_row(self@.annotations)),
    {
        let mut out: Vec<u64> = Vec::new();
        let mut i: usize = 0;
        while i < self.images.len()
            invariant
                i <= self.images.len(),
                out@ == self@.images.take(i as int).filter(lacks_row(self@.annotations)),
            decreases self.images.len() - i,
        {
            let x = self.images[i];
            proof {
                reveal(Seq::filter);
                let all = self@.images;
                assert(all.take(i as int + 1).drop_last() =~= all.take(i as int));
                assert(all.take(i as int + 1).last() == x);
                assert(lacks_row(self@.annotations)(x) == !has_row(self@.annotations, x));
            }
            if !self.has_annotation(x) {
                out.push(x);
            }
            i = i + 1;
        }
        proof {
            assert(self@.images.take(self@.images.len() as int) =~= self@.images);
        }
        out
    }

    /// The annotation set of `image`, in store order.
    pub fn annotations_for(&self, image: u64) -> (out: Vec<Annotation>)
        ensures
            anns_view(out@) == anns_of(self@, image),
    {
        let mut out: Vec<Annotation> = Vec::new();
        let mut i: usize = 0;
        while i < self.annotations.len()
            invariant
                i <= self.annotations.len(),
                anns_view(out@) == rows_view(self.annotations@).take(i as int).filter(
                    of_image(image),
                ).map_values(row_ann()),
            decreases self.annotations.len() - i,
        {
            let row = &self.annotations[i];
            proof {
                reveal(Seq::filter);
                let all = rows_view(self.annotations@);
                assert(all.take(i as int + 1).drop_last() =~= all.take(i as int));
                assert(all.take(i as int + 1).last() == all[i as int]);
                assert(all[i as int] == self.annotations@[i as int]@);
                assert(of_image(image)(all[i as int]) == (all[i as int].image == image));
            }
            if row.image == image {
                let a = row.annotation.duplicate();
                out.push(a);
                proof {
                    let all = rows_view(self.annotations@);
                    let prev = all.take(i as int).filter(of_image(image));
                    assert(all.take(i as int + 1).filter(of_image(image)) == prev.push(
                        all[i as int],
                    ));
                    assert(prev.push(all[i as int]).map_values(row_ann()) =~= prev.map_values(
                        row_ann(),
                    ).push(all[i as int].annotation));
                    assert(anns_view(out@) =~= prev.map_values(row_ann()).push(
                        all[i as int].annotation,
                    ));
                }
            } else {
                proof {
                    let all = rows_view(self.annotations@);
                    assert(all.take(i as int + 1).filter(of_image(image)) == all.take(
                        i as int,
                    ).filter(of_image(image)));
                }
            }
            i = i + 1;
        }
        proof {
            let all = rows_view(self.annotations@);
            assert(all.take(all.len() as int) =~= all);
        }
        out
    }

    /// Runs one committed replace transaction: deletes every annotation row
    /// of `image`, inserts one row per payload annotation in payload order,
    /// and appends one dimensions row, all at once.
    pub fn apply_replace(&mut self, image: u64, group: &AnnotationGroup)
        requires
            old(self)@.wf(),
        ensures
            final(self)@.wf(),
            final(self)@ == spec_replace(old(self)@, image, group@),
    {
        let mut kept: Vec<AnnRow> = Vec::new();
        let mut i: usize = 0;
        while i < self.annotations.len()
            invariant
                i <= self.annotations.len(),
                self.annotations@ == old(self).annotations@,
                rows_view(kept@) == rows_view(self.annotations@).take(i as int).filter(
                    keeps_other(image),
                ),
            decreases self.annotations.len() - i,
        {
            let row = &self.annotations[i];
            proof {
                reveal(Seq::filter);
                let all = rows_view(self.annotations@);
                assert(all.take(i as int + 1).drop_last() =~= all.take(i as int));
                assert(all.take(i as int + 1).last() == all[i as int]);
                assert(all[i as int] == self.annotations@[i as int]@);
                assert(keeps_other(image)(all[i as int]) == (all[i as int].image != image));
            }
            if row.image != image {
                let copy = AnnRow { image: row.image, annotation: row.annotation.duplicate() };
                kept.push(copy);
                proof {
                    let all = rows_view(self.annotations@);
                    let prev = all.take(i as int).filter(keeps_other(image));
                    assert(all.take(i as int + 1).filter(keeps_other(image)) == prev.push(
                        all[i as int],
                    ));
                    assert(rows_view(kept@) =~= prev.push(all[i as int]));
                }
            } else {
                proof {
                    let all = rows_view(self.annotations@);
                    assert(all.take(i as int + 1).filter(keeps_other(image)) == all.take(
                        i as int,
                    ).filter(keeps_other(image)));
                }
            }
            i = i + 1;
        }
        proof {
            let all = rows_view(self.annotations@);
            assert(all.take(all.len() as int) =~= all);
        }
        let mut j: usize = 0;
        while j < group.annotations.len()
            invariant
                j <= group.annotations.len(),
                rows_view(kept@) == rows_view(old(self).annotations@).filter(keeps_other(image))
                    + group_rows(image, anns_view(group.annotations@).take(j as int)),
            decreases group.annotations.len() - j,
        {
            let a = group.annotations[j].duplicate();
            let ghost kept0 = kept@;
            kept.push(AnnRow { image, annotation: a });
            proof {
                let g = anns_view(group.annotations@);
                let base = rows_view(old(self).annotations@).filter(keeps_other(image));
                let row = AnnRowView { image, annotation: g[j as int] };
                assert(g[j as int] == group.annotations@[j as int]@);
                assert(rows_view(kept@) =~= rows_view(kept0).push(row));
                assert(group_rows(image, g.take(j as int + 1)) =~= group_rows(
                    image,
                    g.take(j as int),
                ).push(row));
                assert(base + group_rows(image, g.take(j as int + 1)) =~= (base + group_rows(
                    image,
                    g.take(j as int),
                )).push(row));
            }
            j = j + 1;
        }
        self.annotations = kept;
        self.dimensions.push(DimRow { image, width: group.width, height: group.height });
        proof {
            let g = anns_view(group.annotations@);
            assert(g.take(g.len() as int) =~= g);
            assert(final(self)@ =~= spec_replace(old(self)@, image, group@));
        }
    }
}

} // verus!
