//! The annotation replacer.
//!
//! Replacing an image's annotations is full-replace, never a merge: one
//! transaction deletes every prior row of the image, inserts one row per
//! payload annotation and appends one dimensions row, committing together
//! or not at all. [`run_replace`] executes that against the store model and
//! pins both the committed post-state and the untouched post-state of a
//! failed transaction. The proof functions state the replace laws: the
//! payload is installed exactly, other images are untouched, an empty
//! payload clears the set, and of two replaces in a row the second wins.

use vstd::prelude::*;
use crate::annotation::AnnotationGroup;
use crate::annotation::AnnotationGroupView;
use crate::annotation::AnnotationView;
use crate::meta::AnnRowView;
use crate::meta::MetaStore;
use crate::meta::MetaView;
use crate::meta::anns_of;
use crate::meta::group_rows;
use crate::meta::keeps_other;
use crate::meta::of_image;
use crate::meta::row_ann;
use crate::meta::spec_replace;

verus! {

/// The error of a failed metadata-store call, surfaced to the caller as a
/// server-side failure.
#[derive(Clone, Copy, Debug, PartialEq, Eq, Structural)]
pub struct MetadataError;

/// Runs one replace call against the store. A committed transaction leaves
/// exactly the replaced state; a failed one leaves the store untouched:
/// rollback is exact, not approximate.
pub fn run_replace(
    meta: &mut MetaStore,
    image: u64,
    group: &AnnotationGroup,
    store_fails: bool,
) -> (r: Result<(), MetadataError>)
    requires
        old(meta)@.wf(),
    ensures
        final(meta)@.wf(),
        store_fails ==> r is Err && final(meta)@ == old(meta)@,
        !store_fails ==> r is Ok && final(meta)@ == spec_replace(old(meta)@, image, group@),
{
    if store_fails {
        return Err(MetadataError);
    }
    meta.apply_replace(image, group);
    Ok(())
}

/// A filter that keeps nothing keeps nothing.
proof fn lemma_filter_none<A>(s: Seq<A>, p: spec_fn(A) -> bool)
    requires
        forall|i: int| 0 <= i < s.len() ==> !p(s[i]),
    ensures
        s.filter(p) == Seq::<A>::empty(),
    decreases s.len(),
{
    reveal(Seq::filter);
    if s.len() > 0 {
        let d = s.drop_last();
        assert(forall|j: int| 0 <= j < d.len() ==> d[j] == s[j]);
        lemma_filter_none(d, p);
        assert(!p(s.last()));
    }
}

/// A filter that keeps everything changes nothing.
proof fn lemma_filter_all<A>(s: Seq<A>, p: spec_fn(A) -> bool)
    requires
        forall|i: int| 0 <= i < s.len() ==> p(s[i]),
    ensures
        s.filter(p) == s,
    decreases s.len(),
{
    reveal(Seq::filter);
    if s.len() > 0 {
        let d = s.drop_last();
        assert(forall|j: int| 0 <= j < d.len() ==> d[j] == s[j]);
        lemma_filter_all(d, p);
        assert(p(s.last()));
        assert(s.filter(p) =~= s);
    } else {
        assert(s.filter(p) =~= s);
    }
}

/// Filtering by `q` after filtering by a weaker `p` is filtering by `q`.
proof fn lemma_filter_absorbs<A>(s: Seq<A>, p: spec_fn(A) -> bool, q: spec_fn(A) -> bool)
    requires
        forall|x: A| #[trigger] q(x) ==> p(x),
    ensures
        s.filter(p).filter(q) == s.filter(q),
    decreases s.len(),
{
    reveal(Seq::filter);
    if s.len() > 0 {
        let d = s.drop_last();
        lemma_filter_absorbs(d, p, q);
        if p(s.last()) {
            assert(s.filter(p) == d.filter(p).push(s.last()));
            assert(d.filter(p).push(s.last()).drop_last() =~= d.filter(p));
            assert(d.filter(p).push(s.last()).last() == s.last());
        } else {
            assert(s.filter(p) == d.filter(p));
            assert(!q(s.last()));
        }
    }
}

/// Law: after one committed replace, the annotation set of the image is
/// exactly the payload, in payload order.
pub proof fn lemma_replace_installs(m: MetaView, image: u64, g: AnnotationGroupView)
    ensures
        anns_of(spec_replace(m, image, g), image) == g.annotations,
{
    let kept = m.annotations.filter(keeps_other(image));
    let grows = group_rows(image, g.annotations);
    Seq::<AnnRowView>::filter_distributes_over_add(kept, grows, of_image(image));
    assert forall|i: int| 0 <= i < kept.len() implies !of_image(image)(kept[i]) by {
        m.annotations.lemma_filter_pred(keeps_other(image), i);
    }
    lemma_filter_none(kept, of_image(image));
    assert(forall|i: int| 0 <= i < grows.len() ==> of_image(image)(#[trigger] grows[i]));
    lemma_filter_all(grows, of_image(image));
    assert(Seq::<AnnRowView>::empty() + grows =~= grows);
    assert(grows.map_values(row_ann()) =~= g.annotations);
}

/// Law: a committed replace of one image touches no other image's
/// annotation set.
pub proof fn lemma_replace_other_untouched(m: MetaView, image: u64, g: AnnotationGroupView)
    ensures
        forall|other: u64|
            other != image ==> anns_of(#[trigger] spec_replace(m, image, g), other) == anns_of(
                m,
                other,
            ),
{
    let kept = m.annotations.filter(keeps_other(image));
    let grows = group_rows(image, g.annotations);
    assert forall|other: u64| other != image implies anns_of(spec_replace(m, image, g), other)
        == anns_of(m, other) by {
        Seq::<AnnRowView>::filter_distributes_over_add(kept, grows, of_image(other));
        lemma_filter_absorbs(m.annotations, keeps_other(image), of_image(other));
        assert(forall|i: int| 0 <= i < grows.len() ==> !of_image(other)(#[trigger] grows[i]));
        lemma_filter_none(grows, of_image(other));
        assert((kept + grows).filter(of_image(other)) =~= m.annotations.filter(of_image(other)));
    }
}

/// Law: replacing with an empty payload clears every annotation of the
/// image, while the annotations of every other image are untouched.
pub proof fn lemma_replace_empty_clears(m: MetaView, image: u64, g: AnnotationGroupView)
    requires
        g.annotations.len() == 0,
    ensures
        anns_of(spec_replace(m, image, g), image) == Seq::<AnnotationView>::empty(),
        forall|other: u64|
            other != image ==> anns_of(#[trigger] spec_replace(m, image, g), other) == anns_of(
                m,
                other,
            ),
{
    lemma_replace_installs(m, image, g);
    assert(g.annotations =~= Seq::<AnnotationView>::empty());
    lemma_replace_other_untouched(m, image, g);
}

/// Law: of two committed replaces in a row on one image, only the second
/// payload's rows are present afterwards.
pub proof fn lemma_replace_twice_second_wins(
    m: MetaView,
    image: u64,
    g1: AnnotationGroupView,
    g2: AnnotationGroupView,
)
    ensures
        anns_of(spec_replace(spec_replace(m, image, g1), image, g2), image) == g2.annotations,
{
    lemma_replace_installs(spec_replace(m, image, g1), image, g2);
}

} // verus!
