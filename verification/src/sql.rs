//! Building the replace transaction's SQL batch.
//!
//! The replacer sends the metadata store one batch: begin, delete the
//! image's annotation rows, insert the payload's rows, insert the
//! dimensions row, commit. The batch is plain text; these functions state
//! it character for character and the builder is proved to produce exactly
//! that text. A well-formed payload embeds each coordinate as one SQL
//! numeric literal, so the batch holds exactly the statements stated here.

use vstd::prelude::*;
use crate::annotation::AnnotationGroup;
use crate::annotation::AnnotationGroupView;
use crate::annotation::AnnotationView;
use crate::annotation::anns_view;
use crate::text::append_u64;
use crate::text::u64_digits;

verus! {

/// The opening of the batch: begin, and delete every annotation row of
/// `image`.
pub open spec fn batch_prefix(image: u64) -> Seq<char> {
    "begin transaction;delete from annotations where image = "@ + u64_digits(image as int) + ";"@
}

/// The insert statement of one annotation row of `image`.
pub open spec fn annotation_stmt(image: u64, a: AnnotationView) -> Seq<char> {
    "insert into annotations (image, x1, y1, x2, y2) values ("@ + u64_digits(image as int)
        + ", "@ + a.x1 + ", "@ + a.y1 + ", "@ + a.x2 + ", "@ + a.y2 + ");"@
}

/// The insert statements of a payload's annotation rows, in payload order.
pub open spec fn annotation_stmts(image: u64, anns: Seq<AnnotationView>) -> Seq<char>
    decreases anns.len(),
{
    if anns.len() == 0 {
        Seq::empty()
    } else {
        annotation_stmts(image, anns.drop_last()) + annotation_stmt(image, anns.last())
    }
}

/// The insert statement of the dimensions row.
pub open spec fn dimensions_stmt(image: u64, width: u64, height: u64) -> Seq<char> {
    "insert into dimensions (image, width, height) values ("@ + u64_digits(image as int) + ", "@
        + u64_digits(width as int) + ", "@ + u64_digits(height as int) + ");"@
}

/// The whole batch of one replace transaction.
pub open spec fn replace_batch(image: u64, g: AnnotationGroupView) -> Seq<char> {
    batch_prefix(image) + annotation_stmts(image, g.annotations) + dimensions_stmt(
        image,
        g.width,
        g.height,
    ) + "commit transaction;"@
}

/// Builds the batch of one replace transaction, character for character
/// the text [`replace_batch`] states. The payload must be well formed:
/// each coordinate a decimal number text, hence one SQL numeric literal.
pub fn build_replace_batch(image: u64, group: &AnnotationGroup) -> (s: String)
    requires
        group@.wf(),
    ensures
        s@ == replace_batch(image, group@),
{
    let mut s = String::new();
    s.append("begin transaction;delete from annotations where image = ");
    append_u64(&mut s, image);
    s.append(";");
    proof {
        assert(s@ =~= batch_prefix(image));
    }
    let mut i: usize = 0;
    while i < group.annotations.len()
        invariant
            i <= group.annotations.len(),
            s@ == batch_prefix(image) + annotation_stmts(
                image,
                anns_view(group.annotations@).take(i as int),
            ),
        decreases group.annotations.len() - i,
    {
        let a = &group.annotations[i];
        s.append("insert into annotations (image, x1, y1, x2, y2) values (");
        append_u64(&mut s, image);
        s.append(", ");
        s.append(a.x1.as_str());
        s.append(", ");
        s.append(a.y1.as_str());
        s.append(", ");
        s.append(a.x2.as_str());
        s.append(", ");
        s.append(a.y2.as_str());
        s.append(");");
        proof {
            let g = anns_view(group.annotations@);
            assert(g[i as int] == group.annotations@[i as int]@);
            assert(g.take(i as int + 1).drop_last() =~= g.take(i as int));
            assert(g.take(i as int + 1).last() == g[i as int]);
            assert(annotation_stmts(image, g.take(i as int + 1)) == annotation_stmts(
                image,
                g.take(i as int),
            ) + annotation_stmt(image, g[i as int]));
            assert(s@ =~= batch_prefix(image) + annotation_stmts(image, g.take(i as int + 1)));
        }
        i = i + 1;
    }
    proof {
        let g = anns_view(group.annotations@);
        assert(g.take(g.len() as int) =~= g);
    }
    s.append("insert into dimensions (image, width, height) values (");
    append_u64(&mut s, image);
    s.append(", ");
    append_u64(&mut s, group.width);
    s.append(", ");
    append_u64(&mut s, group.height);
    s.append(");");
    s.append("commit transaction;");
    proof {
        assert(s@ =~= replace_batch(image, group@));
    }
    s
}

/// Builds the batch only when the payload is well formed; a payload with a
/// coordinate outside the number grammar yields nothing instead of a batch
/// with a broken statement.
pub fn checked_replace_batch(image: u64, group: &AnnotationGroup) -> (r: Option<String>)
    ensures
        group@.wf() ==> (r matches Some(s) && s@ == replace_batch(image, group@)),
        !group@.wf() ==> r is None,
{
    if group.is_well_formed() {
        Some(build_replace_batch(image, group))
    } else {
        None
    }
}

} // verus!
