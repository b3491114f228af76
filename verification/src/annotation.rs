//! Bounding-box annotations and the payload of one replace call.
//!
//! A client draws boxes on a canvas and submits the whole set at once,
//! together with the canvas width and height the coordinates refer to.
//! Coordinates travel as the decimal texts the client produced for them; the
//! grammar of those texts is stated in [`crate::text`].

use vstd::prelude::*;
use crate::text::check_number_text;
use crate::text::is_number_text;

verus! {

/// One bounding box: four corner coordinates as decimal texts.
#[derive(Debug, PartialEq)]
pub struct Annotation {
    pub x1: String,
    pub y1: String,
    pub x2: String,
    pub y2: String,
}

/// The mathematical value of an [`Annotation`].
pub struct AnnotationView {
    pub x1: Seq<char>,
    pub y1: Seq<char>,
    pub x2: Seq<char>,
    pub y2: Seq<char>,
}

impl View for Annotation {
    type V = AnnotationView;

    open spec fn view(&self) -> AnnotationView {
        AnnotationView { x1: self.x1@, y1: self.y1@, x2: self.x2@, y2: self.y2@ }
    }
}

impl AnnotationView {
    /// All four coordinates are decimal number texts.
    pub open spec fn wf(self) -> bool {
        &&& is_number_text(self.x1)
        &&& is_number_text(self.y1)
        &&& is_number_text(self.x2)
        &&& is_number_text(self.y2)
    }
}

impl Annotation {
    /// An exact copy.
    pub fn duplicate(&self) -> (r: Annotation)
        ensures
            r@ == self@,
    {
        Annotation {
            x1: self.x1.clone(),
            y1: self.y1.clone(),
            x2: self.x2.clone(),
            y2: self.y2.clone(),
        }
    }

    /// Checks that all four coordinates are decimal number texts.
    pub fn is_well_formed(&self) -> (b: bool)
        ensures
            b == self@.wf(),
    {
        check_number_text(self.x1.as_str()) && check_number_text(self.y1.as_str())
            && check_number_text(self.x2.as_str()) && check_number_text(self.y2.as_str())
    }
}

/// The payload of one replace call: the full new annotation set and the
/// canvas size it was drawn on.
#[derive(Debug, PartialEq)]
pub struct AnnotationGroup {
    pub annotations: Vec<Annotation>,
    pub width: u64,
    pub height: u64,
}

/// The views of a sequence of annotations.
pub open spec fn anns_view(s: Seq<Annotation>) -> Seq<AnnotationView> {
    s.map_values(|a: Annotation| a@)
}

/// The mathematical value of an [`AnnotationGroup`].
pub struct AnnotationGroupView {
    pub annotations: Seq<AnnotationView>,
    pub width: u64,
    pub height: u64,
}

impl View for AnnotationGroup {
    type V = AnnotationGroupView;

    open spec fn view(&self) -> AnnotationGroupView {
        AnnotationGroupView {
            annotations: anns_view(self.annotations@),
            width: self.width,
            height: self.height,
        }
    }
}

impl AnnotationGroupView {
    /// Every annotation in the payload is well formed.
    pub open spec fn wf(self) -> bool {
        forall|i: int| 0 <= i < self.annotations.len() ==> (#[trigger] self.annotations[i]).wf()
    }
}

impl AnnotationGroup {
    /// Checks that every annotation in the payload is well formed.
    pub fn is_well_formed(&self) -> (b: bool)
        ensures
            b == self@.wf(),
    {
        let mut i: usize = 0;
        while i < self.annotations.len()
            invariant
                i <= self.annotations.len(),
                forall|k: int| 0 <= k < i ==> (#[trigger] self@.annotations[k]).wf(),
                self@.annotations.len() == self.annotations.len(),
            decreases self.annotations.len() - i,
        {
            if !self.annotations[i].is_well_formed() {
                proof {
                    assert(self@.annotations[i as int] == self.annotations@[i as int]@);
                }
                return false;
            }
            proof {
                assert(self@.annotations[i as int] == self.annotations@[i as int]@);
            }
            i = i + 1;
        }
        true
    }
}

} // verus!
