//! The pages around the service and the values the routes carry.
//!
//! Rendering is a thin collaborator outside this crate; the page values and
//! the one computed piece of page content — the data-fetch url of an image
//! — live here.

use vstd::prelude::*;
use crate::text::append_u64;
use crate::text::u64_digits;

verus! {

/// The upload page.
pub struct Upload {}

/// The page showing one image to annotate.
#[derive(Debug)]
pub struct Image {
    pub url: String,
    pub id: u64,
}

/// The page shown when no image awaits annotation.
pub struct NoImages {}

/// The help page.
pub struct Help {}

/// An image id taken from a request path.
#[derive(Clone, Copy, Debug, PartialEq, Eq, Structural)]
pub struct ImageId {
    pub id: u64,
}

/// The data-fetch url of an image.
pub open spec fn image_url_spec(id: u64) -> Seq<char> {
    "/api/get_image_data/"@ + u64_digits(id as int)
}

/// The page presenting `id` for annotation, with its data-fetch url.
pub fn image_page(id: u64) -> (p: Image)
    ensures
        p.id == id,
        p.url@ == image_url_spec(id),
{
    let mut url = String::new();
    url.append("/api/get_image_data/");
    append_u64(&mut url, id);
    proof {
        assert(url@ =~= image_url_spec(id));
    }
    Image { url, id }
}

/// Where the front page sends the visitor: to one not-yet-annotated image,
/// or to the page saying none awaits.
#[derive(Debug)]
pub enum HomePage {
    Annotate { page: Image },
    NoImagesYet,
}

/// Decides the front page from the store's choice of a not-yet-annotated
/// image.
pub fn home_page(candidate: Option<u64>) -> (p: HomePage)
    ensures
        candidate matches Some(id) ==> (p matches HomePage::Annotate { page } && page.id == id
            && page.url@ == image_url_spec(id)),
        candidate is None ==> p is NoImagesYet,
{
    match candidate {
        Some(id) => HomePage::Annotate { page: image_page(id) },
        None => HomePage::NoImagesYet,
    }
}

} // verus!
