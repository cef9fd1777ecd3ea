//! Paths of the static assets that the pages load.

use vstd::prelude::*;
use vstd::string::*;

verus! {

/// The path of an image asset under the assets directory.
pub open spec fn image_path(uri: Seq<char>) -> Seq<char> {
    "./assets/images/"@ + uri
}

/// The path of a screenshot asset under the assets directory.
pub open spec fn screenshot_path(uri: Seq<char>) -> Seq<char> {
    "./assets/screenshots/"@ + uri
}

/// Path of the image `uri`, relative to the page.
pub fn img_asset(uri: &str) -> (path: String)
    ensures
        path@ == image_path(uri@),
{
    let mut path = String::from_str("./assets/images/");
    path.append(uri);
    path
}

/// Path of the screenshot `uri`, relative to the page.
pub fn screenshot_asset(uri: &str) -> (path: String)
    ensures
        path@ == screenshot_path(uri@),
{
    let mut path = String::from_str("./assets/screenshots/");
    path.append(uri);
    path
}

} // verus!
