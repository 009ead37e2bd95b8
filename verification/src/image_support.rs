//! Terminal image support, in the build without a graphics stack: every
//! operation reports that images cannot be displayed, and callers fall
//! back to block art.

use vstd::prelude::*;

verus! {

/// Load an image from bytes; unavailable in this build.
pub fn load_image(_data: &[u8]) -> (r: Result<(), String>)
    ensures
        r matches Err(m) && m@
            == "Image support not compiled in. Rebuild with --features image-support"@,
{
    Err("Image support not compiled in. Rebuild with --features image-support".to_owned())
}

/// Get actual image dimensions; unavailable in this build.
pub fn get_dimensions(_data: &[u8]) -> (r: Result<(u32, u32), String>)
    ensures
        r matches Err(m) && m@ == "Image support not available"@,
{
    Err("Image support not available".to_owned())
}

/// Create a terminal image picker; unavailable in this build.
pub fn create_picker() -> (r: Result<(), String>)
    ensures
        r matches Err(m) && m@ == "Image support not available"@,
{
    Err("Image support not available".to_owned())
}

/// Whether the terminal can display images; never in this build.
pub fn supports_images() -> (r: bool)
    ensures
        !r,
{
    false
}

} // verus!
