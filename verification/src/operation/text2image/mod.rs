//! One of the picture services. Its requests become background tasks.

pub mod output;
pub mod param;

use vstd::prelude::*;

verus! {

/// The path of the service.
pub const TEXT2IMAGE_PATH: &'static str = "/services/aigc/text2image/image-synthesis";

/// The header that asks the service to work in the background, by name and
/// value. It goes with the headers of every request.
pub fn async_header() -> (r: (String, String))
    ensures
        r.0@ == "X-DashScope-Async"@,
        r.1@ == "enable"@,
{
    ("X-DashScope-Async".to_owned(), "enable".to_owned())
}

} // verus!
