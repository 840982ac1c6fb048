//! The reply logic of the sibling image-fetch endpoint: an object key either
//! yields a byte payload, answered with a message carrying the byte count,
//! or an absence signal, answered as not found.

use vstd::prelude::*;

use crate::timefmt::{decimal_text, format_u64};

verus! {

/// The success message for a fetched object: its key and its byte count.
pub open spec fn image_found_text(name: Seq<char>, len: int) -> Seq<char> {
    "You asked for: "@ + name + ", was "@ + decimal_text(len) + " bytes"@
}

/// What the endpoint answers: a message for a fetched object, or not-found.
#[derive(Clone, Debug)]
pub enum ImageReply {
    Found { message: String },
    NotFound,
}

/// Builds the endpoint's reply from a fetch outcome: a payload yields the
/// success message with the byte count, an absence signal yields not-found.
pub fn image_reply(name: &str, fetched: &Option<Vec<u8>>) -> (r: ImageReply)
    ensures
        fetched matches Some(data) ==> r matches ImageReply::Found { message } && message@
            == image_found_text(name@, data@.len() as int),
        fetched is None ==> r is NotFound,
{
    match fetched {
        Some(data) => {
            let mut s = String::from_str("You asked for: ");
            s.append(name);
            s.append(", was ");
            let count = format_u64(data.len() as u64);
            s.append(count.as_str());
            s.append(" bytes");
            proof {
                reveal_strlit("You asked for: ");
                reveal_strlit(", was ");
                reveal_strlit(" bytes");
                assert(s@ =~= image_found_text(name@, data@.len() as int));
            }
            ImageReply::Found { message: s }
        },
        None => ImageReply::NotFound,
    }
}

} // verus!
