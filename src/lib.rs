//! Release listings of a hosted repository: the request it takes, the decoding
//! of the listing into records, and the text that shows them.
pub mod json;
pub mod laws;
pub mod numfmt;
pub mod release;
pub mod render;
pub mod request;
