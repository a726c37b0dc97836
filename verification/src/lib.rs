//! A list of submitted names: the rule that accepts a name, the store that
//! keeps accepted names in submission order, and the replies of the two
//! request handlers, as plain data for a presentation layer to render.

pub mod handlers;
pub mod shared;
pub mod store;
pub mod validation;
