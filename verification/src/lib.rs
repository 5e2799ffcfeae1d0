//! Decoder for the Tomuss grade feed: a loosely typed, positionally encoded
//! list of `[key, value]` pairs is normalized into a uniquely keyed mapping
//! and then decoded, field by field, into a fully validated typed record.
//! Every decode failure carries the path from the root to the failing value.

pub mod coerce;
pub mod error;
pub mod fields;
pub mod grades;
pub mod json;
pub mod laws;
pub mod member;
pub mod normalize;
pub mod numtext;
pub mod prefs;
pub mod record;
pub mod text;
pub mod tuples;
