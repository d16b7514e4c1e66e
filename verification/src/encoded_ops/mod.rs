//! Encoded operations on a dictionary-encoded columnstore.
//!
//! When the planner enables encoded operations, the coprocessor request carries
//! encoding hints that say which columns are eligible for dictionary encoding
//! and which operations can be performed on encoded data. The storage layer
//! passes these hints through unchanged, and supports bloom filters on encoded
//! data where they apply.
//!
//! Every type that holds a collection has a view, in which vectors are
//! sequences and strings are sequences of characters. Two values are equal
//! (`==`) if and only if their views are, and a clone has the view of its
//! original: what is relayed is what was received.

pub mod bloom_filter;
pub mod encoding_hint;
pub mod filter;
pub mod group_by;
pub mod request;
pub mod star_join;

pub use bloom_filter::{EncodedBloomFilterHint, EncodedBloomFilterHintView};
pub use encoding_hint::{EncodingHint, EncodingHintView};
pub use filter::{EncodedFilterRequest, EncodedFilterRequestView};
pub use group_by::{AggFuncType, EncodedGroupByRequest, EncodedGroupByRequestView};
pub use request::{EncodedOpsRequest, EncodedOpsRequestView};
pub use star_join::{DimensionJoinRequest, EncodedStarJoinRequest, EncodedStarJoinRequestView};
