//! Decoder for the track-fragment-run record of fragmented ISO base media
//! containers: a flag-driven, variable-width binary layout listing the byte
//! size, duration, and flags of each sample in one run of a movie fragment.

pub mod bytes;
pub mod reader;
pub mod trun;
