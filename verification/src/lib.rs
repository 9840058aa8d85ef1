//! Creator cards for a channel monitor: a record of parallel columns, the
//! ordering of its entries by a chosen column, the in-place reordering of the
//! side arrays that are kept in step with it, and the rows of cards that the
//! window shows.

pub mod avatars;
pub mod cards;
pub mod creator;
pub mod loading;
pub mod monitor;
pub mod permutation;
pub mod rows;
pub mod sorting;
pub mod text;
