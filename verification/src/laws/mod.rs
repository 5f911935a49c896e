//! What holds of the library as its callers see it: each law speaks of calls, of what goes into
//! them and of what they give back, and of nothing in between.

pub mod arriving;
pub mod asking;
pub mod basics;
pub mod consenting;
pub mod deciding;
pub mod dispatching;
pub mod enrolling;
pub mod fleet;
pub mod gathering;
pub mod meeting;
pub mod offering;
pub mod opening;
pub mod overlay;
pub mod placing;
pub mod readiness;
pub mod receiving;
pub mod remembering;
pub mod running;
pub mod sending;
pub mod serving;
pub mod supporting;
pub mod timing;
