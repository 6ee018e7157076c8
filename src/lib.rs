//! Client-side core of a zero-trust tunnel: the resource model that routing and
//! display logic work on, and the plain configuration of the stub network
//! interface that terminates tunnel-internal TCP sessions; besides, the messages
//! the GUI client shows for its errors and the decisions of its log setup.
use vstd::prelude::*;

pub mod network;
pub mod model;
pub mod sites;
pub mod resource;
pub mod stub;
pub mod errors;
pub mod logging;
