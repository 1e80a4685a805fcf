//! Session-scoped voting core: navigation, identity, vote stacks, ballots and
//! the client-side markers that carry a guest's state between requests.

pub mod ballot;
pub mod client_data;
pub mod error;
pub mod guests;
pub mod laws;
pub mod markers;
pub mod text;
pub mod vote;
pub mod vtubers;
