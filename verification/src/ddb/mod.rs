//! The membership data held in the association's Drupal database: typed
//! rows, their validation and their conversion to the application database
//! and to Mailchimp audience members. Running the SQL queries happens outside
//! the library.
use vstd::prelude::*;

pub mod addresses;
pub mod airstreams;
pub mod clubs;
pub mod leadership;
pub mod members;
pub mod races;
pub mod regions;
pub mod roles;
pub mod standing_committees;
pub mod users;

verus! {

} // verus!
