//! Verified core of the association's membership tooling: the Mailchimp
//! audience client, the Drupal membership database model, the application
//! database model and the command-line settings.
use vstd::prelude::*;

pub mod chunks;
pub mod cli;
pub mod codec;
pub mod date;
pub mod db;
pub mod ddb;
pub mod mailchimp;
pub mod text;

verus! {

} // verus!
