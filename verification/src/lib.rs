//! Status resolution for a chat profile that follows the network one is on.
//!
//! The current public IP address is matched against a table of known
//! locations; the matching entry, or a default, becomes the status to show.
//! A record of the last status pushed decides whether an automatic update
//! may replace it: a status set by hand stands until it lapses.
//!
//! Reading files and talking to remote services is left to the caller.
//! Every function here works on plain values, and says in its contract what
//! it returns:
//!
//! * [`location`]: the table of locations and the lookup of an address;
//! * [`config`]: status templates, the configuration and its defaults;
//! * [`cache`]: the record of the last status pushed, and its hold;
//! * [`clock`]: expiration times;
//! * [`resolver`]: which status to show, and whether to push it;
//! * [`gateway`]: the steps of pushing it;
//! * [`slack`]: the client that ties these together;
//! * [`json`] and [`text`]: reading the remote profile's answers.

pub mod address;
pub mod cache;
pub mod clock;
pub mod config;
pub mod error;
pub mod gateway;
pub mod json;
pub mod location;
pub mod resolver;
pub mod slack;
pub mod text;

pub use address::IpAddress;
pub use cache::{Cache, CacheView, Hold, StatusCache, StatusRecord};
pub use config::{Config, ConfigView, StatusConfig, StatusTemplate};
pub use error::StatusError;
pub use gateway::{Step, Update};
pub use location::{Location, LocationView, Lookup};
pub use resolver::{Reason, Resolution, ResolvedStatus};
pub use slack::{IpReply, SlackStatus};
