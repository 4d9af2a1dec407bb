//! Resolution of a manifest of Subversion working copies: for each item the
//! absolute URL, the revision and the checkout directory, the order in which
//! the checkouts are asked for, and the ignore file that is written once all
//! of them have succeeded.

pub mod error;
pub mod file;
pub mod gitignore;
pub mod location;
pub mod opt;
pub mod resolve;
pub mod run;
pub mod svn;
pub mod svnadmin;
pub mod text;
pub mod which;
