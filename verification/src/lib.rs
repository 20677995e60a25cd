//! The logic of an image-sharing site: accounts and sessions, posting images, comments, the pages
//! that show posts, and banning users.
//!
//! The library decides; it neither listens to requests nor talks to the database. A handler that
//! needs the database gives the statement to run and goes on with its outcome.
pub mod account;
pub mod admin;
pub mod clock;
pub mod comment;
pub mod cookie;
pub mod image;
pub mod login;
pub mod model;
pub mod pages;
pub mod query;
pub mod reply;
pub mod routing;
pub mod secret;
pub mod session;
pub mod setup;
pub mod text;
pub mod timeline;
pub mod upload;
