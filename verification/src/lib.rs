//! A markdown mail composer: a draft is compiled into the HTML and plain
//! bodies of a message, assembled into a multipart tree with its images
//! and attachments, and sent now or handed to a scheduling service for a
//! later instant.
//!
//! The library computes and decides; it reads no file, opens no socket and
//! draws nothing. Whoever uses it reads the files, sends the message and
//! runs the terminal, and hands the library what came of that.
//!
//! - [`compiler`], [`markdown`], [`tracker`]: from draft to compiled bodies.
//! - [`mailer`], [`files`]: from compiled bodies to the message tree.
//! - [`schedule`]: from typed date, time and zone to an instant.
//! - [`client`]: what is said to the tracking and scheduling service.
//! - [`application`], [`compose`], [`configuration`], [`dashboard`],
//!   [`scheduled`], [`handler`], [`view`]: the state of the program, what
//!   keys do to it, and what its pages show.
//! - [`models`], [`config`], [`enums`], [`text`], [`sorting`]: the data and
//!   the tools that the rest is built on.

pub mod application;
pub mod client;
pub mod compiler;
pub mod compose;
pub mod config;
pub mod configuration;
pub mod dashboard;
pub mod enums;
pub mod files;
pub mod handler;
pub mod mailer;
pub mod markdown;
pub mod models;
pub mod schedule;
pub mod scheduled;
pub mod sorting;
pub mod text;
pub mod tracker;
pub mod view;
