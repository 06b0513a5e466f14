//! Searching podcast catalogues and reading podcast feeds, brought to one shape.
//!
//! Two directory providers answer a search in two different shapes, feeds come with
//! elements missing, and the backend lists episodes in six kinds of record. This
//! library turns all of them into canonical records and says, in contracts that are
//! proved, what the canonical record of each input is:
//!
//! * [`directory`] turns the entries of either provider into [`directory::UnifiedPodcast`];
//! * [`ingest`] turns a feed document into canonical episodes, with a fixed order of
//!   fallbacks for artwork, description and identifier;
//! * [`capability`] gives every kind of episode record one interface, with equality
//!   and duplication across the kinds;
//! * [`orchestrator`] is the course of a search submission, step by step.
//!
//! Nothing here sends or receives. The library builds each request as a plain value
//! and says what a reply means; the caller does the transport.
//!
//! Three outside crates do work that is taken on trust, each behind a few private
//! functions whose contracts say what is claimed of them: `rss` parses feed documents
//! ([`feed_source`]), `chrono` reads release dates ([`release_date`]), and
//! `urlencoding` encodes a feed's address for the query of a URL ([`http`]).

pub mod capability;
pub mod categories;
pub mod database;
pub mod directory;
pub mod error;
pub mod feed;
pub mod feed_source;
pub mod http;
pub mod ingest;
pub mod orchestrator;
pub mod presentation;
pub mod records;
pub mod release_date;
pub mod search_bar;
pub mod text;
