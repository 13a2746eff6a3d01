//! Data layer of a client for an event-discovery platform.
//!
//! - [`domain`] holds the records: events with the instants they begin and
//!   end at, categories, instance versions, and the label that tells a reader
//!   when an event begins relative to now.
//! - [`infra`] decodes what the server answers. An answer to an events query
//!   is decoded as a whole and then element by element, so that one bad event
//!   stands in the result as its error and costs none of the others; a
//!   configuration is taken whole or not at all.
//! - [`presentation`] writes the messages of the errors and the words shown
//!   for an event's dates.
//!
//! Sending the queries is left to the caller: the library starts from the
//! answer as received, every part of which may be absent.
//!
//! Time is kept as UTC instants; local time exists only while a label is
//! made. Given a clock, all is read on the clock of its reading, which is
//! its offset from UTC: what is told is then a function of the event and the
//! reading. Without a clock, the machine's clock and zone are consulted, with
//! the changes of offset that the zone goes through, and the contracts say
//! what holds whatever they answer. The calendar arithmetic and the writing
//! of dates are `chrono`'s, and the contracts name or spell out what it
//! computes (see [`domain::calendar`]).

pub mod api;
pub mod domain;
pub mod infra;
pub mod presentation;
