//! The anniversary role of a chat community, kept in step with the calendar.
//!
//! Each user may save one anniversary per tenant. On that day a reconciler
//! grants the tenant's role to the user, announces it and records the grant;
//! once the grant has outlived the retention window the reconciler revokes
//! the role and removes the record. It runs on a schedule, works on each row
//! on its own, and leaves what failed for its next run.
//!
//! Nothing here talks to a store or a network. The state machines in
//! [`task`] and [`reconciler`] name the requests to make and take their
//! results; [`world`] and [`driver`] model what a driver of them does, and
//! [`laws`] states what then holds of every tick. [`trigger`] keeps runs from
//! overlapping, [`ident`] reads stored identifiers, [`calendar`] and
//! [`upcoming`] hold the rules for dates, [`clock`] reads the time and
//! [`reactions`] picks the reaction to a message.

pub mod calendar;
pub mod clock;
pub mod driver;
pub mod ident;
pub mod laws;
pub mod reactions;
pub mod reconciler;
pub mod task;
pub mod trigger;
pub mod upcoming;
pub mod world;
