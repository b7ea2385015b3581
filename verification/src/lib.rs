//! A change feed over a resource API that survives lost history, and the
//! values behind the definition of a custom resource.
//!
//! A client of a resource API follows a collection through a watch: a long
//! poll that reports additions, modifications and deletions from a given
//! version onward. The `informer` keeps the version while events arrive, and
//! starts over from the beginning when the server answers that the version
//! is too old. It decides and leaves the waiting and the transport to its
//! caller. `theorems` states what holds of it over whole runs of events.
//!
//! `custom_resource` turns the declaration of a new kind of resource into
//! the names and texts that its generated type and its registration are made
//! of.

pub mod api;
pub mod cursor;
pub mod custom_resource;
pub mod decimal;
pub mod foreign;
pub mod informer;
pub mod text;
pub mod theorems;
pub mod version;
