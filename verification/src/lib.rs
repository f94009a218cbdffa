//! Core of a caching reverse proxy that sits in front of a rate-limited
//! weather endpoint and a vector-icon store.
//!
//! The library holds the decision logic of the proxy: when on-disk content is
//! still fresh, when to refetch, how a bounded download is accepted chunk by
//! chunk, how fetched bytes are installed (mode, timestamp, atomic rename),
//! how an icon's source vector is revalidated and piped through an external
//! rasterizer, and how inbound request paths are routed. The surrounding
//! process (listener, HTTP client, filesystem, child processes) performs each
//! planned action and feeds the observed event back into these functions.

pub mod error;
pub mod fetch;
pub mod digits;
pub mod http_date;
pub mod icon;
pub mod respond;
pub mod router;
pub mod startup;
pub mod weather;
