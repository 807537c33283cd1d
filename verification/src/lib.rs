//! Verified core of a native Spotify client library: the decisions and data
//! shaping that sit between the Kotlin bridge and librespot.

pub mod error;
pub mod metadata;
pub mod text;
pub mod connect;
pub mod core_api;
pub mod player;
pub mod session;
pub mod bridge;
pub mod paging;
pub mod album_order;
