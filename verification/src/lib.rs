//! Header filtering for a forwarding proxy.
//!
//! A proxy of this kind serves every page under a local path that carries the
//! page's real address, and fetches the page on the client's behalf. Each
//! header that crosses it is either passed on, dropped, or rewritten so that
//! addresses stay consistent on both sides:
//!
//! * [`transform_header_c2s`] decides for one request header on its way to the
//!   origin;
//! * [`transform_header_s2c`] decides for one response header on its way back
//!   to the client.
//!
//! Both are pure functions of their arguments. Their contracts are stated over
//! [`outbound`] and [`inbound`], and the `laws` module proves general
//! consequences of those two definitions.

pub mod address;
pub mod header;
pub mod laws;
pub mod name;
pub mod proxied;
pub mod transform;

pub use header::{Header, HeaderView};
pub use name::{blocked_header, fold_name, text_is, BLOCKED_HEADERS};
pub use proxied::{marker_suffix, proxied_path, MARKER};
pub use transform::{
    inbound, outbound, rewrite_referer, rewrite_user_agent, transform_header_c2s,
    transform_header_s2c, PROXY_MESSAGE,
};
