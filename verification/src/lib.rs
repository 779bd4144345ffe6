//! A stateless redirector for component downloads.
//!
//! A component is referred to as `<publisher>.<name>.<version>`. The resolver
//! reads such a reference and works out where the component's release is
//! found; the endpoints say what to reply, count and log for a request. The
//! library itself does no I/O: a server around it reads requests and sends
//! the replies.

pub mod components;
pub mod laws;
pub mod metrics;
pub mod reference;
pub mod reply;
pub mod resolver;
pub mod shipping;
pub mod target;
pub mod text;
