//! Resolving which window holds user focus on an X11-style server, and the
//! two identifiers that describe it: an application class name and a display
//! title.
//!
//! The resolution pipeline lives in [`session`]: a verified state machine
//! that names, one at a time, the protocol queries an unverified caller is
//! to perform, and decides from each reply what follows — preferring the
//! window manager's active-window convention property and falling back to
//! the server's native input focus. The raw property replies are turned
//! into text by the verified decoders in [`decode`]: the legacy paired
//! class/instance rule and the UTF-8 single-string rule, with malformed
//! content downgraded to fixed sentinel strings, never to an error.
//! [`records`] reads stored observations back out of a comma-separated
//! table.

pub mod decode;
pub mod records;
pub mod search;
pub mod session;
