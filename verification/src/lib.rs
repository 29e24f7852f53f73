//! Decision logic of a desktop shell for a locally served chat application:
//! supervision of the background server process, the application lifecycle,
//! OAuth deep-link callbacks and the authentication session kept in the
//! operating system's credential store.
//!
//! The crate decides; it performs no input or output. Spawning and killing
//! processes, probing the network, talking to the credential store and
//! emitting events to the frontend are left to the embedding application,
//! which hands the outcomes to the functions of this crate as plain values.
//! Redirect URLs are parsed by the `url` crate.

pub mod callback;
pub mod greeting;
pub mod lifecycle;
pub mod session;
pub mod supervisor;
