//! An interactive HTTP GET session: an insertion-ordered request history
//! keyed by URL, and the screen/edit-mode state machine that drives it.

pub mod session;
pub mod store;

pub use session::App;
pub use session::Command;
pub use session::CurrentScreen;
pub use session::CurrentlyEditing;
pub use session::FetchError;
pub use session::KeyInput;
pub use store::RequestStore;
pub use store::StoreError;
