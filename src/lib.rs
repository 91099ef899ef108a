//! Screenshot diagnosis: turning images of operating-system error states into
//! classifier input, resolving classifier output against a fixed taxonomy, and
//! routing chat replies between live sessions.

pub mod taxonomy;
pub mod text;
pub mod preprocess;
pub mod diagnosis;
pub mod chat;
pub mod broker;
