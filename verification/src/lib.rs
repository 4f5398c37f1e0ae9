//! Rendering of short feed posts as decorated terminal text or Markdown,
//! and the cursor logic of a loop that polls a feed for new posts.

pub mod clock;
pub mod poller;
pub mod post;
pub mod span;
pub mod style;
pub mod text;
pub mod ui;
pub mod url;
