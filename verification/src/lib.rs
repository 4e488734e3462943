//! An interactive terminal chat client's verified core: a conversation
//! transcript that grows as an assistant reply streams in fragment by
//! fragment, the key-event dispatch and render-loop state machine that
//! drive it, and the decoder that turns raw stream chunks into fragments.

pub mod stream;
pub mod transcript;
pub mod ui;
