//! The operations on the managed directory: reconciling the filesystem with
//! the model, tracking new items, and the synchronisation commands.

pub mod add;
pub mod apply;
pub mod init;
pub mod model;
pub mod pull;
pub mod push;
