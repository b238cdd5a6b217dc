//! What occupies a path, the changes the caller is asked to make, and the
//! decision on placing a symbolic link.

pub mod change;
pub mod symlink;
