//! What is known of a workspace's working tree.

pub mod git_status;
