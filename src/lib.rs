//! Native file operations for a desktop shell: revealing a file in the
//! platform's file manager, moving a file to the trash, and reading a stable
//! identifier of the host machine.
pub mod folder;
pub mod machine;
pub mod trashing;
