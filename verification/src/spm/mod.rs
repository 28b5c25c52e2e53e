pub mod connection_stack;
pub mod process;
pub mod spm_fn;
pub mod spm_ipc;
