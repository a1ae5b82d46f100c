//! A minimal Linux container runtime core.
//!
//! The crate holds the decision logic of the runtime: the on-disk layout of a
//! container, the identity-map file format, the parent/child pid handshake
//! codec, the namespace flag set, the init-sequence and factory plans, the
//! cgroup quota arithmetic, and the error-downgrade rules of the container
//! handle. The surrounding executables perform the system calls and file
//! operations these plans describe.

pub mod action;
pub mod cgroup;
pub mod container;
pub mod dec;
pub mod factory;
pub mod idmap;
pub mod init;
pub mod network;
pub mod paths;
pub mod pipe;
pub mod process;
pub mod result;

pub use container::Container;
pub use dec::dec_string;
pub use factory::{ContainerConfig, ContainerFactory};
pub use network::NetworkConfig;
pub use paths::{container_dir, container_dir_suf, container_info_dir, container_info_file,
    container_root_fs, CONTAINERS_DIR};
pub use pipe::Pipe;
pub use process::RawProcess;
pub use result::{Check, CommentError, Error};
