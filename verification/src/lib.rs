//! Configuration, boot-time and device-model logic of a small KVM virtual machine monitor.
pub mod text;
pub mod cmdline;
pub mod wire;
pub mod fuse;
pub mod rtc;
pub mod config;
pub mod virtio;
pub mod network;
pub mod error;
pub mod vsock;
pub mod boot;
pub mod kvm;
pub mod cli;
pub mod inode;
pub mod handle;
pub mod fuse_ops;
pub mod bridge;
pub mod virtqueue;
