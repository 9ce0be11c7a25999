//! The engine of an unattended installer of an operating system: an ordered
//! pipeline of steps that reports to a front end over an event channel, the
//! handling of the output of the programs that the steps run, and the two
//! ways in which the installer lives with failure, together with the
//! decisions that the steps and the screens before them make.
//!
//! Every function states what it returns over plain values, and the laws of
//! the pipeline, the sanitizer and the policies are proved where they stand.

pub mod board;
pub mod channel;
pub mod command;
pub mod config;
pub mod disks;
pub mod display;
pub mod drivers;
pub mod grub;
pub mod installer;
pub mod keymaps;
pub mod lists;
pub mod model;
pub mod monitors;
pub mod network;
pub mod packages;
pub mod pacman;
pub mod pipeline;
pub mod plans;
pub mod policy;
pub mod sanitize;
pub mod selection;
pub mod steps;
pub mod stream;
pub mod summary;
pub mod system;
pub mod text;
pub mod timezones;
