//! Provisioning of a block device into a bootable installation, and the
//! setup of the system around it.
//!
//! Nothing in this library starts a program or touches a file. Every
//! component builds a [`plan::Plan`]: an ordered list of steps, each an
//! action for the host together with the rule by which its outcome is
//! judged and the action that releases what it acquired. A
//! [`runner::Runner`] says which action is due and takes the outcome that
//! the host reports; the first failing step ends the run, and what was
//! acquired is released in reverse order. The installation itself is a
//! sequence of stages: [`system::installer::SystemInstaller`] moves an
//! [`system::installer::InstallationSession`] from stage to stage, freezes
//! it where a stage fails, and can run it to its end through any function
//! that performs actions.
//!
//! What a plan holds, what each outcome leads to, and what holds of every
//! run whatever the host reports is stated in the contracts and proved.
pub mod text;
pub mod command;
pub mod error;
pub mod plan;
pub mod runner;
pub mod system;
pub mod docs;
pub mod testing;
