//! Recording: audio capture arguments, game event triggers and the recorder states.

pub mod audio;
pub mod integration_backend;
pub mod live_client;
pub mod windows_backend;
pub mod commands;
pub mod auto_clip_manager;

use crate::recording::integration_backend::TargetOs;
use vstd::prelude::*;

verus! {

/// The platforms with a recording backend.
#[derive(Debug, Clone, Copy, PartialEq, Eq, Structural)]
pub enum Platform {
    Windows,
    MacOS,
}

impl Platform {
    /// The recording platform of the operating system the program was built
    /// for; none on a system without a recording backend.
    pub fn current(os: TargetOs) -> (r: Option<Platform>)
        ensures
            r == (match os {
                TargetOs::Windows => Some(Platform::Windows),
                TargetOs::MacOS => Some(Platform::MacOS),
                TargetOs::Linux => None::<Platform>,
            }),
    {
        match os {
            TargetOs::Windows => Some(Platform::Windows),
            TargetOs::MacOS => Some(Platform::MacOS),
            TargetOs::Linux => None,
        }
    }

    /// Display name of the platform.
    pub fn name(&self) -> (r: &'static str)
        ensures
            r@ == (match self {
                Platform::Windows => "Windows"@,
                Platform::MacOS => "macOS"@,
            }),
    {
        match self {
            Platform::Windows => "Windows",
            Platform::MacOS => "macOS",
        }
    }
}

} // verus!
