//! The failures that end startup.

use vstd::prelude::*;

verus! {

/// A failure during startup from which the shell does not recover: it stops
/// with a diagnostic, without retry and without a degraded mode.
#[derive(Clone, Copy, Debug, PartialEq, Eq, Structural)]
pub enum StartupError {
    /// The operating system gave no port on the loopback address.
    PortBind,
    /// No command could be made for the bundled backend: the executable was
    /// not found.
    SidecarCommand,
    /// The backend executable was found and could not be started.
    SidecarSpawn,
}

impl StartupError {
    /// The text of the diagnostic for this failure.
    pub open spec fn diagnostic_text(self) -> Seq<char> {
        match self {
            StartupError::PortBind => "无法绑定端口"@,
            StartupError::SidecarCommand => "无法创建 sidecar 命令"@,
            StartupError::SidecarSpawn => "无法启动后端 sidecar"@,
        }
    }

    /// The diagnostic with which the shell stops on this failure.
    pub fn diagnostic(&self) -> (msg: &'static str)
        ensures
            msg@ == self.diagnostic_text(),
    {
        match self {
            StartupError::PortBind => "无法绑定端口",
            StartupError::SidecarCommand => "无法创建 sidecar 命令",
            StartupError::SidecarSpawn => "无法启动后端 sidecar",
        }
    }
}

} // verus!
