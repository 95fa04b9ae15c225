//! The detection machinery.
//!
//! The asking of the system is the caller's. What is decided here is
//! whether the system has to be asked, and what becomes of its answer.

use crate::resolver::filter::Params;
use vstd::prelude::*;

verus! {

/// Info about the system.
#[derive(Debug)]
pub struct Info {
    /// The name of the system architecture.
    pub arch: String,
    /// The name of the platform.
    pub platform: String,
}

/// The platform and the architecture to resolve for, as far as the operator
/// named them.
pub enum Target {
    /// The operator named both.
    Given(Params),
    /// The system has to be asked for what the operator left out.
    Detect(Detection),
}

/// A target that waits for the system's answer.
pub struct Detection {
    platform: Option<String>,
    arch: Option<String>,
}

impl Detection {
    #[verifier::type_invariant]
    spec fn incomplete(self) -> bool {
        self.platform is None || self.arch is None
    }

    /// The platform, where the operator named it.
    pub closed spec fn platform(self) -> Option<String> {
        self.platform
    }

    /// The architecture, where the operator named it.
    pub closed spec fn arch(self) -> Option<String> {
        self.arch
    }

    /// Takes the system's answer: what the operator named stands, and the
    /// rest is what the system says.
    pub fn detected(self, info: Info) -> (params: Params)
        ensures
            params.platform == match self.platform() {
                Some(platform) => platform,
                None => info.platform,
            },
            params.arch == match self.arch() {
                Some(arch) => arch,
                None => info.arch,
            },
    {
        let Detection { platform, arch } = self;
        let Info { arch: detected_arch, platform: detected_platform } = info;
        Params {
            platform: match platform {
                Some(platform) => platform,
                None => detected_platform,
            },
            arch: match arch {
                Some(arch) => arch,
                None => detected_arch,
            },
        }
    }
}

/// Decides whether the system has to be asked: only where the operator left
/// the platform or the architecture out.
pub fn target(platform: Option<String>, arch: Option<String>) -> (target: Target)
    ensures
        match target {
            Target::Given(params) => platform == Some(params.platform) && arch == Some(
                params.arch,
            ),
            Target::Detect(detection) => (platform is None || arch is None)
                && detection.platform() == platform && detection.arch() == arch,
        },
{
    match (platform, arch) {
        (Some(platform), Some(arch)) => Target::Given(Params { platform, arch }),
        (platform, arch) => Target::Detect(Detection { platform, arch }),
    }
}

} // verus!
