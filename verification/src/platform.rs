//! The closed set of target platforms.

use vstd::prelude::*;

verus! {

/// A target platform an artifact can be built for.
#[derive(Clone, Copy, Debug, PartialEq, Eq, Structural)]
pub enum Platform {
    Aarch64Darwin,
    Aarch64Linux,
    X8664Darwin,
    X8664Linux,
}

impl Platform {
    /// The identifier of the platform, such as `aarch64-darwin`.
    pub open spec fn spec_name(self) -> Seq<char> {
        match self {
            Platform::Aarch64Darwin => "aarch64-darwin"@,
            Platform::Aarch64Linux => "aarch64-linux"@,
            Platform::X8664Darwin => "x86_64-darwin"@,
            Platform::X8664Linux => "x86_64-linux"@,
        }
    }

    /// The identifier of the platform, such as `aarch64-darwin`.
    pub fn name(self) -> (s: &'static str)
        ensures
            s@ == self.spec_name(),
    {
        match self {
            Platform::Aarch64Darwin => "aarch64-darwin",
            Platform::Aarch64Linux => "aarch64-linux",
            Platform::X8664Darwin => "x86_64-darwin",
            Platform::X8664Linux => "x86_64-linux",
        }
    }

    /// Every platform, in their fixed order.
    pub open spec fn spec_all() -> Seq<Platform> {
        seq![
            Platform::Aarch64Darwin,
            Platform::Aarch64Linux,
            Platform::X8664Darwin,
            Platform::X8664Linux,
        ]
    }

    /// Every platform, in their fixed order.
    pub fn all() -> (v: Vec<Platform>)
        ensures
            v@ == Self::spec_all(),
    {
        let v = vec![
            Platform::Aarch64Darwin,
            Platform::Aarch64Linux,
            Platform::X8664Darwin,
            Platform::X8664Linux,
        ];
        assert(v@ =~= Self::spec_all());
        v
    }
}

} // verus!
