use vstd::prelude::*;
use vstd::string::StringExecFns;

verus! {

/// Which member of the backend pool services a request, one slot per
/// supported version tag.
#[derive(Debug, Clone, Copy, PartialEq, Eq, Structural)]
pub enum BackendSlot {
    ThreeSix,
    FourZero,
    FourTwo,
    FourFour,
}

/// Maps a version tag to the backend pool member configured for it.  A flag
/// is true exactly when a backend was configured for that version at process
/// start; the router does no health checking beyond that.
#[derive(Debug, Clone, Copy, PartialEq, Eq, Structural)]
pub struct VersionRouter {
    pub three_six: bool,
    pub four_zero: bool,
    pub four_two: bool,
    pub four_four: bool,
}

impl VersionRouter {
    /// The slot a version tag resolves to: a configured slot for a known
    /// tag, nothing for an unconfigured or unknown one.
    pub open spec fn spec_resolve(self, version: Seq<char>) -> Option<BackendSlot> {
        if version == "3.6"@ {
            if self.three_six {
                Some(BackendSlot::ThreeSix)
            } else {
                None
            }
        } else if version == "4.0"@ {
            if self.four_zero {
                Some(BackendSlot::FourZero)
            } else {
                None
            }
        } else if version == "4.2"@ {
            if self.four_two {
                Some(BackendSlot::FourTwo)
            } else {
                None
            }
        } else if version == "4.4"@ {
            if self.four_four {
                Some(BackendSlot::FourFour)
            } else {
                None
            }
        } else {
            None
        }
    }

    /// Pure lookup with no side effects: resolving an unknown or
    /// unconfigured version is a distinguishable not-found, a client error
    /// rather than a system fault.
    pub fn resolve(&self, version: &String) -> (r: Option<BackendSlot>)
        ensures
            r == self.spec_resolve(version@),
    {
        if *version == String::from_str("3.6") {
            if self.three_six {
                Some(BackendSlot::ThreeSix)
            } else {
                None
            }
        } else if *version == String::from_str("4.0") {
            if self.four_zero {
                Some(BackendSlot::FourZero)
            } else {
                None
            }
        } else if *version == String::from_str("4.2") {
            if self.four_two {
                Some(BackendSlot::FourTwo)
            } else {
                None
            }
        } else if *version == String::from_str("4.4") {
            if self.four_four {
                Some(BackendSlot::FourFour)
            } else {
                None
            }
        } else {
            None
        }
    }

    /// The tags whose backend is configured, newest first.
    pub open spec fn spec_available(self) -> Seq<Seq<char>> {
        (if self.four_four {
            seq!["4.4"@]
        } else {
            Seq::<Seq<char>>::empty()
        }) + (if self.four_two {
            seq!["4.2"@]
        } else {
            Seq::<Seq<char>>::empty()
        }) + (if self.four_zero {
            seq!["4.0"@]
        } else {
            Seq::<Seq<char>>::empty()
        }) + (if self.three_six {
            seq!["3.6"@]
        } else {
            Seq::<Seq<char>>::empty()
        })
    }

    /// Exactly the version tags with a configured backend, newest first.
    pub fn available_versions(&self) -> (r: Vec<String>)
        ensures
            r@.map_values(|s: String| s@) == self.spec_available(),
    {
        let mut out: Vec<String> = Vec::new();
        if self.four_four {
            out.push(String::from_str("4.4"));
        }
        if self.four_two {
            out.push(String::from_str("4.2"));
        }
        if self.four_zero {
            out.push(String::from_str("4.0"));
        }
        if self.three_six {
            out.push(String::from_str("3.6"));
        }
        proof {
            assert(out@.map_values(|s: String| s@) =~= self.spec_available());
        }
        out
    }
}

} // verus!
