//! Build flavors.
//!
//! A build flavor combines product line and environment. It is one of a
//! closed set of five values, chosen when the application is built; the
//! launcher receives it as an explicit configuration value.

use vstd::prelude::*;

use crate::strutil::str_eq;

verus! {

/// The closed set of build flavors.
#[derive(Clone, Copy, Debug, PartialEq, Eq, Structural)]
pub enum BuildFlavor {
    ConsumerSandbox,
    ConsumerLive,
    WorkSandbox,
    WorkLive,
    WorkOnprem,
}

/// The identifier of a build flavor.
pub open spec fn spec_flavor_name(f: BuildFlavor) -> Seq<char> {
    match f {
        BuildFlavor::ConsumerSandbox => "consumer-sandbox"@,
        BuildFlavor::ConsumerLive => "consumer-live"@,
        BuildFlavor::WorkSandbox => "work-sandbox"@,
        BuildFlavor::WorkLive => "work-live"@,
        BuildFlavor::WorkOnprem => "work-onprem"@,
    }
}

/// The application name shipped under a build flavor.
pub open spec fn spec_app_name(f: BuildFlavor) -> Seq<char> {
    match f {
        BuildFlavor::ConsumerSandbox => "Threema Green Beta"@,
        BuildFlavor::ConsumerLive => "Threema Beta"@,
        BuildFlavor::WorkSandbox => "Threema Blue Beta"@,
        BuildFlavor::WorkLive => "Threema Work Beta"@,
        BuildFlavor::WorkOnprem => "Threema OnPrem Beta"@,
    }
}

impl BuildFlavor {
    /// The identifier of this build flavor, as used in directory names.
    pub fn name(&self) -> (r: String)
        ensures
            r@ == spec_flavor_name(*self),
    {
        match self {
            BuildFlavor::ConsumerSandbox => String::from_str("consumer-sandbox"),
            BuildFlavor::ConsumerLive => String::from_str("consumer-live"),
            BuildFlavor::WorkSandbox => String::from_str("work-sandbox"),
            BuildFlavor::WorkLive => String::from_str("work-live"),
            BuildFlavor::WorkOnprem => String::from_str("work-onprem"),
        }
    }

    /// The build flavor with the given identifier, if the identifier is one
    /// of the five valid ones.
    pub fn from_name(s: &str) -> (r: Option<BuildFlavor>)
        ensures
            match r {
                Some(f) => s@ == spec_flavor_name(f),
                None => forall|f: BuildFlavor| s@ != spec_flavor_name(f),
            },
    {
        if str_eq(s, "consumer-sandbox") {
            Some(BuildFlavor::ConsumerSandbox)
        } else if str_eq(s, "consumer-live") {
            Some(BuildFlavor::ConsumerLive)
        } else if str_eq(s, "work-sandbox") {
            Some(BuildFlavor::WorkSandbox)
        } else if str_eq(s, "work-live") {
            Some(BuildFlavor::WorkLive)
        } else if str_eq(s, "work-onprem") {
            Some(BuildFlavor::WorkOnprem)
        } else {
            proof {
                assert forall|f: BuildFlavor| s@ != spec_flavor_name(f) by {
                    match f {
                        BuildFlavor::ConsumerSandbox => assert(s@ != spec_flavor_name(f)),
                        BuildFlavor::ConsumerLive => assert(s@ != spec_flavor_name(f)),
                        BuildFlavor::WorkSandbox => assert(s@ != spec_flavor_name(f)),
                        BuildFlavor::WorkLive => assert(s@ != spec_flavor_name(f)),
                        BuildFlavor::WorkOnprem => assert(s@ != spec_flavor_name(f)),
                    }
                }
            }
            None
        }
    }
}

/// Determines the application name based on the build flavor.
pub fn determine_app_name(flavor: &BuildFlavor) -> (r: String)
    ensures
        r@ == spec_app_name(*flavor),
{
    match flavor {
        BuildFlavor::ConsumerSandbox => String::from_str("Threema Green Beta"),
        BuildFlavor::ConsumerLive => String::from_str("Threema Beta"),
        BuildFlavor::WorkSandbox => String::from_str("Threema Blue Beta"),
        BuildFlavor::WorkLive => String::from_str("Threema Work Beta"),
        BuildFlavor::WorkOnprem => String::from_str("Threema OnPrem Beta"),
    }
}

/// Determines the name of the supervised binary based on the operating
/// system identifier.
pub fn determine_binary_name(os: &str) -> (r: String)
    ensures
        os@ == "windows"@ ==> r@ == "ThreemaDesktop.exe"@,
        os@ != "windows"@ ==> r@ == "ThreemaDesktop"@,
{
    if str_eq(os, "windows") {
        String::from_str("ThreemaDesktop.exe")
    } else {
        String::from_str("ThreemaDesktop")
    }
}

} // verus!
