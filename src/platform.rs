//! The platform query answered to the embedded front end.
use vstd::prelude::*;

verus! {

/// The label answered for a target operating system name (as Rust spells
/// `target_os`): the three supported systems answer their own name, every
/// other target answers `"unknown"`.
pub open spec fn platform_label(target_os: Seq<char>) -> Seq<char> {
    if target_os == "windows"@ {
        "windows"@
    } else if target_os == "macos"@ {
        "macos"@
    } else if target_os == "linux"@ {
        "linux"@
    } else {
        "unknown"@
    }
}

/// Whether `label` is one of the labels the query can answer.
pub open spec fn is_platform_label(label: Seq<char>) -> bool {
    label == "windows"@ || label == "macos"@ || label == "linux"@ || label == "unknown"@
}

/// The platform label for the target operating system `target_os`, which the
/// caller takes from the build's target configuration.
pub fn get_platform(target_os: &str) -> (r: String)
    ensures
        r@ == platform_label(target_os@),
        is_platform_label(r@),
{
    let os = target_os.to_owned();
    if os == "windows".to_owned() {
        "windows".to_owned()
    } else if os == "macos".to_owned() {
        "macos".to_owned()
    } else if os == "linux".to_owned() {
        "linux".to_owned()
    } else {
        "unknown".to_owned()
    }
}

} // verus!
