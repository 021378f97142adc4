//! The choices that are made when the GPU is set up.

use vstd::prelude::*;

verus! {

/// The graphics backends to pick an adapter from.
#[derive(Debug, Clone, Copy, PartialEq, Eq, Structural)]
pub enum Backends {
    Vulkan,
    Metal,
    Dx12,
    Dx11,
    Gl,
    BrowserWebGpu,
    /// The backends that are supported best on their platforms.
    Primary,
}

/// The kind of adapter to prefer.
#[derive(Debug, Clone, Copy, PartialEq, Eq, Structural)]
pub enum PowerPreference {
    LowPower,
    HighPerformance,
}

/// The lower-case form of a string, as `str::to_lowercase` gives it.
pub uninterp spec fn lowercased(s: Seq<char>) -> Seq<char>;

/// The lower-case form of `s`.
///
/// Calls `str::to_lowercase`. Not proved: that the string returned is the
/// lower-case form that the name above stands for, which is to say that it
/// depends on the characters of `s` alone.
#[verifier::external_body]
fn to_lowercase(s: &str) -> (lower: String)
    ensures
        lower@ == lowercased(s@),
{
    s.to_lowercase()
}

/// The backends that go by a name in lower case.
pub open spec fn backends_named(lower: Seq<char>) -> Option<Backends> {
    if lower == "vulkan"@ {
        Some(Backends::Vulkan)
    } else if lower == "metal"@ {
        Some(Backends::Metal)
    } else if lower == "dx12"@ {
        Some(Backends::Dx12)
    } else if lower == "dx11"@ {
        Some(Backends::Dx11)
    } else if lower == "gl"@ {
        Some(Backends::Gl)
    } else if lower == "webgpu"@ {
        Some(Backends::BrowserWebGpu)
    } else {
        None
    }
}

/// The power preference that goes by a name in lower case.
pub open spec fn power_preference_named(lower: Seq<char>) -> Option<PowerPreference> {
    if lower == "low"@ {
        Some(PowerPreference::LowPower)
    } else if lower == "high"@ {
        Some(PowerPreference::HighPerformance)
    } else {
        None
    }
}

/// Whether `s` reads `word`.
fn reads(s: &String, word: &str) -> (same: bool)
    ensures
        same == (s@ == word@),
{
    let other = word.to_owned();
    *s == other
}

/// The backends to use, given what was asked for by name, if anything was:
/// the primary ones where nothing was asked for, the ones of that name,
/// whatever the case of its letters, where there are such, and `None` for a
/// name that is not known.
pub fn select_backends(requested: Option<&str>) -> (backends: Option<Backends>)
    ensures
        backends == match requested {
            Some(name) => backends_named(lowercased(name@)),
            None => Some(Backends::Primary),
        },
{
    match requested {
        Some(name) => {
            let lower = to_lowercase(name);
            if reads(&lower, "vulkan") {
                Some(Backends::Vulkan)
            } else if reads(&lower, "metal") {
                Some(Backends::Metal)
            } else if reads(&lower, "dx12") {
                Some(Backends::Dx12)
            } else if reads(&lower, "dx11") {
                Some(Backends::Dx11)
            } else if reads(&lower, "gl") {
                Some(Backends::Gl)
            } else if reads(&lower, "webgpu") {
                Some(Backends::BrowserWebGpu)
            } else {
                None
            }
        },
        None => Some(Backends::Primary),
    }
}

/// The power preference to use, given what was asked for by name, if
/// anything was: `default` where nothing was asked for, and `None` for a
/// name that is not known.
pub fn select_power_preference(requested: Option<&str>, default: PowerPreference) -> (preference:
    Option<PowerPreference>)
    ensures
        preference == match requested {
            Some(name) => power_preference_named(lowercased(name@)),
            None => Some(default),
        },
{
    match requested {
        Some(name) => {
            let lower = to_lowercase(name);
            if reads(&lower, "low") {
                Some(PowerPreference::LowPower)
            } else if reads(&lower, "high") {
                Some(PowerPreference::HighPerformance)
            } else {
                None
            }
        },
        None => Some(default),
    }
}

/// The features to ask a device for, as bit sets: the required ones, and
/// those of the optional ones that the adapter has. `None` where the
/// adapter lacks a required one.
pub fn select_features(optional: u64, required: u64, adapter: u64) -> (features: Option<u64>)
    ensures
        features == if adapter & required == required {
            Some((optional & adapter) | required)
        } else {
            None
        },
{
    if adapter & required == required {
        Some((optional & adapter) | required)
    } else {
        None
    }
}

} // verus!
