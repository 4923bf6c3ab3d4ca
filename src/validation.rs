//! Which diagnostic layers the instance is created with, and the parameters
//! of instance creation.

use vstd::prelude::*;

verus! {

/// A `(major, minor, patch)` version triple.
#[derive(Clone, Copy, Debug, PartialEq, Eq, Structural)]
pub struct Version {
    pub major: u32,
    pub minor: u32,
    pub patch: u32,
}

/// The diagnostic layers wanted, and whether diagnostics are on in this build.
#[derive(Debug)]
pub struct ValidationConfig {
    pub requested: Vec<String>,
    pub enabled: bool,
}

/// How negotiation ended.
#[derive(Clone, Copy, Debug, PartialEq, Eq, Structural)]
pub enum LayerOutcome {
    /// Diagnostics are off: no layer is enabled and none was looked up.
    Disabled,
    /// Diagnostics are on but a requested layer is missing: no layer is
    /// enabled, and the instance is created without diagnostics.
    Unavailable,
    /// Every requested layer is present and all of them are enabled.
    Accepted,
}

/// The layers to enable, with the reason.
#[derive(Debug)]
pub struct LayerDecision {
    pub layers: Vec<String>,
    pub outcome: LayerOutcome,
}

/// Parameters of instance creation.
#[derive(Debug)]
pub struct InstanceSettings {
    pub application_name: String,
    pub application_version: Version,
    pub engine_name: String,
    pub engine_version: Version,
    pub enabled_layers: Vec<String>,
    /// Also enumerate devices whose drivers implement a subset of the API.
    pub enumerate_portability: bool,
}

/// `name` is one of the names in `available`.
pub open spec fn is_available(name: Seq<char>, available: Seq<String>) -> bool {
    exists|j: int| 0 <= j < available.len() && (#[trigger] available[j])@ == name
}

/// Every requested name is available (a subset test).
pub open spec fn all_available(requested: Seq<String>, available: Seq<String>) -> bool {
    forall|i: int| 0 <= i < requested.len() ==> is_available((#[trigger] requested[i])@, available)
}

pub open spec fn outcome_of(enabled: bool, requested: Seq<String>, available: Seq<String>) -> LayerOutcome {
    if !enabled {
        LayerOutcome::Disabled
    } else if all_available(requested, available) {
        LayerOutcome::Accepted
    } else {
        LayerOutcome::Unavailable
    }
}

/// Whether `name` occurs in `available`.
pub fn layer_available(name: &String, available: &Vec<String>) -> (r: bool)
    ensures
        r == is_available(name@, available@),
{
    let n = available.len();
    let mut j: usize = 0;
    while j < n
        invariant
            n == available@.len(),
            0 <= j <= n,
            forall|k: int| 0 <= k < j ==> available@[k]@ != name@,
        decreases n - j,
    {
        if available[j] == *name {
            return true;
        }
        j = j + 1;
    }
    false
}

/// Whether every layer in `layers` occurs in `available`.
pub fn validation_layers_available(layers: &Vec<String>, available: &Vec<String>) -> (r: bool)
    ensures
        r == all_available(layers@, available@),
{
    let n = layers.len();
    let mut i: usize = 0;
    while i < n
        invariant
            n == layers@.len(),
            0 <= i <= n,
            forall|k: int| 0 <= k < i ==> is_available((#[trigger] layers@[k])@, available@),
        decreases n - i,
    {
        if !layer_available(&layers[i], available) {
            return false;
        }
        i = i + 1;
    }
    true
}

impl ValidationConfig {
    /// The standard validation layer, with diagnostics on or off.
    pub fn standard(enabled: bool) -> (r: ValidationConfig)
        ensures
            r.enabled == enabled,
            r.requested@.len() == 1,
            r.requested@[0]@ == "VK_LAYER_KHRONOS_validation"@,
    {
        let mut requested: Vec<String> = Vec::new();
        requested.push(String::from_str("VK_LAYER_KHRONOS_validation"));
        ValidationConfig { requested, enabled }
    }

    /// The layers to enable given those the library reports. With diagnostics
    /// off the list is empty whatever is available; with them on it is the
    /// requested list when every requested layer is available, else empty.
    pub fn negotiate(self, available: &Vec<String>) -> (r: LayerDecision)
        ensures
            r.outcome == outcome_of(self.enabled, self.requested@, available@),
            r.outcome == LayerOutcome::Accepted ==> r.layers@ == self.requested@,
            r.outcome != LayerOutcome::Accepted ==> r.layers@.len() == 0,
            !self.enabled ==> r.layers@.len() == 0,
    {
        if !self.enabled {
            return LayerDecision { layers: Vec::new(), outcome: LayerOutcome::Disabled };
        }
        if validation_layers_available(&self.requested, available) {
            LayerDecision { layers: self.requested, outcome: LayerOutcome::Accepted }
        } else {
            LayerDecision { layers: Vec::new(), outcome: LayerOutcome::Unavailable }
        }
    }
}

impl LayerDecision {
    /// A diagnostic-message subscription is made only when the layers were
    /// accepted.
    pub fn subscribe_diagnostics(&self) -> (r: bool)
        ensures
            r == (self.outcome == LayerOutcome::Accepted),
    {
        self.outcome == LayerOutcome::Accepted
    }
}

impl InstanceSettings {
    /// The application's name and version as given, the engine's fixed name
    /// and version 1.0.0, the negotiated layers, and portability enumeration on.
    pub fn new(application_name: String, application_version: Version, layers: Vec<String>) -> (r: InstanceSettings)
        ensures
            r.application_name == application_name,
            r.application_version == application_version,
            r.engine_name@ == "RustyBear-Engine"@,
            r.engine_version == (Version { major: 1, minor: 0, patch: 0 }),
            r.enabled_layers == layers,
            r.enumerate_portability,
    {
        InstanceSettings {
            application_name,
            application_version,
            engine_name: String::from_str("RustyBear-Engine"),
            engine_version: Version { major: 1, minor: 0, patch: 0 },
            enabled_layers: layers,
            enumerate_portability: true,
        }
    }
}

} // verus!
