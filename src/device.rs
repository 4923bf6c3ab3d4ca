//! Scoring of physical devices, choice of a graphics queue family, and
//! selection of the device to open.

use vstd::prelude::*;

verus! {

/// The kind of a physical device, as the driver reports it.
#[derive(Clone, Copy, Debug, PartialEq, Eq, Structural)]
pub enum DeviceType {
    DiscreteGpu,
    IntegratedGpu,
    VirtualGpu,
    Cpu,
    Other,
}

/// What selection reads of one enumerated physical device: its kind, and for
/// each of its queue families in order whether that family supports graphics.
#[derive(Debug)]
pub struct PhysicalDeviceSummary {
    pub device_type: DeviceType,
    pub graphics_families: Vec<bool>,
}

/// A scored device candidate; the winner of selection is the device to open.
#[derive(Clone, Copy, Debug, PartialEq, Eq, Structural)]
pub struct DeviceInfo {
    /// Position of the device in the enumeration order.
    pub index: usize,
    /// Queue family to create the queue from.
    pub queue_index: usize,
    pub discrete: bool,
    pub memory: u32,
    pub score: u32,
}

/// What to ask of the driver when opening the selected device.
#[derive(Clone, Copy, Debug, PartialEq, Eq, Structural)]
pub struct DeviceRequest {
    pub physical_index: usize,
    pub queue_family_index: u32,
    pub queue_count: u32,
    pub swapchain_extension: bool,
}

pub open spec fn type_score(t: DeviceType) -> u32 {
    match t {
        DeviceType::DiscreteGpu => 100,
        DeviceType::IntegratedGpu => 10,
        DeviceType::VirtualGpu => 1,
        _ => 0,
    }
}

/// Memory does not enter into the score yet.
pub open spec fn memory_score() -> u32 {
    0
}

/// Index of the first family at or after `from` that supports graphics, or 0
/// when there is none.
pub open spec fn first_graphics_from(flags: Seq<bool>, from: int) -> int
    decreases flags.len() - from,
{
    if from < 0 || from >= flags.len() {
        0
    } else if flags[from] {
        from
    } else {
        first_graphics_from(flags, from + 1)
    }
}

pub open spec fn has_graphics(flags: Seq<bool>) -> bool {
    exists|i: int| 0 <= i < flags.len() && flags[i]
}

/// The queue family chosen for a device: the first one with graphics, else 0.
pub open spec fn graphics_family(flags: Seq<bool>) -> int {
    first_graphics_from(flags, 0)
}

pub open spec fn default_info() -> DeviceInfo {
    DeviceInfo { index: 0, queue_index: 0, discrete: false, memory: 0, score: 0 }
}

/// The candidate that the device at position `pos` becomes.
pub open spec fn candidate_of(d: PhysicalDeviceSummary, pos: int) -> DeviceInfo {
    DeviceInfo {
        index: pos as usize,
        queue_index: graphics_family(d.graphics_families@) as usize,
        discrete: d.device_type == DeviceType::DiscreteGpu,
        memory: memory_score(),
        score: (type_score(d.device_type) + memory_score()) as u32,
    }
}

pub open spec fn score_of(d: PhysicalDeviceSummary) -> u32 {
    (type_score(d.device_type) + memory_score()) as u32
}

/// The best of the first `n` candidates: a left-to-right fold that starts
/// from the first candidate and replaces the current best only on a strictly
/// greater score. With no candidate it is the default record.
pub open spec fn best_of(devices: Seq<PhysicalDeviceSummary>, n: int) -> DeviceInfo
    decreases n,
{
    if n <= 0 {
        default_info()
    } else if n == 1 {
        candidate_of(devices[0], 0)
    } else {
        let prev = best_of(devices, n - 1);
        let c = candidate_of(devices[n - 1], n - 1);
        if c.score > prev.score {
            c
        } else {
            prev
        }
    }
}

pub open spec fn selection(devices: Seq<PhysicalDeviceSummary>) -> DeviceInfo {
    best_of(devices, devices.len() as int)
}

impl DeviceInfo {
    /// Adds the score of the device's kind and records whether it is discrete.
    pub fn compute_base_score(device: &mut DeviceInfo, device_type: DeviceType)
        requires
            old(device).score + type_score(device_type) <= u32::MAX,
        ensures
            final(device).score == old(device).score + type_score(device_type),
            final(device).discrete == (device_type == DeviceType::DiscreteGpu),
            final(device).index == old(device).index,
            final(device).queue_index == old(device).queue_index,
            final(device).memory == old(device).memory,
    {
        match device_type {
            DeviceType::DiscreteGpu => {
                device.score = device.score + 100;
                device.discrete = true;
            },
            DeviceType::IntegratedGpu => {
                device.score = device.score + 10;
                device.discrete = false;
            },
            DeviceType::VirtualGpu => {
                device.score = device.score + 1;
                device.discrete = false;
            },
            DeviceType::Cpu | DeviceType::Other => {
                device.discrete = false;
            },
        }
    }

    /// Records the memory score, which is 0 for every device for now.
    pub fn compute_memory_score(device: &mut DeviceInfo)
        ensures
            *final(device) == (DeviceInfo { memory: memory_score(), ..*old(device) }),
    {
        device.memory = 0;
    }

    /// Takes the first queue family that supports graphics; when none does,
    /// the queue index is left as it was.
    pub fn find_queue_families(device: &mut DeviceInfo, graphics_families: &Vec<bool>)
        ensures
            has_graphics(graphics_families@) ==> *final(device) == (DeviceInfo {
                queue_index: graphics_family(graphics_families@) as usize,
                ..*old(device)
            }),
            !has_graphics(graphics_families@) ==> *final(device) == *old(device),
    {
        let n = graphics_families.len();
        let mut i: usize = 0;
        while i < n
            invariant
                n == graphics_families@.len(),
                0 <= i <= n,
                *device == *old(device),
                forall|j: int| 0 <= j < i ==> !graphics_families@[j],
                graphics_family(graphics_families@) == first_graphics_from(graphics_families@, i as int),
            decreases n - i,
        {
            if graphics_families[i] {
                device.queue_index = i;
                return;
            }
            i = i + 1;
        }
    }

    /// Scores every device in enumeration order and keeps the first one with
    /// the greatest score; with no device the result is the default record
    /// (index 0, queue family 0, score 0).
    pub fn new(devices: &Vec<PhysicalDeviceSummary>) -> (r: DeviceInfo)
        ensures
            r == selection(devices@),
    {
        let mut best = DeviceInfo { index: 0, queue_index: 0, discrete: false, memory: 0, score: 0 };
        let n = devices.len();
        let mut pos: usize = 0;
        while pos < n
            invariant
                n == devices@.len(),
                0 <= pos <= n,
                best == best_of(devices@, pos as int),
                best.score <= 100,
            decreases n - pos,
        {
            let dev = &devices[pos];
            let mut device = DeviceInfo { index: pos, queue_index: 0, discrete: false, memory: 0, score: 0 };
            Self::compute_base_score(&mut device, dev.device_type);
            Self::compute_memory_score(&mut device);
            Self::find_queue_families(&mut device, &dev.graphics_families);
            proof {
                lemma_first_graphics(dev.graphics_families@);
            }
            assert(device == candidate_of(devices@[pos as int], pos as int));
            if pos == 0 || device.score > best.score {
                best = device;
            }
            pos = pos + 1;
        }
        best
    }

    /// The device-opening request: one queue from the chosen family, with the
    /// swapchain extension. `None` when the family index does not fit in `u32`.
    pub fn device_request(&self) -> (r: Option<DeviceRequest>)
        ensures
            r == (if self.queue_index <= u32::MAX {
                Some(DeviceRequest {
                    physical_index: self.index,
                    queue_family_index: self.queue_index as u32,
                    queue_count: 1,
                    swapchain_extension: true,
                })
            } else {
                None
            }),
    {
        if self.queue_index <= u32::MAX as usize {
            Some(DeviceRequest {
                physical_index: self.index,
                queue_family_index: self.queue_index as u32,
                queue_count: 1,
                swapchain_extension: true,
            })
        } else {
            None
        }
    }
}

/// The chosen family is the first with graphics when one has it, and 0 when
/// none has.
pub proof fn lemma_first_graphics(flags: Seq<bool>)
    ensures
        has_graphics(flags) ==> {
            let q = graphics_family(flags);
            &&& 0 <= q < flags.len()
            &&& flags[q]
            &&& forall|j: int| 0 <= j < q ==> !flags[j]
        },
        !has_graphics(flags) ==> graphics_family(flags) == 0,
{
    lemma_first_graphics_from(flags, 0);
}

proof fn lemma_first_graphics_from(flags: Seq<bool>, from: int)
    requires
        0 <= from <= flags.len(),
    ensures
        (exists|i: int| from <= i < flags.len() && flags[i]) ==> {
            let q = first_graphics_from(flags, from);
            &&& from <= q < flags.len()
            &&& flags[q]
            &&& forall|j: int| from <= j < q ==> !flags[j]
        },
        !(exists|i: int| from <= i < flags.len() && flags[i]) ==> first_graphics_from(flags, from) == 0,
    decreases flags.len() - from,
{
    if from < flags.len() {
        lemma_first_graphics_from(flags, from + 1);
        if !flags[from] {
            if exists|i: int| from <= i < flags.len() && flags[i] {
                let i = choose|i: int| from <= i < flags.len() && flags[i];
                assert(from + 1 <= i);
            }
        }
    }
}

/// Selection picks a candidate of greatest score, and among those the one
/// enumerated first: no device scores higher than the result, the result is
/// the candidate of the device at its index, and every device before it
/// scores strictly lower. Only an empty list gives the default record.
pub proof fn lemma_selection_is_earliest_maximum(devices: Seq<PhysicalDeviceSummary>)
    requires
        devices.len() <= usize::MAX,
    ensures
        forall|i: int| 0 <= i < devices.len() ==> score_of(#[trigger] devices[i]) <= selection(devices).score,
        devices.len() == 0 ==> selection(devices) == default_info(),
        devices.len() > 0 ==> {
            let r = selection(devices);
            &&& r.index < devices.len()
            &&& r == candidate_of(devices[r.index as int], r.index as int)
            &&& score_of(devices[r.index as int]) == r.score
            &&& forall|j: int| 0 <= j < r.index ==> score_of(#[trigger] devices[j]) < r.score
        },
{
    lemma_best_of_prefix(devices, devices.len() as int);
}

proof fn lemma_best_of_prefix(devices: Seq<PhysicalDeviceSummary>, n: int)
    requires
        0 <= n <= devices.len() <= usize::MAX,
    ensures
        forall|i: int| 0 <= i < n ==> score_of(#[trigger] devices[i]) <= best_of(devices, n).score,
        n > 0 ==> {
            let r = best_of(devices, n);
            &&& r.index < n
            &&& r == candidate_of(devices[r.index as int], r.index as int)
            &&& score_of(devices[r.index as int]) == r.score
            &&& forall|j: int| 0 <= j < r.index ==> score_of(#[trigger] devices[j]) < r.score
        },
        n == 0 ==> best_of(devices, n) == default_info(),
    decreases n,
{
    if n > 0 {
        lemma_best_of_prefix(devices, n - 1);
        let prev = best_of(devices, n - 1);
        let c = candidate_of(devices[n - 1], n - 1);
        assert(c.index == n - 1);
        assert(c.score == score_of(devices[n - 1]));
        if n - 1 > 0 {
            assert(prev.index < n - 1);
        }
    }
}

/// When no device has a queue family with graphics, the selected queue
/// family index is 0.
pub proof fn lemma_no_graphics_selects_family_zero(devices: Seq<PhysicalDeviceSummary>)
    requires
        forall|i: int| 0 <= i < devices.len() ==> !has_graphics(#[trigger] devices[i].graphics_families@),
    ensures
        selection(devices).queue_index == 0,
{
    lemma_no_graphics_prefix(devices, devices.len() as int);
}

proof fn lemma_no_graphics_prefix(devices: Seq<PhysicalDeviceSummary>, n: int)
    requires
        0 <= n <= devices.len(),
        forall|i: int| 0 <= i < devices.len() ==> !has_graphics(#[trigger] devices[i].graphics_families@),
    ensures
        best_of(devices, n).queue_index == 0,
    decreases n,
{
    if n > 0 {
        lemma_no_graphics_prefix(devices, n - 1);
        lemma_first_graphics(devices[n - 1].graphics_families@);
    }
}

} // verus!
