use rhenium::device::DeviceRequest;
use rhenium::{DeviceInfo, DeviceType, PhysicalDeviceSummary};

fn summary(device_type: DeviceType, graphics_families: Vec<bool>) -> PhysicalDeviceSummary {
    PhysicalDeviceSummary { device_type, graphics_families }
}

fn blank(index: usize) -> DeviceInfo {
    DeviceInfo { index, queue_index: 0, discrete: false, memory: 0, score: 0 }
}

#[test]
fn discrete_beats_integrated() {
    let devices = vec![
        summary(DeviceType::IntegratedGpu, vec![true]),
        summary(DeviceType::DiscreteGpu, vec![true]),
    ];
    let best = DeviceInfo::new(&devices);
    assert_eq!(best.index, 1);
    assert!(best.discrete);
    assert_eq!(best.score, 100);
    assert_eq!(best.queue_index, 0);
}

#[test]
fn discrete_first_is_kept() {
    let devices = vec![
        summary(DeviceType::DiscreteGpu, vec![true]),
        summary(DeviceType::IntegratedGpu, vec![true]),
    ];
    let best = DeviceInfo::new(&devices);
    assert_eq!(best.index, 0);
    assert!(best.discrete);
    assert_eq!(best.score, 100);
}

#[test]
fn ties_go_to_the_first_enumerated() {
    let devices = vec![
        summary(DeviceType::VirtualGpu, vec![false]),
        summary(DeviceType::IntegratedGpu, vec![false, true]),
        summary(DeviceType::IntegratedGpu, vec![true]),
    ];
    let best = DeviceInfo::new(&devices);
    assert_eq!(best.index, 1);
    assert_eq!(best.queue_index, 1);
    assert_eq!(best.score, 10);
}

#[test]
fn empty_list_gives_default_candidate() {
    let devices: Vec<PhysicalDeviceSummary> = Vec::new();
    assert_eq!(DeviceInfo::new(&devices), blank(0));
}

#[test]
fn zero_scores_give_first_device() {
    let devices = vec![
        summary(DeviceType::Cpu, vec![false, true]),
        summary(DeviceType::Other, vec![true]),
    ];
    let best = DeviceInfo::new(&devices);
    assert_eq!(best, DeviceInfo { index: 0, queue_index: 1, discrete: false, memory: 0, score: 0 });
}

#[test]
fn single_cpu_device_is_selected_with_its_family() {
    let devices = vec![summary(DeviceType::Cpu, vec![false, true])];
    let best = DeviceInfo::new(&devices);
    assert_eq!(best.index, 0);
    assert_eq!(best.queue_index, 1);
    assert_eq!(best.score, 0);
    assert!(!best.discrete);
}

#[test]
fn zero_score_tie_goes_to_first_enumerated() {
    let devices = vec![
        summary(DeviceType::Other, vec![false]),
        summary(DeviceType::Cpu, vec![true]),
    ];
    let best = DeviceInfo::new(&devices);
    assert_eq!(best, DeviceInfo { index: 0, queue_index: 0, discrete: false, memory: 0, score: 0 });
}

#[test]
fn no_graphics_family_gives_queue_zero() {
    let devices = vec![
        summary(DeviceType::IntegratedGpu, vec![false, false]),
        summary(DeviceType::DiscreteGpu, vec![false, false, false]),
    ];
    let best = DeviceInfo::new(&devices);
    assert_eq!(best.index, 1);
    assert_eq!(best.queue_index, 0);
}

#[test]
fn base_scores_by_type() {
    let cases = [
        (DeviceType::DiscreteGpu, 100, true),
        (DeviceType::IntegratedGpu, 10, false),
        (DeviceType::VirtualGpu, 1, false),
        (DeviceType::Cpu, 0, false),
        (DeviceType::Other, 0, false),
    ];
    for (t, score, discrete) in cases {
        let mut d = blank(3);
        DeviceInfo::compute_base_score(&mut d, t);
        assert_eq!(d.score, score);
        assert_eq!(d.discrete, discrete);
        assert_eq!(d.index, 3);
    }
}

#[test]
fn base_score_adds_to_existing() {
    let mut d = DeviceInfo { index: 0, queue_index: 0, discrete: true, memory: 0, score: 5 };
    DeviceInfo::compute_base_score(&mut d, DeviceType::IntegratedGpu);
    assert_eq!(d.score, 15);
    assert!(!d.discrete);
}

#[test]
fn memory_score_is_zero() {
    let mut d = DeviceInfo { index: 2, queue_index: 1, discrete: true, memory: 7, score: 100 };
    DeviceInfo::compute_memory_score(&mut d);
    assert_eq!(d, DeviceInfo { index: 2, queue_index: 1, discrete: true, memory: 0, score: 100 });
}

#[test]
fn first_graphics_family_is_taken() {
    let mut d = blank(0);
    DeviceInfo::find_queue_families(&mut d, &vec![false, false, true, true]);
    assert_eq!(d.queue_index, 2);
}

#[test]
fn queue_index_kept_without_graphics() {
    let mut d = DeviceInfo { index: 0, queue_index: 4, discrete: false, memory: 0, score: 0 };
    DeviceInfo::find_queue_families(&mut d, &vec![false, false]);
    assert_eq!(d.queue_index, 4);
    DeviceInfo::find_queue_families(&mut d, &Vec::new());
    assert_eq!(d.queue_index, 4);
}

#[test]
fn device_request_has_one_queue() {
    let d = DeviceInfo { index: 1, queue_index: 3, discrete: true, memory: 0, score: 100 };
    assert_eq!(
        d.device_request(),
        Some(DeviceRequest { physical_index: 1, queue_family_index: 3, queue_count: 1, swapchain_extension: true })
    );
}

#[test]
fn device_request_rejects_wide_family_index() {
    let d = DeviceInfo { index: 0, queue_index: (u32::MAX as usize) + 1, discrete: false, memory: 0, score: 0 };
    assert_eq!(d.device_request(), None);
}
