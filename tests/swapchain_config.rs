use rhenium::swapchain::{image_extent, min_image_count};
use rhenium::{Extent, SurfaceCapabilities, SwapchainConfig};

fn caps(min: u32, max: Option<u32>, extent: Option<(u32, u32)>) -> SurfaceCapabilities {
    SurfaceCapabilities {
        min_image_count: min,
        max_image_count: max,
        current_extent: extent.map(|(width, height)| Extent { width, height }),
    }
}

#[test]
fn unbounded_without_extent() {
    let c = SwapchainConfig::new(&caps(1, None, None));
    assert_eq!(c.min_image_count, 2);
    assert_eq!(c.image_extent, Extent { width: 640, height: 480 });
}

#[test]
fn bounded_with_extent() {
    let c = SwapchainConfig::new(&caps(3, Some(4), Some((1920, 1080))));
    assert_eq!(c.min_image_count, 3);
    assert_eq!(c.image_extent, Extent { width: 1920, height: 1080 });
}

#[test]
fn count_reaches_a_maximum_above_the_minimum() {
    assert_eq!(min_image_count(&caps(4, Some(4), None)), 4);
    assert_eq!(min_image_count(&caps(1, Some(4), None)), 2);
}

#[test]
fn count_raised_to_surface_minimum() {
    assert_eq!(min_image_count(&caps(5, None, None)), 5);
    assert_eq!(min_image_count(&caps(0, None, None)), 2);
    assert_eq!(min_image_count(&caps(2, Some(8), None)), 2);
}

#[test]
fn count_capped_by_surface_maximum() {
    assert_eq!(min_image_count(&caps(1, Some(1), None)), 1);
    assert_eq!(min_image_count(&caps(6, Some(3), None)), 3);
}

#[test]
fn count_within_bounds_for_finite_maximum() {
    for min in 0..6u32 {
        for max in 2..8u32 {
            let lower = min.max(2);
            if lower <= max {
                let r = min_image_count(&caps(min, Some(max), None));
                assert!(lower <= r && r <= max);
            }
        }
    }
}

#[test]
fn extent_comes_from_report_only() {
    assert_eq!(image_extent(&caps(1, None, Some((512, 512)))), Extent { width: 512, height: 512 });
    assert_eq!(image_extent(&caps(1, Some(3), None)), Extent { width: 640, height: 480 });
}
