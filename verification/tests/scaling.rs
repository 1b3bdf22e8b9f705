use ticket_print::scaling::{render_size, RenderSize, STRIP_WIDTH};

#[test]
fn strip_width_is_280_hundredths_of_an_inch() {
    assert_eq!(STRIP_WIDTH, 280);
}

#[test]
fn portrait_image_is_scaled_by_the_width_ratio() {
    assert_eq!(render_size(100, 200), Some(RenderSize { width: 280, height: 560 }));
}

#[test]
fn image_of_strip_width_keeps_its_height() {
    assert_eq!(render_size(280, 1234), Some(RenderSize { width: 280, height: 1234 }));
}

#[test]
fn height_is_rounded_down() {
    assert_eq!(render_size(3, 1), Some(RenderSize { width: 280, height: 93 }));
    assert_eq!(render_size(576, 1), Some(RenderSize { width: 280, height: 0 }));
    assert_eq!(render_size(576, 1000), Some(RenderSize { width: 280, height: 486 }));
}

#[test]
fn image_without_height_has_none_after_scaling() {
    assert_eq!(render_size(640, 0), Some(RenderSize { width: 280, height: 0 }));
}

#[test]
fn image_without_width_has_no_render_size() {
    assert_eq!(render_size(0, 0), None);
    assert_eq!(render_size(0, 480), None);
}

#[test]
fn largest_image_does_not_overflow() {
    assert_eq!(
        render_size(1, u32::MAX),
        Some(RenderSize { width: 280, height: 280 * 4_294_967_295u64 })
    );
    assert_eq!(render_size(u32::MAX, u32::MAX), Some(RenderSize { width: 280, height: 280 }));
}

#[test]
fn aspect_ratio_is_kept_within_one_unit() {
    for width in [1u32, 2, 7, 100, 279, 280, 281, 384, 576, 4096] {
        for height in [0u32, 1, 5, 99, 280, 1000, 65_535] {
            let size = render_size(width, height).unwrap();
            assert_eq!(size.width, 280);
            let exact = 280u64 * height as u64;
            assert!(size.height * width as u64 <= exact);
            assert!(exact < (size.height + 1) * width as u64);
        }
    }
}
