use drm_fourcc::{DrmFourcc, DrmModifier};
use smallvil::formats::{
    color_formats, get_surface_dmabuf_feedback, includes, intersection, union, usable_formats,
    Format, ABGR2101010, ABGR8888, ARGB2101010, ARGB8888, LINEAR,
};

fn format(code: u32, modifier: u64) -> Format {
    Format { code, modifier }
}

#[test]
fn format_codes() {
    assert_eq!(ABGR2101010, DrmFourcc::Abgr2101010 as u32);
    assert_eq!(ARGB2101010, DrmFourcc::Argb2101010 as u32);
    assert_eq!(ABGR8888, DrmFourcc::Abgr8888 as u32);
    assert_eq!(ARGB8888, DrmFourcc::Argb8888 as u32);
    assert_eq!(LINEAR, u64::from(DrmModifier::Linear));
}

#[test]
fn ten_bits_are_preferred() {
    assert_eq!(color_formats(false), vec![ABGR2101010, ARGB2101010, ABGR8888, ARGB8888]);
    assert_eq!(color_formats(true), vec![ABGR8888, ARGB8888]);
}

#[test]
fn union_keeps_each_format_once() {
    let first = vec![format(1, 0), format(2, 0), format(1, 0)];
    let second = vec![format(2, 0), format(3, 5), format(3, 6)];
    assert_eq!(
        union(&first, &second),
        vec![format(1, 0), format(2, 0), format(3, 5), format(3, 6)]
    );
    assert_eq!(union(&Vec::new(), &Vec::new()), Vec::new());
}

#[test]
fn intersection_keeps_what_both_have() {
    let first = vec![format(1, 0), format(2, 0), format(3, 0)];
    let second = vec![format(3, 0), format(2, 1), format(1, 0)];
    assert_eq!(intersection(&first, &second), vec![format(1, 0), format(3, 0)]);
    assert!(includes(&first, format(2, 0)));
    assert!(!includes(&first, format(2, 1)));
}

#[test]
fn without_render_node_only_linear_formats() {
    let formats = vec![format(1, LINEAR), format(1, 9), format(2, LINEAR)];
    assert_eq!(usable_formats(&formats, true), formats);
    assert_eq!(
        usable_formats(&formats, false),
        vec![format(1, LINEAR), format(2, LINEAR)]
    );
}

#[test]
fn feedback_with_render_node() {
    let feedback = get_surface_dmabuf_feedback(
        10,
        Some(20),
        30,
        40,
        Some(vec![format(1, 0)]),
        Some(vec![format(2, 0)]),
        &vec![format(2, 0), format(9, 0)],
        &vec![format(1, 0), format(2, 0)],
    )
    .unwrap();
    assert_eq!(feedback.main_device, 10);
    assert_eq!(feedback.main_formats, vec![format(1, 0)]);
    assert_eq!(feedback.render_feedback.len(), 1);
    assert_eq!(feedback.render_feedback[0].device, 20);
    assert!(!feedback.render_feedback[0].scanout);
    assert_eq!(feedback.render_feedback[0].formats, vec![format(2, 0)]);
    assert_eq!(feedback.scanout_feedback.len(), 2);
    assert_eq!(feedback.scanout_feedback[0].device, 40);
    assert!(feedback.scanout_feedback[0].scanout);
    assert_eq!(feedback.scanout_feedback[0].formats, vec![format(2, 0), format(1, 0)]);
    assert_eq!(feedback.scanout_feedback[1].device, 30);
    assert!(!feedback.scanout_feedback[1].scanout);
    assert_eq!(feedback.scanout_feedback[1].formats, vec![format(2, 0)]);
}

#[test]
fn feedback_without_render_node() {
    let feedback = get_surface_dmabuf_feedback(
        10,
        None,
        30,
        40,
        Some(vec![format(1, 0)]),
        None,
        &vec![format(1, 0), format(2, 0)],
        &Vec::new(),
    )
    .unwrap();
    assert!(feedback.render_feedback.is_empty());
    assert_eq!(feedback.scanout_feedback[0].formats, vec![format(1, 0)]);
    assert!(feedback.scanout_feedback[1].formats.is_empty());
}

#[test]
fn no_feedback_without_renderers() {
    let planes = vec![format(1, 0)];
    let none = get_surface_dmabuf_feedback(10, None, 30, 40, None, None, &planes, &planes);
    assert!(none.is_none());
    let none = get_surface_dmabuf_feedback(
        10,
        Some(20),
        30,
        40,
        Some(vec![format(1, 0)]),
        None,
        &planes,
        &planes,
    );
    assert!(none.is_none());
}
