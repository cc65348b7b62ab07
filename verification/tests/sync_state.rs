use render_core::sync_state::{
    ImageLayout, ImageLayoutState, ACCESS_COLOR_ATTACHMENT_WRITE, ACCESS_MEMORY_READ,
    ACCESS_MEMORY_WRITE, ACCESS_TRANSFER_READ, ACCESS_TRANSFER_WRITE, QUEUE_FAMILY_IGNORED,
    STAGE_ALL_COMMANDS, STAGE_COLOR_ATTACHMENT_OUTPUT, STAGE_TRANSFER,
};

fn state(access: u64, layout: ImageLayout, stage: u64, queue_family: u32) -> ImageLayoutState {
    ImageLayoutState { access, layout, stage, queue_family }
}

/// Reference form of the subset relation, written independently.
fn subset_reference(a: &ImageLayoutState, b: &ImageLayoutState) -> bool {
    a.layout == b.layout
        && (a.access & b.access) == a.access
        && (a.stage & b.stage) == a.stage
        && (a.queue_family == QUEUE_FAMILY_IGNORED || a.queue_family == b.queue_family)
}

#[test]
fn subset_relation_over_flag_combinations() {
    let accesses = [
        0u64,
        ACCESS_COLOR_ATTACHMENT_WRITE,
        ACCESS_TRANSFER_READ,
        ACCESS_TRANSFER_READ | ACCESS_TRANSFER_WRITE,
        ACCESS_MEMORY_READ | ACCESS_MEMORY_WRITE,
    ];
    let stages = [
        0u64,
        STAGE_TRANSFER,
        STAGE_COLOR_ATTACHMENT_OUTPUT,
        STAGE_TRANSFER | STAGE_COLOR_ATTACHMENT_OUTPUT,
        STAGE_ALL_COMMANDS,
    ];
    let layouts = [ImageLayout::General, ImageLayout::TransferSrcOptimal];
    let families = [QUEUE_FAMILY_IGNORED, 0u32, 1u32];

    let mut checked = 0u32;
    for &aa in &accesses {
        for &ab in &accesses {
            for &sa in &stages {
                for &sb in &stages {
                    for &la in &layouts {
                        for &lb in &layouts {
                            for &qa in &families {
                                for &qb in &families {
                                    let a = state(aa, la, sa, qa);
                                    let b = state(ab, lb, sb, qb);
                                    assert_eq!(
                                        a.is_subset_of(b),
                                        subset_reference(&a, &b),
                                        "subset mismatch for {:?} vs {:?}",
                                        a,
                                        b
                                    );
                                    checked += 1;
                                }
                            }
                        }
                    }
                }
            }
        }
    }
    assert_eq!(checked, 5 * 5 * 5 * 5 * 2 * 2 * 3 * 3);
}

#[test]
fn subset_is_reflexive() {
    let states = [
        ImageLayoutState::ignored(),
        ImageLayoutState::color_attachment(),
        ImageLayoutState::depth_stencil_attachment(),
        ImageLayoutState::present(),
        ImageLayoutState::transfer_destination(),
        ImageLayoutState::transfer_source(),
        ImageLayoutState::shader_read(),
        ImageLayoutState::default(),
    ];
    for s in &states {
        assert!(s.is_subset_of(*s), "{:?} not a subset of itself", s);
    }
}

#[test]
fn subset_requires_equal_layouts() {
    let a = state(0, ImageLayout::TransferSrcOptimal, 0, QUEUE_FAMILY_IGNORED);
    let b = state(
        ACCESS_MEMORY_READ | ACCESS_MEMORY_WRITE,
        ImageLayout::General,
        STAGE_ALL_COMMANDS,
        QUEUE_FAMILY_IGNORED,
    );
    assert!(!a.is_subset_of(b));
}

#[test]
fn subset_queue_family_rule() {
    let ignored = state(0, ImageLayout::General, 0, QUEUE_FAMILY_IGNORED);
    let family_zero = state(0, ImageLayout::General, 0, 0);
    let family_one = state(0, ImageLayout::General, 0, 1);
    assert!(ignored.is_subset_of(family_zero));
    assert!(family_zero.is_subset_of(family_zero));
    assert!(!family_zero.is_subset_of(family_one));
    // The rule is directional: a state pinned to a family is not a subset of
    // an ignored-family state with otherwise identical scopes.
    assert!(!family_one.is_subset_of(ignored));
}

#[test]
fn predefined_states_encode_their_usage() {
    let color = ImageLayoutState::color_attachment();
    assert_eq!(color.access, ACCESS_COLOR_ATTACHMENT_WRITE);
    assert_eq!(color.layout, ImageLayout::ColorAttachmentOptimal);
    assert_eq!(color.stage, STAGE_COLOR_ATTACHMENT_OUTPUT);
    assert_eq!(color.queue_family, QUEUE_FAMILY_IGNORED);

    let src = ImageLayoutState::transfer_source();
    assert_eq!(src.access, ACCESS_TRANSFER_READ);
    assert_eq!(src.layout, ImageLayout::TransferSrcOptimal);
    assert_eq!(src.stage, STAGE_TRANSFER);

    let dst = ImageLayoutState::transfer_destination();
    assert_eq!(dst.access, ACCESS_TRANSFER_WRITE);
    assert_eq!(dst.layout, ImageLayout::TransferDstOptimal);

    let present = ImageLayoutState::present();
    assert_eq!(present.access, ACCESS_TRANSFER_READ);
    assert_eq!(present.layout, ImageLayout::PresentSrc);
    assert_eq!(present.stage, STAGE_TRANSFER);

    let ignored = ImageLayoutState::ignored();
    assert_eq!(ignored.access, 0);
    assert_eq!(ignored.layout, ImageLayout::Undefined);

    let general = ImageLayoutState::default();
    assert_eq!(general.access, ACCESS_MEMORY_READ | ACCESS_MEMORY_WRITE);
    assert_eq!(general.layout, ImageLayout::General);
    assert_eq!(general.stage, STAGE_ALL_COMMANDS);
}
