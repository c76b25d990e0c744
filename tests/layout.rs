use oxitrace::layout::{
    layout_barrier, Barrier, ImageLayout, TextureState, UnsupportedTransition,
};

#[test]
fn present_to_transfer_barrier() {
    assert_eq!(
        layout_barrier(ImageLayout::PresentSrc, ImageLayout::TransferDstOptimal),
        Some(Barrier { src_access: 0x80, dst_access: 0x1000, src_stage: 0x400, dst_stage: 0x1000 })
    );
    assert_eq!(
        layout_barrier(ImageLayout::TransferDstOptimal, ImageLayout::PresentSrc),
        Some(Barrier { src_access: 0x1000, dst_access: 0x80, src_stage: 0x1000, dst_stage: 0x400 })
    );
}

#[test]
fn undefined_to_general_barrier() {
    assert_eq!(
        layout_barrier(ImageLayout::Undefined, ImageLayout::General),
        Some(Barrier { src_access: 0, dst_access: 0x1860, src_stage: 0x1, dst_stage: 0x8000 })
    );
    assert_eq!(
        layout_barrier(ImageLayout::Undefined, ImageLayout::ColorAttachmentOptimal),
        Some(Barrier { src_access: 0, dst_access: 0x180, src_stage: 0x1, dst_stage: 0x400 })
    );
    assert_eq!(
        layout_barrier(ImageLayout::TransferDstOptimal, ImageLayout::ShaderReadOnlyOptimal),
        Some(Barrier { src_access: 0x1000, dst_access: 0x20, src_stage: 0x1000, dst_stage: 0x80 })
    );
}

#[test]
fn unsupported_transition_has_no_barrier() {
    assert_eq!(layout_barrier(ImageLayout::General, ImageLayout::PresentSrc), None);
    assert_eq!(layout_barrier(ImageLayout::Undefined, ImageLayout::Undefined), None);
}

#[test]
fn texture_tracks_last_transition() {
    let mut t = TextureState::new(640, 480);
    assert_eq!(t.layout(), ImageLayout::Undefined);
    assert!(t.transition_layout(ImageLayout::General).is_ok());
    assert_eq!(t.layout(), ImageLayout::General);
    let r = t.transition_layout(ImageLayout::ShaderReadOnlyOptimal);
    assert_eq!(
        r,
        Err(UnsupportedTransition { from: ImageLayout::General, to: ImageLayout::ShaderReadOnlyOptimal })
    );
    assert_eq!(t.layout(), ImageLayout::General);
    assert_eq!(t.width(), 640);
    assert_eq!(t.height(), 480);
}

#[test]
fn layout_raw_values() {
    assert_eq!(ImageLayout::Undefined.as_raw(), 0);
    assert_eq!(ImageLayout::General.as_raw(), 1);
    assert_eq!(ImageLayout::TransferDstOptimal.as_raw(), 7);
    assert_eq!(ImageLayout::PresentSrc.as_raw(), 1000001002);
}
