use vstd::prelude::*;

verus! {

/// `VK_ACCESS_SHADER_READ_BIT`.
pub const ACCESS_SHADER_READ: u32 = 0x20;

/// `VK_ACCESS_SHADER_WRITE_BIT`.
pub const ACCESS_SHADER_WRITE: u32 = 0x40;

/// `VK_ACCESS_COLOR_ATTACHMENT_READ_BIT`.
pub const ACCESS_COLOR_ATTACHMENT_READ: u32 = 0x80;

/// `VK_ACCESS_COLOR_ATTACHMENT_WRITE_BIT`.
pub const ACCESS_COLOR_ATTACHMENT_WRITE: u32 = 0x100;

/// `VK_ACCESS_TRANSFER_READ_BIT`.
pub const ACCESS_TRANSFER_READ: u32 = 0x800;

/// `VK_ACCESS_TRANSFER_WRITE_BIT`.
pub const ACCESS_TRANSFER_WRITE: u32 = 0x1000;

/// `VK_PIPELINE_STAGE_TOP_OF_PIPE_BIT`.
pub const STAGE_TOP_OF_PIPE: u32 = 0x1;

/// `VK_PIPELINE_STAGE_FRAGMENT_SHADER_BIT`.
pub const STAGE_FRAGMENT_SHADER: u32 = 0x80;

/// `VK_PIPELINE_STAGE_COLOR_ATTACHMENT_OUTPUT_BIT`.
pub const STAGE_COLOR_ATTACHMENT_OUTPUT: u32 = 0x400;

/// `VK_PIPELINE_STAGE_TRANSFER_BIT`.
pub const STAGE_TRANSFER: u32 = 0x1000;

/// `VK_PIPELINE_STAGE_ALL_GRAPHICS_BIT`.
pub const STAGE_ALL_GRAPHICS: u32 = 0x8000;

/// The image layouts that the renderer moves images between.
#[derive(Clone, Copy, Debug, PartialEq, Eq, Structural)]
pub enum ImageLayout {
    Undefined,
    General,
    ColorAttachmentOptimal,
    ShaderReadOnlyOptimal,
    TransferSrcOptimal,
    TransferDstOptimal,
    PresentSrc,
}

impl ImageLayout {
    pub open spec fn raw(self) -> i32 {
        match self {
            ImageLayout::Undefined => 0,
            ImageLayout::General => 1,
            ImageLayout::ColorAttachmentOptimal => 2,
            ImageLayout::ShaderReadOnlyOptimal => 5,
            ImageLayout::TransferSrcOptimal => 6,
            ImageLayout::TransferDstOptimal => 7,
            ImageLayout::PresentSrc => 1000001002,
        }
    }

    /// The layout's `VkImageLayout` value.
    pub fn as_raw(&self) -> (r: i32)
        ensures
            r == self.raw(),
    {
        match self {
            ImageLayout::Undefined => 0,
            ImageLayout::General => 1,
            ImageLayout::ColorAttachmentOptimal => 2,
            ImageLayout::ShaderReadOnlyOptimal => 5,
            ImageLayout::TransferSrcOptimal => 6,
            ImageLayout::TransferDstOptimal => 7,
            ImageLayout::PresentSrc => 1000001002,
        }
    }
}

/// The access masks and pipeline stages of an image memory barrier.
#[derive(Clone, Copy, Debug, PartialEq, Eq, Structural)]
pub struct Barrier {
    pub src_access: u32,
    pub dst_access: u32,
    pub src_stage: u32,
    pub dst_stage: u32,
}

/// The barrier for each supported layout transition; `None` for the others.
pub open spec fn transition_barrier(old: ImageLayout, new: ImageLayout) -> Option<Barrier> {
    match (old, new) {
        (ImageLayout::Undefined, ImageLayout::TransferDstOptimal) => Some(
            Barrier {
                src_access: 0,
                dst_access: ACCESS_TRANSFER_WRITE,
                src_stage: STAGE_TOP_OF_PIPE,
                dst_stage: STAGE_TRANSFER,
            },
        ),
        (ImageLayout::TransferDstOptimal, ImageLayout::ShaderReadOnlyOptimal) => Some(
            Barrier {
                src_access: ACCESS_TRANSFER_WRITE,
                dst_access: ACCESS_SHADER_READ,
                src_stage: STAGE_TRANSFER,
                dst_stage: STAGE_FRAGMENT_SHADER,
            },
        ),
        (ImageLayout::Undefined, ImageLayout::PresentSrc) => Some(
            Barrier {
                src_access: 0,
                dst_access: ACCESS_COLOR_ATTACHMENT_READ,
                src_stage: STAGE_TOP_OF_PIPE,
                dst_stage: STAGE_COLOR_ATTACHMENT_OUTPUT,
            },
        ),
        (ImageLayout::Undefined, ImageLayout::ColorAttachmentOptimal) => Some(
            Barrier {
                src_access: 0,
                dst_access: ACCESS_COLOR_ATTACHMENT_READ | ACCESS_COLOR_ATTACHMENT_WRITE,
                src_stage: STAGE_TOP_OF_PIPE,
                dst_stage: STAGE_COLOR_ATTACHMENT_OUTPUT,
            },
        ),
        (ImageLayout::Undefined, ImageLayout::General) => Some(
            Barrier {
                src_access: 0,
                dst_access: ACCESS_SHADER_READ | ACCESS_SHADER_WRITE | ACCESS_TRANSFER_READ
                    | ACCESS_TRANSFER_WRITE,
                src_stage: STAGE_TOP_OF_PIPE,
                dst_stage: STAGE_ALL_GRAPHICS,
            },
        ),
        (ImageLayout::PresentSrc, ImageLayout::TransferDstOptimal) => Some(
            Barrier {
                src_access: ACCESS_COLOR_ATTACHMENT_READ,
                dst_access: ACCESS_TRANSFER_WRITE,
                src_stage: STAGE_COLOR_ATTACHMENT_OUTPUT,
                dst_stage: STAGE_TRANSFER,
            },
        ),
        (ImageLayout::TransferDstOptimal, ImageLayout::PresentSrc) => Some(
            Barrier {
                src_access: ACCESS_TRANSFER_WRITE,
                dst_access: ACCESS_COLOR_ATTACHMENT_READ,
                src_stage: STAGE_TRANSFER,
                dst_stage: STAGE_COLOR_ATTACHMENT_OUTPUT,
            },
        ),
        _ => None,
    }
}

/// The barrier that moves an image from `old` to `new`, or `None` where the
/// renderer does not support that transition.
pub fn layout_barrier(old: ImageLayout, new: ImageLayout) -> (r: Option<Barrier>)
    ensures
        r == transition_barrier(old, new),
{
    match (old, new) {
        (ImageLayout::Undefined, ImageLayout::TransferDstOptimal) => Some(
            Barrier {
                src_access: 0,
                dst_access: ACCESS_TRANSFER_WRITE,
                src_stage: STAGE_TOP_OF_PIPE,
                dst_stage: STAGE_TRANSFER,
            },
        ),
        (ImageLayout::TransferDstOptimal, ImageLayout::ShaderReadOnlyOptimal) => Some(
            Barrier {
                src_access: ACCESS_TRANSFER_WRITE,
                dst_access: ACCESS_SHADER_READ,
                src_stage: STAGE_TRANSFER,
                dst_stage: STAGE_FRAGMENT_SHADER,
            },
        ),
        (ImageLayout::Undefined, ImageLayout::PresentSrc) => Some(
            Barrier {
                src_access: 0,
                dst_access: ACCESS_COLOR_ATTACHMENT_READ,
                src_stage: STAGE_TOP_OF_PIPE,
                dst_stage: STAGE_COLOR_ATTACHMENT_OUTPUT,
            },
        ),
        (ImageLayout::Undefined, ImageLayout::ColorAttachmentOptimal) => Some(
            Barrier {
                src_access: 0,
                dst_access: ACCESS_COLOR_ATTACHMENT_READ | ACCESS_COLOR_ATTACHMENT_WRITE,
                src_stage: STAGE_TOP_OF_PIPE,
                dst_stage: STAGE_COLOR_ATTACHMENT_OUTPUT,
            },
        ),
        (ImageLayout::Undefined, ImageLayout::General) => Some(
            Barrier {
                src_access: 0,
                dst_access: ACCESS_SHADER_READ | ACCESS_SHADER_WRITE | ACCESS_TRANSFER_READ
                    | ACCESS_TRANSFER_WRITE,
                src_stage: STAGE_TOP_OF_PIPE,
                dst_stage: STAGE_ALL_GRAPHICS,
            },
        ),
        (ImageLayout::PresentSrc, ImageLayout::TransferDstOptimal) => Some(
            Barrier {
                src_access: ACCESS_COLOR_ATTACHMENT_READ,
                dst_access: ACCESS_TRANSFER_WRITE,
                src_stage: STAGE_COLOR_ATTACHMENT_OUTPUT,
                dst_stage: STAGE_TRANSFER,
            },
        ),
        (ImageLayout::TransferDstOptimal, ImageLayout::PresentSrc) => Some(
            Barrier {
                src_access: ACCESS_TRANSFER_WRITE,
                dst_access: ACCESS_COLOR_ATTACHMENT_READ,
                src_stage: STAGE_TRANSFER,
                dst_stage: STAGE_COLOR_ATTACHMENT_OUTPUT,
            },
        ),
        _ => None,
    }
}

/// A layout transition that the renderer does not support was asked for.
#[derive(Clone, Copy, Debug, PartialEq, Eq, Structural)]
pub struct UnsupportedTransition {
    pub from: ImageLayout,
    pub to: ImageLayout,
}

/// What the host must know of an image it owns: its extent and the layout
/// of its last recorded transition.
pub struct TextureState {
    width: u32,
    height: u32,
    layout: ImageLayout,
}

impl TextureState {
    pub closed spec fn spec_layout(&self) -> ImageLayout {
        self.layout
    }

    pub closed spec fn spec_width(&self) -> u32 {
        self.width
    }

    pub closed spec fn spec_height(&self) -> u32 {
        self.height
    }

    /// A freshly created image: its layout is undefined.
    pub fn new(width: u32, height: u32) -> (r: TextureState)
        ensures
            r.spec_layout() == ImageLayout::Undefined,
            r.spec_width() == width,
            r.spec_height() == height,
    {
        TextureState { width, height, layout: ImageLayout::Undefined }
    }

    pub fn layout(&self) -> (r: ImageLayout)
        ensures
            r == self.spec_layout(),
    {
        self.layout
    }

    pub fn width(&self) -> (r: u32)
        ensures
            r == self.spec_width(),
    {
        self.width
    }

    pub fn height(&self) -> (r: u32)
        ensures
            r == self.spec_height(),
    {
        self.height
    }

    /// Records a transition to `new_layout`: gives the barrier to record and
    /// from then on tracks `new_layout`. An unsupported transition is refused
    /// and the tracked layout is kept.
    pub fn transition_layout(&mut self, new_layout: ImageLayout) -> (r: Result<
        Barrier,
        UnsupportedTransition,
    >)
        ensures
            final(self).spec_width() == old(self).spec_width(),
            final(self).spec_height() == old(self).spec_height(),
            match transition_barrier(old(self).spec_layout(), new_layout) {
                Some(b) => r == Ok::<Barrier, UnsupportedTransition>(b)
                    && final(self).spec_layout() == new_layout,
                None => r == Err::<Barrier, UnsupportedTransition>(
                    UnsupportedTransition { from: old(self).spec_layout(), to: new_layout },
                ) && final(self).spec_layout() == old(self).spec_layout(),
            },
    {
        match layout_barrier(self.layout, new_layout) {
            Some(b) => {
                self.layout = new_layout;
                Ok(b)
            },
            None => Err(UnsupportedTransition { from: self.layout, to: new_layout }),
        }
    }
}

} // verus!
