use vstd::prelude::*;

verus! {

/// `VK_QUEUE_GRAPHICS_BIT`.
pub const QUEUE_GRAPHICS: u32 = 1;

/// `VK_QUEUE_TRANSFER_BIT`.
pub const QUEUE_TRANSFER: u32 = 4;

/// What the device reports of one queue family, and whether that family can
/// present to the window's surface.
#[derive(Clone, Copy, Debug)]
pub struct QueueFamily {
    pub queue_count: u32,
    pub queue_flags: u32,
    pub present_support: bool,
}

pub open spec fn has_flag(flags: u32, bit: u32) -> bool {
    flags & bit == bit
}

/// Indices of the queue families that the renderer submits to.
#[derive(Clone, Copy, Debug)]
pub struct VkQueueFamilyIndices {
    pub graphics: Option<u32>,
    pub present: Option<u32>,
    pub transfer: Option<u32>,
}

/// The indices after looking at family `i`: the last family seen with queues
/// and graphics is the graphics family, the last with queues and transfer but
/// no graphics the transfer family, the last with queues that can present the
/// present family.
pub open spec fn scan_family(acc: VkQueueFamilyIndices, fam: QueueFamily, i: u32) -> VkQueueFamilyIndices {
    let usable = fam.queue_count > 0;
    let graphics = has_flag(fam.queue_flags, QUEUE_GRAPHICS);
    VkQueueFamilyIndices {
        graphics: if usable && graphics { Some(i) } else { acc.graphics },
        transfer: if usable && !graphics && has_flag(fam.queue_flags, QUEUE_TRANSFER) {
            Some(i)
        } else {
            acc.transfer
        },
        present: if usable && fam.present_support { Some(i) } else { acc.present },
    }
}

/// The indices after the first `n` families, where the scan stops as soon as
/// every role has a family.
pub open spec fn scan_families(fams: Seq<QueueFamily>, n: nat) -> VkQueueFamilyIndices
    decreases n,
{
    if n == 0 {
        VkQueueFamilyIndices { graphics: None, present: None, transfer: None }
    } else {
        let prev = scan_families(fams, (n - 1) as nat);
        if prev.complete() {
            prev
        } else {
            scan_family(prev, fams[n - 1], (n - 1) as u32)
        }
    }
}

/// The chosen families: the scan over all families, where a device without a
/// separate transfer family transfers on its graphics family.
pub open spec fn chosen_families(fams: Seq<QueueFamily>) -> VkQueueFamilyIndices {
    let s = scan_families(fams, fams.len());
    if s.transfer is None {
        VkQueueFamilyIndices { graphics: s.graphics, present: s.present, transfer: s.graphics }
    } else {
        s
    }
}

proof fn lemma_scan_stops(fams: Seq<QueueFamily>, i: nat, n: nat)
    requires
        i <= n,
        scan_families(fams, i).complete(),
    ensures
        scan_families(fams, n) == scan_families(fams, i),
    decreases n - i,
{
    if i < n {
        lemma_scan_stops(fams, i, (n - 1) as nat);
    }
}

impl VkQueueFamilyIndices {
    pub open spec fn complete(self) -> bool {
        self.graphics is Some && self.present is Some && self.transfer is Some
    }

    /// No family chosen yet.
    pub fn new() -> (r: VkQueueFamilyIndices)
        ensures
            r.graphics is None,
            r.present is None,
            r.transfer is None,
    {
        VkQueueFamilyIndices { graphics: None, present: None, transfer: None }
    }

    /// True when a family has been chosen for every role.
    pub fn is_complete(&self) -> (r: bool)
        ensures
            r == self.complete(),
    {
        self.graphics.is_some() && self.present.is_some() && self.transfer.is_some()
    }

    /// Chooses the graphics, present and transfer families from what the
    /// device reports, in the order it reports them.
    pub fn find(families: &Vec<QueueFamily>) -> (r: VkQueueFamilyIndices)
        requires
            families@.len() <= u32::MAX,
        ensures
            r == chosen_families(families@),
    {
        let mut indices = VkQueueFamilyIndices::new();
        let mut i: usize = 0;
        while i < families.len() && !indices.is_complete()
            invariant
                i <= families@.len(),
                families@.len() <= u32::MAX,
                indices == scan_families(families@, i as nat),
            decreases families@.len() - i,
        {
            let fam = families[i];
            let index = i as u32;
            let usable = fam.queue_count > 0;
            let graphics = fam.queue_flags & QUEUE_GRAPHICS == QUEUE_GRAPHICS;
            if usable && graphics {
                indices.graphics = Some(index);
            } else if usable && fam.queue_flags & QUEUE_TRANSFER == QUEUE_TRANSFER {
                indices.transfer = Some(index);
            }
            if usable && fam.present_support {
                indices.present = Some(index);
            }
            i = i + 1;
        }
        proof {
            if i < families@.len() {
                lemma_scan_stops(families@, i as nat, families@.len());
            }
        }
        if indices.transfer.is_none() {
            indices.transfer = indices.graphics;
        }
        indices
    }

    /// The distinct families among the three roles, each once, in the order
    /// graphics, present, transfer.
    pub fn unique_families(&self) -> (r: Vec<u32>)
        requires
            self.complete(),
        ensures
            r@.no_duplicates(),
            r@.to_set() == set![
                self.graphics->Some_0,
                self.present->Some_0,
                self.transfer->Some_0,
            ],
            r@[0] == self.graphics->Some_0,
    {
        let g = self.graphics.unwrap();
        let p = self.present.unwrap();
        let t = self.transfer.unwrap();
        let mut r: Vec<u32> = Vec::new();
        r.push(g);
        if p != g {
            r.push(p);
        }
        if t != g && t != p {
            r.push(t);
        }
        proof {
            assert(r@.to_set() =~= set![g, p, t]) by {
                assert forall|x: u32| r@.contains(x) <==> set![g, p, t].contains(x) by {
                    if set![g, p, t].contains(x) {
                        if x == g {
                            assert(r@[0] == x);
                        } else if x == p {
                            assert(r@[1] == x);
                        } else {
                            assert(r@[r@.len() - 1] == x);
                        }
                    }
                }
            }
        }
        r
    }
}

/// `VK_FORMAT_B8G8R8A8_SRGB`.
pub const FORMAT_B8G8R8A8_SRGB: i32 = 50;

/// `VK_COLOR_SPACE_SRGB_NONLINEAR_KHR`.
pub const COLOR_SPACE_SRGB_NONLINEAR: i32 = 0;

/// `VK_PRESENT_MODE_MAILBOX_KHR`.
pub const PRESENT_MODE_MAILBOX: i32 = 1;

/// `VK_PRESENT_MODE_FIFO_KHR`, which every surface supports.
pub const PRESENT_MODE_FIFO: i32 = 2;

/// A pixel format and color space that a surface offers.
#[derive(Clone, Copy, Debug, PartialEq, Eq, Structural)]
pub struct SurfaceFormat {
    pub format: i32,
    pub color_space: i32,
}

#[derive(Clone, Copy, Debug, PartialEq, Eq, Structural)]
pub struct Extent2D {
    pub width: u32,
    pub height: u32,
}

/// The limits that a surface reports for its swapchains.
#[derive(Clone, Copy, Debug, PartialEq, Eq, Structural)]
pub struct SurfaceCapabilities {
    pub min_image_count: u32,
    /// 0 when the surface sets no maximum.
    pub max_image_count: u32,
    /// Width `u32::MAX` when the swapchain decides the extent.
    pub current_extent: Extent2D,
    pub min_image_extent: Extent2D,
    pub max_image_extent: Extent2D,
}

/// What a surface supports on a device.
#[derive(Debug)]
pub struct VkSwapchainSupportDetails {
    pub capabilities: SurfaceCapabilities,
    pub formats: Vec<SurfaceFormat>,
    pub present_modes: Vec<i32>,
}

/// How the swapchain's images are shared between queue families.
#[derive(Clone, Copy, Debug, PartialEq, Eq, Structural)]
pub enum SharingMode {
    Exclusive,
    /// Shared between the graphics and the present family.
    Concurrent(u32, u32),
}

/// Everything the swapchain is created with that the renderer decides.
#[derive(Clone, Copy, Debug, PartialEq, Eq, Structural)]
pub struct SwapchainConfig {
    pub format: SurfaceFormat,
    pub present_mode: i32,
    pub extent: Extent2D,
    pub image_count: u32,
    pub sharing: SharingMode,
}

pub open spec fn preferred_format() -> SurfaceFormat {
    SurfaceFormat { format: FORMAT_B8G8R8A8_SRGB, color_space: COLOR_SPACE_SRGB_NONLINEAR }
}

pub open spec fn format_choice(formats: Seq<SurfaceFormat>) -> SurfaceFormat {
    if formats.contains(preferred_format()) {
        preferred_format()
    } else {
        formats[0]
    }
}

pub open spec fn present_mode_choice(modes: Seq<i32>) -> i32 {
    if modes.contains(PRESENT_MODE_MAILBOX) {
        PRESENT_MODE_MAILBOX
    } else {
        PRESENT_MODE_FIFO
    }
}

pub open spec fn clamp_spec(v: u32, lo: u32, hi: u32) -> u32 {
    if v < lo {
        lo
    } else if v > hi {
        hi
    } else {
        v
    }
}

/// Whether `extent_choice` is defined: the bounds are ordered wherever they
/// are used.
pub open spec fn extent_bounds_ordered(caps: SurfaceCapabilities) -> bool {
    caps.current_extent.width == u32::MAX ==> caps.min_image_extent.width
        <= caps.max_image_extent.width && caps.min_image_extent.height
        <= caps.max_image_extent.height
}

pub open spec fn extent_choice(desired: Extent2D, caps: SurfaceCapabilities) -> Extent2D {
    if caps.current_extent.width != u32::MAX {
        caps.current_extent
    } else {
        Extent2D {
            width: clamp_spec(desired.width, caps.min_image_extent.width, caps.max_image_extent.width),
            height: clamp_spec(
                desired.height,
                caps.min_image_extent.height,
                caps.max_image_extent.height,
            ),
        }
    }
}

pub open spec fn image_count_choice(caps: SurfaceCapabilities) -> u32 {
    let wanted = (caps.min_image_count + 1) as u32;
    if caps.max_image_count > 0 && caps.max_image_count < wanted {
        caps.max_image_count
    } else {
        wanted
    }
}

pub open spec fn sharing_choice(indices: VkQueueFamilyIndices) -> SharingMode {
    if indices.graphics != indices.present {
        SharingMode::Concurrent(indices.graphics->Some_0, indices.present->Some_0)
    } else {
        SharingMode::Exclusive
    }
}

/// The name of the one device extension the renderer needs.
pub open spec fn swapchain_extension() -> Seq<char> {
    "VK_KHR_swapchain"@
}

pub open spec fn names_contain(names: Seq<String>, name: Seq<char>) -> bool {
    exists|i: int| 0 <= i < names.len() && names[i]@ == name
}

/// The preferred format, 8-bit BGRA in sRGB, where the surface offers it;
/// else the first format offered.
pub fn choose_swapchain_format(formats: &Vec<SurfaceFormat>) -> (r: SurfaceFormat)
    requires
        formats@.len() > 0,
    ensures
        r == format_choice(formats@),
{
    let mut i: usize = 0;
    while i < formats.len()
        invariant
            i <= formats@.len(),
            forall|j: int| 0 <= j < i ==> formats@[j] != preferred_format(),
        decreases formats@.len() - i,
    {
        let f = formats[i];
        if f.format == FORMAT_B8G8R8A8_SRGB && f.color_space == COLOR_SPACE_SRGB_NONLINEAR {
            assert(formats@.contains(preferred_format())) by {
                assert(formats@[i as int] == preferred_format());
            }
            return f;
        }
        i = i + 1;
    }
    formats[0]
}

/// Mailbox where the surface offers it; else FIFO.
pub fn choose_swapchain_present_mode(modes: &Vec<i32>) -> (r: i32)
    ensures
        r == present_mode_choice(modes@),
{
    let mut i: usize = 0;
    while i < modes.len()
        invariant
            i <= modes@.len(),
            forall|j: int| 0 <= j < i ==> modes@[j] != PRESENT_MODE_MAILBOX,
        decreases modes@.len() - i,
    {
        if modes[i] == PRESENT_MODE_MAILBOX {
            assert(modes@.contains(PRESENT_MODE_MAILBOX)) by {
                assert(modes@[i as int] == PRESENT_MODE_MAILBOX);
            }
            return PRESENT_MODE_MAILBOX;
        }
        i = i + 1;
    }
    PRESENT_MODE_FIFO
}

fn clamp_u32(v: u32, lo: u32, hi: u32) -> (r: u32)
    requires
        lo <= hi,
    ensures
        r == clamp_spec(v, lo, hi),
{
    if v < lo {
        lo
    } else if v > hi {
        hi
    } else {
        v
    }
}

/// The surface's current extent where it has one; else the desired extent
/// clamped to the surface's limits.
pub fn choose_swapchain_extent(desired: Extent2D, caps: &SurfaceCapabilities) -> (r: Extent2D)
    requires
        extent_bounds_ordered(*caps),
    ensures
        r == extent_choice(desired, *caps),
{
    if caps.current_extent.width != u32::MAX {
        caps.current_extent
    } else {
        Extent2D {
            width: clamp_u32(desired.width, caps.min_image_extent.width, caps.max_image_extent.width),
            height: clamp_u32(
                desired.height,
                caps.min_image_extent.height,
                caps.max_image_extent.height,
            ),
        }
    }
}

/// One image more than the surface's minimum, within its maximum if it has
/// one.
pub fn swapchain_image_count(caps: &SurfaceCapabilities) -> (r: u32)
    requires
        caps.min_image_count < u32::MAX,
    ensures
        r == image_count_choice(*caps),
{
    let wanted = caps.min_image_count + 1;
    if caps.max_image_count > 0 && caps.max_image_count < wanted {
        caps.max_image_count
    } else {
        wanted
    }
}

/// Exclusive where one family both renders and presents; else shared
/// between the two.
pub fn swapchain_sharing(indices: &VkQueueFamilyIndices) -> (r: SharingMode)
    requires
        indices.graphics != indices.present ==> indices.graphics is Some && indices.present is Some,
    ensures
        r == sharing_choice(*indices),
{
    match (indices.graphics, indices.present) {
        (Some(g), Some(p)) => {
            if g != p {
                SharingMode::Concurrent(g, p)
            } else {
                SharingMode::Exclusive
            }
        },
        _ => SharingMode::Exclusive,
    }
}

/// The swapchain to create on this surface for a window of `desired` size.
pub fn configure_swapchain(
    support: &VkSwapchainSupportDetails,
    desired: Extent2D,
    indices: &VkQueueFamilyIndices,
) -> (r: SwapchainConfig)
    requires
        support.formats@.len() > 0,
        extent_bounds_ordered(support.capabilities),
        support.capabilities.min_image_count < u32::MAX,
        indices.complete(),
    ensures
        r == (SwapchainConfig {
            format: format_choice(support.formats@),
            present_mode: present_mode_choice(support.present_modes@),
            extent: extent_choice(desired, support.capabilities),
            image_count: image_count_choice(support.capabilities),
            sharing: sharing_choice(*indices),
        }),
{
    SwapchainConfig {
        format: choose_swapchain_format(&support.formats),
        present_mode: choose_swapchain_present_mode(&support.present_modes),
        extent: choose_swapchain_extent(desired, &support.capabilities),
        image_count: swapchain_image_count(&support.capabilities),
        sharing: swapchain_sharing(indices),
    }
}

/// Whether every name of `required` is among `available`.
pub fn extensions_supported(available: &Vec<String>, required: &Vec<String>) -> (r: bool)
    ensures
        r == forall|k: int| 0 <= k < required@.len() ==> names_contain(available@, required@[k]@),
{
    let mut k: usize = 0;
    while k < required.len()
        invariant
            k <= required@.len(),
            forall|j: int| 0 <= j < k ==> names_contain(available@, required@[j]@),
        decreases required@.len() - k,
    {
        let mut found = false;
        let mut i: usize = 0;
        while i < available.len()
            invariant
                k < required@.len(),
                i <= available@.len(),
                found == exists|j: int| 0 <= j < i && available@[j]@ == required@[k as int]@,
            decreases available@.len() - i,
        {
            if available[i] == required[k] {
                found = true;
            }
            i = i + 1;
        }
        if !found {
            assert(!names_contain(available@, required@[k as int]@));
            return false;
        }
        k = k + 1;
    }
    true
}

/// Whether the device offers the swapchain extension.
pub fn query_device_extensions_support(available: &Vec<String>) -> (r: bool)
    ensures
        r == names_contain(available@, swapchain_extension()),
{
    let required = vec!["VK_KHR_swapchain".to_owned()];
    let r = extensions_supported(available, &required);
    proof {
        assert(required@[0]@ == swapchain_extension());
    }
    r
}

/// A device is suitable when it has a family for every role, offers the
/// swapchain extension, and its surface offers a format and a present mode.
pub fn is_physical_device_suitable(
    indices: &VkQueueFamilyIndices,
    available_extensions: &Vec<String>,
    support: &VkSwapchainSupportDetails,
) -> (r: bool)
    ensures
        r == (indices.complete() && names_contain(available_extensions@, swapchain_extension())
            && support.formats@.len() > 0 && support.present_modes@.len() > 0),
{
    let extensions = query_device_extensions_support(available_extensions);
    indices.is_complete() && extensions && support.formats.len() > 0
        && support.present_modes.len() > 0
}

/// The first suitable device, in the order the devices were enumerated.
pub fn pick_physical_device(suitable: &Vec<bool>) -> (r: Option<usize>)
    ensures
        r is None <==> forall|i: int| 0 <= i < suitable@.len() ==> !suitable@[i],
        r matches Some(i) ==> i < suitable@.len() && suitable@[i as int] && forall|j: int|
            0 <= j < i ==> !suitable@[j],
{
    let mut i: usize = 0;
    while i < suitable.len()
        invariant
            i <= suitable@.len(),
            forall|j: int| 0 <= j < i ==> !suitable@[j],
        decreases suitable@.len() - i,
    {
        if suitable[i] {
            return Some(i);
        }
        i = i + 1;
    }
    None
}

} // verus!
