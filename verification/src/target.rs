//! The life cycle of a render target bound to a window: a surface owned by
//! an instance becomes a target owned by a device, whose swapchain can be
//! recreated, from which images are acquired, and which is disposed to give
//! the surface back.
//!
//! The values here are what the decisions read: ids, the size of the
//! backbuffer, the present mode, the usage. The swapchain and the images
//! themselves belong to the graphics device and are created, presented and
//! destroyed by the caller as these values direct.

use vstd::prelude::*;
use relevant::Relevant;
use smallvec::SmallVec;
use crate::swapchain::Extent2D;
use crate::swapchain::PresentMode;
use crate::swapchain::SwapchainConfig;
use crate::swapchain::Usage;
use crate::swapchain::SurfaceCapabilities;
use crate::swapchain::planned_config;
use gfx_hal::format::Format;

verus! {

/// Id of a graphics instance.
#[derive(Clone, Copy, Debug, PartialEq, Eq, Structural)]
pub struct InstanceId {
    pub id: u32,
}

/// Id of a graphics device, with the id of the instance it was created from.
#[derive(Clone, Copy, Debug, PartialEq, Eq, Structural)]
pub struct DeviceId {
    pub id: u32,
    pub instance: InstanceId,
}

/// The marker that reports a target dropped without being disposed.
#[verifier::external_type_specification]
#[verifier::external_body]
pub struct ExRelevant(relevant::Relevant);

/// A new `relevant::Relevant` marker (a unit value).
#[verifier::external_body]
fn new_relevant() -> Relevant {
    relevant::Relevant
}

/// Disposes the marker with `relevant::Relevant::dispose`, which forgets it
/// so that it does not report a drop.
#[verifier::external_body]
fn dispose_relevant(marker: Relevant) {
    marker.dispose()
}

/// Image indices, held in a `smallvec::SmallVec` that keeps up to eight of
/// them inline.
#[verifier::external_body]
pub struct IndexVec {
    items: SmallVec<[u32; 8]>,
}

/// The indices an `IndexVec` holds, in order.
pub uninterp spec fn index_vec_items(v: IndexVec) -> Seq<u32>;

/// Collects `std::iter::once(index)` into a small vector with
/// `SmallVec::from_iter`, which pushes each item in turn.
#[verifier::external_body]
fn index_vec_once(index: u32) -> (v: IndexVec)
    ensures
        index_vec_items(v) == seq![index],
{
    IndexVec { items: std::iter::once(index).collect() }
}

/// `SmallVec::len`: the number of items held.
#[verifier::external_body]
fn index_vec_len(v: &IndexVec) -> (n: usize)
    ensures
        n == index_vec_items(*v).len(),
{
    v.items.len()
}

/// `SmallVec`'s `Index<usize>`: the item at position `i`, which exists
/// (the indexing panics past the end).
#[verifier::external_body]
fn index_vec_get(v: &IndexVec, i: usize) -> (item: &u32)
    requires
        i < index_vec_items(*v).len(),
    ensures
        *item == index_vec_items(*v)[i as int],
{
    &v.items[i]
}

/// Why no image could be acquired from a swapchain.
#[derive(Clone, Copy, Debug, PartialEq, Eq, Structural)]
pub enum AcquireError {
    /// Host memory is exhausted.
    OutOfHostMemory,
    /// Device memory is exhausted.
    OutOfDeviceMemory,
    /// No image was ready before the timeout.
    NotReady,
    /// The swapchain no longer matches the surface and has to be recreated.
    OutOfDate,
    /// The surface was lost.
    SurfaceLost,
    /// The device was lost.
    DeviceLost,
}

/// A rendering surface bound to a window, owned by the instance it was
/// created from.
#[derive(Clone, Copy, Debug)]
pub struct Surface {
    instance: InstanceId,
}

impl View for Surface {
    type V = InstanceId;

    closed spec fn view(&self) -> InstanceId {
        self.instance
    }
}

impl Surface {
    /// A surface created from the instance `instance`.
    pub fn new(instance: InstanceId) -> (surface: Surface)
        ensures
            surface@ == instance,
    {
        Surface { instance }
    }

    /// The id of the instance that owns the surface.
    pub fn instance_id(&self) -> (id: InstanceId)
        ensures
            id == self@,
    {
        self.instance
    }

    /// Whether `instance` is the instance that owns the surface.
    pub fn is_instance_owner(&self, instance: InstanceId) -> (r: bool)
        ensures
            r == (instance == self@),
    {
        self.instance == instance
    }

    /// Binds the surface to `device`, with a swapchain created with `config`
    /// whose backbuffer holds `backbuffer_len` images. The device must come
    /// from the instance that owns the surface.
    pub fn into_target(self, device: DeviceId, config: &SwapchainConfig, backbuffer_len: usize) -> (target: Target)
        requires
            device.instance == self@,
        ensures
            target@ == bound_target(self, device, *config, backbuffer_len),
            target@.swapchain == Some(backbuffer_len),
            target@.device == device,
            target@.surface == self,
            target@.extent == config.extent,
            target@.present_mode == config.present_mode,
            target@.usage == config.image_usage,
    {
        Target {
            device,
            surface: self,
            swapchain: Some(backbuffer_len),
            extent: config.extent,
            present_mode: config.present_mode,
            usage: config.image_usage,
            relevant: new_relevant(),
        }
    }
}

/// What a target is: the device that owns it, its surface, whether it holds
/// a swapchain (and how many backbuffer images it has), the size of the
/// images, how they are presented and what they are used for.
pub struct TargetView {
    pub device: DeviceId,
    pub surface: Surface,
    pub swapchain: Option<usize>,
    pub extent: Extent2D,
    pub present_mode: PresentMode,
    pub usage: Usage,
}

/// A rendering target bound to a window, with a swapchain created.
///
/// The swapchain and its backbuffer exist together: `swapchain` is
/// `Some(n)` while a swapchain with a backbuffer of `n` images is held, and
/// `None` after it has been released.
pub struct Target {
    device: DeviceId,
    surface: Surface,
    swapchain: Option<usize>,
    extent: Extent2D,
    present_mode: PresentMode,
    usage: Usage,
    relevant: Relevant,
}

impl Target {
    /// The target's device comes from the instance that owns its surface.
    #[verifier::type_invariant]
    spec fn owned_consistently(self) -> bool {
        self.device.instance == self.surface.instance
    }
}

impl View for Target {
    type V = TargetView;

    closed spec fn view(&self) -> TargetView {
        TargetView {
            device: self.device,
            surface: self.surface,
            swapchain: self.swapchain,
            extent: self.extent,
            present_mode: self.present_mode,
            usage: self.usage,
        }
    }
}

/// The target that binding `surface` to `device` with a swapchain created
/// with `config` gives.
pub open spec fn bound_target(surface: Surface, device: DeviceId, config: SwapchainConfig, backbuffer_len: usize) -> TargetView {
    TargetView {
        device,
        surface,
        swapchain: Some(backbuffer_len),
        extent: config.extent,
        present_mode: config.present_mode,
        usage: config.image_usage,
    }
}

/// What a new swapchain is asked for when a target recreates its own.
#[derive(Clone, Copy, Debug, PartialEq, Eq, Structural)]
pub struct RecreateRequest {
    /// As many images as the released backbuffer had (none if there was
    /// none), cut to 32 bits.
    pub image_count: u32,
    /// The target's present mode.
    pub present_mode: PresentMode,
    /// The target's image usage.
    pub usage: Usage,
}

/// The request with which `target` recreates its swapchain.
pub open spec fn recreate_request(target: TargetView) -> RecreateRequest {
    RecreateRequest {
        image_count: match target.swapchain {
            Some(n) => n as u32,
            None => 0,
        },
        present_mode: target.present_mode,
        usage: target.usage,
    }
}

/// The target after its swapchain and backbuffer have been released.
pub open spec fn released(target: TargetView) -> TargetView {
    TargetView { swapchain: None, ..target }
}

/// The target after a swapchain created with `config` and a backbuffer of
/// `backbuffer_len` images have been installed.
pub open spec fn installed(target: TargetView, config: SwapchainConfig, backbuffer_len: usize) -> TargetView {
    TargetView { swapchain: Some(backbuffer_len), extent: config.extent, ..target }
}

impl Target {
    /// The id of the device that owns the target.
    pub fn device_id(&self) -> (id: DeviceId)
        ensures
            id == self@.device,
    {
        self.device
    }

    /// The id of the instance that owns the target's device, which is the
    /// instance that owns its surface.
    pub fn instance_id(&self) -> (id: InstanceId)
        ensures
            id == self@.device.instance,
            id == self@.surface@,
    {
        proof {
            use_type_invariant(self);
        }
        self.device.instance
    }

    /// Whether `device` is the device that owns the target.
    pub fn is_device_owner(&self, device: DeviceId) -> (r: bool)
        ensures
            r == (device == self@.device),
    {
        self.device == device
    }

    /// Whether `instance` is the instance that owns the target's device.
    pub fn is_instance_owner(&self, instance: InstanceId) -> (r: bool)
        ensures
            r == (instance == self@.device.instance),
    {
        self.device.instance == instance
    }

    /// The surface the target is bound to.
    pub fn surface(&self) -> (surface: &Surface)
        ensures
            *surface == self@.surface,
    {
        &self.surface
    }

    /// The number of backbuffer images of the swapchain, `None` when the
    /// target holds no swapchain.
    pub fn backbuffer_len(&self) -> (len: Option<usize>)
        ensures
            len == self@.swapchain,
    {
        self.swapchain
    }

    /// The size of the target's images.
    pub fn extent(&self) -> (extent: Extent2D)
        ensures
            extent == self@.extent,
    {
        self.extent
    }

    /// The usage of the target's images.
    pub fn usage(&self) -> (usage: Usage)
        ensures
            usage == self@.usage,
    {
        self.usage
    }

    /// The mode in which the target's images are presented.
    pub fn present_mode(&self) -> (mode: PresentMode)
        ensures
            mode == self@.present_mode,
    {
        self.present_mode
    }

    /// Disposes of the target, which `device` owns: gives back the surface,
    /// and the number of backbuffer images to dispose of together with the
    /// swapchain, if the target holds one.
    pub fn dispose(self, device: DeviceId) -> (r: (Surface, Option<usize>))
        requires
            device == self@.device,
        ensures
            r.0 == self@.surface,
            r.1 == self@.swapchain,
    {
        let Target { device: _, surface, swapchain, extent: _, present_mode: _, usage: _, relevant } = self;
        dispose_relevant(relevant);
        (surface, swapchain)
    }

    /// Starts recreating the swapchain of the target, which `device` owns:
    /// releases the swapchain and its backbuffer, and says what the new
    /// swapchain is to be asked for. The target holds no swapchain until
    /// `install_swapchain`; if the new one cannot be created it stays so.
    pub fn recreate(&mut self, device: DeviceId) -> (request: RecreateRequest)
        requires
            device == old(self)@.device,
        ensures
            request == recreate_request(old(self)@),
            final(self)@ == released(old(self)@),
            request.image_count == (match old(self)@.swapchain {
                Some(n) => n as u32,
                None => 0u32,
            }),
            request.present_mode == old(self)@.present_mode,
            request.usage == old(self)@.usage,
            final(self)@.swapchain is None,
            final(self)@.device == old(self)@.device,
            final(self)@.surface == old(self)@.surface,
            final(self)@.extent == old(self)@.extent,
            final(self)@.present_mode == old(self)@.present_mode,
            final(self)@.usage == old(self)@.usage,
    {
        proof {
            use_type_invariant(&*self);
        }
        let image_count: u32 = match self.swapchain {
            Some(n) => n as u32,
            None => 0,
        };
        self.swapchain = None;
        RecreateRequest { image_count, present_mode: self.present_mode, usage: self.usage }
    }

    /// Installs a swapchain created with `config`, whose backbuffer holds
    /// `backbuffer_len` images, in place of the one `recreate` released;
    /// the target takes the new image size. The configuration is one planned
    /// for the target's present mode and usage.
    pub fn install_swapchain(&mut self, config: &SwapchainConfig, backbuffer_len: usize)
        requires
            old(self)@.swapchain is None,
            config.present_mode == old(self)@.present_mode,
            config.image_usage == old(self)@.usage,
        ensures
            final(self)@.usage == config.image_usage,
            final(self)@.present_mode == config.present_mode,
            final(self)@.swapchain == Some(backbuffer_len),
            final(self)@.extent == config.extent,
            final(self)@.device == old(self)@.device,
            final(self)@.surface == old(self)@.surface,
            final(self)@ == installed(old(self)@, *config, backbuffer_len),
    {
        proof {
            use_type_invariant(&*self);
        }
        self.swapchain = Some(backbuffer_len);
        self.extent = config.extent;
    }

    /// Whether an image can be acquired: a target without swapchain answers
    /// that its swapchain is out of date, as one that has to be recreated
    /// anyway.
    pub fn acquirable(&self) -> (r: Result<(), AcquireError>)
        ensures
            r == (if self@.swapchain is Some {
                Ok::<(), AcquireError>(())
            } else {
                Err(AcquireError::OutOfDate)
            }),
    {
        match self.swapchain {
            Some(_) => Ok(()),
            None => Err(AcquireError::OutOfDate),
        }
    }

    /// The images to present next, given what acquiring an image from the
    /// target's swapchain gave: the acquired index alone, or the error. A
    /// target without swapchain answers that it is out of date, as one that
    /// has to be recreated anyway, whatever `acquired` holds: the caller
    /// acquires nothing when `acquirable` says so.
    pub fn next_image(&self, acquired: Result<u32, AcquireError>) -> (r: Result<NextImages, AcquireError>)
        ensures
            self@.swapchain is None ==> (r matches Err(e) && e == AcquireError::OutOfDate),
            self@.swapchain is Some ==> match acquired {
                Ok(index) => r matches Ok(images) && images@ == seq![index],
                Err(e) => r matches Err(e2) && e2 == e,
            },
    {
        if self.swapchain.is_none() {
            return Err(AcquireError::OutOfDate);
        }
        match acquired {
            Ok(index) => Ok(NextImages { indices: index_vec_once(index) }),
            Err(e) => Err(e),
        }
    }
}

/// The indices of the images acquired to be presented next, one per target.
pub struct NextImages {
    indices: IndexVec,
}

impl View for NextImages {
    type V = Seq<u32>;

    closed spec fn view(&self) -> Seq<u32> {
        index_vec_items(self.indices)
    }
}

impl NextImages {
    /// The number of acquired images.
    pub fn len(&self) -> (n: usize)
        ensures
            n == self@.len(),
    {
        index_vec_len(&self.indices)
    }

    /// The acquired indices, in order.
    pub fn indices(&self) -> (indices: Vec<u32>)
        ensures
            indices@ == self@,
    {
        let n = index_vec_len(&self.indices);
        let mut indices: Vec<u32> = Vec::new();
        let mut i: usize = 0;
        while i < n
            invariant
                i <= n,
                n == self@.len(),
                indices@ == self@.take(i as int),
            decreases n - i,
        {
            let index = *index_vec_get(&self.indices, i);
            indices.push(index);
            proof {
                assert(self@.take(i + 1) =~= self@.take(i as int).push(index));
            }
            i = i + 1;
        }
        proof {
            assert(self@.take(n as int) =~= self@);
        }
        indices
    }

    /// The index of the `i`-th acquired image.
    pub fn index(&self, i: usize) -> (index: &u32)
        requires
            i < self@.len(),
        ensures
            *index == self@[i as int],
    {
        index_vec_get(&self.indices, i)
    }
}

/// Recreating the swapchain keeps what the target is: its device, its
/// surface, its present mode and usage; only the swapchain, the backbuffer
/// and the image size change. Until the new swapchain is installed the
/// target holds none.
pub proof fn law_recreate_keeps_target(target: TargetView, config: SwapchainConfig, backbuffer_len: usize)
    ensures
        released(target).swapchain is None,
        installed(released(target), config, backbuffer_len).device == target.device,
        installed(released(target), config, backbuffer_len).surface == target.surface,
        installed(released(target), config, backbuffer_len).present_mode == target.present_mode,
        installed(released(target), config, backbuffer_len).usage == target.usage,
        installed(released(target), config, backbuffer_len).swapchain == Some(backbuffer_len),
        installed(released(target), config, backbuffer_len).extent == config.extent,
{
}

/// A target asks, when it recreates its swapchain, for as many images as
/// its backbuffer holds, in the same present mode and for the same usage as
/// the swapchain it was created with.
pub proof fn law_recreate_asks_for_same_swapchain(surface: Surface, device: DeviceId, config: SwapchainConfig)
    ensures
        recreate_request(bound_target(surface, device, config, config.image_count as usize)) == (RecreateRequest {
            image_count: config.image_count,
            present_mode: config.present_mode,
            usage: config.image_usage,
        }),
{
}

/// Recreating a swapchain on a surface whose capabilities and formats have
/// not changed gives the configuration the target was created with, when
/// the device gave as many backbuffer images as were asked for.
pub proof fn law_recreate_replans_same_config(
    surface: Surface,
    device: DeviceId,
    caps: SurfaceCapabilities,
    formats: Seq<Format>,
    suggest_extent: Extent2D,
    image_count: u32,
    present_mode: PresentMode,
    usage: Usage,
)
    ensures ({
        let config = planned_config(caps, formats, suggest_extent, image_count, present_mode, usage);
        let request = recreate_request(bound_target(surface, device, config, image_count as usize));
        planned_config(caps, formats, suggest_extent, request.image_count, request.present_mode, request.usage) == config
    }),
{
}

/// One step of a target's life after it is bound: the start of a
/// recreation (which releases the swapchain; a recreation that fails stops
/// there), or the installation of the new swapchain created with a
/// configuration, with a backbuffer of so many images.
pub enum TargetStep {
    Recreate,
    Install(SwapchainConfig, usize),
}

/// The target after one step.
pub open spec fn apply_step(target: TargetView, step: TargetStep) -> TargetView {
    match step {
        TargetStep::Recreate => released(target),
        TargetStep::Install(config, backbuffer_len) => installed(target, config, backbuffer_len),
    }
}

/// The target after a sequence of steps, in order.
pub open spec fn after_steps(target: TargetView, steps: Seq<TargetStep>) -> TargetView
    decreases steps.len(),
{
    if steps.len() == 0 {
        target
    } else {
        apply_step(after_steps(target, steps.drop_last()), steps.last())
    }
}

/// The last installation among the steps, if any.
pub open spec fn last_install(steps: Seq<TargetStep>) -> Option<(SwapchainConfig, usize)>
    decreases steps.len(),
{
    if steps.len() == 0 {
        None
    } else {
        match steps.last() {
            TargetStep::Install(config, backbuffer_len) => Some((config, backbuffer_len)),
            TargetStep::Recreate => last_install(steps.drop_last()),
        }
    }
}

/// Each installation comes after a recreation released the swapchain, with a
/// configuration planned for the target's present mode and usage (what
/// `install_swapchain` requires).
pub open spec fn steps_allowed(target: TargetView, steps: Seq<TargetStep>) -> bool
    decreases steps.len(),
{
    if steps.len() == 0 {
        true
    } else {
        let before = after_steps(target, steps.drop_last());
        &&& steps_allowed(target, steps.drop_last())
        &&& match steps.last() {
            TargetStep::Install(config, _) => {
                &&& before.swapchain is None
                &&& config.present_mode == before.present_mode
                &&& config.image_usage == before.usage
            },
            TargetStep::Recreate => true,
        }
    }
}

/// Every swapchain installed in a target bound with `config` is created
/// for the usage and present mode of `config` (and `backbuffer_info` gives
/// the images of its backbuffer the configuration's usage).
pub proof fn law_installed_swapchains_keep_usage(
    surface: Surface,
    device: DeviceId,
    config: SwapchainConfig,
    backbuffer_len: usize,
    steps: Seq<TargetStep>,
)
    requires
        steps_allowed(bound_target(surface, device, config, backbuffer_len), steps),
    ensures
        last_install(steps) matches Some((installed_config, _)) ==> {
            &&& installed_config.image_usage == config.image_usage
            &&& installed_config.present_mode == config.present_mode
        },
    decreases steps.len(),
{
    let target = bound_target(surface, device, config, backbuffer_len);
    if steps.len() > 0 {
        law_installed_swapchains_keep_usage(surface, device, config, backbuffer_len, steps.drop_last());
        law_steps_keep_target(target, steps.drop_last());
    }
}

/// Whatever recreations, failed or not, a target goes through, it keeps its
/// device, its surface, its present mode and its usage, and keeps asking
/// new swapchains for that present mode and usage.
pub proof fn law_steps_keep_target(target: TargetView, steps: Seq<TargetStep>)
    ensures
        after_steps(target, steps).device == target.device,
        after_steps(target, steps).surface == target.surface,
        after_steps(target, steps).present_mode == target.present_mode,
        after_steps(target, steps).usage == target.usage,
        recreate_request(after_steps(target, steps)).present_mode == target.present_mode,
        recreate_request(after_steps(target, steps)).usage == target.usage,
    decreases steps.len(),
{
    if steps.len() > 0 {
        law_steps_keep_target(target, steps.drop_last());
    }
}

/// The backbuffer follows the last step: the images of the swapchain last
/// installed, and none after a recreation that has not (yet) installed one.
pub proof fn law_steps_backbuffer_follows_last_step(target: TargetView, steps: Seq<TargetStep>)
    requires
        steps.len() > 0,
    ensures
        after_steps(target, steps).swapchain == (match steps.last() {
            TargetStep::Install(_, backbuffer_len) => Some(backbuffer_len),
            TargetStep::Recreate => None::<usize>,
        }),
{
}

/// The image size is that of the last installed swapchain; a failed
/// recreation leaves it unchanged.
pub proof fn law_steps_extent_follows_last_install(target: TargetView, steps: Seq<TargetStep>)
    ensures
        after_steps(target, steps).extent == (match last_install(steps) {
            Some((config, _)) => config.extent,
            None => target.extent,
        }),
    decreases steps.len(),
{
    if steps.len() > 0 {
        law_steps_extent_follows_last_install(target, steps.drop_last());
    }
}

/// When the last installed swapchain was planned for a surface with
/// capabilities `caps` and the suggested size `suggest_extent`, the image
/// size is the surface's own size, or the suggestion if it has none.
pub proof fn law_steps_extent_from_last_plan(
    target: TargetView,
    steps: Seq<TargetStep>,
    caps: SurfaceCapabilities,
    formats: Seq<Format>,
    suggest_extent: Extent2D,
    image_count: u32,
    present_mode: PresentMode,
    usage: Usage,
    backbuffer_len: usize,
)
    requires
        last_install(steps) == Some((
            planned_config(caps, formats, suggest_extent, image_count, present_mode, usage),
            backbuffer_len,
        )),
    ensures
        after_steps(target, steps).extent == crate::swapchain::swapchain_extent(caps, suggest_extent),
{
    law_steps_extent_follows_last_install(target, steps);
}

/// Disposing of a target, whatever recreations it went through, gives back
/// the surface it was bound to; it keeps, all along, the usage of the
/// configuration it was bound with, and every swapchain it plans anew is
/// planned for that usage.
pub proof fn law_bound_target_keeps_surface_and_usage(
    surface: Surface,
    device: DeviceId,
    config: SwapchainConfig,
    backbuffer_len: usize,
    steps: Seq<TargetStep>,
    caps: SurfaceCapabilities,
    formats: Seq<Format>,
    suggest_extent: Extent2D,
)
    ensures ({
        let target = after_steps(bound_target(surface, device, config, backbuffer_len), steps);
        let request = recreate_request(target);
        &&& target.surface == surface
        &&& target.usage == config.image_usage
        &&& planned_config(caps, formats, suggest_extent, request.image_count, request.present_mode, request.usage).image_usage
            == config.image_usage
    }),
{
    law_steps_keep_target(bound_target(surface, device, config, backbuffer_len), steps);
}

/// Binding keeps the backbuffer it is given, whatever its length and
/// whatever number of images was asked for: the target holds exactly those
/// images, and a recreation asks for as many (cut to 32 bits), in the bound
/// present mode and for the bound usage.
pub proof fn law_binding_keeps_backbuffer_length(
    surface: Surface,
    device: DeviceId,
    config: SwapchainConfig,
    backbuffer_len: usize,
)
    ensures
        bound_target(surface, device, config, backbuffer_len).swapchain == Some(backbuffer_len),
        recreate_request(bound_target(surface, device, config, backbuffer_len)).image_count == backbuffer_len as u32,
        recreate_request(bound_target(surface, device, config, backbuffer_len)).present_mode == config.present_mode,
        recreate_request(bound_target(surface, device, config, backbuffer_len)).usage == config.image_usage,
        backbuffer_len <= u32::MAX ==> recreate_request(bound_target(surface, device, config, backbuffer_len)).image_count == backbuffer_len,
{
}

} // verus!
