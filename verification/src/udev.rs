//! The display devices of the machine: what is connected to them and what is rendered on them.

use std::collections::HashMap;

use vstd::prelude::*;
use vstd::string::*;

use crate::cursor::{remember_frame, CursorFrame};
use crate::frames::{frame_mode, handle_vblank, DrmEventMetadata, FrameMode, Vblank};
use crate::outputs::{total_width, Output, UdevOutputId};
use crate::placement::Window;
use crate::state::{take_presentation_feedback, windows_shown_on, Element, Smallvil};
use crate::text::append_decimal;

verus! {

broadcast use vstd::std_specs::hash::group_hash_axioms;

/// An output that is driven by a display controller.
#[derive(Debug, Clone, Copy, PartialEq, Eq)]
pub struct SurfaceData {
    /// The device of the controller.
    pub device_id: u64,
    /// The node that renders for the output, if the device has one.
    pub render_node: Option<u64>,
    pub disable_direct_scanout: bool,
    /// When the last frame was presented, in nanoseconds.
    pub last_presentation_time: Option<u128>,
    /// The number of the timer that a vertical blank waits for.
    pub vblank_throttle_timer: Option<u64>,
}

/// A display device.
#[derive(Debug)]
pub struct BackendData {
    /// The outputs of the device, by their display controller.
    pub surfaces: HashMap<u32, SurfaceData>,
    /// The connectors that show no desktop, with their display controllers.
    pub non_desktop_connectors: Vec<(u32, u32)>,
    /// The node that renders for the device, if it has one of its own.
    pub render_node: Option<u64>,
    /// The number of the event source of the device.
    pub registration_token: u64,
}

/// The display devices of the machine.
#[derive(Debug)]
pub struct UdevData {
    /// The node that renders where a device has none of its own.
    pub primary_gpu: u64,
    /// The devices by their nodes.
    pub backends: HashMap<u64, BackendData>,
    /// The pointer images that were drawn before.
    pub pointer_images: Vec<CursorFrame>,
}

/// The two devices differ in their outputs alone.
pub open spec fn same_but_surfaces(a: BackendData, b: BackendData) -> bool {
    &&& a.non_desktop_connectors@ == b.non_desktop_connectors@
    &&& a.render_node == b.render_node
    &&& a.registration_token == b.registration_token
}

/// `new` is `old` with the device of `node` replaced.
pub open spec fn only_backend_differs(old: UdevData, new: UdevData, node: u64) -> bool {
    &&& new.primary_gpu == old.primary_gpu
    &&& new.pointer_images@ == old.pointer_images@
    &&& new.backends@ == old.backends@.insert(node, new.backends@[node])
}

/// `new` is `old` with the output of one display controller replaced.
pub open spec fn only_surface_differs(
    old: UdevData,
    new: UdevData,
    node: u64,
    crtc: u32,
    surface: SurfaceData,
) -> bool {
    &&& only_backend_differs(old, new, node)
    &&& same_but_surfaces(old.backends@[node], new.backends@[node])
    &&& new.backends@[node].surfaces@ == old.backends@[node].surfaces@.insert(crtc, surface)
}

/// The two hold the same.
pub open spec fn nothing_differs(old: UdevData, new: UdevData) -> bool {
    &&& new.primary_gpu == old.primary_gpu
    &&& new.pointer_images@ == old.pointer_images@
    &&& new.backends@ == old.backends@
}

/// `found` is the first output that the controller of a device drives, if any does.
pub open spec fn is_output_of(outputs: Seq<Output>, id: UdevOutputId, found: Option<usize>) -> bool {
    match found {
        Some(index) => {
            &&& index < outputs.len()
            &&& outputs[index as int].udev == Some(id)
            &&& forall|before: int|
                0 <= before < index ==> (#[trigger] outputs[before]).udev != Some(id)
        },
        None => forall|any: int|
            0 <= any < outputs.len() ==> (#[trigger] outputs[any]).udev != Some(id),
    }
}

/// The first output that the controller of a device drives.
pub fn output_of(outputs: &Vec<Output>, id: UdevOutputId) -> (found: Option<usize>)
    ensures
        is_output_of(outputs@, id, found),
{
    let mut index: usize = 0;
    while index < outputs.len()
        invariant
            index <= outputs@.len(),
            forall|before: int|
                0 <= before < index ==> (#[trigger] outputs@[before]).udev != Some(id),
        decreases outputs@.len() - index,
    {
        if let Some(own) = outputs[index].udev {
            if own == id {
                return Some(index);
            }
        }
        index = index + 1;
    }
    None
}

/// What comes of a frame that was finished.
#[derive(Debug, Clone, Copy, PartialEq, Eq)]
pub enum FrameFinish {
    /// There is no such device.
    UnknownBackend,
    /// The device has no such output.
    UnknownCrtc,
    /// The output is not mapped.
    NoOutput,
    /// The output has no mode.
    NoMode,
    /// The frame is looked at again after `delay`.
    Throttled { delay: u128, metadata: DrmEventMetadata },
    /// The frame was presented and is to be submitted.
    Presented { clock: u128, hardware_clock: bool, sequence: u32, frame_duration: u128 },
}

/// What comes of a finished frame of an output that is known.
pub open spec fn frame_outcome(
    surface: SurfaceData,
    frame_duration: Option<Option<u128>>,
    metadata: Option<DrmEventMetadata>,
    now: u128,
) -> FrameFinish {
    match frame_duration {
        None => FrameFinish::NoOutput,
        Some(None) => FrameFinish::NoMode,
        Some(Some(frame_duration)) => match crate::frames::vblank_outcome(
            metadata,
            now,
            surface.last_presentation_time,
            frame_duration,
        ) {
            Vblank::Throttle { delay, metadata } => FrameFinish::Throttled { delay, metadata },
            Vblank::Present { clock, hardware_clock, sequence } => FrameFinish::Presented {
                clock,
                hardware_clock,
                sequence,
                frame_duration,
            },
        },
    }
}

/// What is kept of an output after a frame: no timer, and the time of a frame that was presented.
pub open spec fn after_frame(surface: SurfaceData, finish: FrameFinish) -> SurfaceData {
    SurfaceData {
        vblank_throttle_timer: None,
        last_presentation_time: match finish {
            FrameFinish::Presented { clock, .. } => Some(clock),
            _ => surface.last_presentation_time,
        },
        ..surface
    }
}

/// How long a frame of the output that is found lasts.
pub open spec fn found_frame_duration(outputs: Seq<Output>, found: Option<usize>) -> Option<
    Option<u128>,
> {
    match found {
        Some(index) => Some(outputs[index as int].frame_duration),
        None => None,
    }
}

/// The keys of a map, each once and in no particular order.
fn keys_of<K: Copy + Eq + std::hash::Hash, V>(map: &HashMap<K, V>) -> (keys: Vec<K>)
    requires
        vstd::std_specs::hash::obeys_key_model::<K>(),
    ensures
        keys@.to_set() == map@.dom(),
        keys@.no_duplicates(),
{
    let mut keys: Vec<K> = Vec::new();
    for key in iter: map.keys()
        invariant
            iter.seq().unref().to_set() == map@.dom(),
            iter.seq().no_duplicates(),
            keys@ == iter.seq().unref().take(iter.index() as int),
            iter.index() == iter.seq().len() ==> keys@ =~= iter.seq().unref(),
    {
        keys.push(*key);
        assert(iter.seq().unref().take(iter.index() + 1) =~= iter.seq().unref().take(
            iter.index() as int,
        ).push(*key));
    }
    keys
}

impl UdevData {
    /// Whether the device of `node` drives an output with the display controller `crtc`.
    pub open spec fn has_surface(self, node: u64, crtc: u32) -> bool {
        self.backends@.contains_key(node) && self.backends@[node].surfaces@.contains_key(crtc)
    }

    /// The output that the device of `node` drives with the display controller `crtc`.
    pub open spec fn surface(self, node: u64, crtc: u32) -> SurfaceData {
        self.backends@[node].surfaces@[crtc]
    }

    /// The node that renders for a device.
    pub open spec fn renderer_of(self, backend: BackendData) -> u64 {
        match backend.render_node {
            Some(node) => node,
            None => self.primary_gpu,
        }
    }

    /// Puts the output of a display controller back into its device.
    fn put_surface(&mut self, node: u64, crtc: u32, surface: SurfaceData)
        requires
            old(self).backends@.contains_key(node),
        ensures
            only_surface_differs(*old(self), *final(self), node, crtc, surface),
    {
        if let Some(backend) = self.backends.remove(&node) {
            let mut backend = backend;
            backend.surfaces.insert(crtc, surface);
            self.backends.insert(node, backend);
            assert(self.backends@ =~= old(self).backends@.insert(node, self.backends@[node]));
        }
    }

    /// `finished` and `after` can come of a finished frame.
    pub open spec fn finishes_frame(
        self,
        dev_id: u64,
        crtc: u32,
        outputs: Seq<Output>,
        metadata: Option<DrmEventMetadata>,
        now: u128,
        finished: (Option<u64>, FrameFinish),
        after: Self,
    ) -> bool {
        &&& finished.1 is UnknownBackend <==> !self.backends@.contains_key(dev_id)
        &&& finished.1 is UnknownCrtc <==> self.backends@.contains_key(dev_id) && !self.has_surface(dev_id, crtc)
        &&& !self.has_surface(dev_id, crtc) ==> finished.0 is None && nothing_differs(
            self,
            after,
        )
        &&& self.has_surface(dev_id, crtc) ==> {
            let surface = self.surface(dev_id, crtc);
            &&& finished.0 == surface.vblank_throttle_timer
            &&& exists|found: Option<usize>|
                {
                    &&& #[trigger] is_output_of(
                        outputs,
                        UdevOutputId { device_id: surface.device_id, crtc },
                        found,
                    )
                    &&& finished.1 == frame_outcome(
                        surface,
                        found_frame_duration(outputs, found),
                        metadata,
                        now,
                    )
                }
            &&& only_surface_differs(
                self,
                after,
                dev_id,
                crtc,
                after_frame(surface, finished.1),
            )
        }
    }

    /// Decides what comes of a frame that a display controller has finished. Returns the timer that
    /// is no longer needed, and the outcome.
    pub fn frame_finish(
        &mut self,
        dev_id: u64,
        crtc: u32,
        outputs: &Vec<Output>,
        metadata: &Option<DrmEventMetadata>,
        now: u128,
    ) -> (finished: (Option<u64>, FrameFinish))
        requires
            forall|index: int|
                0 <= index < outputs@.len() ==> ((#[trigger] outputs@[index]).frame_duration matches Some(
                    duration,
                ) ==> duration <= crate::frames::MAX_DURATION),
            crate::frames::hardware_time(*metadata) matches Some(time) ==> time
                <= crate::frames::MAX_DURATION,
        ensures
            old(self).finishes_frame(
                dev_id,
                crtc,
                outputs@,
                *metadata,
                now,
                finished,
                *final(self),
            ),
    {
        let looked_up: Option<SurfaceData> = match self.backends.get(&dev_id) {
            Some(backend) => match backend.surfaces.get(&crtc) {
                Some(surface) => Some(*surface),
                None => None,
            },
            None => {
                return (None, FrameFinish::UnknownBackend);
            },
        };
        let Some(surface) = looked_up else {
            return (None, FrameFinish::UnknownCrtc);
        };
        let cancelled: Option<u64> = surface.vblank_throttle_timer;
        let mut next = SurfaceData { vblank_throttle_timer: None, ..surface };
        let found: Option<usize> = output_of(
            outputs,
            UdevOutputId { device_id: surface.device_id, crtc },
        );
        let finish: FrameFinish = match found {
            None => FrameFinish::NoOutput,
            Some(index) => match outputs[index].frame_duration {
                None => FrameFinish::NoMode,
                Some(frame_duration) => match handle_vblank(
                    metadata,
                    now,
                    surface.last_presentation_time,
                    frame_duration,
                ) {
                    Vblank::Throttle { delay, metadata } => FrameFinish::Throttled {
                        delay,
                        metadata,
                    },
                    Vblank::Present { clock, hardware_clock, sequence } => {
                        next.last_presentation_time = Some(clock);
                        FrameFinish::Presented { clock, hardware_clock, sequence, frame_duration }
                    },
                },
            },
        };
        self.put_surface(dev_id, crtc, next);
        (cancelled, finish)
    }

    /// `after` comes of noting a timer.
    pub open spec fn waits_for_timer(self, dev_id: u64, crtc: u32, timer: u64, after: Self) -> bool {
        only_surface_differs(
            self,
            after,
            dev_id,
            crtc,
            (SurfaceData {
                vblank_throttle_timer: Some(timer),
                ..self.surface(dev_id, crtc)
            }),
        )
    }

    /// Notes the timer that a vertical blank waits for.
    pub fn wait_for_timer(&mut self, dev_id: u64, crtc: u32, timer: u64)
        requires
            old(self).has_surface(dev_id, crtc),
        ensures
            old(self).waits_for_timer(dev_id, crtc, timer, *final(self)),
    {
        let looked_up: Option<SurfaceData> = match self.backends.get(&dev_id) {
            Some(backend) => match backend.surfaces.get(&crtc) {
                Some(surface) => Some(*surface),
                None => None,
            },
            None => None,
        };
        if let Some(surface) = looked_up {
            let waiting = SurfaceData { vblank_throttle_timer: Some(timer), ..surface };
            self.put_surface(dev_id, crtc, waiting);
        }
    }
}

/// Why a device could not be added. The text is that of the failure underneath.
#[derive(Debug)]
pub enum DeviceAddError {
    DeviceOpen(String),
    DrmDevice(String),
    GbmDevice(String),
    DrmNode(String),
    AddNode(String),
    NoRenderNode,
    PrimaryGpuMissing,
}

impl DeviceAddError {
    /// The error in words, as a mathematical value.
    pub open spec fn words(self) -> Seq<char> {
        match self {
            DeviceAddError::DeviceOpen(cause) => "Failed to open device using libseat: "@ + cause@,
            DeviceAddError::DrmDevice(cause) => "Failed to initialize drm device: "@ + cause@,
            DeviceAddError::GbmDevice(cause) => "Failed to initialize gbm device: "@ + cause@,
            DeviceAddError::DrmNode(cause) => "Failed to access drm node: "@ + cause@,
            DeviceAddError::AddNode(cause) => "Failed to add device to GpuManager: "@ + cause@,
            DeviceAddError::NoRenderNode => "The device has no render node"@,
            DeviceAddError::PrimaryGpuMissing => "Primary GPU is missing"@,
        }
    }

    /// The error in words.
    pub fn message(&self) -> (text: String)
        ensures
            text@ == self.words(),
    {
        match self {
            DeviceAddError::DeviceOpen(cause) => String::from_str(
                "Failed to open device using libseat: ",
            ).concat(cause.as_str()),
            DeviceAddError::DrmDevice(cause) => String::from_str(
                "Failed to initialize drm device: ",
            ).concat(cause.as_str()),
            DeviceAddError::GbmDevice(cause) => String::from_str(
                "Failed to initialize gbm device: ",
            ).concat(cause.as_str()),
            DeviceAddError::DrmNode(cause) => String::from_str("Failed to access drm node: ").concat(
                cause.as_str(),
            ),
            DeviceAddError::AddNode(cause) => String::from_str(
                "Failed to add device to GpuManager: ",
            ).concat(cause.as_str()),
            DeviceAddError::NoRenderNode => String::from_str("The device has no render node"),
            DeviceAddError::PrimaryGpuMissing => String::from_str("Primary GPU is missing"),
        }
    }
}

/// What is known of the renderer of a device.
#[derive(Debug, Clone, Copy)]
pub struct EglInfo {
    /// The device renders in software.
    pub software: bool,
    /// The render node that the device reports.
    pub render_node: Option<u64>,
}

/// `picked` is the node that renders for a device, or why it has none.
pub open spec fn picks(
    node: u64,
    renderer: Result<EglInfo, String>,
    picked: Result<u64, DeviceAddError>,
) -> bool {
    match renderer {
        Err(cause) => picked == Err::<u64, DeviceAddError>(DeviceAddError::AddNode(cause)),
        Ok(info) => if info.software {
            picked == Err::<u64, DeviceAddError>(DeviceAddError::NoRenderNode)
        } else {
            picked == Ok::<u64, DeviceAddError>(
                match info.render_node {
                    Some(reported) => reported,
                    None => node,
                },
            )
        },
    }
}

/// The node that renders for a device of its own: the one that it reports, or else the device
/// itself. A device that renders in software has none.
pub fn pick_render_node(node: u64, renderer: Result<EglInfo, String>) -> (picked: Result<
    u64,
    DeviceAddError,
>)
    ensures
        picks(node, renderer, picked),
{
    match renderer {
        Err(cause) => Err(DeviceAddError::AddNode(cause)),
        Ok(info) => if info.software {
            Err(DeviceAddError::NoRenderNode)
        } else {
            Ok(
                match info.render_node {
                    Some(reported) => reported,
                    None => node,
                },
            )
        },
    }
}

/// Where the buffers of a device are allocated.
#[derive(Debug, Clone, Copy, PartialEq, Eq)]
pub enum AllocatorSource {
    /// On the device itself.
    Own,
    /// Where those of another device are.
    Backend(u64),
}

/// A device that is about to be added.
#[derive(Debug, Clone, Copy)]
pub struct DevicePlan {
    /// The node that renders for the device, if it has one of its own.
    pub render_node: Option<u64>,
    pub allocator: AllocatorSource,
    /// The node whose renderer tells which formats can be rendered.
    pub renderer: u64,
}

impl UdevData {
    /// Another device can allocate for one without a render node: the primary one, or one that
    /// renders with the primary node.
    pub open spec fn can_lend_allocator(self, node: u64) -> bool {
        &&& self.backends@.contains_key(node)
        &&& node == self.primary_gpu || self.backends@[node].render_node == Some(self.primary_gpu)
    }

    /// Some device can allocate for one without a render node.
    pub open spec fn has_lender(self) -> bool {
        exists|node: u64| #[trigger] self.can_lend_allocator(node)
    }

    /// The buffers of a device can be allocated at `source`.
    pub open spec fn allocates_at(
        self,
        render_node: Option<u64>,
        source: Result<AllocatorSource, DeviceAddError>,
    ) -> bool {
        &&& render_node is Some ==> source == Ok::<AllocatorSource, DeviceAddError>(
            AllocatorSource::Own,
        )
        &&& render_node is None ==> match source {
            Ok(AllocatorSource::Own) => false,
            Ok(AllocatorSource::Backend(node)) => {
                &&& self.can_lend_allocator(node)
                &&& self.backends@.contains_key(self.primary_gpu) ==> node == self.primary_gpu
            },
            Err(error) => error is PrimaryGpuMissing && !self.has_lender(),
        }
    }

    /// Decides where the buffers of a device are allocated: on itself where it has a render node,
    /// with the primary device otherwise, or with any device that renders on it.
    pub fn allocator_source(&self, render_node: Option<u64>) -> (source: Result<
        AllocatorSource,
        DeviceAddError,
    >)
        ensures
            self.allocates_at(render_node, source),
    {
        if render_node.is_some() {
            return Ok(AllocatorSource::Own);
        }
        if self.backends.contains_key(&self.primary_gpu) {
            return Ok(AllocatorSource::Backend(self.primary_gpu));
        }
        let nodes: Vec<u64> = keys_of(&self.backends);
        let mut index: usize = 0;
        while index < nodes.len()
            invariant
                index <= nodes@.len(),
                render_node is None,
                !self.backends@.contains_key(self.primary_gpu),
                nodes@.to_set() == self.backends@.dom(),
                forall|before: int|
                    0 <= before < index ==> !self.can_lend_allocator(#[trigger] nodes@[before]),
            decreases nodes@.len() - index,
        {
            let node: u64 = nodes[index];
            assert(nodes@.to_set().contains(node));
            if let Some(backend) = self.backends.get(&node) {
                if let Some(renderer) = backend.render_node {
                    if renderer == self.primary_gpu {
                        return Ok(AllocatorSource::Backend(node));
                    }
                }
            }
            index = index + 1;
        }
        assert forall|node: u64| !#[trigger] self.can_lend_allocator(node) by {
            if self.backends@.contains_key(node) {
                assert(nodes@.to_set().contains(node));
                assert(nodes@.contains(node));
            }
        }
        Err(DeviceAddError::PrimaryGpuMissing)
    }
}

impl UdevData {
    /// A device can be added as `plan` says.
    pub open spec fn plans(
        self,
        renderer: Result<u64, DeviceAddError>,
        plan: Result<DevicePlan, DeviceAddError>,
    ) -> bool {
        &&& renderer matches Ok(node) ==> (plan matches Ok(plan) && plan.render_node == Some(node)
            && plan.allocator is Own && plan.renderer == node)
        &&& renderer is Err ==> match plan {
            Ok(plan) => {
                &&& plan.render_node is None
                &&& plan.renderer == self.primary_gpu
                &&& plan.allocator matches AllocatorSource::Backend(node)
                    && self.can_lend_allocator(node) && (self.backends@.contains_key(
                    self.primary_gpu,
                ) ==> node == self.primary_gpu)
            },
            Err(error) => error is PrimaryGpuMissing && !self.has_lender(),
        }
    }

    /// Plans how a device is added once its renderer was set up, or was not: a device whose
    /// renderer failed is used without one, as long as another device can allocate for it.
    pub fn plan_device(&self, renderer: Result<u64, DeviceAddError>) -> (plan: Result<
        DevicePlan,
        DeviceAddError,
    >)
        ensures
            self.plans(renderer, plan),
    {
        let render_node: Option<u64> = match renderer {
            Ok(node) => Some(node),
            Err(_) => None,
        };
        match self.allocator_source(render_node) {
            Ok(allocator) => Ok(
                DevicePlan {
                    render_node,
                    allocator,
                    renderer: match render_node {
                        Some(node) => node,
                        None => self.primary_gpu,
                    },
                },
            ),
            Err(error) => Err(error),
        }
    }

    /// `after` comes of a device that was added.
    pub open spec fn adds_device(
        self,
        node: u64,
        render_node: Option<u64>,
        registration_token: u64,
        after: Self,
    ) -> bool {
        &&& only_backend_differs(self, after, node)
        &&& after.backends@[node].surfaces@ == Map::<u32, SurfaceData>::empty()
        &&& after.backends@[node].non_desktop_connectors@ == Seq::<(u32, u32)>::empty()
        &&& after.backends@[node].render_node == render_node
        &&& after.backends@[node].registration_token == registration_token
    }

    /// Adds a device that nothing is connected to yet.
    pub fn device_added(&mut self, node: u64, render_node: Option<u64>, registration_token: u64)
        ensures
            old(self).adds_device(node, render_node, registration_token, *final(self)),
    {
        self.backends.insert(
            node,
            BackendData {
                surfaces: HashMap::new(),
                non_desktop_connectors: Vec::new(),
                render_node,
                registration_token,
            },
        );
        assert(self.backends@ =~= old(self).backends@.insert(node, self.backends@[node]));
    }

    /// `removed` and `after` come of a device that was removed.
    pub open spec fn removes_device(
        self,
        node: u64,
        removed: Option<(Option<u64>, u64)>,
        after: Self,
    ) -> bool {
        &&& after.primary_gpu == self.primary_gpu
        &&& after.pointer_images@ == self.pointer_images@
        &&& after.backends@ == self.backends@.remove(node)
        &&& removed == (if self.backends@.contains_key(node) {
            let backend = self.backends@[node];
            Some((backend.render_node, backend.registration_token))
        } else {
            None
        })
    }

    /// Forgets a device. Returns its render node and the number of its event source.
    pub fn device_removed(&mut self, node: u64) -> (removed: Option<(Option<u64>, u64)>)
        ensures
            old(self).removes_device(node, removed, *final(self)),
    {
        match self.backends.remove(&node) {
            Some(backend) => Some((backend.render_node, backend.registration_token)),
            None => {
                assert(self.backends@ =~= old(self).backends@);
                None
            },
        }
    }

    /// The node that renders for a device, as a mathematical value.
    pub open spec fn known_renderer(self, node: u64) -> Option<u64> {
        if self.backends@.contains_key(node) {
            Some(self.renderer_of(self.backends@[node]))
        } else {
            None
        }
    }

    /// The node that renders for a device, if there is such a device.
    pub fn renderer_for(&self, node: u64) -> (renderer: Option<u64>)
        ensures
            renderer == self.known_renderer(node),
    {
        match self.backends.get(&node) {
            Some(backend) => Some(
                match backend.render_node {
                    Some(own) => own,
                    None => self.primary_gpu,
                },
            ),
            None => None,
        }
    }
}

/// A change that a scan of the connectors of a device has found.
#[derive(Debug, Clone, Copy, PartialEq, Eq)]
pub enum ScanEvent {
    /// A connector was connected; the controller is the one that can drive it.
    Connected { connector: u32, crtc: Option<u32> },
    /// A connector was disconnected; the controller is the one that drove it.
    Disconnected { connector: u32, crtc: Option<u32> },
}

/// Something that is done after a scan of the connectors of a device.
#[derive(Debug, Clone, Copy, PartialEq, Eq)]
pub enum ScanAction {
    Connect { connector: u32, crtc: u32 },
    Disconnect { connector: u32, crtc: u32 },
}

/// What is done about one change; nothing where no controller is involved.
pub open spec fn scan_action(event: ScanEvent) -> Option<ScanAction> {
    match event {
        ScanEvent::Connected { connector, crtc: Some(crtc) } => Some(
            ScanAction::Connect { connector, crtc },
        ),
        ScanEvent::Disconnected { connector, crtc: Some(crtc) } => Some(
            ScanAction::Disconnect { connector, crtc },
        ),
        _ => None,
    }
}

/// What is done about the changes, in their order.
pub open spec fn scan_actions(events: Seq<ScanEvent>) -> Seq<ScanAction>
    decreases events.len(),
{
    if events.len() == 0 {
        Seq::empty()
    } else {
        let before = scan_actions(events.drop_last());
        match scan_action(events.last()) {
            Some(action) => before.push(action),
            None => before,
        }
    }
}

/// What is known of a connector.
#[derive(Debug)]
pub struct ConnectorInfo {
    /// The number of the connector.
    pub handle: u32,
    /// The name of its kind, such as `HDMI-A`.
    pub interface: String,
    /// Its number among those of its kind.
    pub interface_id: u32,
    /// Its properties by name; those that are a yes or no, with their value.
    pub properties: Vec<(String, Option<bool>)>,
    /// For each mode, whether it is the preferred one.
    pub preferred_modes: Vec<bool>,
    /// The size of the screen in millimetres, where it is known.
    pub size: Option<(u32, u32)>,
}

/// Whether the properties of a connector say that it shows no desktop: the first with that name
/// counts.
pub open spec fn shows_no_desktop(properties: Seq<(String, Option<bool>)>) -> bool
    decreases properties.len(),
{
    if properties.len() == 0 {
        false
    } else if properties[0].0@ == "non-desktop"@ {
        properties[0].1 == Some(true)
    } else {
        shows_no_desktop(properties.skip(1))
    }
}

/// Whether a connector shows no desktop, as glasses for virtual reality do not.
pub fn is_non_desktop(properties: &Vec<(String, Option<bool>)>) -> (non_desktop: bool)
    ensures
        non_desktop == shows_no_desktop(properties@),
{
    let wanted: String = String::from_str("non-desktop");
    let mut index: usize = 0;
    assert(properties@.skip(0) =~= properties@);
    while index < properties.len()
        invariant
            index <= properties@.len(),
            wanted@ == "non-desktop"@,
            shows_no_desktop(properties@) == shows_no_desktop(properties@.skip(index as int)),
        decreases properties@.len() - index,
    {
        assert(properties@.skip(index as int).skip(1) =~= properties@.skip(index + 1));
        if properties[index].0 == wanted {
            return match properties[index].1 {
                Some(value) => value,
                None => false,
            };
        }
        index = index + 1;
    }
    false
}

/// The name of the output of a connector, as a mathematical value.
pub open spec fn connector_name(connector: ConnectorInfo) -> Seq<char> {
    connector.interface@ + "-"@ + crate::text::decimal(connector.interface_id as nat)
}

/// The name of the output of a connector.
pub fn output_name(connector: &ConnectorInfo) -> (name: String)
    ensures
        name@ == connector_name(*connector),
{
    let mut name: String = String::from_str(connector.interface.as_str());
    name.append("-");
    append_decimal(&mut name, connector.interface_id);
    name
}

/// `index` is the first mode that is preferred, or the first of all where none is.
pub open spec fn is_preferred_mode(preferred: Seq<bool>, index: usize) -> bool {
    ||| {
        &&& index < preferred.len()
        &&& preferred[index as int]
        &&& forall|before: int| 0 <= before < index ==> !#[trigger] preferred[before]
    }
    ||| {
        &&& index == 0
        &&& forall|any: int| 0 <= any < preferred.len() ==> !#[trigger] preferred[any]
    }
}

/// The mode that an output starts with.
pub fn preferred_mode(preferred: &Vec<bool>) -> (index: usize)
    ensures
        is_preferred_mode(preferred@, index),
{
    let mut index: usize = 0;
    while index < preferred.len()
        invariant
            index <= preferred@.len(),
            forall|before: int| 0 <= before < index ==> !#[trigger] preferred@[before],
        decreases preferred@.len() - index,
    {
        if preferred[index] {
            return index;
        }
        index = index + 1;
    }
    0
}

/// A length in millimetres as it is told to clients.
pub open spec fn told_length(length: u32) -> int {
    if length <= i32::MAX {
        length as int
    } else {
        length - 0x1_0000_0000
    }
}

/// A length in millimetres as it is told to clients: the bits are kept, the type is not.
pub fn physical_length(length: u32) -> (told: i32)
    ensures
        told == told_length(length),
{
    if length <= i32::MAX as u32 {
        length as i32
    } else {
        let wrapped: i64 = length as i64 - 0x1_0000_0000;
        wrapped as i32
    }
}

/// What comes of a connector that was connected.
#[derive(Debug)]
pub enum ConnectorPlan {
    /// There is no such device.
    UnknownDevice,
    /// What is connected shows no desktop; it is kept in mind and otherwise left alone.
    NonDesktop,
    /// An output is set up.
    Output {
        /// The node that renders for the output.
        renderer: u64,
        name: String,
        /// Who made the monitor, and which one it is. What it tells of itself is not read.
        make: String,
        model: String,
        /// The mode that it starts with.
        mode: usize,
        /// The size of the screen in millimetres, zero where it is unknown.
        physical_size: (i32, i32),
        /// Where the output lies: to the right of all others, at the top.
        x: i32,
        y: i32,
    },
}

/// Whether a connector gets an output.
pub open spec fn gets_output(udev: UdevData, node: u64, connector: ConnectorInfo) -> bool {
    &&& udev.backends@.contains_key(node)
    &&& !shows_no_desktop(connector.properties@)
}

/// What comes of a connector that was disconnected.
#[derive(Debug, Clone, Copy, PartialEq, Eq)]
pub enum Disconnected {
    /// There is no such device.
    UnknownDevice,
    /// What was connected showed no desktop.
    NonDesktop { renderer: u64 },
    /// The output is gone; `output` is the one that is to be unmapped.
    Surface { renderer: u64, output: Option<usize> },
}

/// `found` is the first connector with the number `handle`, if any has it.
pub open spec fn is_connector_at(
    connectors: Seq<(u32, u32)>,
    handle: u32,
    found: Option<usize>,
) -> bool {
    match found {
        Some(index) => {
            &&& index < connectors.len()
            &&& connectors[index as int].0 == handle
            &&& forall|before: int|
                0 <= before < index ==> (#[trigger] connectors[before]).0 != handle
        },
        None => forall|any: int|
            0 <= any < connectors.len() ==> (#[trigger] connectors[any]).0 != handle,
    }
}

fn connector_at(connectors: &Vec<(u32, u32)>, handle: u32) -> (found: Option<usize>)
    ensures
        is_connector_at(connectors@, handle, found),
{
    let mut index: usize = 0;
    while index < connectors.len()
        invariant
            index <= connectors@.len(),
            forall|before: int|
                0 <= before < index ==> (#[trigger] connectors@[before]).0 != handle,
        decreases connectors@.len() - index,
    {
        if connectors[index].0 == handle {
            return Some(index);
        }
        index = index + 1;
    }
    None
}

impl UdevData {
    /// What is done about the changes that a scan has found, as a mathematical value.
    pub open spec fn change_actions(
        self,
        node: u64,
        scan: Option<Vec<ScanEvent>>,
    ) -> Seq<ScanAction> {
        if self.backends@.contains_key(node) && scan is Some {
            scan_actions(scan->0@)
        } else {
            Seq::empty()
        }
    }

    /// Lists what is done about the changes that a scan of the connectors of a device has found;
    /// nothing where the device is unknown or the scan failed.
    pub fn device_changed(&self, node: u64, scan: &Option<Vec<ScanEvent>>) -> (actions: Vec<
        ScanAction,
    >)
        ensures
            actions@ == self.change_actions(node, *scan),
    {
        let mut actions: Vec<ScanAction> = Vec::new();
        if !self.backends.contains_key(&node) {
            return actions;
        }
        let Some(events) = scan else {
            return actions;
        };
        let mut index: usize = 0;
        assert(events@.take(0) =~= Seq::empty());
        while index < events.len()
            invariant
                index <= events@.len(),
                actions@ == scan_actions(events@.take(index as int)),
            decreases events@.len() - index,
        {
            assert(events@.take(index + 1).drop_last() =~= events@.take(index as int));
            match events[index] {
                ScanEvent::Connected { connector, crtc: Some(crtc) } => {
                    actions.push(ScanAction::Connect { connector, crtc });
                },
                ScanEvent::Disconnected { connector, crtc: Some(crtc) } => {
                    actions.push(ScanAction::Disconnect { connector, crtc });
                },
                _ => {},
            }
            index = index + 1;
        }
        assert(events@.take(events@.len() as int) =~= events@);
        actions
    }

    /// `plan` and `after` can come of a connector that was connected.
    pub open spec fn connects(
        self,
        node: u64,
        connector: ConnectorInfo,
        crtc: u32,
        outputs: Seq<Output>,
        plan: ConnectorPlan,
        after: Self,
    ) -> bool {
        &&& plan is UnknownDevice <==> !self.backends@.contains_key(node)
        &&& plan is Output <==> gets_output(self, node, connector)
        &&& plan matches ConnectorPlan::Output {
            renderer,
            name,
            make,
            model,
            mode,
            physical_size,
            x,
            y,
        } ==> {
            &&& renderer == self.renderer_of(self.backends@[node])
            &&& name@ == connector_name(connector)
            &&& make@ == "Unknown"@
            &&& model@ == "Unknown"@
            &&& mode < connector.preferred_modes@.len()
            &&& is_preferred_mode(connector.preferred_modes@, mode)
            &&& physical_size.0 == (match connector.size {
                Some(size) => told_length(size.0),
                None => 0,
            })
            &&& physical_size.1 == (match connector.size {
                Some(size) => told_length(size.1),
                None => 0,
            })
            &&& x == crate::outputs::width_sum(outputs)
            &&& y == 0
        }
        &&& plan is NonDesktop ==> {
            &&& only_backend_differs(self, after, node)
            &&& after.backends@[node].surfaces@ == self.backends@[node].surfaces@
            &&& after.backends@[node].render_node == self.backends@[node].render_node
            &&& after.backends@[node].registration_token == self.backends@[node].registration_token
            &&& after.backends@[node].non_desktop_connectors@ == self.backends@[node].non_desktop_connectors@.push((connector.handle, crtc))
        }
        &&& !(plan is NonDesktop) ==> nothing_differs(self, after)
    }

    /// Decides what comes of a connector that was connected.
    pub fn connector_connected(
        &mut self,
        node: u64,
        connector: &ConnectorInfo,
        crtc: u32,
        outputs: &Vec<Output>,
    ) -> (plan: ConnectorPlan)
        requires
            gets_output(*old(self), node, *connector) ==> {
                &&& connector.preferred_modes@.len() > 0
                &&& crate::outputs::all_mapped(outputs@)
                &&& crate::outputs::widths_fit(outputs@)
            },
        ensures
            old(self).connects(node, *connector, crtc, outputs@, plan, *final(self)),
    {
        let Some(renderer) = self.renderer_for(node) else {
            return ConnectorPlan::UnknownDevice;
        };
        if is_non_desktop(&connector.properties) {
            if let Some(backend) = self.backends.remove(&node) {
                let mut backend = backend;
                backend.non_desktop_connectors.push((connector.handle, crtc));
                self.backends.insert(node, backend);
                assert(self.backends@ =~= old(self).backends@.insert(node, self.backends@[node]));
            }
            return ConnectorPlan::NonDesktop;
        }
        let name: String = output_name(connector);
        let mode: usize = preferred_mode(&connector.preferred_modes);
        let physical_size: (i32, i32) = match connector.size {
            Some(size) => (physical_length(size.0), physical_length(size.1)),
            None => (0, 0),
        };
        let x: i32 = total_width(outputs);
        ConnectorPlan::Output {
            renderer,
            name,
            make: String::from_str("Unknown"),
            model: String::from_str("Unknown"),
            mode,
            physical_size,
            x,
            y: 0,
        }
    }

    /// `after` comes of an output that was set up.
    pub open spec fn adds_surface(
        self,
        node: u64,
        crtc: u32,
        disable_direct_scanout: bool,
        after: Self,
    ) -> bool {
        &&& self.backends@.contains_key(node) ==> only_surface_differs(
            self,
            after,
            node,
            crtc,
            (SurfaceData {
                device_id: node,
                render_node: self.backends@[node].render_node,
                disable_direct_scanout,
                last_presentation_time: None,
                vblank_throttle_timer: None,
            }),
        )
        &&& !self.backends@.contains_key(node) ==> nothing_differs(self, after)
    }

    /// Adds the output of a display controller once it was set up.
    pub fn surface_added(&mut self, node: u64, crtc: u32, disable_direct_scanout: bool)
        ensures
            old(self).adds_surface(node, crtc, disable_direct_scanout, *final(self)),
    {
        let render_node: Option<u64> = match self.backends.get(&node) {
            Some(backend) => backend.render_node,
            None => {
                return;
            },
        };
        self.put_surface(
            node,
            crtc,
            SurfaceData {
                device_id: node,
                render_node,
                disable_direct_scanout,
                last_presentation_time: None,
                vblank_throttle_timer: None,
            },
        );
    }

    /// `gone` and `after` can come of a connector that was disconnected.
    pub open spec fn disconnects(
        self,
        node: u64,
        handle: u32,
        crtc: u32,
        outputs: Seq<Output>,
        gone: Disconnected,
        after: Self,
    ) -> bool {
        &&& !self.backends@.contains_key(node) ==> gone is UnknownDevice && nothing_differs(
            self,
            after,
        )
        &&& self.backends@.contains_key(node) ==> {
            let before = self.backends@[node];
            let kept = after.backends@[node];
            let renderer = self.renderer_of(before);
            &&& only_backend_differs(self, after, node)
            &&& kept.render_node == before.render_node
            &&& kept.registration_token == before.registration_token
            &&& exists|found: Option<usize>| #[trigger]
                is_connector_at(before.non_desktop_connectors@, handle, found) && match found {
                    Some(index) => {
                        &&& gone == (Disconnected::NonDesktop { renderer })
                        &&& kept.non_desktop_connectors@
                            == before.non_desktop_connectors@.remove(index as int)
                        &&& kept.surfaces@ == before.surfaces@
                    },
                    None => {
                        &&& gone matches Disconnected::Surface { renderer: own, output }
                            && own == renderer && is_output_of(
                            outputs,
                            UdevOutputId { device_id: node, crtc },
                            output,
                        )
                        &&& kept.non_desktop_connectors@ == before.non_desktop_connectors@
                        &&& kept.surfaces@ == before.surfaces@.remove(crtc)
                    },
                }
        }
    }

    /// Decides what comes of a connector that was disconnected, and forgets what was connected.
    pub fn connector_disconnected(
        &mut self,
        node: u64,
        handle: u32,
        crtc: u32,
        outputs: &Vec<Output>,
    ) -> (gone: Disconnected)
        ensures
            old(self).disconnects(node, handle, crtc, outputs@, gone, *final(self)),
    {
        let Some(renderer) = self.renderer_for(node) else {
            return Disconnected::UnknownDevice;
        };
        let mut gone: Disconnected = Disconnected::UnknownDevice;
        if let Some(backend) = self.backends.remove(&node) {
            let mut backend = backend;
            let ghost before = backend;
            let found: Option<usize> = connector_at(&backend.non_desktop_connectors, handle);
            assert(is_connector_at(before.non_desktop_connectors@, handle, found));
            match found {
                Some(index) => {
                    let _ = backend.non_desktop_connectors.remove(index);
                    gone = Disconnected::NonDesktop { renderer };
                },
                None => {
                    let _ = backend.surfaces.remove(&crtc);
                    let output: Option<usize> = output_of(
                        outputs,
                        UdevOutputId { device_id: node, crtc },
                    );
                    gone = Disconnected::Surface { renderer, output };
                },
            }
            self.backends.insert(node, backend);
            assert(self.backends@ =~= old(self).backends@.insert(node, self.backends@[node]));
        }
        gone
    }
}

/// What an output is rendered with.
#[derive(Debug, Clone, Copy, PartialEq, Eq)]
pub enum RenderTarget {
    /// The output is not mapped.
    NoOutput,
    /// There is no such device.
    UnknownBackend,
    /// The device has no such output.
    UnknownCrtc,
    /// The output can be rendered.
    Ready {
        /// Which of the outputs it is.
        output: usize,
        /// The node that renders for the output.
        render_node: u64,
        /// The frame is rendered on the primary node and copied to the render node.
        copies: bool,
        mode: FrameMode,
    },
}

/// A step on the way to a frame of an output.
#[derive(Debug, Clone, Copy, PartialEq, Eq)]
pub enum FrameStep {
    /// Tell that there is no such device.
    ReportUnknownBackend,
    /// Put the windows where they are now.
    UpdateWorkspacePosition,
    /// Find the image that the pointer shows.
    FindPointerImage,
    /// Draw the windows and what is above them.
    Draw { output: usize, render_node: u64, copies: bool, mode: FrameMode },
}

/// The steps to a frame of an output, in their order: none where it cannot be rendered. Before a frame
/// is drawn the windows are put where they are now.
pub open spec fn frame_steps(target: RenderTarget) -> Seq<FrameStep> {
    match target {
        RenderTarget::NoOutput => Seq::empty(),
        RenderTarget::UnknownBackend => seq![FrameStep::ReportUnknownBackend],
        RenderTarget::UnknownCrtc => Seq::empty(),
        RenderTarget::Ready { output, render_node, copies, mode } => seq![
            FrameStep::UpdateWorkspacePosition,
            FrameStep::FindPointerImage,
            FrameStep::Draw { output, render_node, copies, mode },
        ],
    }
}

/// An output that can be rendered is drawn, and whenever one is drawn, the windows have been put where
/// they are now before.
pub proof fn windows_are_placed_before_they_are_drawn(target: RenderTarget, drawn: int)
    ensures
        target is Ready ==> frame_steps(target).last() is Draw,
        0 <= drawn < frame_steps(target).len() && frame_steps(target)[drawn] is Draw
            ==> frame_steps(target).take(drawn).contains(FrameStep::UpdateWorkspacePosition),
{
    if 0 <= drawn < frame_steps(target).len() && frame_steps(target)[drawn] is Draw {
        assert(frame_steps(target).take(drawn)[0] == FrameStep::UpdateWorkspacePosition);
    }
}

/// Something that is done once an output was drawn.
#[derive(Debug, Clone, Copy, PartialEq, Eq)]
pub enum DrawnEffect {
    /// Note what the client of a window is to be told when the frame is presented.
    TakeFeedback(Window),
    /// Hand the frame to the hardware.
    QueueFrame,
}

/// What is done once an output was drawn: nothing where there was nothing new to draw.
pub open spec fn drawn_effects(rendered: bool, windows: Seq<Window>) -> Seq<DrawnEffect> {
    if rendered {
        windows.map_values(|window: Window| DrawnEffect::TakeFeedback(window)).push(
            DrawnEffect::QueueFrame,
        )
    } else {
        Seq::empty()
    }
}

/// What is done once an output was drawn, given everything on the screen.
pub open spec fn effects_of_drawing(
    rendered: bool,
    elements: Seq<Element>,
    output: u64,
) -> Seq<DrawnEffect> {
    drawn_effects(rendered, windows_shown_on(elements, output))
}

/// Lists what is done once an output was drawn. The frame is queued if and only if anything was.
pub fn queue_drawn(rendered: bool, elements: &Vec<Element>, output: u64) -> (effects: Vec<
    DrawnEffect,
>)
    ensures
        effects@ == effects_of_drawing(rendered, elements@, output),
        effects@.contains(DrawnEffect::QueueFrame) <==> rendered,
{
    let ghost as_effect = |window: Window| DrawnEffect::TakeFeedback(window);
    let mut effects: Vec<DrawnEffect> = Vec::new();
    if !rendered {
        return effects;
    }
    let windows: Vec<Window> = take_presentation_feedback(elements, output);
    let mut index: usize = 0;
    while index < windows.len()
        invariant
            index <= windows@.len(),
            as_effect == (|window: Window| DrawnEffect::TakeFeedback(window)),
            effects@ == windows@.take(index as int).map_values(as_effect),
        decreases windows@.len() - index,
    {
        effects.push(DrawnEffect::TakeFeedback(windows[index]));
        assert(windows@.take(index + 1).map_values(as_effect) =~= windows@.take(
            index as int,
        ).map_values(as_effect).push(DrawnEffect::TakeFeedback(windows@[index as int])));
        index = index + 1;
    }
    assert(windows@.take(windows@.len() as int) =~= windows@);
    effects.push(DrawnEffect::QueueFrame);
    assert(effects@.last() == DrawnEffect::QueueFrame);
    effects
}

/// What comes of a buffer that a client wants to share.
#[derive(Debug, Clone, Copy, PartialEq, Eq)]
pub enum DmabufImport {
    /// The buffer is used on the node.
    Accepted { node: u64 },
    Rejected,
}

impl UdevData {
    /// The display controllers `crtcs` of a device can be those that are rendered.
    pub open spec fn lists_rendered(self, node: u64, crtc: Option<u32>, crtcs: Option<Vec<u32>>) -> bool {
        &&& crtcs is Some <==> self.backends@.contains_key(node)
        &&& crtcs matches Some(crtcs) ==> match crtc {
            Some(crtc) => crtcs@ == seq![crtc],
            None => {
                &&& crtcs@.no_duplicates()
                &&& forall|any: u32| #[trigger]
                    crtcs@.contains(any) <==> self.has_surface(node, any)
            },
        }
    }

    /// Lists the display controllers of a device that are rendered: the given one, or all that drive
    /// an output, in no particular order. There is no list where there is no such device.
    pub fn render(&self, node: u64, crtc: Option<u32>) -> (crtcs: Option<Vec<u32>>)
        ensures
            self.lists_rendered(node, crtc, crtcs),
    {
        let Some(backend) = self.backends.get(&node) else {
            return None;
        };
        match crtc {
            Some(crtc) => {
                let mut crtcs: Vec<u32> = Vec::new();
                crtcs.push(crtc);
                Some(crtcs)
            },
            None => {
                let crtcs: Vec<u32> = keys_of(&backend.surfaces);
                assert forall|any: u32| #[trigger]
                    crtcs@.contains(any) <==> self.has_surface(node, any) by {
                    assert(crtcs@.to_set().contains(any) <==> crtcs@.contains(any));
                }
                Some(crtcs)
            },
        }
    }

    /// `target` is what an output is rendered with.
    pub open spec fn renders(
        self,
        node: u64,
        crtc: u32,
        outputs: Seq<Output>,
        target: RenderTarget,
    ) -> bool {
        exists|found: Option<usize>| #[trigger]
            is_output_of(outputs, UdevOutputId { device_id: node, crtc }, found) && target == (
            match found {
                None => RenderTarget::NoOutput,
                Some(output) => if !self.backends@.contains_key(node) {
                    RenderTarget::UnknownBackend
                } else if !self.has_surface(node, crtc) {
                    RenderTarget::UnknownCrtc
                } else {
                    let render_node = match self.surface(node, crtc).render_node {
                        Some(own) => own,
                        None => self.primary_gpu,
                    };
                    RenderTarget::Ready {
                        output,
                        render_node,
                        copies: render_node != self.primary_gpu,
                        mode: if self.surface(node, crtc).disable_direct_scanout {
                            FrameMode::Drawn
                        } else {
                            FrameMode::ScannedOut
                        },
                    }
                },
            })
    }

    /// Decides what an output is rendered with: the primary node alone, or, for an output of
    /// another node, with a copy from the one to the other.
    pub fn render_surface(&self, node: u64, crtc: u32, outputs: &Vec<Output>) -> (target: RenderTarget)
        ensures
            self.renders(node, crtc, outputs@, target),
    {
        let found: Option<usize> = output_of(outputs, UdevOutputId { device_id: node, crtc });
        assert(is_output_of(outputs@, UdevOutputId { device_id: node, crtc }, found));
        let Some(output) = found else {
            return RenderTarget::NoOutput;
        };
        let Some(backend) = self.backends.get(&node) else {
            return RenderTarget::UnknownBackend;
        };
        let Some(surface) = backend.surfaces.get(&crtc) else {
            return RenderTarget::UnknownCrtc;
        };
        let render_node: u64 = match surface.render_node {
            Some(own) => own,
            None => self.primary_gpu,
        };
        RenderTarget::Ready {
            output,
            render_node,
            copies: render_node != self.primary_gpu,
            mode: frame_mode(surface.disable_direct_scanout),
        }
    }

    /// `kept` and `after` can come of looking a pointer image up.
    pub open spec fn keeps_image(self, frame: CursorFrame, kept: (usize, bool), after: Self) -> bool {
        &&& crate::cursor::is_frame_at(
            self.pointer_images@,
            frame,
            if kept.1 {
                None
            } else {
                Some(kept.0)
            },
        )
        &&& kept.1 ==> kept.0 == self.pointer_images@.len() && after.pointer_images@
            == self.pointer_images@.push(frame)
        &&& !kept.1 ==> after.pointer_images@ == self.pointer_images@
        &&& after.primary_gpu == self.primary_gpu
        &&& after.backends@ == self.backends@
    }

    /// Looks a pointer image up among those that were drawn before and keeps it if it is new.
    /// Returns where it is and whether it is new.
    pub fn pointer_image(&mut self, frame: CursorFrame) -> (kept: (usize, bool))
        ensures
            old(self).keeps_image(frame, kept, *final(self)),
    {
        remember_frame(&mut self.pointer_images, frame)
    }

    /// What comes of a buffer that a client wants to share, as a mathematical value.
    pub open spec fn import_outcome(self, imported: bool) -> DmabufImport {
        if imported {
            DmabufImport::Accepted { node: self.primary_gpu }
        } else {
            DmabufImport::Rejected
        }
    }

    /// Decides what comes of a buffer that a client wants to share: it is used on the primary node
    /// if that could import it.
    pub fn dmabuf_imported(&self, imported: bool) -> (import: DmabufImport)
        ensures
            import == self.import_outcome(imported),
    {
        if imported {
            DmabufImport::Accepted { node: self.primary_gpu }
        } else {
            DmabufImport::Rejected
        }
    }
}

impl<M> Smallvil<M> {
    /// The steps to a frame of an output can be `steps`.
    pub open spec fn frames_with(
        self,
        node: u64,
        crtc: u32,
        outputs: Seq<Output>,
        steps: Seq<FrameStep>,
    ) -> bool {
        match self.backend_data {
            Some(devices) => exists|target: RenderTarget| #[trigger]
                devices.renders(node, crtc, outputs, target) && steps == frame_steps(target),
            None => steps.len() == 0,
        }
    }

    /// Lists the steps to a frame of the output that a display controller drives; there are none where
    /// it is not mapped.
    pub fn render_surface(&self, node: u64, crtc: u32, outputs: &Vec<Output>) -> (steps: Vec<FrameStep>)
        requires
            self.backend_data is Some || is_output_of(
                outputs@,
                UdevOutputId { device_id: node, crtc },
                None,
            ),
        ensures
            self.frames_with(node, crtc, outputs@, steps@),
    {
        let mut steps: Vec<FrameStep> = Vec::new();
        let Some(devices) = &self.backend_data else {
            return steps;
        };
        let target: RenderTarget = devices.render_surface(node, crtc, outputs);
        match target {
            RenderTarget::NoOutput => {},
            RenderTarget::UnknownBackend => {
                steps.push(FrameStep::ReportUnknownBackend);
            },
            RenderTarget::UnknownCrtc => {},
            RenderTarget::Ready { output, render_node, copies, mode } => {
                steps.push(FrameStep::UpdateWorkspacePosition);
                steps.push(FrameStep::FindPointerImage);
                steps.push(FrameStep::Draw { output, render_node, copies, mode });
            },
        }
        assert(steps@ =~= frame_steps(target));
        steps
    }
}

/// What is drawn on an output, as a mathematical value.
pub open spec fn stacked<E>(custom: Seq<E>, windows: Seq<E>) -> Seq<E> {
    custom + windows
}

/// What is drawn on an output, the topmost first: the elements above the windows, then the windows.
pub fn output_elements<E>(custom: Vec<E>, windows: Vec<E>) -> (elements: Vec<E>)
    ensures
        elements@ == stacked(custom@, windows@),
{
    let mut elements: Vec<E> = custom;
    let mut windows: Vec<E> = windows;
    elements.append(&mut windows);
    elements
}

/// A device that is added and then removed leaves the others as they were.
pub proof fn removed_device_leaves_no_trace(
    before: UdevData,
    added: UdevData,
    after: UdevData,
    node: u64,
)
    requires
        !before.backends@.contains_key(node),
        only_backend_differs(before, added, node),
        after.backends@ == added.backends@.remove(node),
    ensures
        after.backends@ == before.backends@,
{
    assert(after.backends@ =~= before.backends@);
}

/// An output that is added and then removed leaves the others of its device as they were.
pub proof fn removed_output_leaves_no_trace(
    before: UdevData,
    added: UdevData,
    node: u64,
    crtc: u32,
    surface: SurfaceData,
)
    requires
        !before.has_surface(node, crtc),
        before.backends@.contains_key(node),
        only_surface_differs(before, added, node, crtc, surface),
    ensures
        added.has_surface(node, crtc),
        added.surface(node, crtc) == surface,
        added.backends@[node].surfaces@.remove(crtc) == before.backends@[node].surfaces@,
{
    assert(added.backends@[node].surfaces@.remove(crtc) =~= before.backends@[node].surfaces@);
}

/// A change of one output leaves every output of every other controller as it was.
pub proof fn other_outputs_stay(
    before: UdevData,
    after: UdevData,
    node: u64,
    crtc: u32,
    surface: SurfaceData,
    other_node: u64,
    other_crtc: u32,
)
    requires
        before.backends@.contains_key(node),
        only_surface_differs(before, after, node, crtc, surface),
        other_node != node || other_crtc != crtc,
    ensures
        after.has_surface(other_node, other_crtc) == before.has_surface(other_node, other_crtc),
        before.has_surface(other_node, other_crtc) ==> after.surface(other_node, other_crtc)
            == before.surface(other_node, other_crtc),
{
}

/// The output that is found is driven by the controller of the device, and none before it is; where none
/// is found, none is.
pub proof fn found_output_is_driven_by_its_controller(
    outputs: Seq<Output>,
    device_id: u64,
    crtc: u32,
    found: Option<usize>,
    other: int,
)
    requires
        is_output_of(outputs, UdevOutputId { device_id, crtc }, found),
        0 <= other < outputs.len(),
    ensures
        ({
            let driven = |output: Output|
                output.udev matches Some(id) && id.device_id == device_id && id.crtc == crtc;
            match found {
                Some(index) => {
                    &&& index < outputs.len()
                    &&& driven(outputs[index as int])
                    &&& driven(outputs[other]) ==> index <= other
                },
                None => !driven(outputs[other]),
            }
        }),
{
}

/// A finished frame of an output without a mode comes to nothing. Any other is put off if its vertical
/// blank came too early for the last frame, and is presented otherwise. The timer that was waited for is
/// no longer needed either way, and a frame that was presented is the last one then.
pub proof fn finished_frames_are_presented_or_put_off(
    surface: SurfaceData,
    frame_duration: Option<Option<u128>>,
    metadata: Option<DrmEventMetadata>,
    now: u128,
)
    ensures
        ({
            let finish = frame_outcome(surface, frame_duration, metadata, now);
            let after = after_frame(surface, finish);
            &&& frame_duration is None <==> finish is NoOutput
            &&& frame_duration == Some(None::<u128>) <==> finish is NoMode
            &&& frame_duration matches Some(Some(length)) ==> match crate::frames::vblank_outcome(
                metadata,
                now,
                surface.last_presentation_time,
                length,
            ) {
                Vblank::Throttle { delay, metadata: again } => {
                    &&& finish == (FrameFinish::Throttled { delay, metadata: again })
                    &&& after.last_presentation_time == surface.last_presentation_time
                },
                Vblank::Present { clock, hardware_clock, sequence } => {
                    &&& finish == (FrameFinish::Presented {
                        clock,
                        hardware_clock,
                        sequence,
                        frame_duration: length,
                    })
                    &&& after.last_presentation_time == Some(clock)
                },
            }
            &&& !(finish is Presented) ==> after.last_presentation_time
                == surface.last_presentation_time
            &&& after.vblank_throttle_timer is None
            &&& after.device_id == surface.device_id
            &&& after.render_node == surface.render_node
            &&& after.disable_direct_scanout == surface.disable_direct_scanout
        }),
{
}

/// A frame of the output that is found lasts as long as that output says.
pub proof fn found_output_says_how_long_a_frame_lasts(outputs: Seq<Output>, found: Option<usize>)
    ensures
        found is None <==> found_frame_duration(outputs, found) is None,
        found matches Some(index) ==> found_frame_duration(outputs, found) == Some(
            outputs[index as int].frame_duration,
        ),
{
}

/// A change of one output changes nothing else: neither what else is known of its device, nor the other
/// devices, nor the pointer images.
pub proof fn only_one_output_changes(
    before: UdevData,
    after: UdevData,
    node: u64,
    crtc: u32,
    surface: SurfaceData,
    other: u64,
)
    requires
        before.backends@.contains_key(node),
        only_surface_differs(before, after, node, crtc, surface),
    ensures
        after.has_surface(node, crtc),
        after.surface(node, crtc) == surface,
        after.primary_gpu == before.primary_gpu,
        after.pointer_images@ == before.pointer_images@,
        after.backends@.dom() == before.backends@.dom(),
        other != node ==> after.backends@[other] == before.backends@[other],
        after.backends@[node].render_node == before.backends@[node].render_node,
        after.backends@[node].registration_token == before.backends@[node].registration_token,
        after.backends@[node].non_desktop_connectors@
            == before.backends@[node].non_desktop_connectors@,
        after.backends@[node].surfaces@.remove(crtc) == before.backends@[node].surfaces@.remove(
            crtc,
        ),
{
    assert(after.backends@.dom() =~= before.backends@.dom());
    assert(after.backends@[node].surfaces@.remove(crtc) =~= before.backends@[node].surfaces@.remove(
        crtc,
    ));
}

/// What a device holds stays as it is for every other device when one is replaced.
pub proof fn only_one_device_changes(before: UdevData, after: UdevData, node: u64, other: u64)
    requires
        only_backend_differs(before, after, node),
        other != node,
    ensures
        after.primary_gpu == before.primary_gpu,
        after.pointer_images@ == before.pointer_images@,
        after.backends@.contains_key(node),
        after.backends@.contains_key(other) == before.backends@.contains_key(other),
        before.backends@.contains_key(other) ==> after.backends@[other] == before.backends@[other],
{
}

/// A device without a render node of its own is lent an allocator by the primary device, or by one that
/// renders on it; and it is rendered by the primary node.
pub proof fn primary_device_steps_in(devices: UdevData, node: u64, backend: BackendData)
    ensures
        devices.can_lend_allocator(node) <==> devices.backends@.contains_key(node) && (node
            == devices.primary_gpu || devices.backends@[node].render_node == Some(
            devices.primary_gpu,
        )),
        backend.render_node is None ==> devices.renderer_of(backend) == devices.primary_gpu,
        backend.render_node matches Some(own) ==> devices.renderer_of(backend) == own,
{
}

/// Each change of a connector that involves a controller is acted on in its turn, and no other is.
pub proof fn changes_are_acted_on_in_turn(
    first: Seq<ScanEvent>,
    second: Seq<ScanEvent>,
    connector: u32,
    crtc: u32,
)
    ensures
        scan_actions(Seq::empty()) == Seq::<ScanAction>::empty(),
        scan_actions(seq![ScanEvent::Connected { connector, crtc: Some(crtc) }]) == seq![
            ScanAction::Connect { connector, crtc },
        ],
        scan_actions(seq![ScanEvent::Disconnected { connector, crtc: Some(crtc) }]) == seq![
            ScanAction::Disconnect { connector, crtc },
        ],
        scan_actions(seq![ScanEvent::Connected { connector, crtc: None }]) == Seq::<
            ScanAction,
        >::empty(),
        scan_actions(seq![ScanEvent::Disconnected { connector, crtc: None }]) == Seq::<
            ScanAction,
        >::empty(),
        scan_actions(first + second) == scan_actions(first) + scan_actions(second),
    decreases second.len(),
{
    reveal_with_fuel(scan_actions, 2);
    assert(forall|event: ScanEvent| (#[trigger] seq![event]).drop_last() =~= Seq::empty());
    if second.len() == 0 {
        assert(first + second =~= first);
    } else {
        changes_are_acted_on_in_turn(first, second.drop_last(), connector, crtc);
        assert((first + second).drop_last() =~= first + second.drop_last());
    }
}

/// The first property with the name decides whether a connector shows no desktop; without one it shows
/// one.
pub proof fn first_property_decides(properties: Seq<(String, Option<bool>)>, index: int)
    requires
        0 <= index <= properties.len(),
        forall|before: int|
            0 <= before < index ==> (#[trigger] properties[before]).0@ != "non-desktop"@,
    ensures
        index == properties.len() ==> !shows_no_desktop(properties),
        index < properties.len() && properties[index].0@ == "non-desktop"@ ==> (shows_no_desktop(
            properties,
        ) <==> properties[index].1 == Some(true)),
    decreases properties.len(),
{
    if index > 0 {
        let rest = properties.skip(1);
        assert(properties[0].0@ != "non-desktop"@);
        assert forall|before: int| 0 <= before < index - 1 implies (#[trigger] rest[before]).0@
            != "non-desktop"@ by {
            assert(rest[before] == properties[before + 1]);
        }
        first_property_decides(rest, index - 1);
    }
}

/// The name of an output is that of the kind of its connector, then a hyphen, then the number among those
/// of that kind.
pub proof fn output_is_named_after_its_connector(connector: ConnectorInfo)
    ensures
        ({
            let name = connector_name(connector);
            let kind = connector.interface@;
            &&& name.len() > kind.len() + 1
            &&& name.take(kind.len() as int) == kind
            &&& name[kind.len() as int] == '-'
            &&& crate::text::number(name.skip((kind.len() + 1) as int)) == connector.interface_id
        }),
{
    reveal_strlit("-");
    let name = connector_name(connector);
    let kind = connector.interface@;
    let id = crate::text::decimal(connector.interface_id as nat);
    crate::text::decimal_stands_for_its_number(connector.interface_id as nat, 0);
    assert(name.take(kind.len() as int) =~= kind);
    assert(name.skip((kind.len() + 1) as int) =~= id);
}

/// An output starts with a mode that is preferred, and with the first of those; without one, with the
/// first mode.
pub proof fn output_starts_with_a_preferred_mode(preferred: Seq<bool>, index: usize, other: int)
    requires
        is_preferred_mode(preferred, index),
        0 <= other < preferred.len(),
    ensures
        index < preferred.len(),
        preferred[other] ==> preferred[index as int] && index <= other,
        !preferred[index as int] ==> index == 0,
{
}

/// A length that is told to clients keeps its bits.
pub proof fn told_length_keeps_its_bits(length: u32)
    ensures
        i32::MIN <= told_length(length) <= i32::MAX,
        told_length(length) == length || told_length(length) + 0x1_0000_0000 == length,
{
}

/// A connector gets an output if its device is known and no property says that it shows no desktop.
pub proof fn desktops_get_outputs(devices: UdevData, node: u64, connector: ConnectorInfo)
    requires
        forall|index: int|
            0 <= index < connector.properties@.len() ==> (
            #[trigger] connector.properties@[index]).0@ != "non-desktop"@,
    ensures
        gets_output(devices, node, connector) <==> devices.backends@.contains_key(node),
{
    first_property_decides(connector.properties@, connector.properties@.len() as int);
}

/// The connector that is found has the number, and none before it has; where none is found, none has.
pub proof fn found_connector_has_the_number(
    connectors: Seq<(u32, u32)>,
    handle: u32,
    found: Option<usize>,
    other: int,
)
    requires
        is_connector_at(connectors, handle, found),
        0 <= other < connectors.len(),
    ensures
        match found {
            Some(index) => {
                &&& index < connectors.len()
                &&& connectors[index as int].0 == handle
                &&& connectors[other].0 == handle ==> index <= other
            },
            None => connectors[other].0 != handle,
        },
{
}

/// An output that is mapped and whose device and controller are known is rendered by the node of the
/// controller, or else by the primary one; frames are copied where that is another than the primary one,
/// and buffers are scanned out unless that is disabled.
pub proof fn known_outputs_are_rendered(
    devices: UdevData,
    node: u64,
    crtc: u32,
    outputs: Seq<Output>,
    target: RenderTarget,
    found: Option<usize>,
)
    requires
        devices.renders(node, crtc, outputs, target),
        is_output_of(outputs, UdevOutputId { device_id: node, crtc }, found),
    ensures
        found is None <==> target is NoOutput,
        target is UnknownBackend <==> found is Some && !devices.backends@.contains_key(node),
        target is UnknownCrtc <==> found is Some && devices.backends@.contains_key(node)
            && !devices.backends@[node].surfaces@.contains_key(crtc),
        target matches RenderTarget::Ready { output, render_node, copies, mode } ==> {
            let surface = devices.backends@[node].surfaces@[crtc];
            &&& found == Some(output)
            &&& surface.render_node matches Some(own) ==> render_node == own
            &&& surface.render_node is None ==> render_node == devices.primary_gpu
            &&& copies <==> render_node != devices.primary_gpu
            &&& mode is Drawn <==> surface.disable_direct_scanout
        },
{
    let own = choose|own: Option<usize>| #[trigger]
        is_output_of(outputs, UdevOutputId { device_id: node, crtc }, own) && target == (match own {
            None => RenderTarget::NoOutput,
            Some(output) => if !devices.backends@.contains_key(node) {
                RenderTarget::UnknownBackend
            } else if !devices.has_surface(node, crtc) {
                RenderTarget::UnknownCrtc
            } else {
                let render_node = match devices.surface(node, crtc).render_node {
                    Some(own) => own,
                    None => devices.primary_gpu,
                };
                RenderTarget::Ready {
                    output,
                    render_node,
                    copies: render_node != devices.primary_gpu,
                    mode: if devices.surface(node, crtc).disable_direct_scanout {
                        FrameMode::Drawn
                    } else {
                        FrameMode::ScannedOut
                    },
                }
            },
        });
    if let (Some(a), Some(b)) = (own, found) {
        if a < b {
            assert(outputs[a as int].udev != Some(UdevOutputId { device_id: node, crtc }));
        } else if b < a {
            assert(outputs[b as int].udev != Some(UdevOutputId { device_id: node, crtc }));
        }
    }
}

/// An output is drawn once, with what it is rendered with, and only where it can be.
pub proof fn output_is_drawn_with_its_target(target: RenderTarget, step: int)
    requires
        0 <= step < frame_steps(target).len(),
    ensures
        frame_steps(target)[step] matches FrameStep::Draw { output, render_node, copies, mode }
            ==> target == (RenderTarget::Ready { output, render_node, copies, mode }) && step
            == frame_steps(target).len() - 1,
        frame_steps(target)[step] is ReportUnknownBackend <==> target is UnknownBackend,
        target is Ready ==> frame_steps(target).contains(FrameStep::FindPointerImage),
{
    if target is Ready {
        assert(frame_steps(target)[1] is FindPointerImage);
    }
}

/// Once something was drawn, what the client of each window on the output is to be told is noted in its
/// turn, and then the frame is queued; otherwise nothing is done.
pub proof fn drawn_frame_is_queued_last(rendered: bool, windows: Seq<Window>, index: int)
    ensures
        ({
            let effects = drawn_effects(rendered, windows);
            &&& !rendered ==> effects.len() == 0
            &&& rendered ==> effects.len() == windows.len() + 1 && effects.last() is QueueFrame
            &&& rendered && 0 <= index < windows.len() ==> effects[index]
                == DrawnEffect::TakeFeedback(windows[index])
        }),
{
}

/// The clients of the windows on the output that was drawn, and of no others, are to be told when the frame
/// is presented.
pub proof fn clients_on_the_output_are_told(
    rendered: bool,
    elements: Seq<Element>,
    output: u64,
    window: Window,
)
    ensures
        effects_of_drawing(rendered, elements, output).contains(DrawnEffect::QueueFrame)
            <==> rendered,
        effects_of_drawing(rendered, elements, output).contains(DrawnEffect::TakeFeedback(window))
            <==> rendered && exists|index: int|
            {
                &&& 0 <= index < elements.len()
                &&& #[trigger] elements[index].window == window
                &&& elements[index].outputs@.contains(output)
            },
{
    let windows = windows_shown_on(elements, output);
    let effects = effects_of_drawing(rendered, elements, output);
    crate::state::shown_windows_are_on_the_output(elements, output, window);
    if rendered {
        assert(effects.last() is QueueFrame);
        assert(windows.contains(window) ==> effects[windows.index_of(window)]
            == DrawnEffect::TakeFeedback(window));
        if effects.contains(DrawnEffect::TakeFeedback(window)) {
            let at = effects.index_of(DrawnEffect::TakeFeedback(window));
            assert(windows[at] == window);
        }
    }
}

/// Each kind of error has words of its own.
pub proof fn errors_have_their_words(error: DeviceAddError)
    ensures
        match error {
            DeviceAddError::DeviceOpen(cause) => error.words()
                == "Failed to open device using libseat: "@ + cause@,
            DeviceAddError::DrmDevice(cause) => error.words() == "Failed to initialize drm device: "@
                + cause@,
            DeviceAddError::GbmDevice(cause) => error.words() == "Failed to initialize gbm device: "@
                + cause@,
            DeviceAddError::DrmNode(cause) => error.words() == "Failed to access drm node: "@
                + cause@,
            DeviceAddError::AddNode(cause) => error.words()
                == "Failed to add device to GpuManager: "@ + cause@,
            DeviceAddError::NoRenderNode => error.words() == "The device has no render node"@,
            DeviceAddError::PrimaryGpuMissing => error.words() == "Primary GPU is missing"@,
        },
{
}

/// An error in words ends with its cause, if it has one, and says something before.
pub proof fn error_tells_its_cause(error: DeviceAddError, cause: String)
    requires
        error == DeviceAddError::DeviceOpen(cause) || error == DeviceAddError::DrmDevice(cause)
            || error == DeviceAddError::GbmDevice(cause) || error == DeviceAddError::DrmNode(cause)
            || error == DeviceAddError::AddNode(cause),
    ensures
        error.words().len() > cause@.len(),
        error.words().skip(error.words().len() - cause@.len()) == cause@,
{
    reveal_strlit("Failed to open device using libseat: ");
    reveal_strlit("Failed to initialize drm device: ");
    reveal_strlit("Failed to initialize gbm device: ");
    reveal_strlit("Failed to access drm node: ");
    reveal_strlit("Failed to add device to GpuManager: ");
    assert(error.words().skip(error.words().len() - cause@.len()) =~= cause@);
}

/// A finished frame of an output that is known ends the wait for its timer, and hands that timer back. What
/// comes of the frame goes by the output that the controller drives and by when the last frame of this output
/// was presented; the frame is presented or put off if that output is mapped and has a mode. Nothing changes
/// for an output that is not known.
pub proof fn finished_frame_ends_the_wait(
    before: UdevData,
    node: u64,
    crtc: u32,
    outputs: Seq<Output>,
    metadata: Option<DrmEventMetadata>,
    now: u128,
    finished: (Option<u64>, FrameFinish),
    after: UdevData,
    found: Option<usize>,
)
    requires
        before.finishes_frame(node, crtc, outputs, metadata, now, finished, after),
        is_output_of(
            outputs,
            UdevOutputId { device_id: before.backends@[node].surfaces@[crtc].device_id, crtc },
            found,
        ),
    ensures
        !before.backends@.contains_key(node) ==> finished.1 is UnknownBackend,
        before.backends@.contains_key(node) && !before.backends@[node].surfaces@.contains_key(crtc)
            ==> finished.1 is UnknownCrtc,
        !before.has_surface(node, crtc) ==> finished.0 is None && after.backends@
            == before.backends@,
        before.has_surface(node, crtc) ==> {
            let surface = before.backends@[node].surfaces@[crtc];
            let kept = after.backends@[node].surfaces@[crtc];
            &&& finished.0 == surface.vblank_throttle_timer
            &&& kept.vblank_throttle_timer is None
            &&& kept.render_node == surface.render_node && kept.device_id == surface.device_id
            &&& kept.disable_direct_scanout == surface.disable_direct_scanout
            &&& found is None ==> finished.1 is NoOutput
            &&& found matches Some(index) ==> {
                &&& outputs[index as int].frame_duration is None ==> finished.1 is NoMode
                &&& outputs[index as int].frame_duration matches Some(length)
                    ==> match crate::frames::vblank_outcome(
                    metadata,
                    now,
                    surface.last_presentation_time,
                    length,
                ) {
                    Vblank::Throttle { delay, metadata: again } => finished.1 == (
                    FrameFinish::Throttled { delay, metadata: again }),
                    Vblank::Present { clock, hardware_clock, sequence } => finished.1 == (
                    FrameFinish::Presented {
                        clock,
                        hardware_clock,
                        sequence,
                        frame_duration: length,
                    }),
                }
            }
            &&& finished.1 matches FrameFinish::Presented { clock, .. }
                ==> kept.last_presentation_time == Some(clock)
            &&& !(finished.1 is Presented) ==> kept.last_presentation_time
                == surface.last_presentation_time
        },
        after.primary_gpu == before.primary_gpu,
        after.pointer_images@ == before.pointer_images@,
        after.backends@.dom() == before.backends@.dom(),
        after.backends@.remove(node) == before.backends@.remove(node),
        after.backends@[node].surfaces@.remove(crtc) == before.backends@[node].surfaces@.remove(
            crtc,
        ),
        after.backends@[node].non_desktop_connectors@
            == before.backends@[node].non_desktop_connectors@,
        after.backends@[node].render_node == before.backends@[node].render_node,
        after.backends@[node].registration_token == before.backends@[node].registration_token,
{
    if before.has_surface(node, crtc) {
        let surface = before.surface(node, crtc);
        let id = UdevOutputId { device_id: surface.device_id, crtc };
        let own = choose|own: Option<usize>|
            #[trigger] is_output_of(outputs, id, own) && finished.1 == frame_outcome(
                surface,
                found_frame_duration(outputs, own),
                metadata,
                now,
            );
        if let (Some(a), Some(b)) = (own, found) {
            if a < b {
                assert(outputs[a as int].udev != Some(id));
            } else if b < a {
                assert(outputs[b as int].udev != Some(id));
            }
        }
        assert(own == found);
    }
    assert(after.backends@.dom() =~= before.backends@.dom());
    assert(after.backends@.remove(node) =~= before.backends@.remove(node));
    assert(after.backends@[node].surfaces@.remove(crtc) =~= before.backends@[node].surfaces@.remove(
        crtc,
    ));
}

/// The timer that is noted for an output is the one that its next frame no longer needs.
pub proof fn noted_timer_is_handed_back(
    before: UdevData,
    node: u64,
    crtc: u32,
    timer: u64,
    waiting: UdevData,
    outputs: Seq<Output>,
    metadata: Option<DrmEventMetadata>,
    now: u128,
    finished: (Option<u64>, FrameFinish),
    after: UdevData,
)
    requires
        before.has_surface(node, crtc),
        before.waits_for_timer(node, crtc, timer, waiting),
        waiting.finishes_frame(node, crtc, outputs, metadata, now, finished, after),
    ensures
        finished.0 == Some(timer),
        waiting.surface(node, crtc).last_presentation_time == before.surface(
            node,
            crtc,
        ).last_presentation_time,
        waiting.surface(node, crtc).render_node == before.surface(node, crtc).render_node,
        waiting.surface(node, crtc).device_id == before.surface(node, crtc).device_id,
        waiting.surface(node, crtc).disable_direct_scanout == before.surface(
            node,
            crtc,
        ).disable_direct_scanout,
{
}

/// A device that does not render in software renders with the node that it reports, or with its own; one
/// that does has none, and a failure underneath is passed on.
pub proof fn hardware_renders_for_itself(
    node: u64,
    renderer: Result<EglInfo, String>,
    picked: Result<u64, DeviceAddError>,
)
    requires
        picks(node, renderer, picked),
    ensures
        picked is Ok <==> (renderer matches Ok(info) && !info.software),
        renderer matches Ok(info) ==> {
            &&& info.software ==> (picked matches Err(error) && error is NoRenderNode)
            &&& !info.software ==> (info.render_node matches Some(reported) ==> picked == Ok::<
                u64,
                DeviceAddError,
            >(reported))
            &&& !info.software ==> (info.render_node is None ==> picked == Ok::<u64, DeviceAddError>(
                node,
            ))
        },
        renderer matches Err(cause) ==> picked == Err::<u64, DeviceAddError>(
            DeviceAddError::AddNode(cause),
        ),
{
}

/// A device with a renderer allocates on itself and renders with it. One without is added exactly if some
/// device can lend it an allocator, which is the primary one if that is there; the primary node renders for
/// it then.
pub proof fn device_without_a_renderer_borrows_one(
    devices: UdevData,
    renderer: Result<u64, DeviceAddError>,
    plan: Result<DevicePlan, DeviceAddError>,
    other: u64,
)
    requires
        devices.plans(renderer, plan),
    ensures
        renderer matches Ok(node) ==> (plan matches Ok(made) && made.render_node == Some(node)
            && made.allocator is Own && made.renderer == node),
        renderer is Err ==> (plan matches Ok(made) ==> {
            &&& made.render_node is None
            &&& made.renderer == devices.primary_gpu
            &&& made.allocator matches AllocatorSource::Backend(lender)
            &&& devices.backends@.contains_key(lender)
            &&& lender != devices.primary_gpu ==> {
                &&& !devices.backends@.contains_key(devices.primary_gpu)
                &&& devices.backends@[lender].render_node == Some(devices.primary_gpu)
            }
        }),
        renderer is Err && devices.backends@.contains_key(other) && (other == devices.primary_gpu
            || devices.backends@[other].render_node == Some(devices.primary_gpu)) ==> plan is Ok,
        plan matches Err(error) ==> error is PrimaryGpuMissing,
{
    if plan is Err {
        assert(!devices.can_lend_allocator(other));
    }
}

/// Buffers are allocated on a device that renders itself; for another they are allocated where it borrows.
pub proof fn buffers_are_allocated_where_they_can_be(
    devices: UdevData,
    render_node: Option<u64>,
    source: Result<AllocatorSource, DeviceAddError>,
    other: u64,
)
    requires
        devices.allocates_at(render_node, source),
    ensures
        render_node is Some <==> (source matches Ok(place) && place is Own),
        source matches Ok(AllocatorSource::Backend(lender)) ==> {
            &&& devices.backends@.contains_key(lender)
            &&& lender != devices.primary_gpu ==> {
                &&& !devices.backends@.contains_key(devices.primary_gpu)
                &&& devices.backends@[lender].render_node == Some(devices.primary_gpu)
            }
        },
        devices.backends@.contains_key(other) && (other == devices.primary_gpu
            || devices.backends@[other].render_node == Some(devices.primary_gpu)) ==> source is Ok,
        source matches Err(error) ==> error is PrimaryGpuMissing,
{
    if source is Err {
        assert(!devices.can_lend_allocator(other));
    }
}

/// A device that is added drives nothing yet. Removing it hands back what it was added with, and leaves the
/// others as they were; removing one that is not there changes nothing.
pub proof fn removed_device_is_handed_back(
    before: UdevData,
    node: u64,
    render_node: Option<u64>,
    registration_token: u64,
    added: UdevData,
    removed: Option<(Option<u64>, u64)>,
    after: UdevData,
    other: u64,
)
    requires
        before.adds_device(node, render_node, registration_token, added),
        added.removes_device(node, removed, after),
        other != node,
    ensures
        added.backends@.contains_key(node),
        forall|crtc: u32| !added.has_surface(node, crtc),
        added.backends@[node].non_desktop_connectors@.len() == 0,
        added.renderer_of(added.backends@[node]) == (if render_node is Some {
            render_node->0
        } else {
            before.primary_gpu
        }),
        removed == Some((render_node, registration_token)),
        !after.backends@.contains_key(node),
        after.primary_gpu == before.primary_gpu,
        after.pointer_images@ == before.pointer_images@,
        after.backends@.contains_key(other) == before.backends@.contains_key(other),
        after.backends@[other] == before.backends@[other],
{
}

/// Removing a device that is not there changes nothing.
pub proof fn unknown_device_is_not_removed(
    before: UdevData,
    node: u64,
    removed: Option<(Option<u64>, u64)>,
    after: UdevData,
)
    requires
        before.removes_device(node, removed, after),
        !before.backends@.contains_key(node),
    ensures
        removed is None,
        after.backends@ == before.backends@,
{
    assert(after.backends@ =~= before.backends@);
}

/// A connector that shows a desktop gets an output to the right of all others, at the top, so that no output
/// that is mapped lies there. One that shows none is kept in mind with its controller.
pub proof fn connected_output_lies_beside_the_others(
    before: UdevData,
    node: u64,
    connector: ConnectorInfo,
    crtc: u32,
    outputs: Seq<Output>,
    plan: ConnectorPlan,
    after: UdevData,
    other: int,
)
    requires
        before.connects(node, connector, crtc, outputs, plan, after),
        0 <= other < connector.preferred_modes@.len(),
    ensures
        plan is UnknownDevice <==> !before.backends@.contains_key(node),
        before.backends@.contains_key(node) ==> (plan is NonDesktop <==> shows_no_desktop(
            connector.properties@,
        )),
        plan matches ConnectorPlan::Output {
            renderer,
            name,
            make,
            model,
            mode,
            physical_size,
            x,
            y,
        } ==> {
            &&& before.backends@[node].render_node matches Some(own) ==> renderer == own
            &&& before.backends@[node].render_node is None ==> renderer == before.primary_gpu
            &&& name@ == connector.interface@ + "-"@ + crate::text::decimal(
                connector.interface_id as nat,
            )
            &&& make@ == "Unknown"@ && model@ == "Unknown"@
            &&& connector.preferred_modes@[other] ==> connector.preferred_modes@[mode as int] && mode
                <= other
            &&& !connector.preferred_modes@[mode as int] ==> mode == 0
            &&& connector.size is None ==> physical_size.0 == 0 && physical_size.1 == 0
            &&& connector.size matches Some((across, down)) ==> {
                &&& across <= i32::MAX ==> physical_size.0 == across
                &&& across > i32::MAX ==> physical_size.0 + 0x1_0000_0000 == across
                &&& down <= i32::MAX ==> physical_size.1 == down
                &&& down > i32::MAX ==> physical_size.1 + 0x1_0000_0000 == down
            }
            &&& x == crate::outputs::width_sum(outputs) && y == 0
            &&& after.backends@ == before.backends@
        },
        plan is NonDesktop ==> {
            let kept = after.backends@[node].non_desktop_connectors@;
            &&& kept == before.backends@[node].non_desktop_connectors@.push((connector.handle, crtc))
            &&& after.backends@[node].surfaces@ == before.backends@[node].surfaces@
            &&& after.backends@[node].render_node == before.backends@[node].render_node
            &&& after.backends@[node].registration_token
                == before.backends@[node].registration_token
        },
        after.primary_gpu == before.primary_gpu,
        after.pointer_images@ == before.pointer_images@,
        after.backends@.dom() == before.backends@.dom(),
        after.backends@.remove(node) == before.backends@.remove(node),
{
    assert(after.backends@.dom() =~= before.backends@.dom());
    assert(after.backends@.remove(node) =~= before.backends@.remove(node));
}

/// What shows no desktop is forgotten when it is disconnected again: everything is as it was before it was
/// connected, and no output is touched.
pub proof fn disconnected_glasses_leave_no_trace(
    before: UdevData,
    node: u64,
    connector: ConnectorInfo,
    crtc: u32,
    outputs: Seq<Output>,
    plan: ConnectorPlan,
    connected: UdevData,
    later_crtc: u32,
    gone: Disconnected,
    after: UdevData,
)
    requires
        before.connects(node, connector, crtc, outputs, plan, connected),
        plan is NonDesktop,
        is_connector_at(before.backends@[node].non_desktop_connectors@, connector.handle, None),
        connected.disconnects(node, connector.handle, later_crtc, outputs, gone, after),
    ensures
        gone is NonDesktop,
        gone->NonDesktop_renderer == before.renderer_of(before.backends@[node]),
        after.backends@[node].non_desktop_connectors@
            == before.backends@[node].non_desktop_connectors@,
        after.backends@[node].surfaces@ == before.backends@[node].surfaces@,
        after.backends@.remove(node) == before.backends@.remove(node),
{
    let own = before.backends@[node].non_desktop_connectors@;
    let kept = connected.backends@[node].non_desktop_connectors@;
    let renderer = connected.renderer_of(connected.backends@[node]);
    let last = connected.backends@[node];
    let found = choose|found: Option<usize>| #[trigger]
        is_connector_at(kept, connector.handle, found) && match found {
            Some(index) => {
                &&& gone == (Disconnected::NonDesktop { renderer })
                &&& after.backends@[node].non_desktop_connectors@ == kept.remove(index as int)
                &&& after.backends@[node].surfaces@ == last.surfaces@
            },
            None => {
                &&& gone matches Disconnected::Surface { renderer: own, output } && own == renderer
                    && is_output_of(outputs, UdevOutputId { device_id: node, crtc: later_crtc }, output)
                &&& after.backends@[node].non_desktop_connectors@ == kept
                &&& after.backends@[node].surfaces@ == last.surfaces@.remove(later_crtc)
            },
        };
    assert(kept[own.len() as int].0 == connector.handle);
    if let Some(index) = found {
        if index < own.len() {
            assert(kept[index as int] == own[index as int]);
        }
        assert(kept.remove(own.len() as int) =~= own);
    }
    assert(after.backends@.remove(node) =~= before.backends@.remove(node));
}

/// An output that is set up belongs to its device and controller, renders as its device does, was not
/// presented yet and waits for nothing. It is rendered with all others of the device until it is
/// disconnected; then it is gone, the first output that the controller drove is unmapped, and every other
/// is as it was.
pub proof fn output_is_rendered_until_it_is_disconnected(
    before: UdevData,
    node: u64,
    crtc: u32,
    disable_direct_scanout: bool,
    added: UdevData,
    listed: Option<Vec<u32>>,
    handle: u32,
    outputs: Seq<Output>,
    gone: Disconnected,
    after: UdevData,
    rest: Option<Vec<u32>>,
    other: u32,
)
    requires
        before.backends@.contains_key(node),
        before.adds_surface(node, crtc, disable_direct_scanout, added),
        added.lists_rendered(node, None, listed),
        is_connector_at(before.backends@[node].non_desktop_connectors@, handle, None),
        added.disconnects(node, handle, crtc, outputs, gone, after),
        after.lists_rendered(node, None, rest),
        other != crtc,
    ensures
        added.backends@[node].surfaces@[crtc] == (SurfaceData {
            device_id: node,
            render_node: before.backends@[node].render_node,
            disable_direct_scanout,
            last_presentation_time: None,
            vblank_throttle_timer: None,
        }),
        listed matches Some(crtcs) && crtcs@.contains(crtc) && (crtcs@.contains(other)
            <==> before.backends@[node].surfaces@.contains_key(other)),
        gone matches Disconnected::Surface { renderer, output } && renderer == before.renderer_of(
            before.backends@[node],
        ) && is_output_of(outputs, UdevOutputId { device_id: node, crtc }, output),
        rest matches Some(crtcs) && !crtcs@.contains(crtc) && (crtcs@.contains(other)
            <==> before.backends@[node].surfaces@.contains_key(other)),
        added.backends@[node].surfaces@.remove(crtc) == before.backends@[node].surfaces@.remove(
            crtc,
        ),
        after.backends@[node].surfaces@ == before.backends@[node].surfaces@.remove(crtc),
        after.backends@[node].non_desktop_connectors@
            == before.backends@[node].non_desktop_connectors@,
        after.backends@[node].render_node == before.backends@[node].render_node,
        after.backends@[node].registration_token == before.backends@[node].registration_token,
        after.primary_gpu == before.primary_gpu,
        after.pointer_images@ == before.pointer_images@,
        after.backends@.remove(node) == before.backends@.remove(node),
{
    assert(added.has_surface(node, crtc));
    assert(!after.has_surface(node, crtc));
    let kept = before.backends@[node].non_desktop_connectors@;
    assert(added.backends@[node].non_desktop_connectors@ == kept);
    assert forall|found: Option<usize>| #[trigger] is_connector_at(kept, handle, found) implies found
        is None by {
        if let Some(index) = found {
            assert(kept[index as int].0 == handle);
        }
    }
    assert(after.backends@[node].surfaces@ =~= before.backends@[node].surfaces@.remove(crtc));
    assert(added.backends@[node].surfaces@.remove(crtc) =~= before.backends@[node].surfaces@.remove(
        crtc,
    ));
    assert(after.has_surface(node, other) == before.has_surface(node, other));
    assert(added.has_surface(node, other) == before.has_surface(node, other));
    assert(after.backends@.remove(node) =~= before.backends@.remove(node));
}

/// Nothing changes where the device of a connector is not known.
pub proof fn unknown_device_is_left_alone(
    before: UdevData,
    node: u64,
    handle: u32,
    crtc: u32,
    outputs: Seq<Output>,
    gone: Disconnected,
    after: UdevData,
    disable_direct_scanout: bool,
    added: UdevData,
    listed: Option<Vec<u32>>,
)
    requires
        !before.backends@.contains_key(node),
        before.disconnects(node, handle, crtc, outputs, gone, after),
        before.adds_surface(node, crtc, disable_direct_scanout, added),
        before.lists_rendered(node, Some(crtc), listed),
    ensures
        gone is UnknownDevice,
        after.backends@ == before.backends@,
        added.backends@ == before.backends@,
        listed is None,
{
}

/// Where one controller of a device is to be rendered, it is the only one; where all are, each that drives
/// an output is rendered once.
pub proof fn each_output_is_rendered_once(
    devices: UdevData,
    node: u64,
    one: u32,
    listed: Option<Vec<u32>>,
    all: Option<Vec<u32>>,
    first: int,
    second: int,
)
    requires
        devices.backends@.contains_key(node),
        devices.lists_rendered(node, Some(one), listed),
        devices.lists_rendered(node, None, all),
    ensures
        listed matches Some(crtcs) && crtcs@.len() == 1 && crtcs@[0] == one,
        all is Some,
        all->0@.contains(one) <==> devices.backends@[node].surfaces@.contains_key(one),
        0 <= first < second < all->0@.len() ==> all->0@[first] != all->0@[second],
{
    assert(all->0@.contains(one) <==> devices.has_surface(node, one));
}

/// A pointer image that is new is kept, and is found again afterwards, where it was kept; one that was drawn
/// before is not kept twice.
pub proof fn pointer_image_is_kept_once(
    before: UdevData,
    frame: CursorFrame,
    kept: (usize, bool),
    between: UdevData,
    again: (usize, bool),
    after: UdevData,
)
    requires
        before.keeps_image(frame, kept, between),
        between.keeps_image(frame, again, after),
    ensures
        !again.1,
        again.0 == kept.0,
        kept.0 < between.pointer_images@.len(),
        between.pointer_images@[kept.0 as int].equals(frame),
        before.pointer_images@.is_prefix_of(between.pointer_images@),
        kept.1 <==> between.pointer_images@.len() == before.pointer_images@.len() + 1,
        !kept.1 ==> between.pointer_images@ == before.pointer_images@,
        after.pointer_images@ == between.pointer_images@,
        after.backends@ == before.backends@,
        after.primary_gpu == before.primary_gpu,
{
    let images = between.pointer_images@;
    assert(images[kept.0 as int].equals(frame));
    if again.1 {
        assert(!images[kept.0 as int].equals(frame));
    } else if again.0 < kept.0 {
        assert(images[again.0 as int] == before.pointer_images@[again.0 as int]);
    } else if kept.0 < again.0 {
        assert(!images[kept.0 as int].equals(frame));
    }
}

/// An output that can be rendered is rendered in three steps: the windows are put where they are, the image
/// of the pointer is found, and the output is drawn. For any other nothing is drawn, and only that its device
/// is unknown is told.
pub proof fn frame_of_an_output_is_made_in_steps<M>(
    state: Smallvil<M>,
    node: u64,
    crtc: u32,
    outputs: Seq<Output>,
    steps: Seq<FrameStep>,
    found: Option<usize>,
)
    requires
        state.backend_data is Some,
        state.frames_with(node, crtc, outputs, steps),
        is_output_of(outputs, UdevOutputId { device_id: node, crtc }, found),
    ensures
        ({
            let devices = state.backend_data->0;
            &&& found is None ==> steps.len() == 0
            &&& found is Some && !devices.backends@.contains_key(node) ==> steps.len() == 1
                && steps[0] is ReportUnknownBackend
            &&& devices.backends@.contains_key(node)
                && !devices.backends@[node].surfaces@.contains_key(crtc) ==> steps.len() == 0
            &&& found is Some && devices.has_surface(node, crtc) ==> {
                let surface = devices.backends@[node].surfaces@[crtc];
                &&& steps.len() == 3
                &&& steps[0] is UpdateWorkspacePosition
                &&& steps[1] is FindPointerImage
                &&& steps[2] matches FrameStep::Draw { output, render_node, copies, mode }
                &&& found == Some(output)
                &&& surface.render_node matches Some(own) ==> render_node == own
                &&& surface.render_node is None ==> render_node == devices.primary_gpu
                &&& copies <==> render_node != devices.primary_gpu
                &&& mode is Drawn <==> surface.disable_direct_scanout
            }
        }),
{
    let devices = state.backend_data->0;
    let target = choose|target: RenderTarget| #[trigger]
        devices.renders(node, crtc, outputs, target) && steps == frame_steps(target);
    known_outputs_are_rendered(devices, node, crtc, outputs, target, found);
}

/// Changes are acted on exactly if the device is known and could be scanned, and then all in their turn. A
/// known device is rendered by its own node or else by the primary one. A buffer is used on the primary node
/// exactly if that could import it.
pub proof fn known_devices_are_served(
    devices: UdevData,
    node: u64,
    scan: Option<Vec<ScanEvent>>,
    imported: bool,
)
    ensures
        !devices.backends@.contains_key(node) ==> devices.known_renderer(node) is None
            && devices.change_actions(node, scan).len() == 0,
        scan is None ==> devices.change_actions(node, scan).len() == 0,
        devices.backends@.contains_key(node) ==> {
            &&& scan matches Some(events) ==> devices.change_actions(node, scan) == scan_actions(
                events@,
            )
            &&& devices.backends@[node].render_node is None ==> devices.known_renderer(node) == Some(
                devices.primary_gpu,
            )
            &&& devices.backends@[node].render_node is Some ==> devices.known_renderer(node)
                == devices.backends@[node].render_node
        },
        imported ==> (devices.import_outcome(imported) matches DmabufImport::Accepted { node: used }
            && used == devices.primary_gpu),
        !imported ==> devices.import_outcome(imported) is Rejected,
{
}

/// The elements above the windows are drawn above them: each window comes after all of those, in its turn.
pub proof fn windows_lie_below_everything_else<E>(custom: Seq<E>, windows: Seq<E>, index: int)
    ensures
        stacked(custom, windows).len() == custom.len() + windows.len(),
        0 <= index < custom.len() ==> stacked(custom, windows)[index] == custom[index],
        0 <= index < windows.len() ==> stacked(custom, windows)[custom.len() + index]
            == windows[index],
{
}

} // verus!
