//! The render context and its builder.
//!
//! The library decides; it never drives the GPU. A context owns the live GPU
//! objects as values of types it does not look into, and every method that
//! stands for GPU work takes the outcome of that work as an argument or
//! leaves the work to the caller, who finds in the context what to do it with.

use vstd::prelude::*;
use crate::gpu::{
    default_dx12_compiler,
    default_limits,
    default_power_preference,
    device_features,
    device_limits,
    empty_features,
    is_default_dx12_compiler,
    is_default_limits,
    is_default_power_preference,
    is_empty_features,
    is_primary_backends,
    primary_backends,
};
use crate::error::{PiksellError, PiksellSurfaceError};
use crate::surface::{
    PiksellSurfaceCapabilities,
    PiksellSurfaceCapabilitiesView,
    PiksellSurfaceConfiguration,
    PiksellSurfaceConfigurationView,
};
use crate::util::{
    PiksellAlphaMode,
    PiksellBackends,
    PiksellColor,
    PiksellDeviceFeatures,
    PiksellDeviceLimits,
    PiksellDx12Compiler,
    PiksellPowerPreference,
    PiksellPresentMode,
    PiksellSize,
};

verus! {

/// Collects the options of a render context.
#[derive(Debug)]
pub struct PiksellStateBuilder {
    backends: PiksellBackends,
    dx12_shader_compiler: PiksellDx12Compiler,
    power_preference: PiksellPowerPreference,
    force_fallback_adapter: bool,
    device_label: Option<String>,
    device_features: PiksellDeviceFeatures,
    device_limits: PiksellDeviceLimits,
    present_mode: Option<PiksellPresentMode>,
    alpha_mode: Option<PiksellAlphaMode>,
}

/// The options that a builder holds.
pub struct PiksellStateBuilderView {
    pub backends: PiksellBackends,
    pub dx12_shader_compiler: PiksellDx12Compiler,
    pub power_preference: PiksellPowerPreference,
    pub force_fallback_adapter: bool,
    pub device_label: Option<Seq<char>>,
    pub device_features: PiksellDeviceFeatures,
    pub device_limits: PiksellDeviceLimits,
    pub present_mode: Option<PiksellPresentMode>,
    pub alpha_mode: Option<PiksellAlphaMode>,
}

impl PiksellStateBuilderView {
    /// Whether every option has its default: the primary backends, the GPU
    /// library's own choice of compiler, power preference and limits, no
    /// fallback adapter forced, no label, no feature, and both modes left to
    /// the adapter.
    pub open spec fn is_default(self) -> bool {
        &&& is_primary_backends(self.backends)
        &&& is_default_dx12_compiler(self.dx12_shader_compiler)
        &&& is_default_power_preference(self.power_preference)
        &&& !self.force_fallback_adapter
        &&& self.device_label is None
        &&& is_empty_features(self.device_features)
        &&& is_default_limits(self.device_limits)
        &&& self.present_mode is None
        &&& self.alpha_mode is None
    }
}

impl View for PiksellStateBuilder {
    type V = PiksellStateBuilderView;

    closed spec fn view(&self) -> PiksellStateBuilderView {
        PiksellStateBuilderView {
            backends: self.backends,
            dx12_shader_compiler: self.dx12_shader_compiler,
            power_preference: self.power_preference,
            force_fallback_adapter: self.force_fallback_adapter,
            device_label: match self.device_label {
                Some(label) => Some(label@),
                None => None,
            },
            device_features: self.device_features,
            device_limits: self.device_limits,
            present_mode: self.present_mode,
            alpha_mode: self.alpha_mode,
        }
    }
}

impl Default for PiksellStateBuilder {
    /// The builder with every option at its default.
    fn default() -> (builder: Self)
        ensures
            builder@.is_default(),
    {
        Self {
            backends: primary_backends(),
            dx12_shader_compiler: default_dx12_compiler(),
            power_preference: default_power_preference(),
            force_fallback_adapter: false,
            device_label: None,
            device_features: empty_features(),
            device_limits: default_limits(),
            present_mode: None,
            alpha_mode: None,
        }
    }
}

impl PiksellStateBuilder {
    /// The builder with every option at its default.
    pub fn new() -> (builder: Self)
        ensures
            builder@.is_default(),
    {
        Self::default()
    }

    /// Restricts the backends that are enumerated.
    pub fn with_backends(self, backends: PiksellBackends) -> (builder: Self)
        ensures
            builder@ == (PiksellStateBuilderView { backends, ..self@ }),
    {
        let mut builder = self;
        builder.backends = backends;
        builder
    }

    /// Chooses the DX12 shader compiler.
    pub fn with_dx12_compiler(self, compiler: PiksellDx12Compiler) -> (builder: Self)
        ensures
            builder@ == (PiksellStateBuilderView { dx12_shader_compiler: compiler, ..self@ }),
    {
        let mut builder = self;
        builder.dx12_shader_compiler = compiler;
        builder
    }

    /// Sets the power preference of the adapter request.
    pub fn with_power_preference(self, preference: PiksellPowerPreference) -> (builder: Self)
        ensures
            builder@ == (PiksellStateBuilderView { power_preference: preference, ..self@ }),
    {
        let mut builder = self;
        builder.power_preference = preference;
        builder
    }

    /// Sets whether the adapter request asks for a fallback adapter only.
    pub fn with_force_fallback_adapter(self, force: bool) -> (builder: Self)
        ensures
            builder@ == (PiksellStateBuilderView { force_fallback_adapter: force, ..self@ }),
    {
        let mut builder = self;
        builder.force_fallback_adapter = force;
        builder
    }

    /// Gives the device a label.
    pub fn with_device_label(self, label: &str) -> (builder: Self)
        ensures
            builder@ == (PiksellStateBuilderView { device_label: Some(label@), ..self@ }),
    {
        let mut builder = self;
        builder.device_label = Some(label.to_owned());
        builder
    }

    /// Sets the optional features that are requested of the device.
    pub fn with_device_features(self, features: PiksellDeviceFeatures) -> (builder: Self)
        ensures
            builder@ == (PiksellStateBuilderView { device_features: features, ..self@ }),
    {
        let mut builder = self;
        builder.device_features = features;
        builder
    }

    /// Sets the limits that are requested of the device.
    pub fn with_device_limits(self, limits: PiksellDeviceLimits) -> (builder: Self)
        ensures
            builder@ == (PiksellStateBuilderView { device_limits: limits, ..self@ }),
    {
        let mut builder = self;
        builder.device_limits = limits;
        builder
    }

    /// Requests a presentation mode in place of the first advertised one.
    pub fn with_present_mode(self, mode: PiksellPresentMode) -> (builder: Self)
        ensures
            builder@ == (PiksellStateBuilderView { present_mode: Some(mode), ..self@ }),
    {
        let mut builder = self;
        builder.present_mode = Some(mode);
        builder
    }

    /// Requests an alpha mode in place of the first advertised one.
    pub fn with_alpha_mode(self, mode: PiksellAlphaMode) -> (builder: Self)
        ensures
            builder@ == (PiksellStateBuilderView { alpha_mode: Some(mode), ..self@ }),
    {
        let mut builder = self;
        builder.alpha_mode = Some(mode);
        builder
    }

    /// The backends that the instance is created with and that adapters are
    /// enumerated from.
    pub fn backends(&self) -> (backends: PiksellBackends)
        ensures
            backends == self@.backends,
    {
        self.backends
    }

    /// The DX12 shader compiler that the instance is created with.
    pub fn dx12_shader_compiler(&self) -> (compiler: &PiksellDx12Compiler)
        ensures
            *compiler == self@.dx12_shader_compiler,
    {
        &self.dx12_shader_compiler
    }

    /// The power preference of the adapter request.
    pub fn power_preference(&self) -> (preference: PiksellPowerPreference)
        ensures
            preference == self@.power_preference,
    {
        self.power_preference
    }

    /// Whether the adapter request asks for a fallback adapter only.
    pub fn force_fallback_adapter(&self) -> (force: bool)
        ensures
            force == self@.force_fallback_adapter,
    {
        self.force_fallback_adapter
    }

    /// The label that the device is requested with.
    pub fn device_label(&self) -> (label: Option<&str>)
        ensures
            match label {
                Some(text) => self@.device_label == Some(text@),
                None => self@.device_label is None,
            },
    {
        match &self.device_label {
            Some(text) => Some(text.as_str()),
            None => None,
        }
    }

    /// The optional features that the device is requested with.
    pub fn device_features(&self) -> (features: PiksellDeviceFeatures)
        ensures
            features == self@.device_features,
    {
        self.device_features
    }

    /// The limits that the device is requested with.
    pub fn device_limits(&self) -> (limits: &PiksellDeviceLimits)
        ensures
            *limits == self@.device_limits,
    {
        &self.device_limits
    }

    /// The requested presentation mode, if one was requested.
    pub fn present_mode(&self) -> (mode: Option<PiksellPresentMode>)
        ensures
            mode == self@.present_mode,
    {
        self.present_mode
    }

    /// The requested alpha mode, if one was requested.
    pub fn alpha_mode(&self) -> (mode: Option<PiksellAlphaMode>)
        ensures
            mode == self@.alpha_mode,
    {
        self.alpha_mode
    }

    /// What the instance is created from. Adapters are enumerated from the
    /// same backends.
    pub fn instance_request(&self) -> (request: PiksellInstanceRequest<'_>)
        ensures
            request.backends == self@.backends,
            *request.dx12_shader_compiler == self@.dx12_shader_compiler,
    {
        PiksellInstanceRequest {
            backends: self.backends,
            dx12_shader_compiler: &self.dx12_shader_compiler,
        }
    }

    /// What the adapter is requested with: the power preference, whether only
    /// a fallback adapter will do, and always that the adapter can present to
    /// the surface.
    pub fn adapter_request(&self) -> (request: PiksellAdapterRequest)
        ensures
            request == (PiksellAdapterRequest {
                power_preference: self@.power_preference,
                force_fallback_adapter: self@.force_fallback_adapter,
                compatible_with_surface: true,
            }),
    {
        PiksellAdapterRequest {
            power_preference: self.power_preference,
            force_fallback_adapter: self.force_fallback_adapter,
            compatible_with_surface: true,
        }
    }

    /// What the device and queue are requested with.
    pub fn device_request(&self) -> (request: PiksellDeviceRequest<'_>)
        ensures
            match request.label {
                Some(text) => self@.device_label == Some(text@),
                None => self@.device_label is None,
            },
            request.features == self@.device_features,
            *request.limits == self@.device_limits,
    {
        PiksellDeviceRequest {
            label: self.device_label(),
            features: self.device_features,
            limits: &self.device_limits,
        }
    }

    /// Puts the context together once the GPU objects exist: chooses the
    /// surface format and the two modes from `capabilities`, and assembles the
    /// surface configuration for a surface of `size`. The surface itself is
    /// left as it is: it is configured by the first `resize`.
    ///
    /// `capabilities` is what `surface` advertises for `adapter`.
    pub fn build<I, S, A, D, Q>(
        self,
        size: PiksellSize,
        instance: I,
        surface: S,
        adapter: A,
        device: D,
        queue: Q,
        capabilities: PiksellSurfaceCapabilities,
    ) -> (state: PiksellState<I, S, A, D, Q>)
        requires
            capabilities@.can_configure(self@.present_mode, self@.alpha_mode),
        ensures
            state.wf(),
            state@.window_size == size,
            state@.instance == instance,
            state@.surface == surface,
            state@.adapter == adapter,
            state@.device == device,
            state@.queue == queue,
            state@.surface_capabilities == capabilities@,
            capabilities@.assembles(
                self@.present_mode,
                self@.alpha_mode,
                size,
                state@.surface_configuration,
            ),
            !state@.configured,
    {
        let assembled = capabilities.assemble(self.present_mode, self.alpha_mode, size);
        let surface_configuration = assembled.unwrap();
        PiksellState {
            window_size: size,
            instance,
            surface,
            surface_capabilities: capabilities,
            surface_configuration,
            adapter,
            device,
            queue,
            configured: false,
        }
    }
}

/// What an instance is created from.
#[derive(Debug)]
pub struct PiksellInstanceRequest<'a> {
    /// The backends to enable.
    pub backends: PiksellBackends,
    /// The shader compiler of the DX12 backend.
    pub dx12_shader_compiler: &'a PiksellDx12Compiler,
}

/// What an adapter is requested with.
#[derive(Debug, Clone, Copy, PartialEq, Eq)]
pub struct PiksellAdapterRequest {
    /// Whether low power or high performance is preferred.
    pub power_preference: PiksellPowerPreference,
    /// Whether only a fallback adapter will do.
    pub force_fallback_adapter: bool,
    /// Whether the adapter has to be able to present to the surface of the
    /// context.
    pub compatible_with_surface: bool,
}

/// What a device and its queue are requested with.
#[derive(Debug)]
pub struct PiksellDeviceRequest<'a> {
    /// The debug label of the device.
    pub label: Option<&'a str>,
    /// The optional features that the device is to have.
    pub features: PiksellDeviceFeatures,
    /// The limits that the device is to meet.
    pub limits: &'a PiksellDeviceLimits,
}

/// How a render pass treats what its color attachment already holds.
#[derive(Debug, Clone, Copy, PartialEq)]
pub enum PiksellLoadOp {
    /// Clear the attachment to the color.
    Clear(PiksellColor),
    /// Keep what the attachment holds.
    Load,
}

/// The one render pass of a frame: a single color attachment on a default
/// view of the acquired texture, without depth, stencil or resolve target,
/// and without draw calls.
#[derive(Debug, Clone, Copy, PartialEq)]
pub struct PiksellRenderPass {
    /// What happens to the attachment when the pass begins.
    pub load: PiksellLoadOp,
    /// Whether the attachment is written back when the pass ends.
    pub store: bool,
}

/// The debug label of the command encoder of a frame.
pub const RENDER_ENCODER_LABEL: &'static str = "Piksell Render Encoder";

/// The debug label of the render pass of a frame.
pub const RENDER_PASS_LABEL: &'static str = "Piksell State Render Pass";

/// The pass of a frame that is cleared to `clear_color`, or that keeps what
/// the frame holds where no color is given. The attachment is always stored.
pub open spec fn frame_pass(clear_color: Option<PiksellColor>) -> PiksellRenderPass {
    PiksellRenderPass {
        load: match clear_color {
            Some(color) => PiksellLoadOp::Clear(color),
            None => PiksellLoadOp::Load,
        },
        store: true,
    }
}

/// What a frame comes to: where the next texture was acquired, that texture
/// and the pass to encode on it; where it was not, the failure, with its
/// reason kept.
pub open spec fn frame_outcome<F>(
    clear_color: Option<PiksellColor>,
    acquired: Result<F, PiksellSurfaceError>,
) -> Result<(F, PiksellRenderPass), PiksellError> {
    match acquired {
        Ok(frame) => Ok((frame, frame_pass(clear_color))),
        Err(reason) => Err(PiksellError::SurfaceAcquire(reason)),
    }
}

/// The surface that construction goes on with, given what creating it for the
/// window came to: a refusal of the platform is the failure
/// `SurfaceCreation`.
pub fn created_surface<S, E>(outcome: Result<S, E>) -> (surface: Result<S, PiksellError>)
    ensures
        match outcome {
            Ok(created) => surface == Ok::<S, PiksellError>(created),
            Err(_) => surface == Err::<S, PiksellError>(PiksellError::SurfaceCreation),
        },
{
    match outcome {
        Ok(created) => Ok(created),
        Err(_) => Err(PiksellError::SurfaceCreation),
    }
}

/// The device and queue that construction goes on with, given what
/// requesting them of the adapter came to: a refusal of the adapter is the
/// failure `DeviceRequest`.
pub fn granted_device<D, Q, E>(outcome: Result<(D, Q), E>) -> (granted: Result<
    (D, Q),
    PiksellError,
>)
    ensures
        match outcome {
            Ok(pair) => granted == Ok::<(D, Q), PiksellError>(pair),
            Err(_) => granted == Err::<(D, Q), PiksellError>(PiksellError::DeviceRequest),
        },
{
    match outcome {
        Ok(pair) => Ok(pair),
        Err(_) => Err(PiksellError::DeviceRequest),
    }
}

/// A live render context: one instance, surface, adapter, device and queue,
/// with what the surface advertises for the adapter and the configuration
/// that the surface has or is about to get.
///
/// The context owns the five GPU objects and hands them out. It is generic in
/// their types: it drives none of them, and asks only a `wgpu` device, for
/// its features and limits.
#[derive(Debug)]
pub struct PiksellState<I, S, A, D, Q> {
    window_size: PiksellSize,
    instance: I,
    surface: S,
    surface_capabilities: PiksellSurfaceCapabilities,
    surface_configuration: PiksellSurfaceConfiguration,
    adapter: A,
    device: D,
    queue: Q,
    configured: bool,
}

/// What a context holds.
pub struct PiksellStateView<I, S, A, D, Q> {
    pub window_size: PiksellSize,
    pub instance: I,
    pub surface: S,
    pub surface_capabilities: PiksellSurfaceCapabilitiesView,
    pub surface_configuration: PiksellSurfaceConfigurationView,
    pub adapter: A,
    pub device: D,
    pub queue: Q,
    /// Whether a `resize` has succeeded, so that the surface has been given a
    /// configuration.
    pub configured: bool,
}

impl<I, S, A, D, Q> PiksellStateView<I, S, A, D, Q> {
    /// The configuration has the size of the window, and a surface is only
    /// ever configured with a size whose dimensions are both positive.
    pub open spec fn well_formed(self) -> bool {
        &&& self.surface_configuration.width == self.window_size.width
        &&& self.surface_configuration.height == self.window_size.height
        &&& self.configured ==> self.window_size.has_area()
    }

    /// The context after a `resize` to `size`: with that size as the size of
    /// the window and of the configuration, and the surface configured. A
    /// size without area changes nothing.
    pub open spec fn resized(self, size: PiksellSize) -> Self {
        if size.has_area() {
            PiksellStateView {
                window_size: size,
                surface_configuration: self.surface_configuration.with_size(size),
                configured: true,
                ..self
            }
        } else {
            self
        }
    }
}

impl<I, S, A, D, Q> View for PiksellState<I, S, A, D, Q> {
    type V = PiksellStateView<I, S, A, D, Q>;

    closed spec fn view(&self) -> PiksellStateView<I, S, A, D, Q> {
        PiksellStateView {
            window_size: self.window_size,
            instance: self.instance,
            surface: self.surface,
            surface_capabilities: self.surface_capabilities@,
            surface_configuration: self.surface_configuration@,
            adapter: self.adapter,
            device: self.device,
            queue: self.queue,
            configured: self.configured,
        }
    }
}

impl<I, S, A, D, Q> PiksellState<I, S, A, D, Q> {
    /// The invariant of a context, which `build` establishes and `resize`
    /// keeps.
    pub open spec fn wf(&self) -> bool {
        self@.well_formed()
    }

    /// Takes the window's new size into the context and into its surface
    /// configuration. A size with a zero dimension is rejected and changes
    /// nothing.
    ///
    /// After `Ok` the surface is to be configured against the device with
    /// `surface_configuration()`.
    pub fn resize(&mut self, new_size: PiksellSize) -> (outcome: Result<(), PiksellError>)
        ensures
            final(self)@ == old(self)@.resized(new_size),
            new_size.has_area() ==> outcome == Ok::<(), PiksellError>(()),
            !new_size.has_area() ==> outcome == Err::<(), PiksellError>(PiksellError::InvalidSize),
    {
        if !new_size.has_area() {
            return Err(PiksellError::InvalidSize);
        }
        self.window_size = new_size;
        self.surface_configuration.width = new_size.width;
        self.surface_configuration.height = new_size.height;
        self.configured = true;
        Ok(())
    }

    /// The instance.
    pub fn get_instance(&self) -> (instance: &I)
        ensures
            *instance == self@.instance,
    {
        &self.instance
    }

    /// The adapter that was selected.
    pub fn get_adapter(&self) -> (adapter: &A)
        ensures
            *adapter == self@.adapter,
    {
        &self.adapter
    }

    /// The surface that frames are presented to.
    pub fn get_surface(&self) -> (surface: &S)
        ensures
            *surface == self@.surface,
    {
        &self.surface
    }

    /// The device that the surface is configured against.
    pub fn get_device(&self) -> (device: &D)
        ensures
            *device == self@.device,
    {
        &self.device
    }

    /// The queue that command buffers are submitted to.
    pub fn get_queue(&self) -> (queue: &Q)
        ensures
            *queue == self@.queue,
    {
        &self.queue
    }

    /// The size of the window as of the last `resize`, or as given to `build`.
    pub fn window_size(&self) -> (size: PiksellSize)
        ensures
            size == self@.window_size,
    {
        self.window_size
    }

    /// The current surface configuration.
    pub fn surface_configuration(&self) -> (configuration: &PiksellSurfaceConfiguration)
        ensures
            configuration@ == self@.surface_configuration,
    {
        &self.surface_configuration
    }

    /// Whether a `resize` has succeeded, so that frames can be rendered.
    pub fn is_configured(&self) -> (configured: bool)
        ensures
            configured == self@.configured,
    {
        self.configured
    }

    /// A copy of what the surface advertises for the adapter.
    pub fn get_surface_capabilities(&self) -> (capabilities: PiksellSurfaceCapabilities)
        ensures
            capabilities@ == self@.surface_capabilities,
    {
        self.surface_capabilities.snapshot()
    }

    /// Decides one frame without geometry. `acquired` is what acquiring the
    /// next swapchain texture from the surface came to: the texture, or the
    /// reason why there is none.
    ///
    /// On `Ok` the caller encodes the returned pass on a default view of the
    /// texture in a single command encoder, submits the one command buffer
    /// and presents the texture. On `Err` nothing is encoded and nothing is
    /// retried: after `Outdated` or `Lost` it is for the caller to `resize`
    /// and render again.
    pub fn render<F>(
        &self,
        clear_color: Option<PiksellColor>,
        acquired: Result<F, PiksellSurfaceError>,
    ) -> (outcome: Result<(F, PiksellRenderPass), PiksellError>)
        requires
            self@.configured,
        ensures
            outcome == frame_outcome(clear_color, acquired),
    {
        match acquired {
            Ok(frame) => {
                let load = match clear_color {
                    Some(color) => PiksellLoadOp::Clear(color),
                    None => PiksellLoadOp::Load,
                };
                Ok((frame, PiksellRenderPass { load, store: true }))
            },
            Err(reason) => Err(PiksellError::SurfaceAcquire(reason)),
        }
    }
}

impl<I, S, A, Q> PiksellState<I, S, A, wgpu::Device, Q> {
    /// The features that the device of this context was created with.
    pub fn get_device_features(&self) -> (features: PiksellDeviceFeatures)
        ensures
            features == crate::gpu::reported_features(self@.device),
    {
        device_features(&self.device)
    }

    /// The limits that the device of this context was created with.
    pub fn get_device_limits(&self) -> (limits: PiksellDeviceLimits)
        ensures
            limits == crate::gpu::reported_limits(self@.device),
    {
        device_limits(&self.device)
    }
}

/// Resizing twice to the same size is resizing once: a second `resize` with
/// the size of the first changes nothing. After a `resize` to a size with
/// area the window and the configuration have that size, and a `resize`
/// keeps a context well formed.
pub proof fn lemma_resize_idempotent<I, S, A, D, Q>(
    state: PiksellStateView<I, S, A, D, Q>,
    size: PiksellSize,
)
    ensures
        state.resized(size).resized(size) == state.resized(size),
        size.has_area() ==> {
            &&& state.resized(size).surface_configuration.width == size.width
            &&& state.resized(size).surface_configuration.height == size.height
            &&& state.resized(size).window_size == size
        },
        state.well_formed() ==> state.resized(size).well_formed(),
{
}

} // verus!
