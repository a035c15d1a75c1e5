//! What the library takes from `wgpu` without proof: the types whose values it
//! carries, and the few values and answers it asks for.
//!
//! The library never looks inside a value of these types. Where a contract has
//! to speak of one, it does so through the spec functions declared here, whose
//! meaning is given by the `wgpu` item that each one is named after.

use vstd::prelude::*;

verus! {

/// `wgpu::Backends`: a set of GPU backends.
#[verifier::external_type_specification]
#[verifier::external_body]
pub struct ExBackends(wgpu::Backends);

/// `wgpu::Dx12Compiler`: a choice of HLSL compiler.
#[verifier::external_type_specification]
#[verifier::external_body]
pub struct ExDx12Compiler(wgpu::Dx12Compiler);

/// `wgpu::PowerPreference`: a preference between low power and high
/// performance.
#[verifier::external_type_specification]
#[verifier::external_body]
pub struct ExPowerPreference(wgpu::PowerPreference);

/// `wgpu::Features`: a set of optional device features.
#[verifier::external_type_specification]
#[verifier::external_body]
pub struct ExFeatures(wgpu::Features);

/// `wgpu::Limits`: a device limit descriptor.
#[verifier::external_type_specification]
#[verifier::external_body]
pub struct ExLimits(wgpu::Limits);

/// `wgpu::TextureFormat`: the format of a texture.
#[verifier::external_type_specification]
#[verifier::external_body]
pub struct ExTextureFormat(wgpu::TextureFormat);

/// `wgpu::PresentMode`: a policy for presenting frames.
#[verifier::external_type_specification]
#[verifier::external_body]
pub struct ExPresentMode(wgpu::PresentMode);

/// `wgpu::CompositeAlphaMode`: a policy for compositing alpha.
#[verifier::external_type_specification]
#[verifier::external_body]
pub struct ExCompositeAlphaMode(wgpu::CompositeAlphaMode);

/// `wgpu::TextureUsages`: a set of texture usages.
#[verifier::external_type_specification]
#[verifier::external_body]
pub struct ExTextureUsages(wgpu::TextureUsages);

/// `wgpu::Color`: an RGBA color.
#[verifier::external_type_specification]
#[verifier::external_body]
pub struct ExColor(wgpu::Color);

/// `wgpu::Device`: a handle to a logical device.
#[verifier::external_type_specification]
#[verifier::external_body]
pub struct ExDevice(wgpu::Device);

/// Whether `format` keeps its colors in the sRGB color space: the answer of
/// `wgpu::TextureFormat::is_srgb`.
pub uninterp spec fn format_is_srgb(format: wgpu::TextureFormat) -> bool;

/// Whether `backends` is the set `wgpu::Backends::PRIMARY`.
pub uninterp spec fn is_primary_backends(backends: wgpu::Backends) -> bool;

/// Whether `compiler` is the choice that `wgpu::Dx12Compiler::default` makes.
pub uninterp spec fn is_default_dx12_compiler(compiler: wgpu::Dx12Compiler) -> bool;

/// Whether `preference` is the choice that `wgpu::PowerPreference::default`
/// makes.
pub uninterp spec fn is_default_power_preference(preference: wgpu::PowerPreference) -> bool;

/// Whether `features` is the set without any feature,
/// `wgpu::Features::empty`.
pub uninterp spec fn is_empty_features(features: wgpu::Features) -> bool;

/// Whether `limits` is the descriptor that `wgpu::Limits::default` gives.
pub uninterp spec fn is_default_limits(limits: wgpu::Limits) -> bool;

/// Whether `usages` is the single usage
/// `wgpu::TextureUsages::RENDER_ATTACHMENT`.
pub uninterp spec fn is_render_attachment(usages: wgpu::TextureUsages) -> bool;

/// The features that `device` was created with: the answer of
/// `wgpu::Device::features`.
pub uninterp spec fn reported_features(device: wgpu::Device) -> wgpu::Features;

/// The limits that `device` was created with: the answer of
/// `wgpu::Device::limits`.
pub uninterp spec fn reported_limits(device: wgpu::Device) -> wgpu::Limits;

/// Asks `wgpu::TextureFormat::is_srgb` about `format`. The answer depends on
/// the format alone, so the contract gives it the name `format_is_srgb`.
#[verifier::external_body]
pub(crate) fn texture_format_is_srgb(format: &wgpu::TextureFormat) -> (srgb: bool)
    ensures
        srgb == format_is_srgb(*format),
{
    format.is_srgb()
}

/// The constant `wgpu::Backends::PRIMARY`.
#[verifier::external_body]
pub(crate) fn primary_backends() -> (backends: wgpu::Backends)
    ensures
        is_primary_backends(backends),
{
    wgpu::Backends::PRIMARY
}

/// What `wgpu::Dx12Compiler::default` returns.
#[verifier::external_body]
pub(crate) fn default_dx12_compiler() -> (compiler: wgpu::Dx12Compiler)
    ensures
        is_default_dx12_compiler(compiler),
{
    wgpu::Dx12Compiler::default()
}

/// What `wgpu::PowerPreference::default` returns.
#[verifier::external_body]
pub(crate) fn default_power_preference() -> (preference: wgpu::PowerPreference)
    ensures
        is_default_power_preference(preference),
{
    wgpu::PowerPreference::default()
}

/// What `wgpu::Features::empty` returns.
#[verifier::external_body]
pub(crate) fn empty_features() -> (features: wgpu::Features)
    ensures
        is_empty_features(features),
{
    wgpu::Features::empty()
}

/// What `wgpu::Limits::default` returns.
#[verifier::external_body]
pub(crate) fn default_limits() -> (limits: wgpu::Limits)
    ensures
        is_default_limits(limits),
{
    wgpu::Limits::default()
}

/// The constant `wgpu::TextureUsages::RENDER_ATTACHMENT`.
#[verifier::external_body]
pub(crate) fn render_attachment() -> (usages: wgpu::TextureUsages)
    ensures
        is_render_attachment(usages),
{
    wgpu::TextureUsages::RENDER_ATTACHMENT
}

/// Asks `wgpu::Device::features` which features `device` was created with. A
/// device keeps the features that it was created with for as long as it
/// lives, so the answer depends on the device alone, and the contract gives
/// it the name `reported_features`. Which features those are is the
/// device's to say.
#[verifier::external_body]
pub(crate) fn device_features(device: &wgpu::Device) -> (features: wgpu::Features)
    ensures
        features == reported_features(*device),
{
    device.features()
}

/// Asks `wgpu::Device::limits` which limits `device` was created with. A
/// device keeps the limits that it was created with for as long as it lives,
/// so the answer depends on the device alone, and the contract gives it the
/// name `reported_limits`. Which limits those are is the device's to say.
#[verifier::external_body]
pub(crate) fn device_limits(device: &wgpu::Device) -> (limits: wgpu::Limits)
    ensures
        limits == reported_limits(*device),
{
    device.limits()
}

} // verus!
