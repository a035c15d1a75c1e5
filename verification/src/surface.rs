//! What a surface can do with an adapter, and how it is configured.

use vstd::prelude::*;
use crate::gpu::{format_is_srgb, is_render_attachment, render_attachment};
use crate::select::{
    lemma_srgb_preferred,
    preferred_format,
    requested_or_first,
    select_mode,
    select_surface_format,
};
use crate::util::{
    PiksellAlphaMode,
    PiksellPresentMode,
    PiksellSize,
    PiksellTextureFormat,
    PiksellTextureUsages,
};

verus! {

/// What a surface advertises for one adapter, each list in the order in which
/// the adapter reported it.
#[derive(Debug, PartialEq, Eq)]
pub struct PiksellSurfaceCapabilities {
    pub formats: Vec<PiksellTextureFormat>,
    pub present_modes: Vec<PiksellPresentMode>,
    pub alpha_modes: Vec<PiksellAlphaMode>,
    pub usages: PiksellTextureUsages,
}

/// The capabilities as mathematical values.
pub struct PiksellSurfaceCapabilitiesView {
    pub formats: Seq<PiksellTextureFormat>,
    pub present_modes: Seq<PiksellPresentMode>,
    pub alpha_modes: Seq<PiksellAlphaMode>,
    pub usages: PiksellTextureUsages,
}

impl View for PiksellSurfaceCapabilities {
    type V = PiksellSurfaceCapabilitiesView;

    open spec fn view(&self) -> PiksellSurfaceCapabilitiesView {
        PiksellSurfaceCapabilitiesView {
            formats: self.formats@,
            present_modes: self.present_modes@,
            alpha_modes: self.alpha_modes@,
            usages: self.usages,
        }
    }
}

/// The record that a surface is configured with.
#[derive(Debug, PartialEq, Eq)]
pub struct PiksellSurfaceConfiguration {
    pub usage: PiksellTextureUsages,
    pub format: PiksellTextureFormat,
    pub width: u32,
    pub height: u32,
    pub present_mode: PiksellPresentMode,
    pub alpha_mode: PiksellAlphaMode,
    pub view_formats: Vec<PiksellTextureFormat>,
}

/// The configuration as mathematical values.
pub struct PiksellSurfaceConfigurationView {
    pub usage: PiksellTextureUsages,
    pub format: PiksellTextureFormat,
    pub width: u32,
    pub height: u32,
    pub present_mode: PiksellPresentMode,
    pub alpha_mode: PiksellAlphaMode,
    pub view_formats: Seq<PiksellTextureFormat>,
}

impl View for PiksellSurfaceConfiguration {
    type V = PiksellSurfaceConfigurationView;

    open spec fn view(&self) -> PiksellSurfaceConfigurationView {
        PiksellSurfaceConfigurationView {
            usage: self.usage,
            format: self.format,
            width: self.width,
            height: self.height,
            present_mode: self.present_mode,
            alpha_mode: self.alpha_mode,
            view_formats: self.view_formats@,
        }
    }
}

impl PiksellSurfaceConfigurationView {
    /// This configuration with the width and height of `size`, and everything
    /// else as it is.
    pub open spec fn with_size(self, size: PiksellSize) -> PiksellSurfaceConfigurationView {
        PiksellSurfaceConfigurationView { width: size.width, height: size.height, ..self }
    }
}

impl PiksellSurfaceCapabilitiesView {
    /// Whether a configuration can be put together from these capabilities
    /// and the two requested modes: a format is advertised, and for each mode
    /// that was not requested one is advertised.
    pub open spec fn can_configure(
        self,
        present_mode: Option<PiksellPresentMode>,
        alpha_mode: Option<PiksellAlphaMode>,
    ) -> bool {
        &&& self.formats.len() > 0
        &&& present_mode is None ==> self.present_modes.len() > 0
        &&& alpha_mode is None ==> self.alpha_modes.len() > 0
    }

    /// Whether `configuration` is the one that construction assembles from
    /// these capabilities: render-attachment usage, the preferred format, the
    /// given size, each mode as requested or else the first advertised, and no
    /// view formats.
    pub open spec fn assembles(
        self,
        present_mode: Option<PiksellPresentMode>,
        alpha_mode: Option<PiksellAlphaMode>,
        size: PiksellSize,
        configuration: PiksellSurfaceConfigurationView,
    ) -> bool {
        &&& is_render_attachment(configuration.usage)
        &&& Some(configuration.format) == preferred_format(self.formats)
        &&& configuration.width == size.width
        &&& configuration.height == size.height
        &&& Some(configuration.present_mode) == requested_or_first(present_mode, self.present_modes)
        &&& Some(configuration.alpha_mode) == requested_or_first(alpha_mode, self.alpha_modes)
        &&& configuration.view_formats == Seq::<PiksellTextureFormat>::empty()
    }
}

impl PiksellSurfaceCapabilities {
    /// A copy of these capabilities.
    pub fn snapshot(&self) -> (copy: PiksellSurfaceCapabilities)
        ensures
            copy@ == self@,
    {
        PiksellSurfaceCapabilities {
            formats: copy_of(&self.formats),
            present_modes: copy_of(&self.present_modes),
            alpha_modes: copy_of(&self.alpha_modes),
            usages: self.usages,
        }
    }

    /// Whether a configuration can be put together from these capabilities
    /// and the two requested modes.
    pub fn is_configurable(
        &self,
        present_mode: Option<PiksellPresentMode>,
        alpha_mode: Option<PiksellAlphaMode>,
    ) -> (yes: bool)
        ensures
            yes == self@.can_configure(present_mode, alpha_mode),
    {
        let has_format = self.formats.len() > 0;
        let has_present_mode = present_mode.is_some() || self.present_modes.len() > 0;
        let has_alpha_mode = alpha_mode.is_some() || self.alpha_modes.len() > 0;
        has_format && has_present_mode && has_alpha_mode
    }

    /// Assembles the surface configuration for a surface of `size`. None
    /// where the capabilities leave a choice without anything to choose from.
    pub fn assemble(
        &self,
        present_mode: Option<PiksellPresentMode>,
        alpha_mode: Option<PiksellAlphaMode>,
        size: PiksellSize,
    ) -> (assembled: Option<PiksellSurfaceConfiguration>)
        ensures
            assembled is Some <==> self@.can_configure(present_mode, alpha_mode),
            assembled matches Some(configuration) ==> self@.assembles(
                present_mode,
                alpha_mode,
                size,
                configuration@,
            ),
    {
        let format = select_surface_format(&self.formats);
        let present = select_mode(present_mode, &self.present_modes);
        let alpha = select_mode(alpha_mode, &self.alpha_modes);
        match (format, present, alpha) {
            (Some(format), Some(present_mode), Some(alpha_mode)) => Some(
                PiksellSurfaceConfiguration {
                    usage: render_attachment(),
                    format,
                    width: size.width,
                    height: size.height,
                    present_mode,
                    alpha_mode,
                    view_formats: Vec::new(),
                },
            ),
            _ => None,
        }
    }
}

/// The same capabilities, requests and size always give the same
/// configuration: two configurations that are both assembled from them agree
/// in format, size, both modes and view formats, and both have
/// render-attachment usage.
pub proof fn lemma_configuration_determined(
    capabilities: PiksellSurfaceCapabilitiesView,
    present_mode: Option<PiksellPresentMode>,
    alpha_mode: Option<PiksellAlphaMode>,
    size: PiksellSize,
    first: PiksellSurfaceConfigurationView,
    second: PiksellSurfaceConfigurationView,
)
    requires
        capabilities.assembles(present_mode, alpha_mode, size, first),
        capabilities.assembles(present_mode, alpha_mode, size, second),
    ensures
        first.format == second.format,
        first.width == second.width,
        first.height == second.height,
        first.present_mode == second.present_mode,
        first.alpha_mode == second.alpha_mode,
        first.view_formats == second.view_formats,
        is_render_attachment(first.usage) && is_render_attachment(second.usage),
{
}

/// The format of an assembled configuration is sRGB where an sRGB format is
/// advertised, and is the first advertised format where none is.
pub proof fn lemma_configuration_prefers_srgb(
    capabilities: PiksellSurfaceCapabilitiesView,
    present_mode: Option<PiksellPresentMode>,
    alpha_mode: Option<PiksellAlphaMode>,
    size: PiksellSize,
    configuration: PiksellSurfaceConfigurationView,
)
    requires
        capabilities.assembles(present_mode, alpha_mode, size, configuration),
    ensures
        (exists|i: int|
            0 <= i < capabilities.formats.len() && format_is_srgb(capabilities.formats[i]))
            ==> format_is_srgb(configuration.format),
        (forall|i: int|
            0 <= i < capabilities.formats.len() ==> !format_is_srgb(capabilities.formats[i]))
            ==> configuration.format == capabilities.formats[0],
        capabilities.formats.contains(configuration.format),
{
    lemma_srgb_preferred(capabilities.formats);
    if forall|i: int|
        0 <= i < capabilities.formats.len() ==> !format_is_srgb(capabilities.formats[i]) {
        assert(capabilities.formats.contains(capabilities.formats[0]));
    }
}

/// A vector with the same items in the same order.
fn copy_of<T: Copy>(items: &Vec<T>) -> (copy: Vec<T>)
    ensures
        copy@ == items@,
{
    let mut copy: Vec<T> = Vec::new();
    let mut i: usize = 0;
    while i < items.len()
        invariant
            i <= items.len(),
            copy@ == items@.take(i as int),
        decreases items.len() - i,
    {
        copy.push(items[i]);
        i += 1;
        assert(copy@ =~= items@.take(i as int));
    }
    assert(items@.take(i as int) =~= items@);
    copy
}

} // verus!
