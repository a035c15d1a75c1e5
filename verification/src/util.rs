//! Plain value types: the passthrough names for the GPU library's flags and
//! enumerations, and the two size records.

use vstd::prelude::*;
use crate::shared::PiksellWrapper;

verus! {

/// Which GPU backends an instance may enumerate.
pub type PiksellBackends = wgpu::Backends;

/// Which HLSL compiler the DX12 backend uses.
pub type PiksellDx12Compiler = wgpu::Dx12Compiler;

/// Whether adapter selection favours low power or high performance.
pub type PiksellPowerPreference = wgpu::PowerPreference;

/// A set of optional device features.
pub type PiksellDeviceFeatures = wgpu::Features;

/// A device limit descriptor.
pub type PiksellDeviceLimits = wgpu::Limits;

/// The format of a texture.
pub type PiksellTextureFormat = wgpu::TextureFormat;

/// How frame presentation is synchronised with the display.
pub type PiksellPresentMode = wgpu::PresentMode;

/// How the window compositor treats the alpha channel of a presented frame.
pub type PiksellAlphaMode = wgpu::CompositeAlphaMode;

/// The ways a texture may be used.
pub type PiksellTextureUsages = wgpu::TextureUsages;

/// An RGBA color. The components are handed to the GPU as they are.
pub type PiksellColor = wgpu::Color;

/// A shared handle to a device.
pub type PiksellarDevice = PiksellWrapper<wgpu::Device>;

/// A width and a height in physical pixels.
#[derive(Debug, Clone, Copy, PartialEq, Eq, Structural, PartialOrd, Ord)]
pub struct PiksellSize {
    pub width: u32,
    pub height: u32,
}

impl PiksellSize {
    /// The size with the given width and height.
    pub fn new(width: u32, height: u32) -> (size: Self)
        ensures
            size == (PiksellSize { width, height }),
    {
        Self { width, height }
    }

    /// Whether both dimensions are positive.
    pub open spec fn spec_has_area(&self) -> bool {
        self.width > 0 && self.height > 0
    }

    /// Whether both dimensions are positive, as a surface configuration needs
    /// them to be.
    #[verifier::when_used_as_spec(spec_has_area)]
    pub fn has_area(&self) -> (yes: bool)
        ensures
            yes == self.spec_has_area(),
    {
        self.width > 0 && self.height > 0
    }
}

impl Default for PiksellSize {
    /// The empty size.
    fn default() -> (size: Self)
        ensures
            size == (PiksellSize { width: 0, height: 0 }),
    {
        Self { width: 0, height: 0 }
    }
}

/// A width and a height in any unit.
#[derive(Debug, PartialEq, Eq, PartialOrd, Ord)]
pub struct PiksellarSize<T> {
    pub width: T,
    pub height: T,
}

impl<T> PiksellarSize<T> {
    /// The size with the given width and height.
    pub fn new(width: T, height: T) -> (size: Self)
        ensures
            size == (PiksellarSize { width, height }),
    {
        Self { width, height }
    }
}

impl<T: Clone> Clone for PiksellarSize<T> {
    /// The size whose dimensions are clones of this one's.
    fn clone(&self) -> (copy: Self)
        ensures
            cloned(self.width, copy.width),
            cloned(self.height, copy.height),
    {
        Self { width: self.width.clone(), height: self.height.clone() }
    }
}

impl<T: Copy> Copy for PiksellarSize<T> {
}

impl<T: Default> Default for PiksellarSize<T> {
    /// The size whose dimensions are both the default of `T`.
    fn default() -> (size: Self)
        ensures
            T::default.ensures((), size.width),
            T::default.ensures((), size.height),
    {
        Self { width: T::default(), height: T::default() }
    }
}

} // verus!
