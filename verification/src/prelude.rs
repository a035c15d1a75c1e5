//! The names that most users of the library need.

pub use crate::error::{PiksellError, PiksellSurfaceError};
pub use crate::id::{PiksellId, PiksellIdCounter};
pub use crate::select::{select_adapter, select_mode, select_surface_format};
pub use crate::shared::PiksellWrapper;
pub use crate::state::{
    created_surface, granted_device, PiksellAdapterRequest, PiksellDeviceRequest,
    PiksellInstanceRequest, PiksellLoadOp, PiksellRenderPass, PiksellState, PiksellStateBuilder,
    RENDER_ENCODER_LABEL, RENDER_PASS_LABEL,
};
pub use crate::surface::{PiksellSurfaceCapabilities, PiksellSurfaceConfiguration};
pub use crate::util::{
    PiksellAlphaMode, PiksellBackends, PiksellColor, PiksellDeviceFeatures, PiksellDeviceLimits,
    PiksellDx12Compiler, PiksellPowerPreference, PiksellPresentMode, PiksellSize,
    PiksellTextureFormat, PiksellTextureUsages, PiksellarDevice, PiksellarSize,
};
