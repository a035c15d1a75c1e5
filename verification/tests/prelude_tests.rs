use piksell::prelude::{
    select_adapter, PiksellBackends, PiksellColor, PiksellError, PiksellIdCounter, PiksellLoadOp,
    PiksellPresentMode, PiksellSize, PiksellStateBuilder, PiksellSurfaceCapabilities,
    PiksellTextureFormat, PiksellTextureUsages, PiksellWrapper, PiksellAlphaMode,
};

#[test]
fn a_context_goes_from_builder_to_frame() {
    let builder = PiksellStateBuilder::new()
        .with_backends(PiksellBackends::DX12)
        .with_present_mode(PiksellPresentMode::Mailbox);
    let adapter = select_adapter(None, vec![("integrated", true), ("discrete", true)]).unwrap();
    let capabilities = PiksellSurfaceCapabilities {
        formats: vec![PiksellTextureFormat::Rgba8Unorm, PiksellTextureFormat::Rgba8UnormSrgb],
        present_modes: vec![PiksellPresentMode::Fifo, PiksellPresentMode::Mailbox],
        alpha_modes: vec![PiksellAlphaMode::Auto],
        usages: PiksellTextureUsages::RENDER_ATTACHMENT,
    };
    assert!(capabilities.is_configurable(builder.present_mode(), builder.alpha_mode()));
    let size = PiksellSize::new(800, 600);
    let mut state = builder.build(size, "instance", "surface", adapter, "device", "queue", capabilities);
    assert_eq!(*state.get_adapter(), "integrated");
    assert_eq!(state.surface_configuration().format, PiksellTextureFormat::Rgba8UnormSrgb);
    assert_eq!(state.surface_configuration().present_mode, PiksellPresentMode::Mailbox);
    assert_eq!(state.surface_configuration().alpha_mode, PiksellAlphaMode::Auto);

    assert_eq!(state.resize(size), Ok(()));
    let (frame, pass) = state.render(Some(PiksellColor::BLUE), Ok("texture")).unwrap();
    assert_eq!(frame, "texture");
    assert_eq!(pass.load, PiksellLoadOp::Clear(PiksellColor::BLUE));
    assert!(pass.store);
}

#[test]
fn a_context_without_adapter_is_not_built() {
    let chosen: Result<(), PiksellError> = select_adapter(None, vec![((), false)]);
    assert_eq!(chosen, Err(PiksellError::NoAdapter));
    assert_eq!(chosen.unwrap_err().message(), "[ERROR]: No supported adapter was found!\n");
}

#[test]
fn handles_and_identifiers_come_with_the_prelude() {
    let handle = PiksellWrapper::new(PiksellSize::new(1, 2));
    assert_eq!(handle.width, 1);
    let mut counter = PiksellIdCounter::new();
    assert_eq!(counter.next_id().unwrap().get(), 1);
}
