use piksell::error::{PiksellError, PiksellSurfaceError};

#[test]
fn no_adapter_message_names_the_missing_adapter() {
    assert_eq!(PiksellError::NoAdapter.message(), "[ERROR]: No supported adapter was found!\n");
}

#[test]
fn every_failure_has_its_own_message() {
    let failures = vec![
        PiksellError::SurfaceCreation,
        PiksellError::NoAdapter,
        PiksellError::DeviceRequest,
        PiksellError::SurfaceAcquire(PiksellSurfaceError::Timeout),
        PiksellError::SurfaceAcquire(PiksellSurfaceError::Outdated),
        PiksellError::SurfaceAcquire(PiksellSurfaceError::Lost),
        PiksellError::SurfaceAcquire(PiksellSurfaceError::OutOfMemory),
        PiksellError::InvalidSize,
    ];
    for (i, first) in failures.iter().enumerate() {
        assert!(first.message().starts_with("[ERROR]: "));
        assert!(first.message().ends_with("!\n"));
        for second in failures.iter().skip(i + 1) {
            assert_ne!(first.message(), second.message());
        }
    }
}

#[test]
fn messages_are_exact() {
    assert_eq!(
        PiksellError::SurfaceCreation.message(),
        "[ERROR]: No surface could be created for the window!\n"
    );
    assert_eq!(
        PiksellError::DeviceRequest.message(),
        "[ERROR]: The adapter could not provide the requested device!\n"
    );
    assert_eq!(
        PiksellError::SurfaceAcquire(PiksellSurfaceError::Timeout).message(),
        "[ERROR]: The wait for the next frame timed out!\n"
    );
    assert_eq!(
        PiksellError::SurfaceAcquire(PiksellSurfaceError::Outdated).message(),
        "[ERROR]: The surface has changed and must be reconfigured!\n"
    );
    assert_eq!(
        PiksellError::SurfaceAcquire(PiksellSurfaceError::Lost).message(),
        "[ERROR]: The swapchain has been lost!\n"
    );
    assert_eq!(
        PiksellError::SurfaceAcquire(PiksellSurfaceError::OutOfMemory).message(),
        "[ERROR]: No memory is left for a new frame!\n"
    );
    assert_eq!(
        PiksellError::InvalidSize.message(),
        "[ERROR]: A surface cannot have a width or height of zero!\n"
    );
}

#[test]
fn acquire_failure_keeps_its_reason() {
    let failure = PiksellError::SurfaceAcquire(PiksellSurfaceError::Lost);
    assert_eq!(failure, PiksellError::SurfaceAcquire(PiksellSurfaceError::Lost));
    assert_ne!(failure, PiksellError::SurfaceAcquire(PiksellSurfaceError::Outdated));
}
