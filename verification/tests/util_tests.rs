use piksell::util::{PiksellSize, PiksellarSize};

#[test]
fn size_new_keeps_both_dimensions() {
    let size = PiksellSize::new(800, 600);
    assert_eq!(size.width, 800);
    assert_eq!(size.height, 600);
}

#[test]
fn size_new_accepts_the_extremes() {
    let size = PiksellSize::new(0, u32::MAX);
    assert_eq!(size, PiksellSize { width: 0, height: u32::MAX });
}

#[test]
fn size_default_is_empty() {
    assert_eq!(PiksellSize::default(), PiksellSize::new(0, 0));
}

#[test]
fn size_is_copied_freely() {
    let size = PiksellSize::new(3, 4);
    let copy = size;
    assert_eq!(size, copy);
}

#[test]
fn size_has_area_only_with_two_positive_dimensions() {
    assert!(PiksellSize::new(1, 1).has_area());
    assert!(PiksellSize::new(1024, 768).has_area());
    assert!(!PiksellSize::new(0, 768).has_area());
    assert!(!PiksellSize::new(1024, 0).has_area());
    assert!(!PiksellSize::new(0, 0).has_area());
}

#[test]
fn size_orders_by_width_then_height() {
    assert!(PiksellSize::new(1, 9) < PiksellSize::new(2, 0));
    assert!(PiksellSize::new(2, 1) < PiksellSize::new(2, 3));
    assert!(PiksellSize::new(2, 3) <= PiksellSize::new(2, 3));
}

#[test]
fn generic_size_new_keeps_both_dimensions() {
    let size = PiksellarSize::new(3u64, 4u64);
    assert_eq!(size.width, 3);
    assert_eq!(size.height, 4);
}

#[test]
fn generic_size_holds_any_type() {
    let size = PiksellarSize::new("wide", "tall");
    assert_eq!(size, PiksellarSize { width: "wide", height: "tall" });
}

#[test]
fn generic_size_default_takes_the_default_of_its_unit() {
    let size: PiksellarSize<u16> = PiksellarSize::default();
    assert_eq!(size, PiksellarSize::new(0, 0));
}
