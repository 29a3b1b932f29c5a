use nih_plug_slint::adapter::{BaseviewSlintAdapter, BaseviewSlintPlatform, PlatformError};
use nih_plug_slint::geometry::{PhysicalLength, PhysicalSize, Scalar};
use nih_plug_slint::state::{default_height, default_width, SlintEditorState};

#[test]
fn default_state_is_400_by_300() {
    assert_eq!(default_width(), 400);
    assert_eq!(default_height(), 300);
    assert_eq!(SlintEditorState::default().size(), (400, 300));
}

#[test]
fn new_state_has_the_given_size() {
    assert_eq!(SlintEditorState::new(640, 480).size(), (640, 480));
    assert_eq!(SlintEditorState::new(0, u32::MAX).size(), (0, u32::MAX));
}

#[test]
fn stored_size_is_read_back() {
    let mut state = SlintEditorState::default();
    state.store(800, 600);
    assert_eq!(state.size(), (800, 600));
    state.store(1, 2);
    assert_eq!(state.size(), (1, 2));
}

#[test]
fn restored_state_replaces_the_size() {
    let mut state = SlintEditorState::new(10, 20);
    state.set(SlintEditorState::new(30, 40));
    assert_eq!(state.size(), (30, 40));
}

#[test]
fn adapter_reports_what_it_was_last_told() {
    let mut adapter = BaseviewSlintAdapter::new(
        PhysicalSize::scaled(100, 50, Scalar::Given(2.0f32)),
        Scalar::Given(2.0f32),
    );
    assert_eq!(
        adapter.size().width,
        PhysicalLength::Scaled { logical: 100, scale_factor: Scalar::Given(2.0) }
    );
    let size = PhysicalSize { width: PhysicalLength::Given(7), height: PhysicalLength::Given(8) };
    adapter.update_size(size, Scalar::Given(1.5));
    assert_eq!(adapter.size(), size);
    assert_eq!(adapter.scale_factor, Scalar::Given(1.5));
}

#[test]
fn platform_without_adapter_fails() {
    let platform: BaseviewSlintPlatform<u8> = BaseviewSlintPlatform::new();
    assert_eq!(platform.create_window_adapter(), Err(PlatformError::NoAdapterSet));
    assert_eq!(PlatformError::NoAdapterSet.message(), "No adapter set");
}

#[test]
fn platform_hands_out_the_latest_adapter() {
    let mut platform: BaseviewSlintPlatform<u8> = BaseviewSlintPlatform::new();
    platform.register(1);
    assert_eq!(platform.create_window_adapter(), Ok(&1));
    platform.register(2);
    assert_eq!(platform.create_window_adapter(), Ok(&2));
    assert_eq!(platform.create_window_adapter(), Ok(&2));
}
