use rusty_mapper::window::choose_surface_format;
use wgpu::TextureFormat;
use rusty_mapper::ui::{
    clamp_grid_dimension, clamp_input_cell, clamp_output_index, edit_mapping_target, main_tabs,
    sync_discovered_devices, MainTab,
};
use rusty_mapper::window::{nonzero_extent, present_choice, resize_target, OutputType, PresentChoice};

#[test]
fn tabs_in_order() {
    assert_eq!(
        main_tabs(),
        vec![MainTab::Inputs, MainTab::Mapping, MainTab::Matrix, MainTab::Output, MainTab::Settings]
    );
    assert_eq!(edit_mapping_target(2), (MainTab::Mapping, 1));
}

#[test]
fn clamps() {
    assert_eq!(clamp_grid_dimension(0), 1);
    assert_eq!(clamp_grid_dimension(12), 9);
    assert_eq!(clamp_grid_dimension(4), 4);
    assert_eq!(clamp_input_cell(10, 9), 8);
    assert_eq!(clamp_input_cell(-3, 9), 0);
    assert_eq!(clamp_input_cell(5, 0), 0);
    assert_eq!(clamp_output_index(3, 3), 2);
    assert_eq!(clamp_output_index(1, 3), 1);
}

#[test]
fn discovered_devices_replace_lists_only_when_found() {
    let mut cams = vec!["old cam".to_string()];
    let mut ndi = vec!["old ndi".to_string()];
    sync_discovered_devices(&mut cams, &mut ndi, &Vec::new(), &Vec::new());
    assert_eq!(cams, vec!["old cam"]);
    sync_discovered_devices(&mut cams, &mut ndi, &Vec::new(), &vec!["HOST (A)".to_string()]);
    assert!(cams.is_empty());
    assert_eq!(ndi, vec!["HOST (A)"]);
}

#[test]
fn window_sizes_and_modes() {
    assert_eq!(nonzero_extent(0, 0), (1, 1));
    assert_eq!(nonzero_extent(800, 0), (800, 1));
    assert_eq!(resize_target(0, 600), None);
    assert_eq!(resize_target(800, 600), Some((800, 600)));
    assert_eq!(present_choice(true), PresentChoice::AutoVsync);
    assert_eq!(present_choice(false), PresentChoice::AutoNoVsync);
    assert_ne!(OutputType::Mapping, OutputType::Matrix);
}

#[test]
fn surface_format_prefers_srgb() {
    assert_eq!(
        choose_surface_format(&[TextureFormat::Rgba8Unorm, TextureFormat::Bgra8UnormSrgb, TextureFormat::Rgba8UnormSrgb]),
        TextureFormat::Bgra8UnormSrgb
    );
    assert_eq!(
        choose_surface_format(&[TextureFormat::Bgra8Unorm, TextureFormat::Rgba8Unorm]),
        TextureFormat::Bgra8Unorm
    );
}
