use hala_imgui::bridge::{BridgeError, FontTexture, FrameStart, FrameState, HalaImGui};
use hala_imgui::clip::{Extent, PixelScale};
use hala_imgui::draw_data::BufferKind;

fn font() -> FontTexture {
    FontTexture { width: 512, height: 64 }
}

fn opened(width: u32, height: u32) -> FrameStart {
    FrameStart::Opened {
        display_size: Extent { width, height },
        framebuffer_scale: PixelScale { x: 1, y: 1 },
    }
}

fn ready() -> HalaImGui {
    let mut gui = HalaImGui::new(3);
    assert_eq!(gui.font_texture_created(font()), Ok(()));
    gui
}

#[test]
fn new_bridge_is_idle_and_empty() {
    let gui = HalaImGui::new(3);
    assert_eq!(gui.frame_state(), FrameState::Idle);
    assert_eq!(gui.font_image(), None);
    assert_eq!(gui.num_of_images(), 3);
    for slot in 0..3 {
        assert_eq!(gui.buffer_capacity(slot, BufferKind::Vertex), None);
        assert_eq!(gui.buffer_capacity(slot, BufferKind::Index), None);
    }
    assert_eq!(gui.buffer_capacity(3, BufferKind::Vertex), None);
}

#[test]
fn bridge_for_no_image_has_no_slot() {
    let gui = HalaImGui::new(0);
    assert_eq!(gui.num_of_images(), 0);
    assert_eq!(gui.buffer_capacity(0, BufferKind::Vertex), None);
}

#[test]
fn first_frame_asks_for_the_font_texture() {
    let mut gui = HalaImGui::new(3);
    assert_eq!(gui.begin_frame(800, 600), Ok(FrameStart::FontTextureRequired));
    assert_eq!(gui.frame_state(), FrameState::Idle);
    assert_eq!(gui.begin_frame(800, 600), Ok(FrameStart::FontTextureRequired));
    assert_eq!(gui.frame_state(), FrameState::Idle);
    assert_eq!(gui.font_image(), None);
}

#[test]
fn frame_opens_once_the_font_texture_exists() {
    let mut gui = HalaImGui::new(3);
    assert_eq!(gui.begin_frame(800, 600), Ok(FrameStart::FontTextureRequired));
    assert_eq!(gui.font_texture_created(font()), Ok(()));
    assert_eq!(gui.font_image(), Some(font()));
    assert_eq!(gui.frame_state(), FrameState::Idle);
    assert_eq!(gui.begin_frame(800, 600), Ok(opened(800, 600)));
    assert_eq!(gui.frame_state(), FrameState::FrameOpen);
}

#[test]
fn font_texture_is_made_only_once() {
    let mut gui = ready();
    assert_eq!(
        gui.font_texture_created(FontTexture { width: 1, height: 1 }),
        Err(BridgeError::FontTextureExists)
    );
    assert_eq!(gui.font_image(), Some(font()));
    assert_eq!(gui.begin_frame(1, 1), Ok(opened(1, 1)));
    assert_eq!(gui.font_texture_created(font()), Err(BridgeError::FontTextureExists));
    assert_eq!(gui.frame_state(), FrameState::FrameOpen);
    assert_eq!(gui.end_frame(), Ok(()));
    assert_eq!(gui.begin_frame(1, 1), Ok(opened(1, 1)));
    assert_eq!(gui.font_image(), Some(font()));
}

#[test]
fn frame_is_opened_at_the_window_size_with_unit_scale() {
    let mut gui = ready();
    assert_eq!(gui.begin_frame(1920, 1080), Ok(opened(1920, 1080)));
    assert_eq!(gui.end_frame(), Ok(()));
    assert_eq!(gui.begin_frame(0, 0), Ok(opened(0, 0)));
    assert_eq!(gui.end_frame(), Ok(()));
    assert_eq!(gui.begin_frame(u32::MAX, 1), Ok(opened(u32::MAX, 1)));
}

#[test]
fn frame_cannot_be_begun_while_one_is_open() {
    let mut gui = ready();
    assert_eq!(gui.begin_frame(800, 600), Ok(opened(800, 600)));
    assert_eq!(gui.begin_frame(800, 600), Err(BridgeError::FrameAlreadyOpen));
    assert_eq!(gui.frame_state(), FrameState::FrameOpen);
    assert_eq!(gui.end_frame(), Ok(()));
    assert_eq!(gui.frame_state(), FrameState::FrameClosed);
}

#[test]
fn frame_cannot_be_ended_unless_one_is_open() {
    let mut gui = HalaImGui::new(1);
    assert_eq!(gui.end_frame(), Err(BridgeError::FrameNotOpen));
    assert_eq!(gui.frame_state(), FrameState::Idle);
    assert_eq!(gui.font_texture_created(font()), Ok(()));
    assert_eq!(gui.end_frame(), Err(BridgeError::FrameNotOpen));
    assert_eq!(gui.begin_frame(800, 600), Ok(opened(800, 600)));
    assert_eq!(gui.end_frame(), Ok(()));
    assert_eq!(gui.end_frame(), Err(BridgeError::FrameNotOpen));
    assert_eq!(gui.frame_state(), FrameState::FrameClosed);
}

#[test]
fn next_frame_can_be_begun_after_a_closed_one() {
    let mut gui = ready();
    for _ in 0..3 {
        assert_eq!(gui.begin_frame(800, 600), Ok(opened(800, 600)));
        assert_eq!(gui.frame_state(), FrameState::FrameOpen);
        assert_eq!(gui.end_frame(), Ok(()));
        assert_eq!(gui.frame_state(), FrameState::FrameClosed);
    }
}

#[test]
fn frame_cycle_leaves_the_buffers_alone() {
    let mut gui = ready();
    assert!(gui.buffer_created(1, BufferKind::Vertex, 400));
    assert!(gui.buffer_created(1, BufferKind::Index, 12));
    assert_eq!(gui.begin_frame(800, 600), Ok(opened(800, 600)));
    assert_eq!(gui.begin_frame(800, 600), Err(BridgeError::FrameAlreadyOpen));
    assert_eq!(gui.end_frame(), Ok(()));
    assert_eq!(gui.end_frame(), Err(BridgeError::FrameNotOpen));
    assert_eq!(gui.buffer_capacity(1, BufferKind::Vertex), Some(400));
    assert_eq!(gui.buffer_capacity(1, BufferKind::Index), Some(12));
    assert_eq!(gui.buffer_capacity(0, BufferKind::Vertex), None);
    assert_eq!(gui.num_of_images(), 3);
}

#[test]
fn buffers_can_be_installed_in_any_frame_state() {
    let mut gui = ready();
    assert!(gui.buffer_created(0, BufferKind::Vertex, 1));
    assert_eq!(gui.begin_frame(800, 600), Ok(opened(800, 600)));
    assert!(gui.buffer_created(0, BufferKind::Vertex, 2));
    assert_eq!(gui.frame_state(), FrameState::FrameOpen);
    assert_eq!(gui.end_frame(), Ok(()));
    assert!(gui.buffer_created(0, BufferKind::Vertex, 3));
    assert_eq!(gui.frame_state(), FrameState::FrameClosed);
    assert_eq!(gui.font_image(), Some(font()));
}
