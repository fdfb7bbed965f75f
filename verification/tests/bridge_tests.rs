use egui_speedy2d::bridge::FrameBridge;
use egui_speedy2d::geom::{Pos, Rgba};
use egui_speedy2d::image::image_from_pixels;
use egui_speedy2d::input::{ScreenRect, UiEvent};
use egui_speedy2d::keymap::{KeyCode, ModifierKeys, MouseButton, PointerButton, UiKey};
use egui_speedy2d::texture::TextureId;

fn tiny_image() -> egui_speedy2d::image::RgbaImage {
    let pixels = vec![Rgba { r: 0, g: 0, b: 0, a: 255 }];
    image_from_pixels(1, 1, &pixels)
}

#[test]
fn button_events_carry_last_position_and_modifiers() {
    let mut b = FrameBridge::new();
    b.on_mouse_move(Pos { x: 10, y: 20 });
    b.on_keyboard_modifiers_changed(ModifierKeys {
        ctrl: true,
        alt: false,
        shift: false,
        logo: false,
    });
    b.on_mouse_button_down(MouseButton::Left);
    b.on_mouse_button_up(MouseButton::Right);
    let input = b.take_frame_input();
    assert_eq!(input.events.len(), 3);
    assert_eq!(input.events[0], UiEvent::PointerMoved(Pos { x: 10, y: 20 }));
    match input.events[1] {
        UiEvent::PointerButton {
            pos,
            button,
            pressed,
            modifiers,
        } => {
            assert_eq!(pos, Pos { x: 10, y: 20 });
            assert_eq!(button, PointerButton::Primary);
            assert!(pressed);
            assert!(modifiers.ctrl && modifiers.command && !modifiers.mac_cmd);
        }
        _ => panic!("expected a pointer button event"),
    }
    match input.events[2] {
        UiEvent::PointerButton {
            pos,
            button,
            pressed,
            ..
        } => {
            assert_eq!(pos, Pos { x: 10, y: 20 });
            assert_eq!(button, PointerButton::Secondary);
            assert!(!pressed);
        }
        _ => panic!("expected a pointer button event"),
    }
}

#[test]
fn other_buttons_are_dropped() {
    let mut b = FrameBridge::new();
    b.on_mouse_button_down(MouseButton::Other(4));
    b.on_mouse_button_up(MouseButton::Other(4));
    let input = b.take_frame_input();
    assert!(input.events.is_empty());
}

#[test]
fn key_events_are_never_repeats_and_unmapped_keys_are_dropped() {
    let mut b = FrameBridge::new();
    b.on_key_down(Some(KeyCode::A));
    b.on_key_down(Some(KeyCode::LShift));
    b.on_key_down(None);
    b.on_key_up(Some(KeyCode::A));
    let input = b.take_frame_input();
    assert_eq!(input.events.len(), 2);
    match input.events[0] {
        UiEvent::Key {
            key,
            pressed,
            repeat,
            ..
        } => {
            assert_eq!(key, UiKey::A);
            assert!(pressed);
            assert!(!repeat);
        }
        _ => panic!("expected a key event"),
    }
    match input.events[1] {
        UiEvent::Key { key, pressed, .. } => {
            assert_eq!(key, UiKey::A);
            assert!(!pressed);
        }
        _ => panic!("expected a key event"),
    }
}

#[test]
fn typed_characters_always_arrive_even_when_the_key_does_not_map() {
    let mut b = FrameBridge::new();
    b.on_key_down(Some(KeyCode::Caret));
    b.on_keyboard_char('^');
    let input = b.take_frame_input();
    assert_eq!(input.events, vec![UiEvent::Text('^')]);
}

#[test]
fn resize_reaches_exactly_the_next_frame() {
    let mut b = FrameBridge::new();
    b.on_resize(640, 480);
    let first = b.take_frame_input();
    assert_eq!(
        first.screen_rect,
        Some(ScreenRect {
            width: 640,
            height: 480
        })
    );
    // The rectangle is consumed with the frame that carried it.
    let second = b.take_frame_input();
    assert_eq!(second.screen_rect, None);
    assert!(second.events.is_empty());
}

#[test]
fn later_resize_overwrites_the_stored_rectangle() {
    let mut b = FrameBridge::new();
    b.on_resize(640, 480);
    b.on_resize(800, 600);
    let input = b.take_frame_input();
    assert_eq!(
        input.screen_rect,
        Some(ScreenRect {
            width: 800,
            height: 600
        })
    );
}

#[test]
fn modifier_snapshot_persists_across_frames() {
    let mut b = FrameBridge::new();
    b.on_keyboard_modifiers_changed(ModifierKeys {
        ctrl: false,
        alt: true,
        shift: false,
        logo: false,
    });
    let first = b.take_frame_input();
    assert!(first.modifiers.alt);
    let second = b.take_frame_input();
    assert!(second.modifiers.alt);
}

#[test]
fn scale_factor_change_is_immediate_and_not_buffered() {
    let mut b = FrameBridge::new();
    assert_eq!(b.current_scale_token(), None);
    b.on_scale_factor_changed(1234);
    assert_eq!(b.current_scale_token(), Some(1234));
    // Nothing about it sits in the event buffer.
    let input = b.take_frame_input();
    assert!(input.events.is_empty());
}

#[test]
fn freed_texture_survives_its_frame_and_dies_at_the_next() {
    let mut b = FrameBridge::new();
    // Frame N: upload, then the frame's output marks it free.
    b.begin_draw();
    b.store_texture(0, 7, tiny_image());
    b.record_frees(&vec![TextureId::Managed(0), TextureId::User(3)]);
    // Still resolvable for every draw of frame N.
    assert_eq!(b.resolve_texture(0), Some(7));
    // Frame N + 1 begins: the recorded identifier is gone.
    b.begin_draw();
    assert_eq!(b.resolve_texture(0), None);
    // And the queue was drained, so frame N + 2 removes nothing more.
    b.begin_draw();
    assert_eq!(b.resolve_texture(0), None);
}

#[test]
fn user_identifiers_in_a_free_list_are_ignored() {
    let mut b = FrameBridge::new();
    b.store_texture(3, 11, tiny_image());
    b.record_frees(&vec![TextureId::User(3)]);
    b.begin_draw();
    assert_eq!(b.resolve_texture(3), Some(11));
}

#[test]
fn a_fresh_free_list_replaces_the_previous_one() {
    let mut b = FrameBridge::new();
    b.store_texture(1, 21, tiny_image());
    b.store_texture(2, 22, tiny_image());
    b.record_frees(&vec![TextureId::Managed(1)]);
    // Before the queue advances, the next frame's output replaces the list.
    b.record_frees(&vec![TextureId::Managed(2)]);
    b.begin_draw();
    assert_eq!(b.resolve_texture(1), Some(21));
    assert_eq!(b.resolve_texture(2), None);
}

#[test]
fn storing_under_a_live_identifier_replaces_the_entry() {
    let mut b = FrameBridge::new();
    b.store_texture(0, 7, tiny_image());
    b.store_texture(0, 8, tiny_image());
    assert_eq!(b.resolve_texture(0), Some(8));
}
