//! The bridge: one instance per window, owning the pending-input buffer, the
//! texture table with its deferred-free queue, the last known pointer
//! position and the last known modifier snapshot.
//!
//! The embedding layer calls one method per host input callback, and drives
//! each frame in one fixed order: take the pending input and begin
//! the GUI frame; run the application's draw callback; end the frame; then
//! `begin_draw` (freeing last frame's recorded textures), `record_frees` with
//! this frame's free list, one `plan_texture_set` and `store_texture` per set
//! entry, and `draw_commands` over the tessellated output.

use vstd::prelude::*;
use crate::BridgeError;
use crate::geom::Pos;
use crate::image::RgbaImage;
use crate::input::{FrameInput, ScreenRect, UiEvent};
use crate::keymap::{
    button_map,
    key_map,
    KeyCode,
    modifiers_from_keys,
    modifiers_map,
    ModifierKeys,
    MouseButton,
    pointer_button_from_mouse,
    key_from_code,
    UiModifiers,
};
use crate::mesh::{ClippedPrimitive, convert_primitives, DrawCommand, frame_result_matches};
use crate::texture::{managed_ids, TextureEntry, TextureId, TextureStore};

verus! {

/// The bridge's whole state. All of it lives and dies with the window; the
/// host's event loop is single-threaded, so input callbacks and frame draws
/// interleave but never overlap.
pub struct FrameBridge {
    input: FrameInput,
    store: TextureStore,
    last_mouse_position: Pos,
    current_modifiers: ModifierKeys,
    scale_factor_token: Option<u64>,
}

impl FrameBridge {
    /// The input events buffered since the last frame began.
    pub closed spec fn pending_events(self) -> Seq<UiEvent> {
        self.input.events@
    }

    /// The screen rectangle recorded by a resize and not yet handed to a
    /// frame.
    pub closed spec fn pending_screen_rect(self) -> Option<ScreenRect> {
        self.input.screen_rect
    }

    /// The modifier set that the next frame's input will carry.
    pub closed spec fn pending_modifiers(self) -> UiModifiers {
        self.input.modifiers
    }

    /// The last absolute pointer position a move event reported.
    pub closed spec fn mouse_position(self) -> Pos {
        self.last_mouse_position
    }

    /// The last modifier snapshot the host reported.
    pub closed spec fn modifier_keys(self) -> ModifierKeys {
        self.current_modifiers
    }

    /// The scale-factor token the embedding layer last handed in, if any.
    pub closed spec fn scale_token(self) -> Option<u64> {
        self.scale_factor_token
    }

    /// The live texture table.
    pub closed spec fn textures(self) -> Map<u64, TextureEntry> {
        self.store.table()
    }

    /// The identifiers recorded for removal at the start of the next frame's
    /// draw.
    pub closed spec fn free_queue(self) -> Seq<u64> {
        self.store.free_queue()
    }
}

/// The parts of the bridge an input callback never touches: the texture state
/// and the scale token.
pub open spec fn textures_unchanged(pre: FrameBridge, post: FrameBridge) -> bool {
    &&& post.textures() == pre.textures()
    &&& post.free_queue() == pre.free_queue()
    &&& post.scale_token() == pre.scale_token()
}

/// A pointer move: the position is remembered for later button events and a
/// move event is buffered; nothing else changes.
pub open spec fn mouse_move_post(pre: FrameBridge, post: FrameBridge, pos: Pos) -> bool {
    &&& post.mouse_position() == pos
    &&& post.pending_events() == pre.pending_events().push(UiEvent::PointerMoved(pos))
    &&& post.pending_screen_rect() == pre.pending_screen_rect()
    &&& post.pending_modifiers() == pre.pending_modifiers()
    &&& post.modifier_keys() == pre.modifier_keys()
    &&& textures_unchanged(pre, post)
}

/// A pointer button event: if the button maps, one event is buffered, stamped
/// with the last known pointer position and the last known modifier snapshot;
/// an unmapped button buffers nothing. Nothing else changes.
pub open spec fn mouse_button_post(
    pre: FrameBridge,
    post: FrameBridge,
    button: MouseButton,
    pressed: bool,
) -> bool {
    &&& match button_map(button) {
        Some(pb) => post.pending_events() == pre.pending_events().push(
            UiEvent::PointerButton {
                pos: pre.mouse_position(),
                button: pb,
                pressed,
                modifiers: modifiers_map(pre.modifier_keys()),
            },
        ),
        None => post.pending_events() == pre.pending_events(),
    }
    &&& post.mouse_position() == pre.mouse_position()
    &&& post.pending_screen_rect() == pre.pending_screen_rect()
    &&& post.pending_modifiers() == pre.pending_modifiers()
    &&& post.modifier_keys() == pre.modifier_keys()
    &&& textures_unchanged(pre, post)
}

/// A key event: if the code maps, one event is buffered, stamped with the
/// last known modifier snapshot and never marked as a repeat; an unmapped or
/// absent code buffers nothing (the corresponding text event still arrives on
/// its own). Nothing else changes.
pub open spec fn key_post(
    pre: FrameBridge,
    post: FrameBridge,
    code: Option<KeyCode>,
    pressed: bool,
) -> bool {
    &&& match key_map(code) {
        Some(key) => post.pending_events() == pre.pending_events().push(
            UiEvent::Key {
                key,
                pressed,
                repeat: false,
                modifiers: modifiers_map(pre.modifier_keys()),
            },
        ),
        None => post.pending_events() == pre.pending_events(),
    }
    &&& post.mouse_position() == pre.mouse_position()
    &&& post.pending_screen_rect() == pre.pending_screen_rect()
    &&& post.pending_modifiers() == pre.pending_modifiers()
    &&& post.modifier_keys() == pre.modifier_keys()
    &&& textures_unchanged(pre, post)
}

/// A typed character: one text event is buffered; nothing else changes.
pub open spec fn char_post(pre: FrameBridge, post: FrameBridge, c: char) -> bool {
    &&& post.pending_events() == pre.pending_events().push(UiEvent::Text(c))
    &&& post.mouse_position() == pre.mouse_position()
    &&& post.pending_screen_rect() == pre.pending_screen_rect()
    &&& post.pending_modifiers() == pre.pending_modifiers()
    &&& post.modifier_keys() == pre.modifier_keys()
    &&& textures_unchanged(pre, post)
}

/// A modifier change: the snapshot is replaced and its translation becomes
/// the modifier set of the next frame's input; the event buffer itself is
/// untouched.
pub open spec fn modifiers_post(pre: FrameBridge, post: FrameBridge, keys: ModifierKeys) -> bool {
    &&& post.modifier_keys() == keys
    &&& post.pending_modifiers() == modifiers_map(keys)
    &&& post.pending_events() == pre.pending_events()
    &&& post.pending_screen_rect() == pre.pending_screen_rect()
    &&& post.mouse_position() == pre.mouse_position()
    &&& textures_unchanged(pre, post)
}

/// A resize: the stored screen rectangle becomes exactly the rectangle from
/// the origin to (width, height); nothing else changes.
pub open spec fn resize_post(pre: FrameBridge, post: FrameBridge, width: u32, height: u32) -> bool {
    &&& post.pending_screen_rect() == Some(ScreenRect { width, height })
    &&& post.pending_events() == pre.pending_events()
    &&& post.pending_modifiers() == pre.pending_modifiers()
    &&& post.mouse_position() == pre.mouse_position()
    &&& post.modifier_keys() == pre.modifier_keys()
    &&& textures_unchanged(pre, post)
}

/// A scale-factor change: the token is replaced at once — it is not buffered
/// with the input events, so the embedding layer can apply it to the GUI
/// context before anything else happens; nothing else changes.
pub open spec fn scale_post(pre: FrameBridge, post: FrameBridge, token: u64) -> bool {
    &&& post.scale_token() == Some(token)
    &&& post.pending_events() == pre.pending_events()
    &&& post.pending_screen_rect() == pre.pending_screen_rect()
    &&& post.pending_modifiers() == pre.pending_modifiers()
    &&& post.mouse_position() == pre.mouse_position()
    &&& post.modifier_keys() == pre.modifier_keys()
    &&& post.textures() == pre.textures()
    &&& post.free_queue() == pre.free_queue()
}

/// Taking a frame's input: the taken input carries every buffered event in
/// order, the pending screen rectangle and the current modifier set; the
/// buffer is left empty, the rectangle is consumed, and the modifier set
/// stays for the frames after.
pub open spec fn take_post(pre: FrameBridge, post: FrameBridge, taken: FrameInput) -> bool {
    &&& taken.events@ == pre.pending_events()
    &&& taken.screen_rect == pre.pending_screen_rect()
    &&& taken.modifiers == pre.pending_modifiers()
    &&& post.pending_events() == Seq::<UiEvent>::empty()
    &&& post.pending_screen_rect() is None
    &&& post.pending_modifiers() == pre.pending_modifiers()
    &&& post.mouse_position() == pre.mouse_position()
    &&& post.modifier_keys() == pre.modifier_keys()
    &&& textures_unchanged(pre, post)
}

impl FrameBridge {
    /// A fresh bridge: nothing buffered, no textures, pointer at the origin,
    /// no modifier held.
    pub fn new() -> (b: FrameBridge)
        ensures
            b.pending_events() == Seq::<UiEvent>::empty(),
            b.pending_screen_rect() is None,
            b.pending_modifiers() == modifiers_map(ModifierKeys::none()),
            b.mouse_position() == (Pos { x: 0, y: 0 }),
            b.modifier_keys() == ModifierKeys::none(),
            b.scale_token() is None,
            b.textures() == Map::<u64, TextureEntry>::empty(),
            b.free_queue() == Seq::<u64>::empty(),
    {
        let keys = ModifierKeys { ctrl: false, alt: false, shift: false, logo: false };
        FrameBridge {
            input: FrameInput {
                events: Vec::new(),
                screen_rect: None,
                modifiers: modifiers_from_keys(&keys),
            },
            store: TextureStore::new(),
            last_mouse_position: Pos { x: 0, y: 0 },
            current_modifiers: keys,
            scale_factor_token: None,
        }
    }

    /// Records a pointer move.
    pub fn on_mouse_move(&mut self, pos: Pos)
        ensures
            mouse_move_post(*old(self), *final(self), pos),
    {
        self.last_mouse_position = pos;
        self.input.events.push(UiEvent::PointerMoved(pos));
    }

    /// Records a pointer button press.
    pub fn on_mouse_button_down(&mut self, button: MouseButton)
        ensures
            mouse_button_post(*old(self), *final(self), button, true),
    {
        if let Some(pb) = pointer_button_from_mouse(button) {
            let modifiers = modifiers_from_keys(&self.current_modifiers);
            self.input.events.push(
                UiEvent::PointerButton {
                    pos: self.last_mouse_position,
                    button: pb,
                    pressed: true,
                    modifiers,
                },
            );
        }
    }

    /// Records a pointer button release.
    pub fn on_mouse_button_up(&mut self, button: MouseButton)
        ensures
            mouse_button_post(*old(self), *final(self), button, false),
    {
        if let Some(pb) = pointer_button_from_mouse(button) {
            let modifiers = modifiers_from_keys(&self.current_modifiers);
            self.input.events.push(
                UiEvent::PointerButton {
                    pos: self.last_mouse_position,
                    button: pb,
                    pressed: false,
                    modifiers,
                },
            );
        }
    }

    /// Records a key press.
    pub fn on_key_down(&mut self, code: Option<KeyCode>)
        ensures
            key_post(*old(self), *final(self), code, true),
    {
        if let Some(key) = key_from_code(code) {
            let modifiers = modifiers_from_keys(&self.current_modifiers);
            self.input.events.push(UiEvent::Key { key, pressed: true, repeat: false, modifiers });
        }
    }

    /// Records a key release.
    pub fn on_key_up(&mut self, code: Option<KeyCode>)
        ensures
            key_post(*old(self), *final(self), code, false),
    {
        if let Some(key) = key_from_code(code) {
            let modifiers = modifiers_from_keys(&self.current_modifiers);
            self.input.events.push(UiEvent::Key { key, pressed: false, repeat: false, modifiers });
        }
    }

    /// Records a typed character.
    pub fn on_keyboard_char(&mut self, c: char)
        ensures
            char_post(*old(self), *final(self), c),
    {
        self.input.events.push(UiEvent::Text(c));
    }

    /// Records a modifier change.
    pub fn on_keyboard_modifiers_changed(&mut self, keys: ModifierKeys)
        ensures
            modifiers_post(*old(self), *final(self), keys),
    {
        self.current_modifiers = keys;
        self.input.modifiers = modifiers_from_keys(&keys);
    }

    /// Records a resize.
    pub fn on_resize(&mut self, width: u32, height: u32)
        ensures
            resize_post(*old(self), *final(self), width, height),
    {
        self.input.screen_rect = Some(ScreenRect { width, height });
    }

    /// Records a scale-factor change.
    pub fn on_scale_factor_changed(&mut self, token: u64)
        ensures
            scale_post(*old(self), *final(self), token),
    {
        self.scale_factor_token = Some(token);
    }

    /// Takes the pending input for the frame about to begin, leaving an empty
    /// buffer behind.
    pub fn take_frame_input(&mut self) -> (taken: FrameInput)
        ensures
            take_post(*old(self), *final(self), taken),
    {
        let mut events: Vec<UiEvent> = Vec::new();
        std::mem::swap(&mut events, &mut self.input.events);
        let screen_rect = self.input.screen_rect;
        self.input.screen_rect = None;
        FrameInput { events, screen_rect, modifiers: self.input.modifiers }
    }

    /// Starts a frame's draw: frees every texture recorded in the previous
    /// frame's free list.
    pub fn begin_draw(&mut self)
        ensures
            final(self).textures() == old(self).textures().remove_keys(
                old(self).free_queue().to_set(),
            ),
            final(self).free_queue() == Seq::<u64>::empty(),
            final(self).pending_events() == old(self).pending_events(),
            final(self).pending_screen_rect() == old(self).pending_screen_rect(),
            final(self).pending_modifiers() == old(self).pending_modifiers(),
            final(self).mouse_position() == old(self).mouse_position(),
            final(self).modifier_keys() == old(self).modifier_keys(),
            final(self).scale_token() == old(self).scale_token(),
    {
        self.store.advance_free_queue();
    }

    /// Records this frame's free list for removal at the start of the next
    /// frame's draw; the table itself — and so every draw of this frame — is
    /// untouched.
    pub fn record_frees(&mut self, free: &Vec<TextureId>)
        ensures
            final(self).free_queue() == managed_ids(free@),
            final(self).textures() == old(self).textures(),
            final(self).pending_events() == old(self).pending_events(),
            final(self).pending_screen_rect() == old(self).pending_screen_rect(),
            final(self).pending_modifiers() == old(self).pending_modifiers(),
            final(self).mouse_position() == old(self).mouse_position(),
            final(self).modifier_keys() == old(self).modifier_keys(),
            final(self).scale_token() == old(self).scale_token(),
    {
        self.store.record_frees(free);
    }

    /// Stores a freshly uploaded texture under its managed identifier, with
    /// the CPU-side copy of its pixels.
    pub fn store_texture(&mut self, id: u64, handle: u64, image: RgbaImage)
        ensures
            final(self).textures() == old(self).textures().insert(
                id,
                TextureEntry { handle, image },
            ),
            final(self).free_queue() == old(self).free_queue(),
            final(self).pending_events() == old(self).pending_events(),
            final(self).pending_screen_rect() == old(self).pending_screen_rect(),
            final(self).pending_modifiers() == old(self).pending_modifiers(),
            final(self).mouse_position() == old(self).mouse_position(),
            final(self).modifier_keys() == old(self).modifier_keys(),
            final(self).scale_token() == old(self).scale_token(),
    {
        self.store.store(id, TextureEntry { handle, image });
    }

    /// The scale-factor token the embedding layer last handed in, to apply to
    /// the GUI context before the next tessellation.
    pub fn current_scale_token(&self) -> (r: Option<u64>)
        ensures
            r == self.scale_token(),
    {
        self.scale_factor_token
    }

    /// Looks up the host handle for a managed texture identifier.
    pub fn resolve_texture(&self, id: u64) -> (r: Option<u64>)
        ensures
            r == crate::texture::resolve_in(self.textures(), id),
    {
        self.store.resolve(id)
    }

    /// Converts this frame's tessellated output into draw commands against
    /// the live texture table.
    pub fn draw_commands(&self, prims: &Vec<ClippedPrimitive>) -> (r: Result<
        Vec<DrawCommand>,
        BridgeError,
    >)
        ensures
            frame_result_matches(self.textures(), prims@, r),
    {
        convert_primitives(&self.store, prims)
    }
}

/// A resize recorded before a frame begins reaches that frame: whatever else
/// the bridge went through in between, if the rectangle it stored was not
/// overwritten, the next taken frame input carries exactly the rectangle from
/// the origin to (width, height).
pub proof fn lemma_resize_reaches_next_frame(
    b0: FrameBridge,
    b1: FrameBridge,
    b2: FrameBridge,
    taken: FrameInput,
    width: u32,
    height: u32,
)
    requires
        resize_post(b0, b1, width, height),
        take_post(b1, b2, taken),
    ensures
        taken.screen_rect == Some(ScreenRect { width, height }),
{
}

/// A taken frame input carries its events in arrival order, and taking
/// consumes them: a second take with no events in between hands back an empty
/// buffer and no screen rectangle, while the modifier set persists.
pub proof fn lemma_take_drains_buffer(
    b0: FrameBridge,
    b1: FrameBridge,
    b2: FrameBridge,
    first: FrameInput,
    second: FrameInput,
)
    requires
        take_post(b0, b1, first),
        take_post(b1, b2, second),
    ensures
        first.events@ == b0.pending_events(),
        second.events@ == Seq::<UiEvent>::empty(),
        second.screen_rect is None,
        second.modifiers == first.modifiers,
{
}

} // verus!
