use egui_speedy2d::bridge::FrameBridge;
use egui_speedy2d::geom::{Pos, Rect, Rgba, Uv, Vertex};
use egui_speedy2d::image::image_from_pixels;
use egui_speedy2d::mesh::{ClippedPrimitive, DrawCommand, Mesh, Primitive};
use egui_speedy2d::texture::{
    plan_texture_set, ImageDelta, Smoothing, TexFilter, TexOptions, TexWrap, TextureId,
    UploadAction,
};
use egui_speedy2d::BridgeError;

fn vert(x: i32, y: i32, u: u32, v: u32, r: u8) -> Vertex {
    Vertex {
        pos: Pos { x, y },
        uv: Uv { u, v },
        color: Rgba { r, g: 0, b: 0, a: 255 },
    }
}

fn clip() -> Rect {
    Rect {
        min: Pos { x: 0, y: 0 },
        max: Pos { x: 640, y: 480 },
    }
}

fn ccw_mesh(texture_id: TextureId) -> Mesh {
    Mesh {
        indices: vec![0, 1, 2],
        vertices: vec![
            vert(0, 0, 0, 0, 10),
            vert(10, 0, 1, 0, 20),
            vert(0, 10, 0, 1, 30),
        ],
        texture_id,
    }
}

fn bridge_with_texture(id: u64, handle: u64) -> FrameBridge {
    let mut b = FrameBridge::new();
    let pixels = vec![Rgba { r: 255, g: 255, b: 255, a: 255 }];
    b.store_texture(id, handle, image_from_pixels(1, 1, &pixels));
    b
}

#[test]
fn missing_managed_texture_is_fatal() {
    let b = FrameBridge::new();
    let prims = vec![ClippedPrimitive {
        clip_rect: clip(),
        primitive: Primitive::Mesh(ccw_mesh(TextureId::Managed(5))),
    }];
    assert_eq!(
        b.draw_commands(&prims),
        Err(BridgeError::TextureMissing(5))
    );
}

#[test]
fn paint_callbacks_are_fatal() {
    let b = FrameBridge::new();
    let prims = vec![ClippedPrimitive {
        clip_rect: clip(),
        primitive: Primitive::Callback,
    }];
    assert_eq!(
        b.draw_commands(&prims),
        Err(BridgeError::UnsupportedPrimitive)
    );
}

#[test]
fn index_past_the_vertex_buffer_is_fatal() {
    let b = bridge_with_texture(0, 7);
    let mut mesh = ccw_mesh(TextureId::Managed(0));
    mesh.indices = vec![0, 1, 3];
    let prims = vec![ClippedPrimitive {
        clip_rect: clip(),
        primitive: Primitive::Mesh(mesh),
    }];
    assert_eq!(b.draw_commands(&prims), Err(BridgeError::IndexOutOfBounds));
}

#[test]
fn user_texture_mesh_sets_the_clip_and_draws_nothing() {
    let b = FrameBridge::new();
    let prims = vec![ClippedPrimitive {
        clip_rect: clip(),
        primitive: Primitive::Mesh(ccw_mesh(TextureId::User(2))),
    }];
    let cmds = b.draw_commands(&prims).unwrap();
    assert_eq!(cmds, vec![DrawCommand::SetClip(clip())]);
}

#[test]
fn leftover_indices_beyond_whole_triangles_are_ignored() {
    let b = bridge_with_texture(0, 7);
    let mut mesh = ccw_mesh(TextureId::Managed(0));
    mesh.indices = vec![0, 1, 2, 2, 1];
    let prims = vec![ClippedPrimitive {
        clip_rect: clip(),
        primitive: Primitive::Mesh(mesh),
    }];
    let cmds = b.draw_commands(&prims).unwrap();
    let triangles: Vec<_> = cmds
        .iter()
        .filter(|c| matches!(c, DrawCommand::DrawTriangle(_)))
        .collect();
    assert_eq!(triangles.len(), 1);
}

#[test]
fn one_atlas_delta_and_one_ccw_mesh_make_one_upload_and_one_swapped_triangle() {
    let mut b = FrameBridge::new();

    // The frame's texture delta: one window-sized font-atlas image, uploaded
    // whole. Exactly one upload comes out of it.
    let side = 64usize;
    let atlas_pixels = vec![Rgba { r: 255, g: 255, b: 255, a: 255 }; side * side];
    let delta = ImageDelta {
        image: image_from_pixels(side, side, &atlas_pixels),
        region: None,
        options: TexOptions {
            magnification: TexFilter::Linear,
            minification: TexFilter::Linear,
            wrap_mode: TexWrap::ClampToEdge,
        },
    };
    b.begin_draw();
    b.record_frees(&vec![]);
    let action = plan_texture_set(TextureId::Managed(0), &delta).unwrap();
    assert_eq!(
        action,
        UploadAction::Create {
            id: 0,
            smoothing: Smoothing::Linear
        }
    );
    let mut uploads = 0;
    if let UploadAction::Create { id, .. } = action {
        uploads += 1;
        b.store_texture(id, 77, delta.image);
    }
    assert_eq!(uploads, 1);

    // One counter-clockwise triangle referencing that texture.
    let mesh = ccw_mesh(TextureId::Managed(0));
    let expected_b = mesh.vertices[2];
    let expected_c = mesh.vertices[1];
    let prims = vec![ClippedPrimitive {
        clip_rect: clip(),
        primitive: Primitive::Mesh(mesh),
    }];
    let cmds = b.draw_commands(&prims).unwrap();
    assert_eq!(cmds.len(), 2);
    assert_eq!(cmds[0], DrawCommand::SetClip(clip()));
    match &cmds[1] {
        DrawCommand::DrawTriangle(draw) => {
            assert_eq!(draw.handle, 77);
            // Second and third vertices swapped, colors and UVs with them.
            assert_eq!(draw.triangle.a, vert(0, 0, 0, 0, 10));
            assert_eq!(draw.triangle.b, expected_b);
            assert_eq!(draw.triangle.c, expected_c);
        }
        other => panic!("expected a triangle draw, got {:?}", other),
    }
}
