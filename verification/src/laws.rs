//! What holds of the renderer whatever is drawn.

use vstd::prelude::*;
use crate::context::{
    index_at, quad_components, surface_quad, CommandView, ContextView, Quad, Texture,
    INDEX_STRIDE, MAX_SPRITE_CAPACITY,
};
use crate::params::opaque_black;
use crate::projection::{
    lemma_letterbox_bounds, lemma_scale_factor_bounds, letterbox_of, scale_factor,
    screen_projection,
};

verus! {

/// How many draw calls a queue of commands holds.
pub open spec fn draw_calls(commands: Seq<CommandView>) -> nat
    decreases commands.len(),
{
    if commands.len() == 0 {
        0
    } else {
        draw_calls(commands.drop_last()) + if commands.last() is Draw {
            1nat
        } else {
            0nat
        }
    }
}

/// How many uploads into the vertex buffer a queue of commands holds.
pub open spec fn vertex_uploads(commands: Seq<CommandView>) -> nat
    decreases commands.len(),
{
    if commands.len() == 0 {
        0
    } else {
        vertex_uploads(commands.drop_last()) + if commands.last() is UploadVertices {
            1nat
        } else {
            0nat
        }
    }
}

/// One more command adds one draw call if it is one, and none if not.
pub proof fn lemma_draw_calls_push(commands: Seq<CommandView>, command: CommandView)
    ensures
        draw_calls(commands.push(command)) == draw_calls(commands) + if command is Draw {
            1nat
        } else {
            0nat
        },
        vertex_uploads(commands.push(command)) == vertex_uploads(commands)
            + if command is UploadVertices {
            1nat
        } else {
            0nat
        },
{
    assert(commands.push(command).drop_last() =~= commands);
}

/// A flush sends at most one draw call and one upload, and exactly one of each
/// where a sprite is buffered and a texture is bound. The draw covers six
/// indices for every buffered sprite.
pub proof fn lemma_flush_draws_once(c: ContextView)
    ensures
        c.commands.is_prefix_of(c.flush().commands),
        draw_calls(c.flush().commands) == draw_calls(c.commands) + if c.graphics.flushes() {
            1nat
        } else {
            0nat
        },
        vertex_uploads(c.flush().commands) == vertex_uploads(c.commands) + if c.graphics.flushes() {
            1nat
        } else {
            0nat
        },
        c.graphics.flushes() ==> c.flush().commands.last() == (CommandView::Draw {
            shader: c.graphics.active_shader(),
            texture: c.graphics.texture.unwrap(),
            count: (c.graphics.sprite_count * INDEX_STRIDE) as usize,
        }),
{
    if c.graphics.flushes() {
        let g = c.graphics;
        let first = CommandView::SetProjection {
            shader: g.active_shader(),
            projection: g.internal_projection,
        };
        let second = CommandView::UploadVertices { vertices: g.vertices };
        let third = CommandView::Draw {
            shader: g.active_shader(),
            texture: g.texture.unwrap(),
            count: (g.sprite_count * INDEX_STRIDE) as usize,
        };
        lemma_draw_calls_push(c.commands, first);
        lemma_draw_calls_push(c.commands.push(first), second);
        lemma_draw_calls_push(c.commands.push(first).push(second), third);
    }
}

/// After a flush of a renderer in order the batch is empty: no sprite is
/// counted and the vertex buffer holds nothing. The renderer is in order
/// again, with the surfaces and the bindings it had.
pub proof fn lemma_flush_empties_batch(c: ContextView)
    requires
        c.graphics.wf(),
    ensures
        c.flush().graphics.sprite_count == 0,
        c.flush().graphics.vertices.len() == 0,
        c.flush().graphics.wf(),
        c.flush().graphics.same_surfaces(c.graphics),
        c.flush().graphics.texture == c.graphics.texture,
        c.flush().graphics.shader == c.graphics.shader,
{
}

/// Buffering a sprite keeps the renderer in order: the vertex buffer holds
/// thirty-two components for every sprite counted, the count stays within the
/// capacity, and the sprite's texture is the one bound.
pub proof fn lemma_push_quad_keeps_order(c: ContextView, texture: Texture, quad: Quad)
    requires
        c.graphics.wf(),
    ensures
        c.push_quad(texture, quad).graphics.wf(),
        c.push_quad(texture, quad).graphics.same_surfaces(c.graphics),
        c.push_quad(texture, quad).graphics.texture == Some(texture),
        c.push_quad(texture, quad).graphics.sprite_count >= 1,
        c.commands.is_prefix_of(c.push_quad(texture, quad).commands),
{
    lemma_flush_draws_once(c);
    let bound = c.set_texture(texture);
    lemma_flush_draws_once(bound);
}

/// However many sprites are buffered into a renderer in order, with whatever
/// textures, the renderer stays in order and keeps its surfaces.
pub proof fn lemma_push_quads_keep_order(c: ContextView, sprites: Seq<(Texture, Quad)>)
    requires
        c.graphics.wf(),
    ensures
        c.push_quads(sprites).graphics.wf(),
        c.push_quads(sprites).graphics.same_surfaces(c.graphics),
        c.commands.is_prefix_of(c.push_quads(sprites).commands),
    decreases sprites.len(),
{
    if sprites.len() > 0 {
        lemma_push_quads_keep_order(c, sprites.drop_last());
        lemma_push_quad_keeps_order(
            c.push_quads(sprites.drop_last()),
            sprites.last().0,
            sprites.last().1,
        );
    }
}

/// Whatever sprites were buffered into a renderer in order, a flush after
/// them leaves the batch empty: no sprite is counted and the vertex buffer
/// holds nothing.
pub proof fn lemma_flush_after_quads(c: ContextView, sprites: Seq<(Texture, Quad)>)
    requires
        c.graphics.wf(),
    ensures
        c.push_quads(sprites).flush().graphics.sprite_count == 0,
        c.push_quads(sprites).flush().graphics.vertices.len() == 0,
        c.push_quads(sprites).flush().graphics.wf(),
{
    lemma_push_quads_keep_order(c, sprites);
    lemma_flush_empties_batch(c.push_quads(sprites));
}

/// Binding another texture while sprites are buffered for the bound one
/// sends them in exactly one draw call, with the old texture, and then the
/// new texture is the bound one.
pub proof fn lemma_texture_swap_flushes_once(c: ContextView, bound: Texture, next: Texture)
    requires
        c.graphics.texture == Some(bound),
        c.graphics.sprite_count > 0,
        bound != next,
    ensures
        c.set_texture(next).graphics.texture == Some(next),
        c.set_texture(next).graphics.sprite_count == 0,
        c.set_texture(next).graphics.vertices.len() == 0,
        c.set_texture(next).commands == c.flush().commands,
        draw_calls(c.set_texture(next).commands) == draw_calls(c.commands) + 1,
        vertex_uploads(c.set_texture(next).commands) == vertex_uploads(c.commands) + 1,
        c.set_texture(next).commands.last() == (CommandView::Draw {
            shader: c.graphics.active_shader(),
            texture: bound,
            count: (c.graphics.sprite_count * INDEX_STRIDE) as usize,
        }),
{
    lemma_flush_draws_once(c);
}

/// Binding the texture that is bound already changes nothing: no flush, no
/// command.
pub proof fn lemma_same_texture_is_kept(c: ContextView, bound: Texture)
    requires
        c.graphics.texture == Some(bound),
    ensures
        c.set_texture(bound) == c,
{
}

/// The first texture is bound without a flush where nothing is buffered.
pub proof fn lemma_first_texture_binds_silently(c: ContextView, texture: Texture)
    requires
        c.graphics.texture.is_none(),
    ensures
        c.set_texture(texture).commands == c.commands,
        c.set_texture(texture).graphics.texture == Some(texture),
        c.set_texture(texture).graphics.vertices == c.graphics.vertices,
        c.set_texture(texture).graphics.sprite_count == c.graphics.sprite_count,
{
}

/// A flush with no sprite buffered changes nothing: no upload, no draw call.
pub proof fn lemma_idle_flush_is_silent(c: ContextView)
    requires
        c.graphics.sprite_count == 0,
    ensures
        c.flush() == c,
        draw_calls(c.flush().commands) == draw_calls(c.commands),
        vertex_uploads(c.flush().commands) == vertex_uploads(c.commands),
{
}

/// A second flush right after a flush changes nothing.
pub proof fn lemma_flush_twice(c: ContextView)
    ensures
        c.flush().flush() == c.flush(),
{
}

/// A new size of the window leaves the offscreen surface as it is: its
/// resolution, its projection, its framebuffer and that framebuffer's
/// texture. The batch, the bindings and the queue are untouched as well.
pub proof fn lemma_resize_keeps_offscreen_surface(c: ContextView, width: i32, height: i32)
    ensures
        c.set_window_size(width, height).graphics.internal_width == c.graphics.internal_width,
        c.set_window_size(width, height).graphics.internal_height == c.graphics.internal_height,
        c.set_window_size(width, height).graphics.internal_projection
            == c.graphics.internal_projection,
        c.set_window_size(width, height).graphics.framebuffer == c.graphics.framebuffer,
        c.set_window_size(width, height).graphics.framebuffer_texture
            == c.graphics.framebuffer_texture,
        c.set_window_size(width, height).graphics.vertices == c.graphics.vertices,
        c.set_window_size(width, height).graphics.sprite_count == c.graphics.sprite_count,
        c.set_window_size(width, height).graphics.capacity == c.graphics.capacity,
        c.set_window_size(width, height).graphics.texture == c.graphics.texture,
        c.set_window_size(width, height).graphics.shader == c.graphics.shader,
        c.set_window_size(width, height).graphics.default_shader == c.graphics.default_shader,
        c.set_window_size(width, height).commands == c.commands,
        c.graphics.wf() && width >= 0 && height >= 0 ==> c.set_window_size(
            width,
            height,
        ).graphics.wf(),
{
}

/// A renderer in order can be presented, and is in order afterwards, with an
/// empty batch and the surfaces it had. Presenting draws once more than the
/// flush it starts with, and that last draw shows the offscreen surface.
pub proof fn lemma_present_keeps_order(c: ContextView)
    requires
        c.graphics.wf(),
    ensures
        c.graphics.sprite_count * INDEX_STRIDE <= usize::MAX,
        i64::MIN <= c.graphics.letterbox.x + c.graphics.letterbox.width <= i64::MAX,
        i64::MIN <= c.graphics.letterbox.y + c.graphics.letterbox.height <= i64::MAX,
        c.present().graphics.wf(),
        c.present().graphics.sprite_count == 0,
        c.present().graphics.vertices.len() == 0,
        c.present().graphics.same_surfaces(c.graphics),
        draw_calls(c.present().commands) == draw_calls(c.flush().commands) + 1,
{
    let g = c.graphics;
    lemma_letterbox_bounds(g.internal_width, g.internal_height, g.window_width, g.window_height);
    let sent = c.flush();
    let s = sent.graphics;
    let c1 = sent.commands.push(CommandView::BindWindow);
    lemma_draw_calls_push(sent.commands, CommandView::BindWindow);
    let v1 = CommandView::SetViewport { x: 0, y: 0, width: s.window_width, height: s.window_height };
    lemma_draw_calls_push(c1, v1);
    let c2 = c1.push(v1);
    let v2 = CommandView::Clear { color: opaque_black() };
    lemma_draw_calls_push(c2, v2);
    let c3 = c2.push(v2);
    let v3 = CommandView::SetProjection { shader: s.default_shader, projection: s.window_projection };
    lemma_draw_calls_push(c3, v3);
    let c4 = c3.push(v3);
    let v4 = CommandView::UploadVertices {
        vertices: s.vertices + quad_components(
            surface_quad(s.letterbox, s.internal_width, s.internal_height),
        ),
    };
    lemma_draw_calls_push(c4, v4);
    let c5 = c4.push(v4);
    let v5 = CommandView::Draw {
        shader: s.default_shader,
        texture: s.framebuffer_texture,
        count: INDEX_STRIDE,
    };
    lemma_draw_calls_push(c5, v5);
    let c6 = c5.push(v5);
    lemma_draw_calls_push(c6, CommandView::SwapWindow);
    let c7 = c6.push(CommandView::SwapWindow);
    let v7 = CommandView::BindFramebuffer { framebuffer: s.framebuffer };
    lemma_draw_calls_push(c7, v7);
    let c8 = c7.push(v7);
    let v8 = CommandView::SetViewport {
        x: 0,
        y: 0,
        width: s.internal_width,
        height: s.internal_height,
    };
    lemma_draw_calls_push(c8, v8);
}

/// Every index of the index buffer names a vertex of its own quad, so all of
/// them stay below four times the capacity, and with it within 16 bits.
pub proof fn lemma_indices_fit(capacity: usize, i: int)
    requires
        capacity <= MAX_SPRITE_CAPACITY,
        0 <= i < capacity * INDEX_STRIDE,
    ensures
        4 * (i / 6) <= index_at(i) < 4 * (i / 6) + 4,
        index_at(i) < 4 * capacity,
        index_at(i) < 0x1_0000,
{
}

/// The projection of a surface with its origin at the top left maps the
/// corner (0, 0) to (-1, 1) of the clip square and the opposite corner
/// (width, height) to (1, -1): Y is flipped. Depth changes its sign.
pub proof fn lemma_screen_projection_corners(width: i32, height: i32, z: int)
    requires
        width > 0,
        height > 0,
    ensures
        screen_projection(width, height).clip_x(0).is_whole(-1),
        screen_projection(width, height).clip_y(0).is_whole(1),
        screen_projection(width, height).clip_x(width as int).is_whole(1),
        screen_projection(width, height).clip_y(height as int).is_whole(-1),
        screen_projection(width, height).clip_z(z).is_whole(-z),
{
    let p = screen_projection(width, height);
    assert(p.scale_z.num * z == -2 * z) by (nonlinear_arith)
        requires
            p.scale_z.num == -2,
    ;
    assert((-z) * p.clip_z(z).den == -2 * z) by (nonlinear_arith)
        requires
            p.clip_z(z).den == 2,
    ;
}

/// The letterbox is the internal surface times a whole factor that is zero
/// only where the window is too small, and it is centred: the bars on both
/// sides differ by one pixel at most.
pub proof fn lemma_letterbox_centred(iw: int, ih: int, ww: int, wh: int)
    requires
        iw > 0,
        ih > 0,
        ww >= 0,
        wh >= 0,
    ensures
        letterbox_of(iw, ih, ww, wh).2 == iw * scale_factor(iw, ih, ww, wh),
        letterbox_of(iw, ih, ww, wh).3 == ih * scale_factor(iw, ih, ww, wh),
        scale_factor(iw, ih, ww, wh) >= 0,
        -1 <= (ww - letterbox_of(iw, ih, ww, wh).2) - 2 * letterbox_of(iw, ih, ww, wh).0 <= 1,
        -1 <= (wh - letterbox_of(iw, ih, ww, wh).3) - 2 * letterbox_of(iw, ih, ww, wh).1 <= 1,
        ww <= wh ==> letterbox_of(iw, ih, ww, wh).2 <= ww,
        ww > wh ==> letterbox_of(iw, ih, ww, wh).3 <= wh,
{
    lemma_scale_factor_bounds(iw, ih, ww, wh);
    assert(iw * (ww / iw) <= ww) by (nonlinear_arith)
        requires
            iw > 0,
            ww >= 0,
    ;
    assert(ih * (wh / ih) <= wh) by (nonlinear_arith)
        requires
            ih > 0,
            wh >= 0,
    ;
}

} // verus!
