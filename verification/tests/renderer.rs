use sprite_batch::context::{
    Command, Context, Framebuffer, GraphicsContext, Quad, Shader, Texture, Vertex,
    INDEX_STRIDE, MAX_SPRITE_CAPACITY, SPRITE_CAPACITY, VERTEX_STRIDE,
};
use sprite_batch::geometry::Rectangle;
use sprite_batch::graphics::{
    clear, draw, flush, get_height, get_letterbox, get_width, get_window_height,
    get_window_width, present, push_quad, push_vertex, quad_indices, set_texture,
    set_window_size, Drawable,
};
use sprite_batch::params::{Color, DrawParams, Vector};
use sprite_batch::projection::{ortho, Projection};

const FB: Framebuffer = Framebuffer { handle: 1 };
const FB_TEX: Texture = Texture { handle: 2 };
const DEFAULT_SHADER: Shader = Shader { handle: 3 };
const TEX_A: Texture = Texture { handle: 10 };
const TEX_B: Texture = Texture { handle: 11 };

fn context() -> Context {
    let mut ctx = Context::new(GraphicsContext::new(FB, FB_TEX, DEFAULT_SHADER, 320, 240, 640, 480));
    ctx.commands.clear();
    ctx
}

fn vertex(x: i64, y: i64, u: i64, v: i64) -> Vertex {
    Vertex { x, y, u, v, color: Color::white() }
}

fn quad(x: i64, y: i64) -> Quad {
    Quad {
        first: vertex(x, y, 0, 0),
        second: vertex(x, y + 16, 0, 16),
        third: vertex(x + 16, y + 16, 16, 16),
        fourth: vertex(x + 16, y, 16, 0),
    }
}

fn quad_words(x: i64, y: i64) -> Vec<i64> {
    vec![
        x, y, 0, 0, 255, 255, 255, 255,
        x, y + 16, 0, 16, 255, 255, 255, 255,
        x + 16, y + 16, 16, 16, 255, 255, 255, 255,
        x + 16, y, 16, 0, 255, 255, 255, 255,
    ]
}

fn internal_projection() -> Projection {
    ortho(0, 320, 240, 0, -1, 1)
}

fn draws(commands: &[Command]) -> usize {
    commands.iter().filter(|c| matches!(c, Command::Draw { .. })).count()
}

fn uploads(commands: &[Command]) -> usize {
    commands.iter().filter(|c| matches!(c, Command::UploadVertices { .. })).count()
}

struct Tile {
    texture: Texture,
}

impl Drawable for Tile {
    fn draw<T: Into<DrawParams>>(&self, ctx: &mut Context, params: T) {
        let params: DrawParams = params.into();
        push_quad(ctx, &self.texture, &quad(params.position.x, params.position.y));
    }
}

#[test]
fn constants_of_the_batch() {
    assert_eq!(SPRITE_CAPACITY, 1024);
    assert_eq!(MAX_SPRITE_CAPACITY, 8191);
    assert_eq!(VERTEX_STRIDE, 8);
    assert_eq!(INDEX_STRIDE, 6);
    assert!(SPRITE_CAPACITY <= MAX_SPRITE_CAPACITY);
    assert!(MAX_SPRITE_CAPACITY * 4 < 1 << 16);
}

#[test]
fn a_new_renderer_is_empty_and_unbound() {
    let g = GraphicsContext::new(FB, FB_TEX, DEFAULT_SHADER, 320, 240, 800, 480);
    assert_eq!(g.framebuffer, FB);
    assert_eq!(g.framebuffer_texture, FB_TEX);
    assert_eq!(g.default_shader, DEFAULT_SHADER);
    assert_eq!(g.texture, None);
    assert_eq!(g.shader, None);
    assert_eq!(g.sprite_count, 0);
    assert_eq!(g.capacity, 1024);
    assert!(g.vertices.is_empty());
    assert_eq!(g.internal_projection, internal_projection());
    assert_eq!(
        g.window_projection,
        ortho(0, 800, 480, 0, -1, 1)
    );
    assert_eq!(g.letterbox, Rectangle::new(80, 0, 640, 480));
}

#[test]
fn a_new_context_queues_the_setup_of_the_device() {
    let ctx = Context::new(GraphicsContext::new(FB, FB_TEX, DEFAULT_SHADER, 320, 240, 640, 480));
    assert_eq!(ctx.commands.len(), 5);
    assert_eq!(ctx.commands[0], Command::AttachTexture { framebuffer: FB, texture: FB_TEX });
    assert_eq!(ctx.commands[1], Command::SetViewport { x: 0, y: 0, width: 320, height: 240 });
    assert_eq!(ctx.commands[2], Command::SetVertexAttribute { index: 0, size: 4, offset: 0 });
    assert_eq!(ctx.commands[3], Command::SetVertexAttribute { index: 1, size: 3, offset: 4 });
    assert_eq!(ctx.commands[4], Command::UploadIndices { indices: quad_indices(1024) });
}

#[test]
fn a_renderer_can_be_made_for_another_capacity() {
    let g = GraphicsContext::with_capacity(2, FB, FB_TEX, DEFAULT_SHADER, 320, 240, 640, 480);
    assert_eq!(g.capacity, 2);
    let mut ctx = Context::new(g);
    assert_eq!(
        ctx.commands[4],
        Command::UploadIndices { indices: vec![0, 1, 2, 2, 3, 0, 4, 5, 6, 6, 7, 4] }
    );
    ctx.commands.clear();
    push_quad(&mut ctx, &TEX_A, &quad(0, 0));
    push_quad(&mut ctx, &TEX_A, &quad(16, 0));
    assert!(ctx.commands.is_empty());
    push_quad(&mut ctx, &TEX_A, &quad(32, 0));
    assert_eq!(ctx.commands[2], Command::Draw { shader: DEFAULT_SHADER, texture: TEX_A, count: 12 });
    assert_eq!(ctx.graphics.sprite_count, 1);
    let largest = GraphicsContext::with_capacity(8191, FB, FB_TEX, DEFAULT_SHADER, 1, 1, 0, 0);
    assert_eq!(Context::new(largest).graphics.capacity, 8191);
}

#[test]
fn the_getters_read_the_resolutions() {
    let ctx = Context::new(GraphicsContext::new(FB, FB_TEX, DEFAULT_SHADER, 320, 240, 800, 480));
    assert_eq!(get_width(&ctx), 320);
    assert_eq!(get_height(&ctx), 240);
    assert_eq!(get_window_width(&ctx), 800);
    assert_eq!(get_window_height(&ctx), 480);
    assert_eq!(get_letterbox(&ctx), Rectangle::new(80, 0, 640, 480));
}

#[test]
fn quad_indices_repeat_the_pattern_per_quad() {
    assert_eq!(quad_indices(0), Vec::<u32>::new());
    assert_eq!(quad_indices(1), vec![0, 1, 2, 2, 3, 0]);
    assert_eq!(quad_indices(3), vec![0, 1, 2, 2, 3, 0, 4, 5, 6, 6, 7, 4, 8, 9, 10, 10, 11, 8]);
    let all = quad_indices(8191);
    assert_eq!(all.len(), 8191 * 6);
    assert_eq!(all[8190 * 6..], [32760, 32761, 32762, 32762, 32763, 32760]);
    assert!(all.iter().all(|i| *i < 1 << 16));
}

#[test]
fn clear_queues_one_command() {
    let mut ctx = context();
    clear(&mut ctx, Color::rgba(1, 2, 3, 4));
    assert_eq!(ctx.commands, vec![Command::Clear { color: Color::rgba(1, 2, 3, 4) }]);
    assert!(ctx.graphics.vertices.is_empty());
}

#[test]
fn push_vertex_appends_eight_components() {
    let mut ctx = context();
    push_vertex(&mut ctx, 1, 2, 3, 4, Color::rgba(5, 6, 7, 8));
    assert_eq!(ctx.graphics.vertices, vec![1, 2, 3, 4, 5, 6, 7, 8]);
    push_vertex(&mut ctx, -1, -2, 0, 1, Color::white());
    assert_eq!(
        ctx.graphics.vertices,
        vec![1, 2, 3, 4, 5, 6, 7, 8, -1, -2, 0, 1, 255, 255, 255, 255]
    );
    assert_eq!(ctx.graphics.sprite_count, 0);
    assert!(ctx.commands.is_empty());
}

#[test]
fn push_quad_buffers_thirty_two_components_per_sprite() {
    let mut ctx = context();
    for n in 0..5 {
        push_quad(&mut ctx, &TEX_A, &quad(16 * n, 0));
        assert_eq!(ctx.graphics.sprite_count as i64, n + 1);
        assert_eq!(ctx.graphics.vertices.len(), ctx.graphics.sprite_count * 4 * 8);
    }
    assert_eq!(ctx.graphics.vertices[32..64], quad_words(16, 0)[..]);
    assert_eq!(ctx.graphics.texture, Some(TEX_A));
    assert!(ctx.commands.is_empty());
}

#[test]
fn flush_sends_the_batch_in_one_draw() {
    let mut ctx = context();
    push_quad(&mut ctx, &TEX_A, &quad(0, 0));
    push_quad(&mut ctx, &TEX_A, &quad(16, 0));
    let mut expected = quad_words(0, 0);
    expected.extend(quad_words(16, 0));
    flush(&mut ctx);
    assert_eq!(
        ctx.commands,
        vec![
            Command::SetProjection { shader: DEFAULT_SHADER, projection: internal_projection() },
            Command::UploadVertices { vertices: expected },
            Command::Draw { shader: DEFAULT_SHADER, texture: TEX_A, count: 12 },
        ]
    );
    assert_eq!(ctx.graphics.sprite_count, 0);
    assert!(ctx.graphics.vertices.is_empty());
    assert_eq!(ctx.graphics.texture, Some(TEX_A));
}

#[test]
fn flush_uses_the_shader_that_was_set() {
    let mut ctx = context();
    ctx.graphics.shader = Some(Shader { handle: 77 });
    push_quad(&mut ctx, &TEX_A, &quad(0, 0));
    flush(&mut ctx);
    assert_eq!(
        ctx.commands[0],
        Command::SetProjection { shader: Shader { handle: 77 }, projection: internal_projection() }
    );
    assert_eq!(
        ctx.commands[2],
        Command::Draw { shader: Shader { handle: 77 }, texture: TEX_A, count: 6 }
    );
}

#[test]
fn flush_of_an_empty_batch_sends_nothing() {
    let mut ctx = context();
    flush(&mut ctx);
    assert!(ctx.commands.is_empty());
    set_texture(&mut ctx, &TEX_A);
    flush(&mut ctx);
    flush(&mut ctx);
    assert!(ctx.commands.is_empty());
    assert_eq!(ctx.graphics.sprite_count, 0);
    assert!(ctx.graphics.vertices.is_empty());
    assert_eq!(ctx.graphics.texture, Some(TEX_A));
}

#[test]
fn flush_without_a_texture_sends_nothing() {
    let mut ctx = context();
    ctx.graphics.sprite_count = 1;
    ctx.graphics.vertices = quad_words(0, 0);
    flush(&mut ctx);
    assert!(ctx.commands.is_empty());
    assert_eq!(ctx.graphics.sprite_count, 1);
    assert_eq!(ctx.graphics.vertices, quad_words(0, 0));
}

#[test]
fn a_second_flush_changes_nothing() {
    let mut ctx = context();
    push_quad(&mut ctx, &TEX_A, &quad(0, 0));
    flush(&mut ctx);
    assert_eq!(draws(&ctx.commands), 1);
    flush(&mut ctx);
    assert_eq!(ctx.commands.len(), 3);
    assert_eq!(draws(&ctx.commands), 1);
    assert_eq!(uploads(&ctx.commands), 1);
}

#[test]
fn the_first_texture_is_bound_without_a_flush() {
    let mut ctx = context();
    set_texture(&mut ctx, &TEX_A);
    assert_eq!(ctx.graphics.texture, Some(TEX_A));
    assert!(ctx.commands.is_empty());
}

#[test]
fn binding_the_same_texture_twice_flushes_nothing() {
    let mut ctx = context();
    push_quad(&mut ctx, &TEX_A, &quad(0, 0));
    set_texture(&mut ctx, &TEX_A);
    set_texture(&mut ctx, &TEX_A);
    assert!(ctx.commands.is_empty());
    assert_eq!(ctx.graphics.sprite_count, 1);
    assert_eq!(ctx.graphics.vertices, quad_words(0, 0));
}

#[test]
fn a_texture_swap_flushes_once_before_the_new_texture_is_bound() {
    let mut ctx = context();
    push_quad(&mut ctx, &TEX_A, &quad(0, 0));
    push_quad(&mut ctx, &TEX_A, &quad(16, 0));
    push_quad(&mut ctx, &TEX_A, &quad(32, 0));
    set_texture(&mut ctx, &TEX_B);
    assert_eq!(draws(&ctx.commands), 1);
    assert_eq!(uploads(&ctx.commands), 1);
    assert_eq!(ctx.commands.len(), 3);
    assert_eq!(
        ctx.commands[2],
        Command::Draw { shader: DEFAULT_SHADER, texture: TEX_A, count: 18 }
    );
    assert_eq!(ctx.graphics.texture, Some(TEX_B));
    assert_eq!(ctx.graphics.sprite_count, 0);
    assert!(ctx.graphics.vertices.is_empty());
}

#[test]
fn a_texture_swap_with_nothing_buffered_only_binds() {
    let mut ctx = context();
    set_texture(&mut ctx, &TEX_A);
    set_texture(&mut ctx, &TEX_B);
    assert!(ctx.commands.is_empty());
    assert_eq!(ctx.graphics.texture, Some(TEX_B));
}

#[test]
fn sprites_of_two_textures_go_out_in_two_draws() {
    let mut ctx = context();
    push_quad(&mut ctx, &TEX_A, &quad(0, 0));
    push_quad(&mut ctx, &TEX_B, &quad(16, 0));
    assert_eq!(ctx.graphics.sprite_count, 1);
    assert_eq!(ctx.graphics.vertices, quad_words(16, 0));
    flush(&mut ctx);
    assert_eq!(draws(&ctx.commands), 2);
    assert_eq!(ctx.commands[1], Command::UploadVertices { vertices: quad_words(0, 0) });
    assert_eq!(ctx.commands[2], Command::Draw { shader: DEFAULT_SHADER, texture: TEX_A, count: 6 });
    assert_eq!(ctx.commands[4], Command::UploadVertices { vertices: quad_words(16, 0) });
    assert_eq!(ctx.commands[5], Command::Draw { shader: DEFAULT_SHADER, texture: TEX_B, count: 6 });
}

#[test]
fn a_full_batch_is_sent_to_make_room() {
    let mut ctx = context();
    for n in 0..1024 {
        push_quad(&mut ctx, &TEX_A, &quad(n, 0));
    }
    assert_eq!(ctx.graphics.sprite_count, 1024);
    assert_eq!(ctx.graphics.vertices.len(), 1024 * 32);
    assert!(ctx.commands.is_empty());
    push_quad(&mut ctx, &TEX_A, &quad(5000, 0));
    assert_eq!(ctx.graphics.sprite_count, 1);
    assert_eq!(ctx.graphics.vertices, quad_words(5000, 0));
    assert_eq!(draws(&ctx.commands), 1);
    assert_eq!(
        ctx.commands[2],
        Command::Draw { shader: DEFAULT_SHADER, texture: TEX_A, count: 1024 * 6 }
    );
}

#[test]
fn after_draws_and_a_flush_the_batch_is_empty() {
    let mut ctx = context();
    let a = Tile { texture: TEX_A };
    let b = Tile { texture: TEX_B };
    for n in 0..40 {
        draw(&mut ctx, &a, DrawParams::new().position(Vector::new(n, 0)));
        assert_eq!(ctx.graphics.vertices.len(), ctx.graphics.sprite_count * 32);
    }
    for n in 0..7 {
        draw(&mut ctx, &b, Vector::new(n, 8));
        assert_eq!(ctx.graphics.vertices.len(), ctx.graphics.sprite_count * 32);
    }
    a.draw(&mut ctx, DrawParams::new());
    flush(&mut ctx);
    assert_eq!(ctx.graphics.sprite_count, 0);
    assert!(ctx.graphics.vertices.is_empty());
    assert_eq!(draws(&ctx.commands), 3);
    assert_eq!(ctx.commands[2], Command::Draw { shader: DEFAULT_SHADER, texture: TEX_A, count: 240 });
    assert_eq!(ctx.commands[5], Command::Draw { shader: DEFAULT_SHADER, texture: TEX_B, count: 42 });
    assert_eq!(ctx.commands[8], Command::Draw { shader: DEFAULT_SHADER, texture: TEX_A, count: 6 });
    assert_eq!(
        ctx.commands[4],
        Command::UploadVertices {
            vertices: (0..7).flat_map(|n| quad_words(n, 8)).collect(),
        }
    );
}

#[test]
fn present_sends_the_batch_then_shows_the_offscreen_surface() {
    let mut ctx = Context::new(GraphicsContext::new(FB, FB_TEX, DEFAULT_SHADER, 320, 240, 800, 480));
    ctx.commands.clear();
    ctx.graphics.shader = Some(Shader { handle: 77 });
    push_quad(&mut ctx, &TEX_A, &quad(0, 0));
    present(&mut ctx);
    let window = ortho(0, 800, 480, 0, -1, 1);
    assert_eq!(
        ctx.commands,
        vec![
            Command::SetProjection { shader: Shader { handle: 77 }, projection: internal_projection() },
            Command::UploadVertices { vertices: quad_words(0, 0) },
            Command::Draw { shader: Shader { handle: 77 }, texture: TEX_A, count: 6 },
            Command::BindWindow,
            Command::SetViewport { x: 0, y: 0, width: 800, height: 480 },
            Command::Clear { color: Color::black() },
            Command::SetProjection { shader: DEFAULT_SHADER, projection: window },
            Command::UploadVertices {
                vertices: vec![
                    80, 0, 0, 240, 255, 255, 255, 255,
                    80, 480, 0, 0, 255, 255, 255, 255,
                    720, 480, 320, 0, 255, 255, 255, 255,
                    720, 0, 320, 240, 255, 255, 255, 255,
                ],
            },
            Command::Draw { shader: DEFAULT_SHADER, texture: FB_TEX, count: 6 },
            Command::SwapWindow,
            Command::BindFramebuffer { framebuffer: FB },
            Command::SetViewport { x: 0, y: 0, width: 320, height: 240 },
        ]
    );
    assert_eq!(ctx.graphics.sprite_count, 0);
    assert!(ctx.graphics.vertices.is_empty());
    assert_eq!(ctx.graphics.texture, Some(TEX_A));
}

#[test]
fn present_of_an_empty_frame_draws_once() {
    let mut ctx = context();
    present(&mut ctx);
    assert_eq!(ctx.commands.len(), 9);
    assert_eq!(draws(&ctx.commands), 1);
    assert_eq!(uploads(&ctx.commands), 1);
    assert!(ctx.graphics.vertices.is_empty());
    present(&mut ctx);
    assert_eq!(ctx.commands.len(), 18);
    assert_eq!(ctx.commands[..9], ctx.commands[9..]);
}

#[test]
fn a_resize_moves_the_window_and_nothing_else() {
    let mut ctx = context();
    ctx.graphics.shader = Some(Shader { handle: 77 });
    push_quad(&mut ctx, &TEX_A, &quad(0, 0));
    set_window_size(&mut ctx, 250, 1000);
    assert_eq!(get_window_width(&ctx), 250);
    assert_eq!(get_window_height(&ctx), 1000);
    assert_eq!(
        ctx.graphics.window_projection,
        ortho(0, 250, 1000, 0, -1, 1)
    );
    assert_eq!(get_letterbox(&ctx), Rectangle::new(125, 500, 0, 0));
    assert_eq!(get_width(&ctx), 320);
    assert_eq!(get_height(&ctx), 240);
    assert_eq!(ctx.graphics.internal_projection, internal_projection());
    assert_eq!(ctx.graphics.framebuffer, FB);
    assert_eq!(ctx.graphics.framebuffer_texture, FB_TEX);
    assert_eq!(ctx.graphics.default_shader, DEFAULT_SHADER);
    assert_eq!(ctx.graphics.shader, Some(Shader { handle: 77 }));
    assert_eq!(ctx.graphics.texture, Some(TEX_A));
    assert_eq!(ctx.graphics.sprite_count, 1);
    assert_eq!(ctx.graphics.capacity, 1024);
    assert_eq!(ctx.graphics.vertices, quad_words(0, 0));
    assert!(ctx.commands.is_empty());
    set_window_size(&mut ctx, 1280, 960);
    assert_eq!(get_letterbox(&ctx), Rectangle::new(0, 0, 1280, 960));
}
