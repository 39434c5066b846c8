//! The operations of the renderer.
//!
//! Each one changes the context as its counterpart on `ContextView` says, and
//! appends what the device has to do to the context's queue.

use vstd::prelude::*;
use vstd::std_specs::convert::IntoSpec;
use crate::context::{
    command_views, components, index_at, quad_components, setup_commands, surface_quad, Command,
    CommandView, Context, ContextView, Framebuffer, GraphicsContext, GraphicsView, Quad, Shader,
    Texture, INDEX_STRIDE, MAX_SPRITE_CAPACITY, SPRITE_CAPACITY,
};
use crate::geometry::Rectangle;
use crate::params::{Color, DrawParams};
use crate::projection::{letterbox, ortho};

verus! {

/// Builds the index buffer of a batch of `capacity` sprites: for every quad
/// the pattern 0, 1, 2, 2, 3, 0 over its own four vertices.
pub fn quad_indices(capacity: usize) -> (indices: Vec<u32>)
    requires
        capacity <= MAX_SPRITE_CAPACITY,
    ensures
        indices@ == Seq::new((capacity * INDEX_STRIDE) as nat, |i: int| index_at(i) as u32),
{
    let mut indices: Vec<u32> = Vec::new();
    let mut quad: usize = 0;
    while quad < capacity
        invariant
            quad <= capacity <= MAX_SPRITE_CAPACITY,
            indices.len() == quad * 6,
            forall|i: int| 0 <= i < indices.len() ==> #[trigger] indices[i] == index_at(i) as u32,
        decreases capacity - quad,
    {
        let base: u32 = (quad as u32) * 4;
        indices.push(base);
        indices.push(base + 1);
        indices.push(base + 2);
        indices.push(base + 2);
        indices.push(base + 3);
        indices.push(base);
        quad = quad + 1;
    }
    assert(indices@ =~= Seq::new((capacity * INDEX_STRIDE) as nat, |i: int| index_at(i) as u32));
    indices
}

impl GraphicsContext {
    /// Creates the state of a renderer that draws into the given offscreen
    /// surface, of the internal resolution, and shows it in a window of the
    /// given size. Its batch holds `SPRITE_CAPACITY` sprites.
    pub fn new(
        framebuffer: Framebuffer,
        framebuffer_texture: Texture,
        default_shader: Shader,
        internal_width: i32,
        internal_height: i32,
        window_width: i32,
        window_height: i32,
    ) -> (graphics: GraphicsContext)
        requires
            internal_width > 0,
            internal_height > 0,
            window_width >= 0,
            window_height >= 0,
        ensures
            graphics@ == GraphicsView::initial(
                SPRITE_CAPACITY,
                framebuffer,
                framebuffer_texture,
                default_shader,
                internal_width,
                internal_height,
                window_width,
                window_height,
            ),
            graphics@.wf(),
    {
        GraphicsContext::with_capacity(
            SPRITE_CAPACITY,
            framebuffer,
            framebuffer_texture,
            default_shader,
            internal_width,
            internal_height,
            window_width,
            window_height,
        )
    }

    /// Creates the state of a renderer whose batch holds `capacity` sprites.
    /// More than `MAX_SPRITE_CAPACITY` cannot be had: their vertices could
    /// not be told apart by the index buffer.
    pub fn with_capacity(
        capacity: usize,
        framebuffer: Framebuffer,
        framebuffer_texture: Texture,
        default_shader: Shader,
        internal_width: i32,
        internal_height: i32,
        window_width: i32,
        window_height: i32,
    ) -> (graphics: GraphicsContext)
        requires
            1 <= capacity <= MAX_SPRITE_CAPACITY,
            internal_width > 0,
            internal_height > 0,
            window_width >= 0,
            window_height >= 0,
        ensures
            graphics@ == GraphicsView::initial(
                capacity,
                framebuffer,
                framebuffer_texture,
                default_shader,
                internal_width,
                internal_height,
                window_width,
                window_height,
            ),
            graphics@.wf(),
    {
        GraphicsContext {
            framebuffer,
            framebuffer_texture,
            texture: None,
            shader: None,
            default_shader,
            internal_projection: ortho(0, internal_width, internal_height, 0, -1, 1),
            window_projection: ortho(0, window_width, window_height, 0, -1, 1),
            vertices: Vec::new(),
            sprite_count: 0,
            capacity,
            internal_width,
            internal_height,
            window_width,
            window_height,
            letterbox: letterbox(internal_width, internal_height, window_width, window_height),
        }
    }
}

impl Context {
    /// Creates a context around a renderer. Its queue holds the commands
    /// that set the device up: the offscreen surface's texture and viewport,
    /// the layout of the vertex buffer, and the index buffer's contents.
    pub fn new(graphics: GraphicsContext) -> (ctx: Context)
        requires
            graphics@.capacity <= MAX_SPRITE_CAPACITY,
        ensures
            ctx@.graphics == graphics@,
            ctx@.commands == setup_commands(graphics@),
    {
        let indices = quad_indices(graphics.capacity);
        let mut commands: Vec<Command> = Vec::new();
        commands.push(
            Command::AttachTexture {
                framebuffer: graphics.framebuffer,
                texture: graphics.framebuffer_texture,
            },
        );
        commands.push(
            Command::SetViewport {
                x: 0,
                y: 0,
                width: graphics.internal_width,
                height: graphics.internal_height,
            },
        );
        commands.push(Command::SetVertexAttribute { index: 0, size: 4, offset: 0 });
        commands.push(Command::SetVertexAttribute { index: 1, size: 3, offset: 4 });
        commands.push(Command::UploadIndices { indices });
        let ctx = Context { graphics, commands };
        assert(ctx@.commands =~= setup_commands(ctx@.graphics));
        ctx
    }
}

/// Gets the internal width of the screen, before scaling is applied.
pub fn get_width(ctx: &Context) -> (width: i32)
    ensures
        width == ctx@.graphics.internal_width,
{
    ctx.graphics.internal_width
}

/// Gets the internal height of the screen, before scaling is applied.
pub fn get_height(ctx: &Context) -> (height: i32)
    ensures
        height == ctx@.graphics.internal_height,
{
    ctx.graphics.internal_height
}

/// Gets the width of the window.
pub fn get_window_width(ctx: &Context) -> (width: i32)
    ensures
        width == ctx@.graphics.window_width,
{
    ctx.graphics.window_width
}

/// Gets the height of the window.
pub fn get_window_height(ctx: &Context) -> (height: i32)
    ensures
        height == ctx@.graphics.window_height,
{
    ctx.graphics.window_height
}

/// Gets the part of the window that the offscreen surface is drawn into.
pub fn get_letterbox(ctx: &Context) -> (letterbox: Rectangle)
    ensures
        letterbox == ctx@.graphics.letterbox,
{
    ctx.graphics.letterbox
}

/// Appends a command to the queue.
fn emit(ctx: &mut Context, command: Command)
    ensures
        final(ctx)@ == old(ctx)@.emit(command@),
{
    ctx.commands.push(command);
    assert(command_views(ctx.commands@) =~= command_views(old(ctx).commands@).push(command@));
}

/// Clears the currently enabled render target to the specified color.
pub fn clear(ctx: &mut Context, color: Color)
    ensures
        final(ctx)@ == old(ctx)@.clear(color),
{
    emit(ctx, Command::Clear { color });
}

/// Appends one vertex to the buffer: its eight components.
pub fn push_vertex(ctx: &mut Context, x: i64, y: i64, u: i64, v: i64, color: Color)
    ensures
        final(ctx)@ == old(ctx)@.push_vertex(x, y, u, v, color),
{
    ctx.graphics.vertices.push(x);
    ctx.graphics.vertices.push(y);
    ctx.graphics.vertices.push(u);
    ctx.graphics.vertices.push(v);
    ctx.graphics.vertices.push(color.r as i64);
    ctx.graphics.vertices.push(color.g as i64);
    ctx.graphics.vertices.push(color.b as i64);
    ctx.graphics.vertices.push(color.a as i64);
    assert(ctx.graphics.vertices@ =~= old(ctx).graphics.vertices@ + components(x, y, u, v, color));
}

/// Takes the buffered vertices out of the context and queues their upload.
fn upload_vertices(ctx: &mut Context)
    ensures
        final(ctx)@ == (ContextView {
            graphics: GraphicsView { vertices: Seq::empty(), ..old(ctx)@.graphics },
            ..old(ctx)@
        }).emit(CommandView::UploadVertices { vertices: old(ctx)@.graphics.vertices }),
{
    let mut vertices: Vec<i64> = Vec::new();
    core::mem::swap(&mut ctx.graphics.vertices, &mut vertices);
    emit(ctx, Command::UploadVertices { vertices });
}

/// Sends queued data to the graphics hardware.
///
/// Where no sprite is buffered, or no texture is bound, nothing is sent.
/// Otherwise the whole buffer goes out in a single draw, with the active
/// shader and the projection of the offscreen surface, and the batch is empty
/// afterwards.
pub fn flush(ctx: &mut Context)
    requires
        old(ctx)@.graphics.sprite_count * INDEX_STRIDE <= usize::MAX,
    ensures
        final(ctx)@ == old(ctx)@.flush(),
{
    if ctx.graphics.sprite_count > 0 {
        match ctx.graphics.texture {
            Some(texture) => {
                let shader = match ctx.graphics.shader {
                    Some(shader) => shader,
                    None => ctx.graphics.default_shader,
                };
                let projection = ctx.graphics.internal_projection;
                let count: usize = ctx.graphics.sprite_count * INDEX_STRIDE;
                emit(ctx, Command::SetProjection { shader, projection });
                upload_vertices(ctx);
                emit(ctx, Command::Draw { shader, texture, count });
                ctx.graphics.sprite_count = 0;
            },
            None => {},
        }
    }
}

/// Sets the texture that is currently being used for rendering.
///
/// Binding the texture that is bound already does nothing. Binding another
/// one first sends what is buffered, since it was buffered for the old one.
pub fn set_texture(ctx: &mut Context, texture: &Texture)
    requires
        old(ctx)@.graphics.sprite_count * INDEX_STRIDE <= usize::MAX,
    ensures
        final(ctx)@ == old(ctx)@.set_texture(*texture),
{
    match ctx.graphics.texture {
        Some(bound) => {
            if bound != *texture {
                flush(ctx);
                ctx.graphics.texture = Some(*texture);
            }
        },
        None => {
            ctx.graphics.texture = Some(*texture);
        },
    }
}

/// Buffers one sprite to be drawn with `texture`.
///
/// The texture is bound first. Where the buffer is full, it is sent to make
/// room, so the batch never grows beyond its capacity.
pub fn push_quad(ctx: &mut Context, texture: &Texture, quad: &Quad)
    requires
        old(ctx)@.graphics.wf(),
    ensures
        final(ctx)@ == old(ctx)@.push_quad(*texture, *quad),
        final(ctx)@.graphics.wf(),
{
    set_texture(ctx, texture);
    if ctx.graphics.sprite_count >= ctx.graphics.capacity {
        flush(ctx);
    }
    let ghost room = ctx@;
    push_vertex(ctx, quad.first.x, quad.first.y, quad.first.u, quad.first.v, quad.first.color);
    push_vertex(ctx, quad.second.x, quad.second.y, quad.second.u, quad.second.v, quad.second.color);
    push_vertex(ctx, quad.third.x, quad.third.y, quad.third.u, quad.third.v, quad.third.color);
    push_vertex(ctx, quad.fourth.x, quad.fourth.y, quad.fourth.u, quad.fourth.v, quad.fourth.color);
    ctx.graphics.sprite_count = ctx.graphics.sprite_count + 1;
    assert(ctx@.graphics.vertices =~= room.graphics.vertices + quad_components(*quad));
}

/// Draws the offscreen surface to the window, scaled and letterboxed, and
/// shows the window.
///
/// What is buffered is sent first. Then the window is cleared to black and
/// the offscreen surface's texture is drawn into the letterbox with the
/// default shader and the window's projection. After the swap the offscreen
/// surface is bound again, for the next frame.
pub fn present(ctx: &mut Context)
    requires
        old(ctx)@.graphics.sprite_count * INDEX_STRIDE <= usize::MAX,
        i64::MIN <= old(ctx)@.graphics.letterbox.x + old(ctx)@.graphics.letterbox.width <= i64::MAX,
        i64::MIN <= old(ctx)@.graphics.letterbox.y + old(ctx)@.graphics.letterbox.height
            <= i64::MAX,
    ensures
        final(ctx)@ == old(ctx)@.present(),
{
    flush(ctx);
    let ghost sent = ctx@;
    let window_width = ctx.graphics.window_width;
    let window_height = ctx.graphics.window_height;
    let internal_width = ctx.graphics.internal_width;
    let internal_height = ctx.graphics.internal_height;
    let target = ctx.graphics.letterbox;
    let shader = ctx.graphics.default_shader;
    let projection = ctx.graphics.window_projection;
    let texture = ctx.graphics.framebuffer_texture;
    let framebuffer = ctx.graphics.framebuffer;

    emit(ctx, Command::BindWindow);
    emit(ctx, Command::SetViewport { x: 0, y: 0, width: window_width, height: window_height });
    emit(ctx, Command::Clear { color: Color::black() });

    let right: i64 = target.x + target.width;
    let bottom: i64 = target.y + target.height;
    push_vertex(ctx, target.x, target.y, 0, internal_height as i64, Color::white());
    push_vertex(ctx, target.x, bottom, 0, 0, Color::white());
    push_vertex(ctx, right, bottom, internal_width as i64, 0, Color::white());
    push_vertex(ctx, right, target.y, internal_width as i64, internal_height as i64, Color::white());
    assert(ctx@.graphics.vertices =~= sent.graphics.vertices + quad_components(
        surface_quad(target, internal_width, internal_height),
    ));

    emit(ctx, Command::SetProjection { shader, projection });
    upload_vertices(ctx);
    emit(ctx, Command::Draw { shader, texture, count: INDEX_STRIDE });
    emit(ctx, Command::SwapWindow);
    emit(ctx, Command::BindFramebuffer { framebuffer });
    emit(ctx, Command::SetViewport { x: 0, y: 0, width: internal_width, height: internal_height });
}

/// Takes over the new size of the window: the window's projection and the
/// letterbox follow it. Nothing of the offscreen surface changes.
pub fn set_window_size(ctx: &mut Context, width: i32, height: i32)
    requires
        old(ctx)@.graphics.internal_width > 0,
        old(ctx)@.graphics.internal_height > 0,
        width >= 0,
        height >= 0,
    ensures
        final(ctx)@ == old(ctx)@.set_window_size(width, height),
{
    ctx.graphics.window_width = width;
    ctx.graphics.window_height = height;
    ctx.graphics.window_projection = ortho(0, width, height, 0, -1, 1);
    ctx.graphics.letterbox = letterbox(
        ctx.graphics.internal_width,
        ctx.graphics.internal_height,
        width,
        height,
    );
}

/// A type that can be drawn to the render target.
///
/// An implementation says with `drawn` what its drawing does to the context,
/// and does just that in `draw`. It buffers its sprites with `push_quad`, and
/// leaves the renderer as it has to be between draw requests: the surfaces
/// and the window are untouched, and the queue has only grown.
pub trait Drawable {
    /// The context that drawing `self` with `params` makes of `before`.
    /// Unless an implementation says otherwise, drawing leaves it as it is.
    open spec fn drawn(&self, before: ContextView, params: DrawParams) -> ContextView {
        before
    }

    /// Draws `self` to the render target, using the specified parameters.
    ///
    /// Anything that converts into `DrawParams` can be handed over: a
    /// `Vector` sets the position and leaves everything else at its default.
    fn draw<T: Into<DrawParams>>(&self, ctx: &mut Context, params: T)
        requires
            old(ctx)@.graphics.wf(),
        ensures
            final(ctx)@.graphics.wf(),
            final(ctx)@.graphics.same_surfaces(old(ctx)@.graphics),
            old(ctx)@.commands.is_prefix_of(final(ctx)@.commands),
            <T as IntoSpec<DrawParams>>::obeys_into_spec() ==> final(ctx)@ == self.drawn(
                old(ctx)@,
                <T as IntoSpec<DrawParams>>::into_spec(params),
            ),
    ;
}

/// Draws an object to the render target: this is `Drawable::draw`, for
/// callers that do not import the trait. The context is afterwards what the
/// object's own `drawn` makes of it, with the parameters that `params`
/// converts into.
pub fn draw<D: Drawable, P: Into<DrawParams>>(ctx: &mut Context, drawable: &D, params: P)
    requires
        old(ctx)@.graphics.wf(),
    ensures
        final(ctx)@.graphics.wf(),
        final(ctx)@.graphics.same_surfaces(old(ctx)@.graphics),
        old(ctx)@.commands.is_prefix_of(final(ctx)@.commands),
        <P as IntoSpec<DrawParams>>::obeys_into_spec() ==> final(ctx)@ == drawable.drawn(
            old(ctx)@,
            <P as IntoSpec<DrawParams>>::into_spec(params),
        ),
{
    drawable.draw(ctx, params);
}

} // verus!
