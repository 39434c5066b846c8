//! The render context: the sprite batch, what is bound, and the two surfaces.

use vstd::prelude::*;
use crate::geometry::Rectangle;
use crate::params::{opaque_black, opaque_white, Color};
use crate::projection::{letterbox_rect, screen_projection, Projection};

verus! {

/// How many sprites a batch holds.
pub const SPRITE_CAPACITY: usize = 1024;

/// The most sprites that a batch can be made for: four vertices to a sprite,
/// and every vertex index has to fit in 16 bits.
pub const MAX_SPRITE_CAPACITY: usize = 8191;

/// How many components a vertex has: x, y, u, v, r, g, b, a.
pub const VERTEX_STRIDE: usize = 8;

/// How many indices a quad takes: two triangles.
pub const INDEX_STRIDE: usize = 6;

/// A texture of the device.
#[derive(Copy, Clone, Debug, PartialEq, Eq, Structural)]
pub struct Texture {
    pub handle: u32,
}

/// A shader program of the device.
#[derive(Copy, Clone, Debug, PartialEq, Eq, Structural)]
pub struct Shader {
    pub handle: u32,
}

/// A framebuffer of the device.
#[derive(Copy, Clone, Debug, PartialEq, Eq, Structural)]
pub struct Framebuffer {
    pub handle: u32,
}

/// One vertex of a quad. Positions are in pixels of the target, texture
/// co-ordinates in texels of the bound texture.
#[derive(Copy, Clone, Debug, PartialEq, Eq, Structural)]
pub struct Vertex {
    pub x: i64,
    pub y: i64,
    pub u: i64,
    pub v: i64,
    pub color: Color,
}

/// The four corners of a sprite, in the order in which the index pattern
/// joins them.
#[derive(Copy, Clone, Debug, PartialEq, Eq, Structural)]
pub struct Quad {
    pub first: Vertex,
    pub second: Vertex,
    pub third: Vertex,
    pub fourth: Vertex,
}

/// Something for the graphics device to do.
#[derive(Debug, PartialEq, Eq)]
pub enum Command {
    /// Attach the texture to the framebuffer as its colour.
    AttachTexture { framebuffer: Framebuffer, texture: Texture },
    /// Set the active viewport.
    SetViewport { x: i32, y: i32, width: i32, height: i32 },
    /// Lay out one attribute of the vertex buffer.
    SetVertexAttribute { index: u32, size: usize, offset: usize },
    /// Upload the indices into the index buffer, from its start.
    UploadIndices { indices: Vec<u32> },
    /// Render into the framebuffer from now on.
    BindFramebuffer { framebuffer: Framebuffer },
    /// Render into the window's own surface from now on.
    BindWindow,
    /// Clear the active target.
    Clear { color: Color },
    /// Set the `projection` uniform of the shader.
    SetProjection { shader: Shader, projection: Projection },
    /// Upload the vertices into the vertex buffer, from its start.
    UploadVertices { vertices: Vec<i64> },
    /// Draw `count` indices with the shader and the texture.
    Draw { shader: Shader, texture: Texture, count: usize },
    /// Show the window's surface.
    SwapWindow,
}

/// What a `Command` says, with sequences for its vectors.
#[verifier::ext_equal]
pub enum CommandView {
    AttachTexture { framebuffer: Framebuffer, texture: Texture },
    SetViewport { x: i32, y: i32, width: i32, height: i32 },
    SetVertexAttribute { index: u32, size: usize, offset: usize },
    UploadIndices { indices: Seq<u32> },
    BindFramebuffer { framebuffer: Framebuffer },
    BindWindow,
    Clear { color: Color },
    SetProjection { shader: Shader, projection: Projection },
    UploadVertices { vertices: Seq<i64> },
    Draw { shader: Shader, texture: Texture, count: usize },
    SwapWindow,
}

impl View for Command {
    type V = CommandView;

    open spec fn view(&self) -> CommandView {
        match *self {
            Command::AttachTexture { framebuffer, texture } => CommandView::AttachTexture {
                framebuffer,
                texture,
            },
            Command::SetViewport { x, y, width, height } => CommandView::SetViewport {
                x,
                y,
                width,
                height,
            },
            Command::SetVertexAttribute { index, size, offset } => CommandView::SetVertexAttribute {
                index,
                size,
                offset,
            },
            Command::UploadIndices { indices } => CommandView::UploadIndices { indices: indices@ },
            Command::BindFramebuffer { framebuffer } => CommandView::BindFramebuffer { framebuffer },
            Command::BindWindow => CommandView::BindWindow,
            Command::Clear { color } => CommandView::Clear { color },
            Command::SetProjection { shader, projection } => CommandView::SetProjection {
                shader,
                projection,
            },
            Command::UploadVertices { vertices } => CommandView::UploadVertices {
                vertices: vertices@,
            },
            Command::Draw { shader, texture, count } => CommandView::Draw { shader, texture, count },
            Command::SwapWindow => CommandView::SwapWindow,
        }
    }
}

/// The state of the renderer.
pub struct GraphicsContext {
    /// The offscreen surface that sprites are drawn into.
    pub framebuffer: Framebuffer,
    /// The texture that holds the offscreen surface's colours.
    pub framebuffer_texture: Texture,
    /// The texture that the buffered sprites are drawn with.
    pub texture: Option<Texture>,
    /// The shader to draw with; without one the default shader is used.
    pub shader: Option<Shader>,
    pub default_shader: Shader,
    /// The projection of the offscreen surface.
    pub internal_projection: Projection,
    /// The projection of the window.
    pub window_projection: Projection,
    /// The components of the buffered vertices, eight to a vertex.
    pub vertices: Vec<i64>,
    /// How many sprites are buffered.
    pub sprite_count: usize,
    /// How many sprites the buffer is made for.
    pub capacity: usize,
    pub internal_width: i32,
    pub internal_height: i32,
    pub window_width: i32,
    pub window_height: i32,
    /// The part of the window that the offscreen surface is drawn into.
    pub letterbox: Rectangle,
}

/// The state of the renderer, with a sequence for the vertex buffer.
#[verifier::ext_equal]
pub struct GraphicsView {
    pub framebuffer: Framebuffer,
    pub framebuffer_texture: Texture,
    pub texture: Option<Texture>,
    pub shader: Option<Shader>,
    pub default_shader: Shader,
    pub internal_projection: Projection,
    pub window_projection: Projection,
    pub vertices: Seq<i64>,
    pub sprite_count: usize,
    pub capacity: usize,
    pub internal_width: i32,
    pub internal_height: i32,
    pub window_width: i32,
    pub window_height: i32,
    pub letterbox: Rectangle,
}

impl View for GraphicsContext {
    type V = GraphicsView;

    open spec fn view(&self) -> GraphicsView {
        GraphicsView {
            framebuffer: self.framebuffer,
            framebuffer_texture: self.framebuffer_texture,
            texture: self.texture,
            shader: self.shader,
            default_shader: self.default_shader,
            internal_projection: self.internal_projection,
            window_projection: self.window_projection,
            vertices: self.vertices@,
            sprite_count: self.sprite_count,
            capacity: self.capacity,
            internal_width: self.internal_width,
            internal_height: self.internal_height,
            window_width: self.window_width,
            window_height: self.window_height,
            letterbox: self.letterbox,
        }
    }
}

/// The renderer and the commands that it has issued and the device has not
/// taken yet, oldest first.
pub struct Context {
    pub graphics: GraphicsContext,
    pub commands: Vec<Command>,
}

/// A `Context`, with sequences for its vectors.
#[verifier::ext_equal]
pub struct ContextView {
    pub graphics: GraphicsView,
    pub commands: Seq<CommandView>,
}

impl View for Context {
    type V = ContextView;

    open spec fn view(&self) -> ContextView {
        ContextView {
            graphics: self.graphics@,
            commands: command_views(self.commands@),
        }
    }
}

/// What a queue of commands says, command by command.
pub open spec fn command_views(commands: Seq<Command>) -> Seq<CommandView> {
    commands.map_values(|c: Command| c@)
}

/// The eight components of a vertex, in the order of the buffer.
pub open spec fn components(x: i64, y: i64, u: i64, v: i64, color: Color) -> Seq<i64> {
    seq![x, y, u, v, color.r as i64, color.g as i64, color.b as i64, color.a as i64]
}

/// The components of the four vertices of a quad.
pub open spec fn quad_components(q: Quad) -> Seq<i64> {
    components(q.first.x, q.first.y, q.first.u, q.first.v, q.first.color) + components(
        q.second.x,
        q.second.y,
        q.second.u,
        q.second.v,
        q.second.color,
    ) + components(q.third.x, q.third.y, q.third.u, q.third.v, q.third.color) + components(
        q.fourth.x,
        q.fourth.y,
        q.fourth.u,
        q.fourth.v,
        q.fourth.color,
    )
}

/// The quad that shows the whole of a texture `width` by `height` in the
/// rectangle `target`, untinted. The texture's first row is its bottom one.
pub open spec fn surface_quad(target: Rectangle, width: i32, height: i32) -> Quad {
    Quad {
        first: Vertex {
            x: target.x,
            y: target.y,
            u: 0,
            v: height as i64,
            color: opaque_white(),
        },
        second: Vertex {
            x: target.x,
            y: (target.y + target.height) as i64,
            u: 0,
            v: 0,
            color: opaque_white(),
        },
        third: Vertex {
            x: (target.x + target.width) as i64,
            y: (target.y + target.height) as i64,
            u: width as i64,
            v: 0,
            color: opaque_white(),
        },
        fourth: Vertex {
            x: (target.x + target.width) as i64,
            y: target.y,
            u: width as i64,
            v: height as i64,
            color: opaque_white(),
        },
    }
}

/// The index pattern of one quad: two triangles over four vertices.
pub open spec fn index_pattern(k: int) -> int {
    if k == 0 {
        0
    } else if k == 1 {
        1
    } else if k == 2 {
        2
    } else if k == 3 {
        2
    } else if k == 4 {
        3
    } else {
        0
    }
}

/// The index at place `i` of the index buffer: the pattern, repeated, and
/// moved on by four vertices with every quad.
pub open spec fn index_at(i: int) -> int {
    index_pattern(i % 6) + 4 * (i / 6)
}

/// The commands that set the device up for a batch of `capacity` sprites
/// that is drawn into the given offscreen surface.
pub open spec fn setup_commands(g: GraphicsView) -> Seq<CommandView> {
    seq![
        CommandView::AttachTexture { framebuffer: g.framebuffer, texture: g.framebuffer_texture },
        CommandView::SetViewport { x: 0, y: 0, width: g.internal_width, height: g.internal_height },
        CommandView::SetVertexAttribute { index: 0, size: 4, offset: 0 },
        CommandView::SetVertexAttribute { index: 1, size: 3, offset: 4 },
        CommandView::UploadIndices {
            indices: Seq::new((g.capacity * INDEX_STRIDE) as nat, |i: int| index_at(i) as u32),
        },
    ]
}

impl GraphicsView {
    /// What holds of the renderer between any two draw requests.
    pub open spec fn wf(self) -> bool {
        &&& 1 <= self.capacity <= MAX_SPRITE_CAPACITY
        &&& self.sprite_count <= self.capacity
        &&& self.vertices.len() == self.sprite_count * 4 * VERTEX_STRIDE
        &&& (self.sprite_count > 0 ==> self.texture.is_some())
        &&& self.internal_width > 0
        &&& self.internal_height > 0
        &&& self.window_width >= 0
        &&& self.window_height >= 0
        &&& self.internal_projection == screen_projection(
            self.internal_width,
            self.internal_height,
        )
        &&& self.window_projection == screen_projection(self.window_width, self.window_height)
        &&& self.letterbox == letterbox_rect(
            self.internal_width,
            self.internal_height,
            self.window_width,
            self.window_height,
        )
    }

    /// Whether the two states have the same surfaces: the offscreen one with
    /// its resolution and projection, the window with its size, projection and
    /// letterbox, the default shader, and the batch's capacity.
    pub open spec fn same_surfaces(self, other: GraphicsView) -> bool {
        &&& self.framebuffer == other.framebuffer
        &&& self.framebuffer_texture == other.framebuffer_texture
        &&& self.default_shader == other.default_shader
        &&& self.internal_projection == other.internal_projection
        &&& self.window_projection == other.window_projection
        &&& self.capacity == other.capacity
        &&& self.internal_width == other.internal_width
        &&& self.internal_height == other.internal_height
        &&& self.window_width == other.window_width
        &&& self.window_height == other.window_height
        &&& self.letterbox == other.letterbox
    }

    /// The shader that is drawn with: the one that was set, else the default.
    pub open spec fn active_shader(self) -> Shader {
        match self.shader {
            Some(shader) => shader,
            None => self.default_shader,
        }
    }

    /// Whether a flush has anything to send.
    pub open spec fn flushes(self) -> bool {
        self.sprite_count > 0 && self.texture.is_some()
    }

    /// The state of a new renderer with a batch of `capacity` sprites.
    pub open spec fn initial(
        capacity: usize,
        framebuffer: Framebuffer,
        framebuffer_texture: Texture,
        default_shader: Shader,
        internal_width: i32,
        internal_height: i32,
        window_width: i32,
        window_height: i32,
    ) -> GraphicsView {
        GraphicsView {
            framebuffer,
            framebuffer_texture,
            texture: None,
            shader: None,
            default_shader,
            internal_projection: screen_projection(internal_width, internal_height),
            window_projection: screen_projection(window_width, window_height),
            vertices: Seq::empty(),
            sprite_count: 0,
            capacity,
            internal_width,
            internal_height,
            window_width,
            window_height,
            letterbox: letterbox_rect(internal_width, internal_height, window_width, window_height),
        }
    }
}

impl ContextView {
    /// The context with one more command at the end of its queue.
    pub open spec fn emit(self, command: CommandView) -> ContextView {
        ContextView { commands: self.commands.push(command), ..self }
    }

    /// The context after `clear`.
    pub open spec fn clear(self, color: Color) -> ContextView {
        self.emit(CommandView::Clear { color })
    }

    /// The context after `push_vertex`.
    pub open spec fn push_vertex(self, x: i64, y: i64, u: i64, v: i64, color: Color) -> ContextView {
        ContextView {
            graphics: GraphicsView {
                vertices: self.graphics.vertices + components(x, y, u, v, color),
                ..self.graphics
            },
            ..self
        }
    }

    /// The context after `flush`: where sprites are buffered and a texture is
    /// bound, the whole buffer goes out in one draw and the batch is empty;
    /// else nothing changes.
    pub open spec fn flush(self) -> ContextView {
        let g = self.graphics;
        if g.flushes() {
            ContextView {
                graphics: GraphicsView { vertices: Seq::empty(), sprite_count: 0, ..g },
                commands: self.commands.push(
                    CommandView::SetProjection {
                        shader: g.active_shader(),
                        projection: g.internal_projection,
                    },
                ).push(CommandView::UploadVertices { vertices: g.vertices }).push(
                    CommandView::Draw {
                        shader: g.active_shader(),
                        texture: g.texture.unwrap(),
                        count: (g.sprite_count * INDEX_STRIDE) as usize,
                    },
                ),
            }
        } else {
            self
        }
    }

    /// The context after `set_texture`: the buffered sprites go out with the
    /// texture that they were buffered for, then the new one is bound.
    pub open spec fn set_texture(self, texture: Texture) -> ContextView {
        if self.graphics.texture == Some(texture) {
            self
        } else {
            let sent = self.flush();
            ContextView {
                graphics: GraphicsView { texture: Some(texture), ..sent.graphics },
                ..sent
            }
        }
    }

    /// The context after `push_quad`.
    pub open spec fn push_quad(self, texture: Texture, quad: Quad) -> ContextView {
        let bound = self.set_texture(texture);
        let room = if bound.graphics.sprite_count >= bound.graphics.capacity {
            bound.flush()
        } else {
            bound
        };
        ContextView {
            graphics: GraphicsView {
                vertices: room.graphics.vertices + quad_components(quad),
                sprite_count: (room.graphics.sprite_count + 1) as usize,
                ..room.graphics
            },
            ..room
        }
    }

    /// The context after `push_quad` for each of the sprites in turn.
    pub open spec fn push_quads(self, sprites: Seq<(Texture, Quad)>) -> ContextView
        decreases sprites.len(),
    {
        if sprites.len() == 0 {
            self
        } else {
            self.push_quads(sprites.drop_last()).push_quad(sprites.last().0, sprites.last().1)
        }
    }

    /// The context after `present`.
    pub open spec fn present(self) -> ContextView {
        let sent = self.flush();
        let g = sent.graphics;
        ContextView {
            graphics: GraphicsView { vertices: Seq::empty(), ..g },
            commands: sent.commands.push(CommandView::BindWindow).push(
                CommandView::SetViewport {
                    x: 0,
                    y: 0,
                    width: g.window_width,
                    height: g.window_height,
                },
            ).push(CommandView::Clear { color: opaque_black() }).push(
                CommandView::SetProjection {
                    shader: g.default_shader,
                    projection: g.window_projection,
                },
            ).push(
                CommandView::UploadVertices {
                    vertices: g.vertices + quad_components(
                        surface_quad(g.letterbox, g.internal_width, g.internal_height),
                    ),
                },
            ).push(
                CommandView::Draw {
                    shader: g.default_shader,
                    texture: g.framebuffer_texture,
                    count: INDEX_STRIDE,
                },
            ).push(CommandView::SwapWindow).push(
                CommandView::BindFramebuffer { framebuffer: g.framebuffer },
            ).push(
                CommandView::SetViewport {
                    x: 0,
                    y: 0,
                    width: g.internal_width,
                    height: g.internal_height,
                },
            ),
        }
    }

    /// The context after `set_window_size`.
    pub open spec fn set_window_size(self, width: i32, height: i32) -> ContextView {
        let g = self.graphics;
        ContextView {
            graphics: GraphicsView {
                window_width: width,
                window_height: height,
                window_projection: screen_projection(width, height),
                letterbox: letterbox_rect(g.internal_width, g.internal_height, width, height),
                ..g
            },
            ..self
        }
    }
}

} // verus!
