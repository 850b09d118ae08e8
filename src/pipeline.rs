use vstd::prelude::*;

use crate::command::{BufferKind, RenderCommand, draw_calls, vertices_drawn};
use crate::surface::{SurfaceConfig, SurfaceFormat};

verus! {

/// Instance positions and sizes are kept in hundredths of clip space.
pub const CLIP_UNITS: u32 = 100;

/// Color channels are kept in 64ths of full intensity.
pub const COLOR_UNITS: u32 = 64;

/// Columns of the demonstration grid.
pub const GRID_COLS: u32 = 16;

/// Rows of the demonstration grid.
pub const GRID_ROWS: u32 = 8;

/// Side of each demonstration quad, in hundredths of clip space.
pub const GRID_QUAD_SIZE: u32 = 10;

/// Distance between neighbouring grid cells, in hundredths of clip space.
pub const GRID_SPACING: i32 = 12;

/// Vertices of one quad: two triangles.
pub const QUAD_VERTEX_COUNT: u32 = 6;

/// A corner of the unit square; each coordinate is 0 or 1.
#[derive(Clone, Copy, Debug, PartialEq, Eq, Structural)]
pub struct Vertex {
    pub x: u32,
    pub y: u32,
}

/// A red, green, blue, alpha color, each channel in 64ths.
#[derive(Clone, Copy, Debug, PartialEq, Eq, Structural)]
pub struct Rgba {
    pub r: u32,
    pub g: u32,
    pub b: u32,
    pub a: u32,
}

/// Per-quad attributes: position and size in hundredths of clip space, color
/// in 64ths.
#[derive(Clone, Copy, Debug, PartialEq, Eq, Structural)]
pub struct Instance {
    pub pos_x: i32,
    pub pos_y: i32,
    pub width: u32,
    pub height: u32,
    pub color: Rgba,
}

/// Whether a vertex input advances per vertex or per instance.
#[derive(Clone, Copy, Debug, PartialEq, Eq, Structural)]
pub enum StepMode {
    Vertex,
    Instance,
}

/// Shape of one shader input attribute.
#[derive(Clone, Copy, Debug, PartialEq, Eq, Structural)]
pub enum AttributeFormat {
    /// Two 4-byte floats.
    Float32x2,
    /// Four 4-byte floats.
    Float32x4,
}

/// One attribute of a vertex buffer layout.
#[derive(Clone, Copy, Debug, PartialEq, Eq, Structural)]
pub struct VertexAttribute {
    pub shader_location: u32,
    pub format: AttributeFormat,
    pub offset: u64,
}

/// How the shader reads one vertex buffer.
#[derive(Debug)]
pub struct VertexLayout {
    pub array_stride: u64,
    pub step_mode: StepMode,
    pub attributes: Vec<VertexAttribute>,
}

/// The six corners of the unit quad: two triangles with the same winding.
pub open spec fn quad_spec() -> Seq<Vertex> {
    seq![
        Vertex { x: 0, y: 0 },
        Vertex { x: 1, y: 0 },
        Vertex { x: 0, y: 1 },
        Vertex { x: 1, y: 0 },
        Vertex { x: 1, y: 1 },
        Vertex { x: 0, y: 1 },
    ]
}

/// The unit quad uploaded once as the static vertex buffer.
pub fn quad_vertices() -> (r: Vec<Vertex>)
    ensures
        r@ == quad_spec(),
{
    let r = vec![
        Vertex { x: 0, y: 0 },
        Vertex { x: 1, y: 0 },
        Vertex { x: 0, y: 1 },
        Vertex { x: 1, y: 0 },
        Vertex { x: 1, y: 1 },
        Vertex { x: 0, y: 1 },
    ];
    assert(r@ == quad_spec());
    r
}

impl Vertex {
    /// Layout of the quad buffer: one two-float position at location 0.
    pub fn desc() -> (r: VertexLayout)
        ensures
            r.array_stride == 8,
            r.step_mode == StepMode::Vertex,
            r.attributes@ == seq![
                VertexAttribute { shader_location: 0, format: AttributeFormat::Float32x2, offset: 0 },
            ],
    {
        let attributes = vec![
            VertexAttribute { shader_location: 0, format: AttributeFormat::Float32x2, offset: 0 },
        ];
        VertexLayout { array_stride: 8, step_mode: StepMode::Vertex, attributes }
    }
}

impl Instance {
    /// Layout of the instance buffer: position at location 1, size at 2, color
    /// at 3, packed one after another.
    pub fn desc() -> (r: VertexLayout)
        ensures
            r.array_stride == 32,
            r.step_mode == StepMode::Instance,
            r.attributes@ == seq![
                VertexAttribute { shader_location: 1, format: AttributeFormat::Float32x2, offset: 0 },
                VertexAttribute { shader_location: 2, format: AttributeFormat::Float32x2, offset: 8 },
                VertexAttribute { shader_location: 3, format: AttributeFormat::Float32x4, offset: 16 },
            ],
    {
        let attributes = vec![
            VertexAttribute { shader_location: 1, format: AttributeFormat::Float32x2, offset: 0 },
            VertexAttribute { shader_location: 2, format: AttributeFormat::Float32x2, offset: 8 },
            VertexAttribute { shader_location: 3, format: AttributeFormat::Float32x4, offset: 16 },
        ];
        VertexLayout { array_stride: 32, step_mode: StepMode::Instance, attributes }
    }
}

/// The quad of grid cell (`row`, `col`): centred grid, red rising with the
/// column, green with the row, blue falling with both, opaque.
pub open spec fn grid_instance(row: int, col: int) -> Instance {
    Instance {
        pos_x: ((col - GRID_COLS / 2) * GRID_SPACING) as i32,
        pos_y: ((row - GRID_ROWS / 2) * GRID_SPACING) as i32,
        width: GRID_QUAD_SIZE,
        height: GRID_QUAD_SIZE,
        color: Rgba {
            r: (col * 4) as u32,
            g: (row * 8) as u32,
            b: (64 - 2 * col - 4 * row) as u32,
            a: COLOR_UNITS,
        },
    }
}

/// The demonstration grid in row-major order.
pub open spec fn grid_spec() -> Seq<Instance> {
    Seq::new(
        (GRID_ROWS * GRID_COLS) as nat,
        |i: int| grid_instance(i / GRID_COLS as int, i % GRID_COLS as int),
    )
}

/// The demonstration grid: one quad per cell, row by row.
fn create_test_instances() -> (r: Vec<Instance>)
    ensures
        r@ == grid_spec(),
{
    let mut instances: Vec<Instance> = Vec::with_capacity(128);
    let mut row: u32 = 0;
    while row < GRID_ROWS
        invariant
            row <= GRID_ROWS,
            instances@.len() == row * GRID_COLS,
            forall|i: int|
                0 <= i < instances@.len() ==> #[trigger] instances@[i] == grid_instance(
                    i / 16,
                    i % 16,
                ),
        decreases GRID_ROWS - row,
    {
        let mut col: u32 = 0;
        while col < GRID_COLS
            invariant
                row < GRID_ROWS,
                col <= GRID_COLS,
                instances@.len() == row * GRID_COLS + col,
                forall|i: int|
                    0 <= i < instances@.len() ==> #[trigger] instances@[i] == grid_instance(
                        i / 16,
                        i % 16,
                    ),
            decreases GRID_COLS - col,
        {
            let x: i32 = (col as i32 - 8) * GRID_SPACING;
            let y: i32 = (row as i32 - 4) * GRID_SPACING;
            let inst = Instance {
                pos_x: x,
                pos_y: y,
                width: GRID_QUAD_SIZE,
                height: GRID_QUAD_SIZE,
                color: Rgba { r: col * 4, g: row * 8, b: 64 - 2 * col - 4 * row, a: COLOR_UNITS },
            };
            let ghost n = instances@.len() as int;
            assert(n / 16 == row as int && n % 16 == col as int) by (nonlinear_arith)
                requires
                    n == row * 16 + col,
                    0 <= col < 16,
            ;
            instances.push(inst);
            col = col + 1;
        }
        row = row + 1;
    }
    assert(instances@ == grid_spec());
    instances
}

/// Every cell of the demonstration grid holds its own position.
pub proof fn lemma_grid_positions_distinct(i: int, j: int)
    requires
        0 <= i < grid_spec().len(),
        0 <= j < grid_spec().len(),
        i != j,
    ensures
        grid_spec().len() == 128,
        grid_spec()[i].pos_x != grid_spec()[j].pos_x || grid_spec()[i].pos_y
            != grid_spec()[j].pos_y,
{
    let ri = i / 16;
    let ci = i % 16;
    let rj = j / 16;
    let cj = j % 16;
    assert(i == ri * 16 + ci && 0 <= ci < 16 && 0 <= ri < 8) by (nonlinear_arith)
        requires 0 <= i < 128, ri == i / 16, ci == i % 16;
    assert(j == rj * 16 + cj && 0 <= cj < 16 && 0 <= rj < 8) by (nonlinear_arith)
        requires 0 <= j < 128, rj == j / 16, cj == j % 16;
}

/// The compiled pipeline state with its two vertex buffers: the static quad and
/// the instance records.
pub struct Pipeline {
    target_format: SurfaceFormat,
    vertices: Vec<Vertex>,
    instances: Vec<Instance>,
    instance_count: u32,
}

impl Pipeline {
    pub closed spec fn target_format_spec(&self) -> SurfaceFormat {
        self.target_format
    }

    pub closed spec fn instances_spec(&self) -> Seq<Instance> {
        self.instances@
    }

    pub closed spec fn vertices_spec(&self) -> Seq<Vertex> {
        self.vertices@
    }

    pub closed spec fn instance_count_spec(&self) -> u32 {
        self.instance_count
    }

    /// The pipeline's buffers agree: the quad is the unit quad and the recorded
    /// count is the number of uploaded instances.
    pub open spec fn valid(&self) -> bool {
        &&& self.vertices_spec() == quad_spec()
        &&& self.instance_count_spec() as nat == self.instances_spec().len()
    }

    /// The commands that draw every instance: bind the pipeline, the quad at
    /// slot 0 and the instances at slot 1, then one instanced draw.
    pub open spec fn draw_spec(&self) -> Seq<RenderCommand> {
        seq![
            RenderCommand::SetPipeline,
            RenderCommand::SetVertexBuffer { slot: 0, buffer: BufferKind::QuadVertices },
            RenderCommand::SetVertexBuffer { slot: 1, buffer: BufferKind::Instances },
            RenderCommand::Draw {
                vertex_count: QUAD_VERTEX_COUNT,
                instance_count: self.instance_count_spec(),
            },
        ]
    }

    /// A pipeline for the surface's format, holding the demonstration grid.
    pub fn new(config: &SurfaceConfig) -> (r: Pipeline)
        ensures
            r.valid(),
            r.target_format_spec() == config.format,
            r.instances_spec() == grid_spec(),
    {
        let instances = create_test_instances();
        Pipeline::with_instances(config.format, instances)
    }

    /// A pipeline for `format` holding `instances`.
    pub fn with_instances(format: SurfaceFormat, instances: Vec<Instance>) -> (r: Pipeline)
        requires
            instances@.len() <= u32::MAX,
        ensures
            r.valid(),
            r.target_format_spec() == format,
            r.instances_spec() == instances@,
    {
        let instance_count = instances.len() as u32;
        Pipeline { target_format: format, vertices: quad_vertices(), instances, instance_count }
    }

    /// The format the pipeline writes.
    pub fn target_format(&self) -> (r: SurfaceFormat)
        ensures
            r == self.target_format_spec(),
    {
        self.target_format
    }

    /// The uploaded instance records.
    pub fn instances(&self) -> (r: &Vec<Instance>)
        ensures
            r@ == self.instances_spec(),
    {
        &self.instances
    }

    /// The uploaded quad.
    pub fn vertices(&self) -> (r: &Vec<Vertex>)
        ensures
            r@ == self.vertices_spec(),
    {
        &self.vertices
    }

    /// Number of instances drawn each frame.
    pub fn instance_count(&self) -> (r: u32)
        ensures
            r == self.instance_count_spec(),
    {
        self.instance_count
    }

    /// Draws all instances.
    pub fn draw(&self) -> (r: Vec<RenderCommand>)
        ensures
            r@ == self.draw_spec(),
    {
        vec![
            RenderCommand::SetPipeline,
            RenderCommand::SetVertexBuffer { slot: 0, buffer: BufferKind::QuadVertices },
            RenderCommand::SetVertexBuffer { slot: 1, buffer: BufferKind::Instances },
            RenderCommand::Draw { vertex_count: QUAD_VERTEX_COUNT, instance_count: self.instance_count },
        ]
    }
}

/// Drawing a pipeline that holds N instances issues exactly one draw call, and
/// it covers six vertices for each instance: none when N is zero.
pub proof fn lemma_draw_is_one_instanced_call(p: Pipeline)
    requires
        p.valid(),
    ensures
        draw_calls(p.draw_spec()) == 1,
        vertices_drawn(p.draw_spec()) == 6 * p.instances_spec().len(),
        p.instances_spec().len() == 0 ==> vertices_drawn(p.draw_spec()) == 0,
{
    let s = p.draw_spec();
    reveal_with_fuel(draw_calls, 5);
    reveal_with_fuel(vertices_drawn, 5);
    assert(s.drop_last().drop_last().drop_last().drop_last() =~= Seq::<RenderCommand>::empty());
    assert(s.drop_last().drop_last().drop_last().last() == RenderCommand::SetPipeline);
    assert(s.drop_last().drop_last().last() == RenderCommand::SetVertexBuffer { slot: 0, buffer: BufferKind::QuadVertices });
    assert(s.drop_last().last() == RenderCommand::SetVertexBuffer { slot: 1, buffer: BufferKind::Instances });
}

} // verus!
