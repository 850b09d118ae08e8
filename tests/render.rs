use adamant::command::{BufferKind, RenderCommand};
use adamant::lifecycle::{App, AppAction, Phase, WindowEvent};
use adamant::pipeline::{
    quad_vertices, AttributeFormat, Instance, Pipeline, Rgba, StepMode, Vertex, VertexAttribute,
};
use adamant::renderer::{Acquire, InitError, RenderError, Renderer};
use adamant::surface::{
    select_format, ConfigError, PresentMode, Size, SurfaceConfig, SurfaceFormat,
};

fn fmt(index: u32, srgb: bool) -> SurfaceFormat {
    SurfaceFormat { index, srgb }
}

fn formats() -> Vec<SurfaceFormat> {
    vec![fmt(0, false), fmt(1, false), fmt(2, true), fmt(3, true)]
}

fn renderer() -> Renderer {
    Renderer::new(&formats(), Size { width: 1280, height: 720 }).unwrap()
}

fn instance(x: i32) -> Instance {
    Instance {
        pos_x: x,
        pos_y: 0,
        width: 10,
        height: 10,
        color: Rgba { r: 0, g: 0, b: 0, a: 64 },
    }
}

#[test]
fn draw_is_one_instanced_call_of_six_vertices_each() {
    for n in [0usize, 1, 3, 128] {
        let instances: Vec<Instance> = (0..n).map(|i| instance(i as i32)).collect();
        let p = Pipeline::with_instances(fmt(0, true), instances);
        assert_eq!(p.instance_count(), n as u32);
        let cmds = p.draw();
        let draws: Vec<&RenderCommand> = cmds
            .iter()
            .filter(|c| matches!(c, RenderCommand::Draw { .. }))
            .collect();
        assert_eq!(draws.len(), 1);
        assert_eq!(
            *draws[0],
            RenderCommand::Draw { vertex_count: 6, instance_count: n as u32 }
        );
        assert_eq!(
            cmds,
            vec![
                RenderCommand::SetPipeline,
                RenderCommand::SetVertexBuffer { slot: 0, buffer: BufferKind::QuadVertices },
                RenderCommand::SetVertexBuffer { slot: 1, buffer: BufferKind::Instances },
                RenderCommand::Draw { vertex_count: 6, instance_count: n as u32 },
            ]
        );
    }
}

#[test]
fn resize_to_zero_keeps_configuration() {
    let mut r = renderer();
    let before = r.config();
    assert_eq!(r.resize(Size { width: 0, height: 500 }), None);
    assert_eq!(r.resize(Size { width: 500, height: 0 }), None);
    assert_eq!(r.resize(Size { width: 0, height: 0 }), None);
    assert_eq!(r.config(), before);
    assert_eq!(r.size(), Size { width: 1280, height: 720 });
}

#[test]
fn resize_to_positive_size_applies_it() {
    let mut r = renderer();
    let before = r.config();
    let applied = r.resize(Size { width: 800, height: 600 }).unwrap();
    assert_eq!(applied.width, 800);
    assert_eq!(applied.height, 600);
    assert_eq!(applied.format, before.format);
    assert_eq!(applied.present_mode, PresentMode::Fifo);
    assert_eq!(applied.max_frame_latency, 2);
    assert_eq!(r.config(), applied);
    assert_eq!(r.size(), Size { width: 800, height: 600 });
}

#[test]
fn surface_config_resize_reports_whether_to_apply() {
    let mut c = SurfaceConfig::new(&formats(), Size { width: 10, height: 20 }).unwrap();
    assert!(!c.resize(Size { width: 0, height: 7 }));
    assert_eq!(c.size(), Size { width: 10, height: 20 });
    assert!(c.resize(Size { width: 3, height: 7 }));
    assert_eq!(c.size(), Size { width: 3, height: 7 });
}

fn scope_balance(cmds: &[RenderCommand]) -> i64 {
    let mut depth: i64 = 0;
    for c in cmds {
        match c {
            RenderCommand::OpenScope => depth += 1,
            RenderCommand::FinishScope => {
                depth -= 1;
                assert!(depth >= 0);
            }
            _ => {}
        }
    }
    depth
}

#[test]
fn lost_surface_then_frame_balances_scopes() {
    let mut r = renderer();
    let lost = r.render(Acquire::Lost).unwrap();
    assert_eq!(lost, vec![RenderCommand::Reconfigure(r.config())]);
    let frame = r.render(Acquire::Frame).unwrap();
    let mut all = lost.clone();
    all.extend(frame.iter().copied());
    assert_eq!(scope_balance(&all), 0);
    assert_eq!(frame.iter().filter(|c| **c == RenderCommand::OpenScope).count(), 1);
    assert_eq!(frame.iter().filter(|c| **c == RenderCommand::FinishScope).count(), 1);
    assert_eq!(frame[0], RenderCommand::OpenScope);
    assert_eq!(frame[1], RenderCommand::BeginPass);
    assert_eq!(
        frame[5],
        RenderCommand::Draw { vertex_count: 6, instance_count: 128 }
    );
    assert_eq!(
        frame[6..].to_vec(),
        vec![
            RenderCommand::EndPass,
            RenderCommand::FinishScope,
            RenderCommand::Submit,
            RenderCommand::Present
        ]
    );
}

#[test]
fn transient_errors_skip_the_frame() {
    let mut r = renderer();
    assert_eq!(r.render(Acquire::Outdated), Ok(vec![]));
    assert_eq!(r.render(Acquire::Timeout), Ok(vec![]));
}

#[test]
fn out_of_memory_twice_is_fatal_twice() {
    let mut r = renderer();
    let app = App::new();
    let first = r.render(Acquire::OutOfMemory);
    assert_eq!(first, Err(RenderError::OutOfMemory));
    assert!(app.should_exit(&first));
    let second = r.render(Acquire::OutOfMemory);
    assert_eq!(second, Err(RenderError::OutOfMemory));
    assert!(app.should_exit(&second));
    assert!(!app.should_exit(&r.render(Acquire::Frame)));
}

#[test]
fn format_prefers_first_srgb() {
    assert_eq!(select_format(&formats()), Some(fmt(2, true)));
    assert_eq!(select_format(&vec![fmt(5, true)]), Some(fmt(5, true)));
}

#[test]
fn format_falls_back_to_first() {
    assert_eq!(select_format(&vec![fmt(4, false), fmt(9, false)]), Some(fmt(4, false)));
    assert_eq!(select_format(&vec![]), None);
}

#[test]
fn config_rejects_empty_formats_and_zero_size() {
    assert_eq!(
        SurfaceConfig::new(&vec![], Size { width: 1, height: 1 }),
        Err(ConfigError::NoFormat)
    );
    assert_eq!(
        SurfaceConfig::new(&formats(), Size { width: 0, height: 1 }),
        Err(ConfigError::ZeroSize)
    );
    let c = SurfaceConfig::new(&formats(), Size { width: 2, height: 3 }).unwrap();
    assert_eq!(c.format, fmt(2, true));
    assert_eq!((c.width, c.height), (2, 3));
    assert_eq!(c.present_mode, PresentMode::Fifo);
    assert_eq!(c.max_frame_latency, 2);
}

#[test]
fn renderer_new_errors() {
    assert!(matches!(
        Renderer::new(&vec![], Size { width: 4, height: 4 }),
        Err(InitError::NoSurfaceFormat)
    ));
    assert!(matches!(
        Renderer::new(&formats(), Size { width: 4, height: 0 }),
        Err(InitError::ZeroSize)
    ));
}

#[test]
fn grid_has_128_distinct_instances() {
    let r = renderer();
    let p = r.pipeline();
    assert_eq!(p.target_format(), fmt(2, true));
    let inst = p.instances();
    assert_eq!(inst.len(), 128);
    assert_eq!(p.instance_count(), 128);
    for i in 0..inst.len() {
        for j in (i + 1)..inst.len() {
            assert!((inst[i].pos_x, inst[i].pos_y) != (inst[j].pos_x, inst[j].pos_y));
        }
    }
    for q in inst {
        assert_eq!((q.width, q.height), (10, 10));
    }
}

fn color_f32(c: Rgba) -> [f32; 4] {
    [c.r as f32 / 64.0, c.g as f32 / 64.0, c.b as f32 / 64.0, c.a as f32 / 64.0]
}

#[test]
fn grid_colors_are_exact_at_the_corners() {
    let r = renderer();
    let inst = r.pipeline().instances();
    let first = inst[0];
    assert_eq!((first.pos_x, first.pos_y), (-96, -48));
    assert_eq!(first.color, Rgba { r: 0, g: 0, b: 64, a: 64 });
    assert_eq!(color_f32(first.color), [0.0, 0.0, 1.0, 1.0]);
    let last = inst[7 * 16 + 15];
    assert_eq!((last.pos_x, last.pos_y), (84, 36));
    assert_eq!(last.color, Rgba { r: 60, g: 56, b: 6, a: 64 });
    let r_: f32 = 15.0 / 16.0;
    let g_: f32 = 7.0 / 8.0;
    assert_eq!(color_f32(last.color), [r_, g_, 1.0 - (r_ + g_) / 2.0, 1.0]);
}

#[test]
fn quad_and_layouts() {
    assert_eq!(
        quad_vertices(),
        vec![
            Vertex { x: 0, y: 0 },
            Vertex { x: 1, y: 0 },
            Vertex { x: 0, y: 1 },
            Vertex { x: 1, y: 0 },
            Vertex { x: 1, y: 1 },
            Vertex { x: 0, y: 1 },
        ]
    );
    let v = Vertex::desc();
    assert_eq!(v.array_stride, 8);
    assert_eq!(v.step_mode, StepMode::Vertex);
    assert_eq!(
        v.attributes,
        vec![VertexAttribute { shader_location: 0, format: AttributeFormat::Float32x2, offset: 0 }]
    );
    let i = Instance::desc();
    assert_eq!(i.array_stride, 32);
    assert_eq!(i.step_mode, StepMode::Instance);
    assert_eq!(i.attributes.len(), 3);
    assert_eq!(i.attributes[2].shader_location, 3);
    assert_eq!(i.attributes[2].format, AttributeFormat::Float32x4);
    assert_eq!(i.attributes[2].offset, 16);
}

#[test]
fn app_lifecycle() {
    let mut app = App::default();
    assert_eq!(app.phase(), Phase::Uninitialized);
    assert_eq!(app.resumed(), Some(AppAction::CreateWindow));
    assert!(app.window_event(WindowEvent::RedrawRequested).is_empty());
    assert!(app.window_event(WindowEvent::Resized(Size { width: 5, height: 5 })).is_empty());
    app.renderer_ready();
    assert_eq!(app.phase(), Phase::Ready);
    assert_eq!(app.resumed(), None);
    assert_eq!(
        app.window_event(WindowEvent::RedrawRequested),
        vec![AppAction::Render, AppAction::RequestRedraw]
    );
    assert_eq!(
        app.window_event(WindowEvent::Resized(Size { width: 5, height: 6 })),
        vec![AppAction::Resize(Size { width: 5, height: 6 })]
    );
    assert_eq!(app.window_event(WindowEvent::CloseRequested), vec![AppAction::Exit]);
    assert!(app.window_event(WindowEvent::KeyboardInput).is_empty());
}

#[test]
fn advertised_formats_flag_srgb_entries() {
    let caps = vec![
        wgpu::TextureFormat::Rgba8Unorm,
        wgpu::TextureFormat::Bgra8UnormSrgb,
        wgpu::TextureFormat::Bgra8Unorm,
    ];
    let advertised = adamant::surface::advertised_formats(&caps);
    assert_eq!(advertised, vec![fmt(0, false), fmt(1, true), fmt(2, false)]);
    assert_eq!(select_format(&advertised), Some(fmt(1, true)));
}
