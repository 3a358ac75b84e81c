use camera_view::clear_pass::{
    clear_pass_for, ClearOp, ClearPassNode, ClearSpec, DepthStencilAttachment, ExtractedCamera, LoadOp,
    Operations, RenderWorld, ViewEntity,
};
use camera_view::target::{Entity, RenderTarget, WindowId};

type Color = (f32, f32, f32, f32);
const RED: Color = (1.0, 0.0, 0.0, 1.0);

fn view(index: u32, color: ClearOp<Color>, depth: ClearOp<f32>, color_view: bool, depth_view: bool) -> ViewEntity<Color, f32> {
    ViewEntity {
        entity: Entity { index, generation: 1 },
        camera: Some(ExtractedCamera {
            target: RenderTarget::Window(WindowId { id: 0 }),
            clear: ClearSpec { color, depth },
        }),
        extracted_view: true,
        color_view,
        depth_view,
    }
}

#[test]
fn red_color_clear_without_depth_view() {
    let e = view(0, ClearOp::Value(RED), ClearOp::Keep, true, false);
    let world = RenderWorld { entities: vec![e] };
    let node = ClearPassNode::new(&world);
    let passes = node.run(&world);
    assert_eq!(passes.len(), 1);
    assert_eq!(passes[0].entity, Entity { index: 0, generation: 1 });
    assert_eq!(passes[0].color_attachment, Some(Operations { load: LoadOp::Clear(RED), store: true }));
    assert_eq!(passes[0].depth_stencil_attachment, None);
}

#[test]
fn nothing_to_clear_issues_no_pass() {
    let world = RenderWorld {
        entities: vec![
            view(0, ClearOp::Keep, ClearOp::Keep, true, true),
            view(1, ClearOp::Value(RED), ClearOp::Value(1.0), false, false),
        ],
    };
    let node = ClearPassNode::new(&world);
    assert!(node.run(&world).is_empty());
}

#[test]
fn depth_only_clear() {
    let e = view(2, ClearOp::Value(RED), ClearOp::Value(0.5), false, true);
    let pass = clear_pass_for(&e).unwrap();
    assert_eq!(pass.color_attachment, None);
    assert_eq!(
        pass.depth_stencil_attachment,
        Some(DepthStencilAttachment {
            depth_ops: Some(Operations { load: LoadOp::Clear(0.5), store: true }),
            stencil_ops: None,
        })
    );
}

#[test]
fn color_and_depth_clear() {
    let e = view(3, ClearOp::Value(RED), ClearOp::Value(1.0), true, true);
    let pass = clear_pass_for(&e).unwrap();
    assert_eq!(pass.color_attachment, Some(Operations { load: LoadOp::Clear(RED), store: true }));
    assert_eq!(pass.depth_stencil_attachment.unwrap().depth_ops.unwrap().load, LoadOp::Clear(1.0));
}

#[test]
fn query_skips_entities_without_camera_or_view() {
    let mut no_view = view(1, ClearOp::Value(RED), ClearOp::Keep, true, false);
    no_view.extracted_view = false;
    let mut no_camera = view(2, ClearOp::Value(RED), ClearOp::Keep, true, false);
    no_camera.camera = None;
    let world = RenderWorld {
        entities: vec![no_view, view(0, ClearOp::Keep, ClearOp::Value(1.0), false, true), no_camera],
    };
    let node = ClearPassNode::new(&world);
    let passes = node.run(&world);
    assert_eq!(passes.len(), 1);
    assert_eq!(passes[0].entity.index, 0);
    assert!(clear_pass_for(&no_camera).is_none());
}

#[test]
fn update_refreshes_query() {
    let mut world = RenderWorld { entities: vec![view(0, ClearOp::Value(RED), ClearOp::Keep, true, false)] };
    let mut node = ClearPassNode::new(&world);
    world.entities.push(view(1, ClearOp::Keep, ClearOp::Value(1.0), false, true));
    world.entities.push(view(2, ClearOp::Keep, ClearOp::Keep, true, true));
    node.update(&world);
    let passes = node.run(&world);
    let indices: Vec<u32> = passes.iter().map(|p| p.entity.index).collect();
    assert_eq!(indices, vec![0, 1]);
}
