use frame_graph::{
    ClearSpec, GraphDescriptor, ImageKind, ImageResource, MapMarker, MapSystem, PassNode,
    PixelFormat, PresentNode,
};

fn image(id: usize) -> ImageResource {
    ImageResource {
        id,
        kind: ImageKind { width: 4, height: 4, layers: 1, samples: 1 },
        format: PixelFormat { code: 37 },
        clear_value: None,
    }
}

fn pass(id: usize, color: Vec<usize>, depth: Option<usize>) -> PassNode {
    PassNode { id, color_attachments: color, depth_attachment: depth, draw_groups: Vec::new() }
}

fn sample() -> GraphDescriptor {
    GraphDescriptor {
        resources: vec![image(0), image(1), image(2)],
        passes: vec![pass(0, vec![0], Some(1)), pass(1, vec![2], None), pass(2, vec![0, 2], None)],
        present: PresentNode { source_image: 0, dependencies: vec![2, 0] },
    }
}

#[test]
fn sample_graph_is_well_formed() {
    assert!(sample().is_well_formed());
}

#[test]
fn resource_id_must_be_its_position() {
    let mut graph = sample();
    graph.resources[1].id = 2;
    assert!(!graph.is_well_formed());
}

#[test]
fn zero_sized_image_is_refused() {
    let mut graph = sample();
    graph.resources[2].kind.width = 0;
    assert!(!graph.is_well_formed());
    let mut graph = sample();
    graph.resources[2].kind.height = 0;
    assert!(!graph.is_well_formed());
    let mut graph = sample();
    graph.resources[0].kind.layers = 0;
    assert!(!graph.is_well_formed());
    let mut graph = sample();
    graph.resources[0].kind.samples = 0;
    assert!(!graph.is_well_formed());
}

#[test]
fn pass_id_must_be_its_position() {
    let mut graph = sample();
    graph.passes[1].id = 5;
    assert!(!graph.is_well_formed());
}

#[test]
fn dangling_attachment_is_refused() {
    let mut graph = sample();
    graph.passes[1].color_attachments = vec![2, 3];
    assert!(!graph.is_well_formed());
    let mut graph = sample();
    graph.passes[1].depth_attachment = Some(3);
    assert!(!graph.is_well_formed());
}

#[test]
fn dangling_present_source_is_refused() {
    let mut graph = sample();
    graph.present.source_image = 3;
    assert!(!graph.is_well_formed());
}

#[test]
fn present_needs_a_dependency() {
    let mut graph = sample();
    graph.present.source_image = 1;
    graph.passes[0].depth_attachment = None;
    graph.present.dependencies = Vec::new();
    assert!(!graph.is_well_formed());
    graph.present.dependencies = vec![1];
    assert!(graph.is_well_formed());
}

#[test]
fn present_dependencies_must_be_passes_named_once() {
    let mut graph = sample();
    graph.present.dependencies = vec![0, 2, 3];
    assert!(!graph.is_well_formed());
    let mut graph = sample();
    graph.present.dependencies = vec![0, 2, 0];
    assert!(!graph.is_well_formed());
    let mut graph = sample();
    graph.present.dependencies = vec![0, 1, 2];
    assert!(graph.is_well_formed());
}

#[test]
fn present_must_wait_for_every_writer_of_its_source() {
    let mut graph = sample();
    graph.present.dependencies = vec![0];
    assert!(!graph.is_well_formed());
    let mut graph = sample();
    graph.present.dependencies = vec![2];
    assert!(!graph.is_well_formed());
    let mut graph = sample();
    graph.present.source_image = 1;
    graph.present.dependencies = vec![1];
    assert!(!graph.is_well_formed());
    graph.present.dependencies = vec![1, 0];
    assert!(graph.is_well_formed());
}

#[test]
fn pass_writes_its_attachments() {
    let p = pass(0, vec![3, 5], Some(7));
    assert!(p.writes(3));
    assert!(p.writes(5));
    assert!(p.writes(7));
    assert!(!p.writes(0));
    assert!(!pass(0, Vec::new(), None).writes(0));
}

#[test]
fn image_kind_validity() {
    assert!(ImageKind { width: 1, height: 1, layers: 1, samples: 1 }.is_valid());
    assert!(!ImageKind { width: 0, height: 1, layers: 1, samples: 1 }.is_valid());
    assert!(!ImageKind { width: 1, height: 0, layers: 1, samples: 1 }.is_valid());
    assert!(!ImageKind { width: 1, height: 1, layers: 0, samples: 1 }.is_valid());
    assert!(!ImageKind { width: 1, height: 1, layers: 1, samples: 0 }.is_valid());
}

#[test]
fn clear_values() {
    assert_eq!(
        ClearSpec::background(),
        ClearSpec::Color { red: 34, green: 36, blue: 52, alpha: 100 }
    );
    assert_eq!(ClearSpec::far_plane(), ClearSpec::DepthStencil { depth: 100, stencil: 0 });
}

#[test]
fn scene_items() {
    let marker = MapMarker { name: String::from("overworld") };
    assert_eq!(marker.clone(), marker);
    assert_eq!(marker.name, "overworld");
    assert_eq!(MapSystem, MapSystem);
}
