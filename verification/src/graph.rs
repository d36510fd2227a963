use vstd::prelude::*;

use crate::dimensions::Dimensions;

verus! {

/// Position of the colour target among a minimal graph's resources.
pub const COLOR_IMAGE: usize = 0;

/// Position of the depth-stencil target among a minimal graph's resources.
pub const DEPTH_IMAGE: usize = 1;

/// Position of the sprite pass among a minimal graph's passes.
pub const SPRITE_PASS: usize = 0;

/// Format code of the 32-bit floating-point depth format.
pub const DEPTH32_FLOAT_CODE: u32 = 126;

/// A pixel format, held as the numeric code the graphics API gives it.
#[derive(Clone, Copy, Debug, PartialEq, Eq, Structural)]
pub struct PixelFormat {
    pub code: u32,
}

impl PixelFormat {
    /// The 32-bit floating-point depth format.
    pub open spec fn spec_depth32_float() -> PixelFormat {
        PixelFormat { code: DEPTH32_FLOAT_CODE }
    }

    #[verifier::when_used_as_spec(spec_depth32_float)]
    pub fn depth32_float() -> (f: PixelFormat)
        ensures
            f == Self::spec_depth32_float(),
    {
        PixelFormat { code: DEPTH32_FLOAT_CODE }
    }
}

/// What an image is cleared to before a pass writes it. Channel and depth
/// values are hundredths of the unit range: 100 stands for full intensity, or
/// for the far plane.
#[derive(Clone, Copy, Debug, PartialEq, Eq, Structural)]
pub enum ClearSpec {
    Color { red: u8, green: u8, blue: u8, alpha: u8 },
    DepthStencil { depth: u8, stencil: u32 },
}

impl ClearSpec {
    /// The window background colour.
    pub open spec fn spec_background() -> ClearSpec {
        ClearSpec::Color { red: 34, green: 36, blue: 52, alpha: 100 }
    }

    #[verifier::when_used_as_spec(spec_background)]
    pub fn background() -> (c: ClearSpec)
        ensures
            c == Self::spec_background(),
    {
        ClearSpec::Color { red: 34, green: 36, blue: 52, alpha: 100 }
    }

    /// Far plane, no stencil.
    pub open spec fn spec_far_plane() -> ClearSpec {
        ClearSpec::DepthStencil { depth: 100, stencil: 0 }
    }

    #[verifier::when_used_as_spec(spec_far_plane)]
    pub fn far_plane() -> (c: ClearSpec)
        ensures
            c == Self::spec_far_plane(),
    {
        ClearSpec::DepthStencil { depth: 100, stencil: 0 }
    }
}

/// Shape of a two-dimensional image.
#[derive(Clone, Copy, Debug, PartialEq, Eq, Structural)]
pub struct ImageKind {
    pub width: u32,
    pub height: u32,
    pub layers: u16,
    pub samples: u8,
}

impl ImageKind {
    /// The single-layer, single-sample image that covers `d`.
    pub open spec fn spec_covering(d: Dimensions) -> ImageKind {
        ImageKind { width: d.width, height: d.height, layers: 1, samples: 1 }
    }

    #[verifier::when_used_as_spec(spec_covering)]
    pub fn covering(d: Dimensions) -> (k: ImageKind)
        ensures
            k == Self::spec_covering(d),
    {
        ImageKind { width: d.width, height: d.height, layers: 1, samples: 1 }
    }

    /// Width and height of the image.
    pub open spec fn extent(self) -> Dimensions {
        Dimensions { width: self.width, height: self.height }
    }

    /// An image must have a non-zero extent, a layer and a sample.
    pub open spec fn valid(self) -> bool {
        self.extent().valid() && self.layers > 0 && self.samples > 0
    }
}

/// An image that passes read or write. Its `id` is its position among the
/// graph's resources.
#[derive(Clone, Copy, Debug, PartialEq, Eq, Structural)]
pub struct ImageResource {
    pub id: usize,
    pub kind: ImageKind,
    pub format: PixelFormat,
    pub clear_value: Option<ClearSpec>,
}

/// A batch of drawables fed into a pass. The graph carries these through
/// without looking inside.
#[derive(Clone, Copy, Debug, PartialEq, Eq, Structural)]
pub enum DrawGroup {
    Flat2D,
    Flat2DTransparent,
}

/// A unit of GPU work that writes its attachments. Its `id` is its position
/// among the graph's passes.
#[derive(Clone, Debug, PartialEq, Eq)]
pub struct PassNode {
    pub id: usize,
    pub color_attachments: Vec<usize>,
    pub depth_attachment: Option<usize>,
    pub draw_groups: Vec<DrawGroup>,
}

/// Mathematical model of a [`PassNode`].
pub struct PassModel {
    pub id: usize,
    pub color_attachments: Seq<usize>,
    pub depth_attachment: Option<usize>,
    pub draw_groups: Seq<DrawGroup>,
}

impl PassModel {
    /// Whether the pass writes the image `image`.
    pub open spec fn writes(self, image: usize) -> bool {
        self.color_attachments.contains(image) || self.depth_attachment == Some(image)
    }
}

impl View for PassNode {
    type V = PassModel;

    open spec fn view(&self) -> PassModel {
        PassModel {
            id: self.id,
            color_attachments: self.color_attachments@,
            depth_attachment: self.depth_attachment,
            draw_groups: self.draw_groups@,
        }
    }
}

/// The sink that shows a finished image on the surface. Nothing can name it
/// as a dependency, so it always comes last.
#[derive(Clone, Debug, PartialEq, Eq)]
pub struct PresentNode {
    pub source_image: usize,
    pub dependencies: Vec<usize>,
}

/// Mathematical model of a [`PresentNode`].
pub struct PresentModel {
    pub source_image: usize,
    pub dependencies: Seq<usize>,
}

impl View for PresentNode {
    type V = PresentModel;

    open spec fn view(&self) -> PresentModel {
        PresentModel { source_image: self.source_image, dependencies: self.dependencies@ }
    }
}

/// The resources and passes of one rendering iteration, and the node that
/// presents the result.
#[derive(Clone, Debug, PartialEq, Eq)]
pub struct GraphDescriptor {
    pub resources: Vec<ImageResource>,
    pub passes: Vec<PassNode>,
    pub present: PresentNode,
}

/// Mathematical model of a [`GraphDescriptor`].
pub struct GraphModel {
    pub resources: Seq<ImageResource>,
    pub passes: Seq<PassModel>,
    pub present: PresentModel,
}

impl View for GraphDescriptor {
    type V = GraphModel;

    open spec fn view(&self) -> GraphModel {
        GraphModel {
            resources: self.resources@,
            passes: Seq::new(self.passes@.len(), |i: int| self.passes@[i]@),
            present: self.present@,
        }
    }
}

impl GraphModel {
    /// Whether `image` names a declared resource.
    pub open spec fn has_resource(self, image: usize) -> bool {
        image < self.resources.len()
    }

    /// Whether `pass` names a declared pass.
    pub open spec fn has_pass(self, pass: usize) -> bool {
        pass < self.passes.len()
    }

    /// Whether some declared resource carries the id `image`.
    pub open spec fn declares_image(self, image: usize) -> bool {
        exists|i: int| 0 <= i < self.resources.len() && (#[trigger] self.resources[i]).id == image
    }

    /// Whether some declared pass carries the id `pass`.
    pub open spec fn declares_pass(self, pass: usize) -> bool {
        exists|p: int| 0 <= p < self.passes.len() && (#[trigger] self.passes[p]).id == pass
    }

    /// Every resource is a valid image whose id is its position.
    pub open spec fn resources_wf(self) -> bool {
        forall|i: int|
            0 <= i < self.resources.len() ==> {
                &&& (#[trigger] self.resources[i]).id == i
                &&& self.resources[i].kind.valid()
            }
    }

    /// The pass at position `p` carries that position as its id and attaches
    /// declared resources only.
    pub open spec fn pass_wf(self, p: int) -> bool {
        let pass = self.passes[p];
        &&& pass.id == p
        &&& forall|k: int|
            0 <= k < pass.color_attachments.len() ==> self.has_resource(
                #[trigger] pass.color_attachments[k],
            )
        &&& pass.depth_attachment matches Some(d) ==> self.has_resource(d)
    }

    /// The present node shows a declared resource, waits for at least one
    /// pass, for declared passes only, and for each of them once.
    pub open spec fn present_wf(self) -> bool {
        &&& self.has_resource(self.present.source_image)
        &&& self.present.dependencies.len() > 0
        &&& self.present.dependencies.no_duplicates()
        &&& forall|k: int|
            0 <= k < self.present.dependencies.len() ==> self.has_pass(
                #[trigger] self.present.dependencies[k],
            )
    }

    /// The present node waits for every pass that writes the image it shows.
    pub open spec fn present_after_writers(self) -> bool {
        forall|p: int|
            0 <= p < self.passes.len() && (#[trigger] self.passes[p]).writes(
                self.present.source_image,
            ) ==> self.present.dependencies.contains(self.passes[p].id)
    }

    /// The structural invariant of a graph. Passes depend on resources and the
    /// present node on passes, never the other way round, so a graph that
    /// meets it is acyclic with the present node as its sink.
    pub open spec fn wf(self) -> bool {
        &&& self.resources_wf()
        &&& forall|p: int| 0 <= p < self.passes.len() ==> #[trigger] self.pass_wf(p)
        &&& self.present_wf()
        &&& self.present_after_writers()
    }
}

/// In a graph that meets the structural invariant every reference resolves:
/// each attachment of each pass and the image that is presented are ids of
/// declared resources, and the present node's dependencies are a non-empty
/// collection of ids of declared passes that holds every pass writing the
/// presented image.
pub proof fn lemma_wf_references_resolve(g: GraphModel)
    requires
        g.wf(),
    ensures
        forall|p: int, k: int|
            0 <= p < g.passes.len() && 0 <= k < g.passes[p].color_attachments.len()
                ==> g.declares_image(#[trigger] g.passes[p].color_attachments[k]),
        forall|p: int|
            0 <= p < g.passes.len() && (#[trigger] g.passes[p]).depth_attachment is Some
                ==> g.declares_image(g.passes[p].depth_attachment->0),
        g.declares_image(g.present.source_image),
        g.present.dependencies.len() > 0,
        forall|k: int|
            0 <= k < g.present.dependencies.len() ==> g.declares_pass(
                #[trigger] g.present.dependencies[k],
            ),
        forall|p: int|
            0 <= p < g.passes.len() && (#[trigger] g.passes[p]).writes(g.present.source_image)
                ==> g.present.dependencies.contains(g.passes[p].id),
{
    assert forall|image: usize| g.has_resource(image) implies g.declares_image(image) by {
        assert(g.resources[image as int].id == image);
    }
    assert forall|pass: usize| g.has_pass(pass) implies g.declares_pass(pass) by {
        assert(g.pass_wf(pass as int));
        assert(g.passes[pass as int].id == pass);
    }
    assert forall|p: int, k: int|
        0 <= p < g.passes.len() && 0 <= k < g.passes[p].color_attachments.len()
        implies g.declares_image(#[trigger] g.passes[p].color_attachments[k]) by {
        assert(g.pass_wf(p));
        assert(g.has_resource(g.passes[p].color_attachments[k]));
    }
    assert forall|p: int|
        0 <= p < g.passes.len() && (#[trigger] g.passes[p]).depth_attachment is Some
        implies g.declares_image(g.passes[p].depth_attachment->0) by {
        assert(g.pass_wf(p));
        assert(g.has_resource(g.passes[p].depth_attachment->0));
    }
    assert forall|k: int| 0 <= k < g.present.dependencies.len() implies g.declares_pass(
        #[trigger] g.present.dependencies[k],
    ) by {
        assert(g.has_pass(g.present.dependencies[k]));
    }
}

/// The colour target of a minimal graph.
pub open spec fn color_image(d: Dimensions, format: PixelFormat) -> ImageResource {
    ImageResource {
        id: COLOR_IMAGE,
        kind: ImageKind::spec_covering(d),
        format,
        clear_value: Some(ClearSpec::spec_background()),
    }
}

/// The depth-stencil target of a minimal graph.
pub open spec fn depth_image(d: Dimensions) -> ImageResource {
    ImageResource {
        id: DEPTH_IMAGE,
        kind: ImageKind::spec_covering(d),
        format: PixelFormat::spec_depth32_float(),
        clear_value: Some(ClearSpec::spec_far_plane()),
    }
}

/// The minimal graph: a colour and a depth-stencil target of extent `d`, one
/// sprite pass that writes both and carries `groups`, and a present node that
/// shows the colour target once the pass is done.
pub open spec fn minimal_graph(
    d: Dimensions,
    format: PixelFormat,
    groups: Seq<DrawGroup>,
) -> GraphModel {
    GraphModel {
        resources: seq![color_image(d, format), depth_image(d)],
        passes: seq![
            PassModel {
                id: SPRITE_PASS,
                color_attachments: seq![COLOR_IMAGE],
                depth_attachment: Some(DEPTH_IMAGE),
                draw_groups: groups,
            },
        ],
        present: PresentModel { source_image: COLOR_IMAGE, dependencies: seq![SPRITE_PASS] },
    }
}

/// Every minimal graph over a valid extent meets the structural invariant:
/// each attachment names a declared resource, and the present node waits for
/// the one pass, which writes the image it shows.
pub proof fn lemma_minimal_graph_wf(d: Dimensions, format: PixelFormat, groups: Seq<DrawGroup>)
    requires
        d.valid(),
    ensures
        minimal_graph(d, format, groups).wf(),
{
    let g = minimal_graph(d, format, groups);
    assert(g.pass_wf(0));
    assert(g.present.dependencies[0] == SPRITE_PASS);
    assert(g.present.dependencies.contains(SPRITE_PASS));
}

/// Both images of a minimal graph have exactly the extent it was made for.
pub proof fn lemma_minimal_graph_extent(d: Dimensions, format: PixelFormat, groups: Seq<DrawGroup>)
    ensures
        forall|i: int|
            0 <= i < minimal_graph(d, format, groups).resources.len() ==> (
            #[trigger] minimal_graph(d, format, groups).resources[i]).kind.extent() == d,
{
}

} // verus!
