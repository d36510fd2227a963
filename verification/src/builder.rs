use vstd::prelude::*;

use crate::dimensions::Dimensions;
use crate::graph::{
    lemma_minimal_graph_wf, minimal_graph, ClearSpec, DrawGroup, GraphDescriptor, ImageKind,
    ImageResource, PassNode, PixelFormat, PresentNode, COLOR_IMAGE, DEPTH_IMAGE, SPRITE_PASS,
};
use crate::monitor::{lemma_observe_all_preserves, MonitorState, RenderGraph};

verus! {

/// What the render context has to do with the surface handle before a build.
#[derive(Clone, Copy, Debug, PartialEq, Eq, Structural)]
pub enum SurfaceRequest {
    /// Create the surface; its format is known already.
    Create,
    /// Create the surface and query its native format.
    CreateAndQueryFormat,
}

/// What came of the render context's work on the surface handle.
#[derive(Clone, Copy, Debug, PartialEq, Eq, Structural)]
pub enum SurfaceReply {
    /// No surface could be created from the handle.
    Unavailable,
    /// The surface exists. `format` is its native format, where it was
    /// queried and the query succeeded.
    Ready { format: Option<PixelFormat> },
}

/// Why no graph was built.
#[derive(Clone, Copy, Debug, PartialEq, Eq, Structural)]
pub enum SurfacePresentationError {
    /// The extent is zero-sized, or is not the one most recently confirmed.
    InvalidDimensions,
    /// No surface could be created, or its format could not be resolved.
    SurfaceQueryFailure,
}

/// The format a build in state `s` uses when the surface work came back with
/// `surface`: the cached one where there is one, else the one just queried.
pub open spec fn resolved_format(s: MonitorState, surface: SurfaceReply) -> Option<PixelFormat> {
    match surface {
        SurfaceReply::Unavailable => None,
        SurfaceReply::Ready { format } => if s.cached_format is Some {
            s.cached_format
        } else {
            format
        },
    }
}

/// What a build in state `s` for the extent `d` fails with, if it fails.
pub open spec fn build_error(
    s: MonitorState,
    d: Dimensions,
    surface: SurfaceReply,
) -> Option<SurfacePresentationError> {
    if !d.valid() || s.last_confirmed != Some(d) {
        Some(SurfacePresentationError::InvalidDimensions)
    } else if resolved_format(s, surface) is None {
        Some(SurfacePresentationError::SurfaceQueryFailure)
    } else {
        None
    }
}

/// The monitor state after a build: a failed build changes nothing, a
/// successful one remembers the format it used.
pub open spec fn state_after_build(
    s: MonitorState,
    d: Dimensions,
    surface: SurfaceReply,
) -> MonitorState {
    if build_error(s, d, surface) is Some {
        s
    } else {
        MonitorState { cached_format: resolved_format(s, surface), ..s }
    }
}

impl RenderGraph {
    /// What to do with the surface handle before the next build: the format
    /// is queried only as long as none has been resolved.
    pub fn surface_request(&self) -> (request: SurfaceRequest)
        ensures
            request == (if self@.cached_format is None {
                SurfaceRequest::CreateAndQueryFormat
            } else {
                SurfaceRequest::Create
            }),
    {
        match self.surface_format() {
            None => SurfaceRequest::CreateAndQueryFormat,
            Some(_) => SurfaceRequest::Create,
        }
    }

    /// Builds the frame graph for the confirmed extent `dimensions` from
    /// scratch, given what the surface work came back with and the draw
    /// groups of the sprite pass.
    ///
    /// Fails, with the monitor untouched, when `dimensions` is zero-sized or
    /// not the confirmed extent, when there is no surface, or when no format
    /// is cached and none was resolved.
    pub fn build(
        &mut self,
        dimensions: Dimensions,
        surface: SurfaceReply,
        draw_groups: Vec<DrawGroup>,
    ) -> (built: Result<GraphDescriptor, SurfacePresentationError>)
        ensures
            final(self)@ == state_after_build(old(self)@, dimensions, surface),
            built is Err <==> build_error(old(self)@, dimensions, surface) is Some,
            built matches Err(e) ==> Some(e) == build_error(old(self)@, dimensions, surface)
                && final(self)@ == old(self)@,
            built matches Ok(graph) ==> {
                &&& resolved_format(old(self)@, surface) matches Some(format)
                &&& graph@ == minimal_graph(dimensions, format, draw_groups@)
                &&& final(self)@.cached_format == Some(format)
                &&& graph@.wf()
                &&& forall|i: int|
                    0 <= i < graph@.resources.len() ==> (#[trigger] graph@.resources[i]).kind.extent()
                        == dimensions
            },
            old(self)@.wf() ==> final(self)@.wf(),
    {
        let confirmed = match self.confirmed() {
            Some(d) => d == dimensions,
            None => false,
        };
        if !dimensions.is_valid() || !confirmed {
            return Err(SurfacePresentationError::InvalidDimensions);
        }
        let format = match surface {
            SurfaceReply::Unavailable => {
                return Err(SurfacePresentationError::SurfaceQueryFailure);
            },
            SurfaceReply::Ready { format: queried } => match self.surface_format() {
                Some(cached) => cached,
                None => match queried {
                    Some(f) => f,
                    None => {
                        return Err(SurfacePresentationError::SurfaceQueryFailure);
                    },
                },
            },
        };
        let format = self.resolve_format(format);
        let graph = assemble(dimensions, format, draw_groups);
        proof {
            lemma_minimal_graph_wf(dimensions, format, draw_groups@);
        }
        Ok(graph)
    }
}

/// Declares the two images, the sprite pass over them and the present node,
/// in that order.
fn assemble(dimensions: Dimensions, format: PixelFormat, draw_groups: Vec<DrawGroup>) -> (graph:
    GraphDescriptor)
    ensures
        graph@ == minimal_graph(dimensions, format, draw_groups@),
{
    let kind = ImageKind::covering(dimensions);
    let mut resources: Vec<ImageResource> = Vec::new();
    resources.push(
        ImageResource {
            id: COLOR_IMAGE,
            kind,
            format,
            clear_value: Some(ClearSpec::background()),
        },
    );
    resources.push(
        ImageResource {
            id: DEPTH_IMAGE,
            kind,
            format: PixelFormat::depth32_float(),
            clear_value: Some(ClearSpec::far_plane()),
        },
    );
    let mut color_attachments: Vec<usize> = Vec::new();
    color_attachments.push(COLOR_IMAGE);
    let pass = PassNode {
        id: SPRITE_PASS,
        color_attachments,
        depth_attachment: Some(DEPTH_IMAGE),
        draw_groups,
    };
    let mut passes: Vec<PassNode> = Vec::new();
    passes.push(pass);
    let mut dependencies: Vec<usize> = Vec::new();
    dependencies.push(SPRITE_PASS);
    let graph = GraphDescriptor {
        resources,
        passes,
        present: PresentNode { source_image: COLOR_IMAGE, dependencies },
    };
    proof {
        let want = minimal_graph(dimensions, format, draw_groups@);
        assert(graph@.resources =~= want.resources);
        assert(graph@.passes[0].color_attachments =~= want.passes[0].color_attachments);
        assert(graph@.passes =~= want.passes);
        assert(graph@.present.dependencies =~= want.present.dependencies);
    }
    graph
}

/// Once an observation has signalled a rebuild, a build for the extent just
/// observed succeeds as soon as the surface is there and a format is known.
pub proof fn lemma_signal_allows_build(s: MonitorState, d: Dimensions, format: PixelFormat)
    requires
        s.signals(d),
    ensures
        build_error(s.observe(d), d, SurfaceReply::Ready { format: Some(format) }) is None,
        s.cached_format is Some ==> build_error(
            s.observe(d),
            d,
            SurfaceReply::Ready { format: None },
        ) is None,
{
}

/// Format cache stability: of two successful builds, with any observations
/// between them, the second uses the format the first used, whatever the
/// surface reports by then, and asks for no second query.
pub proof fn lemma_format_cached(
    s: MonitorState,
    first: Dimensions,
    first_surface: SurfaceReply,
    between: Seq<Dimensions>,
    second: Dimensions,
    second_surface: SurfaceReply,
)
    requires
        s.wf(),
        build_error(s, first, first_surface) is None,
        build_error(
            state_after_build(s, first, first_surface).observe_all(between),
            second,
            second_surface,
        ) is None,
    ensures
        ({
            let rebuilt = state_after_build(s, first, first_surface).observe_all(between);
            &&& rebuilt.cached_format is Some
            &&& resolved_format(rebuilt, second_surface) == resolved_format(s, first_surface)
            &&& state_after_build(rebuilt, second, second_surface).cached_format
                == resolved_format(s, first_surface)
        }),
{
    lemma_observe_all_preserves(state_after_build(s, first, first_surface), between);
}

/// A cached format is never recomputed: no observation, forced confirmation
/// or build, failed or not, replaces a format that is cached.
pub proof fn lemma_format_never_recomputed(s: MonitorState, d: Dimensions, surface: SurfaceReply)
    requires
        s.cached_format is Some,
    ensures
        s.observe(d).cached_format == s.cached_format,
        s.force_initial(d).cached_format == s.cached_format,
        state_after_build(s, d, surface).cached_format == s.cached_format,
{
}

/// A format that is cached is what every later successful build uses; the
/// reply's own format is then not looked at.
pub proof fn lemma_cached_format_wins(s: MonitorState, format: Option<PixelFormat>)
    requires
        s.cached_format is Some,
    ensures
        resolved_format(s, SurfaceReply::Ready { format }) == s.cached_format,
{
}

} // verus!
