//! Presentation-surface monitoring and frame-graph construction for a 2D
//! renderer.
//!
//! Once per frame the render context hands the current surface extent to
//! [`RenderGraph::observe`]. When that reports a stable change, the context
//! creates the surface and calls [`RenderGraph::build`], which returns a fresh
//! [`GraphDescriptor`] sized to the confirmed extent.

pub mod builder;
pub mod dimensions;
pub mod graph;
pub mod monitor;
pub mod scene;
pub mod state;
pub mod validate;

pub use builder::{SurfacePresentationError, SurfaceReply, SurfaceRequest};
pub use dimensions::Dimensions;
pub use graph::{
    ClearSpec, DrawGroup, GraphDescriptor, ImageKind, ImageResource, PassNode, PixelFormat,
    PresentNode,
};
pub use monitor::RenderGraph;
pub use scene::{MapMarker, MapSystem};
pub use state::{Key, KeyEvent, MyState, Reaction, StateEvent, Transition};
