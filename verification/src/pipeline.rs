//! Render-pipeline options: the defaults of the simplified pipeline builder,
//! how its shader modules are resolved before the pipeline is created, and
//! the choice of primitive topology from its name.
use vstd::prelude::*;

verus! {

/// How vertices are assembled into primitives.
#[derive(Clone, Copy, Debug, PartialEq, Eq)]
pub enum PrimitiveTopology {
    PointList,
    LineList,
    LineStrip,
    TriangleList,
    TriangleStrip,
}

/// The index format of a strip primitive.
#[derive(Clone, Copy, Debug, PartialEq, Eq)]
pub enum IndexFormat {
    Uint16,
    Uint32,
}

/// A triangle face.
#[derive(Clone, Copy, Debug, PartialEq, Eq)]
pub enum Face {
    Front,
    Back,
}

/// The options of a render pipeline, over shader modules `S` and pipeline
/// layouts `L`: one shader for both stages or one per stage, the layout, the
/// primitive assembly, whether a depth buffer is used, and the stages' entry
/// points.
pub struct IRenderPipeline<S, L> {
    pub shader: Option<S>,
    pub vs_shader: Option<S>,
    pub fs_shader: Option<S>,
    pub pipeline_layout: Option<L>,
    pub topology: PrimitiveTopology,
    pub strip_index_format: Option<IndexFormat>,
    pub cull_mode: Option<Face>,
    pub is_depth_stencil: bool,
    pub vs_entry: String,
    pub fs_entry: String,
}

impl<S, L> Default for IRenderPipeline<S, L> {
    /// No shaders and no layout; a triangle list without culling, with a
    /// depth buffer, and entry points `vs_main` and `fs_main`.
    fn default() -> (p: Self)
        ensures
            p.shader is None,
            p.vs_shader is None,
            p.fs_shader is None,
            p.pipeline_layout is None,
            p.topology == PrimitiveTopology::TriangleList,
            p.strip_index_format is None,
            p.cull_mode is None,
            p.is_depth_stencil,
            p.vs_entry@ == "vs_main"@,
            p.fs_entry@ == "fs_main"@,
    {
        Self {
            shader: None,
            vs_shader: None,
            fs_shader: None,
            pipeline_layout: None,
            topology: PrimitiveTopology::TriangleList,
            strip_index_format: None,
            cull_mode: None,
            is_depth_stencil: true,
            vs_entry: "vs_main".to_owned(),
            fs_entry: "fs_main".to_owned(),
        }
    }
}

/// The parts of a render pipeline that are resolved before it is created:
/// its layout, its vertex and fragment shader modules, and its primitive
/// assembly and depth test.
#[derive(Debug)]
pub struct PipelineStages<S, L> {
    pub layout: L,
    pub vs_shader: S,
    pub fs_shader: S,
    pub topology: PrimitiveTopology,
    pub strip_index_format: Option<IndexFormat>,
    pub depth_stencil: bool,
}

impl<S: Copy, L: Copy> IRenderPipeline<S, L> {
    /// Resolves the shaders: a shared shader module, if given, serves both
    /// stages. Returns the pipeline's stages, or `None` where the layout or a
    /// stage's shader is missing (the builder cannot create a pipeline then).
    pub fn new(&mut self) -> (stages: Option<PipelineStages<S, L>>)
        ensures
            final(self).shader == old(self).shader,
            final(self).vs_shader == (if old(self).shader is Some {
                old(self).shader
            } else {
                old(self).vs_shader
            }),
            final(self).fs_shader == (if old(self).shader is Some {
                old(self).shader
            } else {
                old(self).fs_shader
            }),
            final(self).pipeline_layout == old(self).pipeline_layout,
            final(self).topology == old(self).topology,
            final(self).strip_index_format == old(self).strip_index_format,
            final(self).cull_mode == old(self).cull_mode,
            final(self).is_depth_stencil == old(self).is_depth_stencil,
            final(self).vs_entry == old(self).vs_entry,
            final(self).fs_entry == old(self).fs_entry,
            stages is Some <==> (final(self).pipeline_layout is Some && final(self).vs_shader is Some
                && final(self).fs_shader is Some),
            stages matches Some(st) ==> {
                &&& Some(st.layout) == final(self).pipeline_layout
                &&& Some(st.vs_shader) == final(self).vs_shader
                &&& Some(st.fs_shader) == final(self).fs_shader
                &&& st.topology == final(self).topology
                &&& st.strip_index_format == final(self).strip_index_format
                &&& st.depth_stencil == final(self).is_depth_stencil
            },
    {
        if self.shader.is_some() {
            self.vs_shader = self.shader;
            self.fs_shader = self.shader;
        }
        match (self.pipeline_layout, self.vs_shader, self.fs_shader) {
            (Some(layout), Some(vs_shader), Some(fs_shader)) => Some(
                PipelineStages {
                    layout,
                    vs_shader,
                    fs_shader,
                    topology: self.topology,
                    strip_index_format: self.strip_index_format,
                    depth_stencil: self.is_depth_stencil,
                },
            ),
            _ => None,
        }
    }
}

/// The topology and strip index format named by `name`: `line-list` and
/// `line-strip` (the latter with 32-bit indices); any other name gives a point
/// list.
pub fn primitive_from_name(name: &str) -> (r: (PrimitiveTopology, Option<IndexFormat>))
    ensures
        name@ == "line-list"@ ==> r == (PrimitiveTopology::LineList, None::<IndexFormat>),
        name@ == "line-strip"@ ==> r == (PrimitiveTopology::LineStrip, Some(IndexFormat::Uint32)),
        name@ != "line-list"@ && name@ != "line-strip"@ ==> r == (
            PrimitiveTopology::PointList,
            None::<IndexFormat>,
        ),
{
    proof {
        reveal_strlit("line-list");
        reveal_strlit("line-strip");
        assert("line-list"@.len() != "line-strip"@.len());
    }
    let primitive_type = name.to_owned();
    let mut topology = PrimitiveTopology::PointList;
    let mut index_format = None;
    if primitive_type == "line-list".to_owned() {
        topology = PrimitiveTopology::LineList;
        index_format = None;
    } else if primitive_type == "line-strip".to_owned() {
        topology = PrimitiveTopology::LineStrip;
        index_format = Some(IndexFormat::Uint32);
    }
    (topology, index_format)
}

} // verus!
