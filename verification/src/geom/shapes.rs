//! The kinds of shapes the engine draws and how their render data is found.
use vstd::prelude::*;

verus! {

/// The kind of a drawable shape. Each kind is drawn by its own pipeline.
#[derive(Clone, Copy, PartialEq, Eq, Debug, Structural)]
pub enum ShapeKind {
    Square,
    Circle,
    Image,
}

/// The name of the pipeline that draws a kind of shape.
pub open spec fn pipeline_name_of(kind: ShapeKind) -> Seq<char> {
    match kind {
        ShapeKind::Square => "square"@,
        ShapeKind::Circle => "circle"@,
        ShapeKind::Image => "image"@,
    }
}

/// Every kind of shape has a pipeline of its own.
pub proof fn lemma_pipeline_names_distinct(first: ShapeKind, second: ShapeKind)
    requires
        first != second,
    ensures
        pipeline_name_of(first) != pipeline_name_of(second),
{
    reveal_strlit("square");
    reveal_strlit("circle");
    reveal_strlit("image");
    assert("square"@[0] != "circle"@[0]);
    assert("square"@[0] != "image"@[0]);
    assert("circle"@[0] != "image"@[0]);
}

impl ShapeKind {
    /// The name of the pipeline that draws this kind: the variant's name in
    /// lower case.
    pub fn pipeline_name(&self) -> (name: &'static str)
        ensures
            name@ == pipeline_name_of(*self),
    {
        match self {
            ShapeKind::Square => "square",
            ShapeKind::Circle => "circle",
            ShapeKind::Image => "image",
        }
    }
}

/// Where the descriptor set of a new drawable comes from.
#[derive(Clone, Copy, PartialEq, Eq, Debug, Structural)]
pub enum DescriptorSource {
    /// The set already stored under the drawable's descriptor id is shared.
    Cached,
    /// A new set is written.
    Created,
}

/// Decides where the descriptor set of a new drawable comes from.
///
/// `cached` says whether a set is stored under the drawable's descriptor id,
/// `has_bindings` whether the pipeline's first set layout has any binding.
/// Squares always get a set of their own and cannot be drawn by a pipeline
/// without bindings (`None`); circles and images share a stored set when there
/// is one.
pub fn plan_descriptor(kind: ShapeKind, cached: bool, has_bindings: bool) -> (plan: Option<
    DescriptorSource,
>)
    ensures
        plan is None <==> (kind == ShapeKind::Square && !has_bindings),
        plan == Some(DescriptorSource::Cached) <==> (kind != ShapeKind::Square && cached),
{
    match kind {
        ShapeKind::Square => {
            if has_bindings {
                Some(DescriptorSource::Created)
            } else {
                None
            }
        },
        ShapeKind::Circle | ShapeKind::Image => {
            if cached {
                Some(DescriptorSource::Cached)
            } else {
                Some(DescriptorSource::Created)
            }
        },
    }
}

} // verus!
