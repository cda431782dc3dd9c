//! Keys under which a drawable finds its pipeline and descriptor set.
use vstd::prelude::*;
use vstd::std_specs::cmp::PartialEqSpecImpl;
use vstd::std_specs::convert::{FromSpec, FromSpecImpl};
use crate::ecs::tables::ClassInfo;
use crate::geom::shapes::{ShapeKind, pipeline_name_of};

verus! {

/// Key of a graphics pipeline.
#[derive(Clone, Debug, Eq)]
pub struct PipelineID {
    /// Name under which the pipeline is stored.
    pub id: String,
}

/// Key of a descriptor set.
#[derive(Clone, Debug, Eq)]
pub struct DescriptorID {
    /// Name under which the descriptor set is stored.
    pub id: String,
}

impl PartialEq for PipelineID {
    fn eq(&self, other: &Self) -> (same: bool) {
        self.id == other.id
    }
}

impl PartialEqSpecImpl for PipelineID {
    open spec fn obeys_eq_spec() -> bool {
        true
    }

    open spec fn eq_spec(&self, other: &Self) -> bool {
        self.id@ == other.id@
    }
}

impl PartialEq for DescriptorID {
    fn eq(&self, other: &Self) -> (same: bool) {
        self.id == other.id
    }
}

impl PartialEqSpecImpl for DescriptorID {
    open spec fn obeys_eq_spec() -> bool {
        true
    }

    open spec fn eq_spec(&self, other: &Self) -> bool {
        self.id@ == other.id@
    }
}

impl PipelineID {
    /// The pipeline of a kind of shape, named after the kind in lower case.
    pub fn from_kind(kind: ShapeKind) -> (pipeline: Self)
        ensures
            pipeline.id@ == pipeline_name_of(kind),
    {
        Self { id: kind.pipeline_name().to_owned() }
    }
}

impl<'a> From<&'a ClassInfo> for DescriptorID {
    /// The descriptor set of a class is stored under the class name.
    fn from(value: &'a ClassInfo) -> (descriptor: Self) {
        Self { id: value.class_name.clone() }
    }
}

impl<'a> FromSpecImpl<&'a ClassInfo> for DescriptorID {
    open spec fn obeys_from_spec() -> bool {
        true
    }

    open spec fn from_spec(v: &'a ClassInfo) -> Self {
        DescriptorID { id: v.class_name }
    }
}

/// Render data is shared by class name: two classes get the same descriptor
/// id exactly when their names are equal, whatever their types.
pub proof fn lemma_descriptor_shared_by_class_name(first: &ClassInfo, second: &ClassInfo)
    ensures
        (<DescriptorID as FromSpec<&ClassInfo>>::from_spec(first).id@
            == <DescriptorID as FromSpec<&ClassInfo>>::from_spec(second).id@) == (
        first.class_name@ == second.class_name@),
{
}

} // verus!
