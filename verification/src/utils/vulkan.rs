//! Choosing the GPU and the Vulkan layers the engine runs on.
use vstd::prelude::*;

verus! {

/// The type of a physical device, as the driver reports it.
#[derive(Clone, Copy, PartialEq, Eq, Debug, Structural)]
pub enum DeviceKind {
    DiscreteGpu,
    IntegratedGpu,
    VirtualGpu,
    Cpu,
    Other,
    /// A type this engine does not know.
    Unknown,
}

/// Score of a device type: lower is likely faster and is preferred.
pub open spec fn kind_score(kind: DeviceKind) -> int {
    match kind {
        DeviceKind::DiscreteGpu => 0,
        DeviceKind::IntegratedGpu => 1,
        DeviceKind::VirtualGpu => 2,
        DeviceKind::Cpu => 3,
        DeviceKind::Other => 4,
        DeviceKind::Unknown => 5,
    }
}

/// Score of a device type: discrete GPUs first, then integrated, virtual,
/// CPUs, others, and unknown types last.
pub fn device_score(kind: DeviceKind) -> (score: u32)
    ensures
        score == kind_score(kind),
{
    match kind {
        DeviceKind::DiscreteGpu => 0,
        DeviceKind::IntegratedGpu => 1,
        DeviceKind::VirtualGpu => 2,
        DeviceKind::Cpu => 3,
        DeviceKind::Other => 4,
        DeviceKind::Unknown => 5,
    }
}

/// What a queue family of a device offers.
#[derive(Clone, Copy, PartialEq, Eq, Debug, Structural)]
pub struct QueueFamilyInfo {
    /// Its queues run graphics commands.
    pub graphics: bool,
    /// Its queues run transfer commands.
    pub transfer: bool,
    /// Its queues can present to the window's surface.
    pub presents: bool,
}

/// A physical device as far as the choice of a device goes.
pub struct DeviceCandidate {
    pub kind: DeviceKind,
    /// It offers every device extension the engine needs.
    pub has_extensions: bool,
    /// Its queue families, by index.
    pub queue_families: Vec<QueueFamilyInfo>,
}

/// The chosen device and the queue families the engine uses on it.
#[derive(Clone, Copy, PartialEq, Eq, Debug, Structural)]
pub struct DeviceChoice {
    /// Position of the device among the candidates.
    pub device: usize,
    pub graphics_family: u32,
    pub transfer_family: u32,
}

/// A family whose queues draw and present to the window.
pub open spec fn serves_graphics(family: QueueFamilyInfo) -> bool {
    family.graphics && family.presents
}

/// A family dedicated to transfers.
pub open spec fn serves_transfer_only(family: QueueFamilyInfo) -> bool {
    family.transfer && !family.graphics
}

/// `index` is the first family of `families` that draws and presents.
pub open spec fn is_graphics_family(families: Seq<QueueFamilyInfo>, index: int) -> bool {
    &&& 0 <= index < families.len()
    &&& serves_graphics(families[index])
    &&& forall|j: int| 0 <= j < index ==> !serves_graphics(#[trigger] families[j])
}

/// No family of `families` draws and presents.
pub open spec fn lacks_graphics(families: Seq<QueueFamilyInfo>) -> bool {
    forall|j: int| 0 <= j < families.len() ==> !serves_graphics(#[trigger] families[j])
}

/// `index` is the family used for transfers: the first family dedicated to
/// transfers, or, where there is none, the graphics family.
pub open spec fn is_transfer_family(families: Seq<QueueFamilyInfo>, index: int) -> bool {
    if exists|j: int| 0 <= j < families.len() && serves_transfer_only(#[trigger] families[j]) {
        &&& 0 <= index < families.len()
        &&& serves_transfer_only(families[index])
        &&& forall|j: int| 0 <= j < index ==> !serves_transfer_only(#[trigger] families[j])
    } else {
        is_graphics_family(families, index)
    }
}

/// The first family that draws and presents.
pub fn graphics_family(families: &Vec<QueueFamilyInfo>) -> (index: Option<u32>)
    requires
        families@.len() <= u32::MAX,
    ensures
        match index {
            Some(i) => is_graphics_family(families@, i as int),
            None => lacks_graphics(families@),
        },
        index matches Some(i) ==> families@[i as int].graphics && families@[i as int].presents,
        forall|j: int|
            0 <= j < families@.len() && (#[trigger] families@[j]).graphics && families@[j].presents
                ==> (index matches Some(i) && i <= j),
{
    let mut i: usize = 0;
    while i < families.len()
        invariant
            i <= families@.len(),
            families@.len() <= u32::MAX,
            forall|j: int| 0 <= j < i ==> !serves_graphics(#[trigger] families@[j]),
        decreases families@.len() - i,
    {
        let family = families[i];
        if family.graphics && family.presents {
            return Some(i as u32);
        }
        i = i + 1;
    }
    None
}

/// The family used for transfers: the first family dedicated to transfers,
/// or else the graphics family.
pub fn transfer_family(families: &Vec<QueueFamilyInfo>) -> (index: Option<u32>)
    requires
        families@.len() <= u32::MAX,
    ensures
        match index {
            Some(i) => is_transfer_family(families@, i as int),
            None => lacks_graphics(families@) && forall|j: int|
                0 <= j < families@.len() ==> !serves_transfer_only(#[trigger] families@[j]),
        },
        forall|j: int|
            0 <= j < families@.len() && (#[trigger] families@[j]).transfer && !families@[j].graphics
                ==> (index matches Some(i) && i <= j && families@[i as int].transfer
                && !families@[i as int].graphics),
{
    let mut i: usize = 0;
    while i < families.len()
        invariant
            i <= families@.len(),
            families@.len() <= u32::MAX,
            forall|j: int| 0 <= j < i ==> !serves_transfer_only(#[trigger] families@[j]),
        decreases families@.len() - i,
    {
        let family = families[i];
        if family.transfer && !family.graphics {
            assert(serves_transfer_only(families@[i as int]));
            return Some(i as u32);
        }
        i = i + 1;
    }
    graphics_family(families)
}

/// The graphics family is the first family that runs graphics commands and
/// presents to the window, whatever else it offers: such a family is the
/// graphics family, and no other index is.
pub proof fn lemma_graphics_family_is_first_drawing_and_presenting(
    families: Seq<QueueFamilyInfo>,
    index: int,
)
    requires
        0 <= index < families.len(),
        families[index].graphics && families[index].presents,
        forall|j: int| 0 <= j < index ==> !((#[trigger] families[j]).graphics && families[j].presents),
    ensures
        is_graphics_family(families, index),
        forall|k: int| #[trigger] is_graphics_family(families, k) ==> k == index,
{
    assert forall|k: int| #[trigger] is_graphics_family(families, k) implies k == index by {
        if k < index {
            assert(!(families[k].graphics && families[k].presents));
        } else if k > index {
            assert(!serves_graphics(families[index]));
        }
    }
}

/// Which family is the graphics family depends only on which families run
/// graphics commands and which present: the transfer flags play no part.
pub proof fn lemma_graphics_family_ignores_transfer(
    families: Seq<QueueFamilyInfo>,
    other: Seq<QueueFamilyInfo>,
    index: int,
)
    requires
        other.len() == families.len(),
        forall|j: int|
            0 <= j < families.len() ==> (#[trigger] other[j]).graphics == families[j].graphics
                && other[j].presents == families[j].presents,
    ensures
        is_graphics_family(families, index) <==> is_graphics_family(other, index),
{
    if is_graphics_family(families, index) {
        assert forall|j: int| 0 <= j < index implies !serves_graphics(#[trigger] other[j]) by {
            assert(!serves_graphics(families[j]));
        }
    }
    if is_graphics_family(other, index) {
        assert forall|j: int| 0 <= j < index implies !serves_graphics(#[trigger] families[j]) by {
            assert(!serves_graphics(other[j]));
        }
    }
}

/// A family that runs transfer commands and no graphics commands is a
/// dedicated transfer family, whether or not it presents: the first such
/// family is the transfer family, and no other index is.
pub proof fn lemma_transfer_family_is_first_dedicated(families: Seq<QueueFamilyInfo>, index: int)
    requires
        0 <= index < families.len(),
        families[index].transfer && !families[index].graphics,
        forall|j: int|
            0 <= j < index ==> !((#[trigger] families[j]).transfer && !families[j].graphics),
    ensures
        is_transfer_family(families, index),
        forall|k: int| #[trigger] is_transfer_family(families, k) ==> k == index,
{
    assert(serves_transfer_only(families[index]));
    assert forall|k: int| #[trigger] is_transfer_family(families, k) implies k == index by {
        if k < index {
            assert(!(families[k].transfer && !families[k].graphics));
        } else if k > index {
            assert(!serves_transfer_only(families[index]));
        }
    }
}

/// Every candidate with the needed extensions offers a family that draws and
/// presents.
pub open spec fn all_supported_draw(candidates: Seq<DeviceCandidate>) -> bool {
    forall|k: int|
        0 <= k < candidates.len() && (#[trigger] candidates[k]).has_extensions ==> !lacks_graphics(
            candidates[k].queue_families@,
        )
}

/// Some candidate has the needed extensions.
pub open spec fn some_supported(candidates: Seq<DeviceCandidate>) -> bool {
    exists|k: int| 0 <= k < candidates.len() && (#[trigger] candidates[k]).has_extensions
}

/// The queue families of the chosen device.
pub open spec fn chosen_families(candidates: Seq<DeviceCandidate>, choice: DeviceChoice) -> Seq<
    QueueFamilyInfo,
> {
    candidates[choice.device as int].queue_families@
}

/// Chooses the device to render on: among the devices with the needed
/// extensions, the one whose type scores lowest, the first of them on a tie;
/// with its first family that draws and presents, and its transfer family.
/// Some device must have the needed extensions, and each such device must
/// have a family that draws and presents.
pub fn select_render_device(candidates: &Vec<DeviceCandidate>) -> (choice: DeviceChoice)
    requires
        forall|k: int|
            0 <= k < candidates@.len() ==> (#[trigger] candidates@[k]).queue_families@.len()
                <= u32::MAX,
        all_supported_draw(candidates@),
        some_supported(candidates@),
    ensures
        choice.device < candidates@.len(),
        candidates@[choice.device as int].has_extensions,
        is_graphics_family(
            candidates@[choice.device as int].queue_families@,
            choice.graphics_family as int,
        ),
        is_transfer_family(
            candidates@[choice.device as int].queue_families@,
            choice.transfer_family as int,
        ),
        forall|k: int|
            0 <= k < candidates@.len() && (#[trigger] candidates@[k]).has_extensions ==> kind_score(
                candidates@[choice.device as int].kind,
            ) <= kind_score(candidates@[k].kind),
        forall|k: int|
            0 <= k < choice.device && (#[trigger] candidates@[k]).has_extensions ==> kind_score(
                candidates@[choice.device as int].kind,
            ) < kind_score(candidates@[k].kind),
        chosen_families(candidates@, choice).len() > choice.graphics_family,
        chosen_families(candidates@, choice)[choice.graphics_family as int].graphics,
        chosen_families(candidates@, choice)[choice.graphics_family as int].presents,
        forall|j: int|
            0 <= j < chosen_families(candidates@, choice).len()
                && (#[trigger] chosen_families(candidates@, choice)[j]).graphics
                && chosen_families(candidates@, choice)[j].presents ==> choice.graphics_family <= j,
        forall|j: int|
            0 <= j < chosen_families(candidates@, choice).len()
                && (#[trigger] chosen_families(candidates@, choice)[j]).transfer
                && !chosen_families(candidates@, choice)[j].graphics ==> choice.transfer_family <= j
                && chosen_families(candidates@, choice)[choice.transfer_family as int].transfer
                && !chosen_families(candidates@, choice)[choice.transfer_family as int].graphics,
{
    let mut best: Option<DeviceChoice> = None;
    let mut best_score: u32 = 0;
    let mut i: usize = 0;
    while i < candidates.len()
        invariant
            i <= candidates@.len(),
            forall|k: int|
                0 <= k < candidates@.len() ==> (#[trigger] candidates@[k]).queue_families@.len()
                    <= u32::MAX,
            all_supported_draw(candidates@),
            best is None ==> forall|k: int|
                0 <= k < i ==> !(#[trigger] candidates@[k]).has_extensions,
            best matches Some(c) ==> {
                &&& c.device < i
                &&& candidates@[c.device as int].has_extensions
                &&& best_score == kind_score(candidates@[c.device as int].kind)
                &&& is_graphics_family(
                    candidates@[c.device as int].queue_families@,
                    c.graphics_family as int,
                )
                &&& is_transfer_family(
                    candidates@[c.device as int].queue_families@,
                    c.transfer_family as int,
                )
                &&& forall|k: int|
                    0 <= k < i && (#[trigger] candidates@[k]).has_extensions ==> best_score
                        <= kind_score(candidates@[k].kind)
                &&& forall|k: int|
                    0 <= k < c.device && (#[trigger] candidates@[k]).has_extensions
                        ==> best_score < kind_score(candidates@[k].kind)
            },
        decreases candidates@.len() - i,
    {
        let candidate = &candidates[i];
        if candidate.has_extensions {
            assert(!lacks_graphics(candidates@[i as int].queue_families@));
            let graphics = graphics_family(&candidate.queue_families);
            let transfer = transfer_family(&candidate.queue_families);
            match (graphics, transfer) {
                (Some(g), Some(t)) => {
                    let score = device_score(candidate.kind);
                    let better = match best {
                        None => true,
                        Some(_) => score < best_score,
                    };
                    if better {
                        best = Some(DeviceChoice { device: i, graphics_family: g, transfer_family: t });
                        best_score = score;
                    }
                },
                _ => {},
            }
        }
        i = i + 1;
    }
    match best {
        Some(c) => {
            proof {
                let families = candidates@[c.device as int].queue_families@;
                assert forall|j: int|
                    0 <= j < families.len() && (#[trigger] families[j]).graphics
                        && families[j].presents implies c.graphics_family <= j by {
                    if j < c.graphics_family {
                        assert(!serves_graphics(families[j]));
                    }
                }
                assert forall|j: int|
                    0 <= j < families.len() && (#[trigger] families[j]).transfer
                        && !families[j].graphics implies c.transfer_family <= j
                    && families[c.transfer_family as int].transfer
                    && !families[c.transfer_family as int].graphics by {
                    assert(serves_transfer_only(families[j]));
                    if j < c.transfer_family {
                        assert(!serves_transfer_only(families[j]));
                    }
                }
            }
            c
        },
        None => {
            assert(false) by {
                let k = choose|k: int|
                    0 <= k < candidates@.len() && (#[trigger] candidates@[k]).has_extensions;
                assert(!candidates@[k].has_extensions);
            }
            DeviceChoice { device: 0, graphics_family: 0, transfer_family: 0 }
        },
    }
}

/// Enables a Vulkan layer: adds `layer` after the enabled ones unless a layer
/// of that name is already enabled.
pub fn enable_layer(layers: &mut Vec<String>, layer: String)
    ensures
        (exists|i: int| 0 <= i < old(layers)@.len() && (#[trigger] old(layers)@[i])@ == layer@)
            ==> final(layers)@ == old(layers)@,
        !(exists|i: int| 0 <= i < old(layers)@.len() && (#[trigger] old(layers)@[i])@ == layer@)
            ==> final(layers)@ == old(layers)@.push(layer),
{
    let mut i: usize = 0;
    while i < layers.len()
        invariant
            i <= layers@.len(),
            layers@ == old(layers)@,
            forall|j: int| 0 <= j < i ==> (#[trigger] layers@[j])@ != layer@,
        decreases layers@.len() - i,
    {
        if layers[i] == layer {
            return;
        }
        i = i + 1;
    }
    layers.push(layer);
}

} // verus!
