//! Per-frame rules of the renderer: how objects are laid out in the vertex
//! buffer, how their colour reaches the shaders, and when the swapchain must be
//! rebuilt.
use vstd::prelude::*;

verus! {

/// A colour with 8-bit red, green, blue and alpha channels.
#[derive(Clone, Copy, PartialEq, Eq, Debug, Structural)]
pub struct Rgba8 {
    pub r: u8,
    pub g: u8,
    pub b: u8,
    pub a: u8,
}

/// The 32-bit word in which a colour is pushed to the shaders: red in the
/// lowest byte, then green, blue, and alpha in the highest byte.
pub open spec fn packed_colour(colour: Rgba8) -> int {
    colour.r + colour.g * 0x100 + colour.b * 0x1_0000 + colour.a * 0x100_0000
}

/// Packs a colour into the word pushed to the shaders.
pub fn pack_rgba8(colour: Rgba8) -> (word: u32)
    ensures
        word == packed_colour(colour),
{
    let r = colour.r as u32;
    let g = colour.g as u32;
    let b = colour.b as u32;
    let a = colour.a as u32;
    let word = r | g << 8 | b << 16 | a << 24;
    assert(word == r + g * 0x100 + b * 0x1_0000 + a * 0x100_0000) by (bit_vector)
        requires
            r < 0x100,
            g < 0x100,
            b < 0x100,
            a < 0x100,
            word == r | g << 8 | b << 16 | a << 24,
    ;
    word
}

/// The shaders recover each channel from the pushed word: red from its lowest
/// byte, green from the next, then blue, and alpha from the highest byte.
pub proof fn lemma_packed_colour_channels(colour: Rgba8)
    ensures
        packed_colour(colour) % 0x100 == colour.r,
        (packed_colour(colour) / 0x100) % 0x100 == colour.g,
        (packed_colour(colour) / 0x1_0000) % 0x100 == colour.b,
        packed_colour(colour) / 0x100_0000 == colour.a,
        0 <= packed_colour(colour) <= u32::MAX,
{
    let r = colour.r as int;
    let g = colour.g as int;
    let b = colour.b as int;
    let a = colour.a as int;
    assert(0 <= r < 0x100 && 0 <= g < 0x100 && 0 <= b < 0x100 && 0 <= a < 0x100);
    let w = r + g * 0x100 + b * 0x1_0000 + a * 0x100_0000;
    assert(w % 0x100 == r && (w / 0x100) % 0x100 == g && (w / 0x1_0000) % 0x100 == b && w
        / 0x100_0000 == a) by (nonlinear_arith)
        requires
            0 <= r < 0x100,
            0 <= g < 0x100,
            0 <= b < 0x100,
            0 <= a < 0x100,
            w == r + g * 0x100 + b * 0x1_0000 + a * 0x100_0000,
    ;
}

/// Different colours are pushed as different words.
pub proof fn lemma_packed_colour_injective(first: Rgba8, second: Rgba8)
    requires
        packed_colour(first) == packed_colour(second),
    ensures
        first == second,
{
    lemma_packed_colour_channels(first);
    lemma_packed_colour_channels(second);
}

/// Number of vertices of the quad every object is drawn with.
pub const QUAD_VERTEX_COUNT: usize = 4;

/// Offsets of the objects' first vertices in the shared vertex buffer, where
/// each object contributes one quad after the previous one: the offset of the
/// object at position `i` is `4 * i`, as a 32-bit index.
pub fn vertex_offsets(object_count: usize) -> (offsets: Vec<u32>)
    requires
        object_count * QUAD_VERTEX_COUNT <= usize::MAX,
    ensures
        offsets@.len() == object_count,
        forall|i: int| 0 <= i < object_count ==> offsets@[i] == (4 * i) as u32,
{
    let mut offsets: Vec<u32> = Vec::with_capacity(object_count);
    let mut vertices: usize = 0;
    let mut i: usize = 0;
    while i < object_count
        invariant
            i <= object_count,
            object_count * QUAD_VERTEX_COUNT <= usize::MAX,
            vertices == 4 * i,
            offsets@.len() == i,
            forall|j: int| 0 <= j < i ==> offsets@[j] == (4 * j) as u32,
        decreases object_count - i,
    {
        offsets.push(vertices as u32);
        vertices = vertices + QUAD_VERTEX_COUNT;
        i = i + 1;
    }
    offsets
}

/// What came of asking the swapchain for the next image.
#[derive(Clone, Copy, PartialEq, Eq, Debug, Structural)]
pub enum AcquireOutcome {
    /// An image was acquired; `suboptimal` when it no longer matches the
    /// surface exactly.
    Acquired { suboptimal: bool },
    /// The swapchain no longer matches the surface.
    OutOfDate,
}

/// What came of submitting and presenting a frame.
#[derive(Clone, Copy, PartialEq, Eq, Debug, Structural)]
pub enum PresentOutcome {
    Presented,
    /// The swapchain no longer matches the surface.
    OutOfDate,
}

/// Whether the swapchain has to be rebuilt before the next frame is drawn.
pub struct SwapchainState {
    pub recreate_swapchain: bool,
}

/// Whether a window of this size can be drawn to; a minimised window has no
/// area.
pub fn has_area(width: u32, height: u32) -> (drawable: bool)
    ensures
        drawable == (width != 0 && height != 0),
{
    width != 0 && height != 0
}

impl SwapchainState {
    /// A freshly built swapchain.
    pub fn new() -> (state: Self)
        ensures
            !state.recreate_swapchain,
    {
        SwapchainState { recreate_swapchain: false }
    }

    /// The window changed size: the swapchain has to follow.
    pub fn window_resized(&mut self)
        ensures
            final(self).recreate_swapchain,
    {
        self.recreate_swapchain = true;
    }

    /// Called before drawing: whether the swapchain must be rebuilt now. The
    /// request is consumed.
    pub fn take_recreate(&mut self) -> (rebuild: bool)
        ensures
            rebuild == old(self).recreate_swapchain,
            !final(self).recreate_swapchain,
    {
        let rebuild = self.recreate_swapchain;
        self.recreate_swapchain = false;
        rebuild
    }

    /// Records what acquiring an image gave; returns whether the frame is
    /// drawn. An out-of-date swapchain skips the frame; it, and a suboptimal
    /// image, ask for a rebuild.
    pub fn image_acquired(&mut self, outcome: AcquireOutcome) -> (draw: bool)
        ensures
            draw == (outcome is Acquired),
            final(self).recreate_swapchain == match outcome {
                AcquireOutcome::Acquired { suboptimal } => old(self).recreate_swapchain
                    || suboptimal,
                AcquireOutcome::OutOfDate => true,
            },
    {
        match outcome {
            AcquireOutcome::Acquired { suboptimal } => {
                if suboptimal {
                    self.recreate_swapchain = true;
                }
                true
            },
            AcquireOutcome::OutOfDate => {
                self.recreate_swapchain = true;
                false
            },
        }
    }

    /// Records what presenting the frame gave: an out-of-date swapchain asks
    /// for a rebuild.
    pub fn frame_presented(&mut self, outcome: PresentOutcome)
        ensures
            final(self).recreate_swapchain == (old(self).recreate_swapchain || outcome
                == PresentOutcome::OutOfDate),
    {
        if outcome == PresentOutcome::OutOfDate {
            self.recreate_swapchain = true;
        }
    }
}

/// How the compositor treats the alpha channel of the window's pixels.
#[derive(Clone, Copy, PartialEq, Eq, Debug, Structural)]
pub enum CompositeAlphaMode {
    Opaque,
    PreMultiplied,
    PostMultiplied,
    Inherit,
}

/// Preference of a composite alpha mode: lower is preferred. Pre-multiplied
/// first, then post-multiplied, inherited, and opaque last.
pub open spec fn alpha_rank(mode: CompositeAlphaMode) -> int {
    match mode {
        CompositeAlphaMode::PreMultiplied => 0,
        CompositeAlphaMode::PostMultiplied => 1,
        CompositeAlphaMode::Inherit => 2,
        CompositeAlphaMode::Opaque => 3,
    }
}

fn rank_of(mode: CompositeAlphaMode) -> (rank: u8)
    ensures
        rank == alpha_rank(mode),
{
    match mode {
        CompositeAlphaMode::PreMultiplied => 0,
        CompositeAlphaMode::PostMultiplied => 1,
        CompositeAlphaMode::Inherit => 2,
        CompositeAlphaMode::Opaque => 3,
    }
}

/// The most preferred of the modes a surface supports; `None` when it
/// supports none.
pub fn select_composite_alpha(supported: &Vec<CompositeAlphaMode>) -> (chosen: Option<
    CompositeAlphaMode,
>)
    ensures
        chosen is None <==> supported@.len() == 0,
        chosen matches Some(mode) ==> supported@.contains(mode) && forall|i: int|
            0 <= i < supported@.len() ==> alpha_rank(mode) <= alpha_rank(#[trigger] supported@[i]),
        supported@.contains(CompositeAlphaMode::PreMultiplied) ==> chosen == Some(
            CompositeAlphaMode::PreMultiplied,
        ),
        !supported@.contains(CompositeAlphaMode::PreMultiplied) && supported@.contains(
            CompositeAlphaMode::PostMultiplied,
        ) ==> chosen == Some(CompositeAlphaMode::PostMultiplied),
        !supported@.contains(CompositeAlphaMode::PreMultiplied) && !supported@.contains(
            CompositeAlphaMode::PostMultiplied,
        ) && supported@.contains(CompositeAlphaMode::Inherit) ==> chosen == Some(
            CompositeAlphaMode::Inherit,
        ),
        !supported@.contains(CompositeAlphaMode::PreMultiplied) && !supported@.contains(
            CompositeAlphaMode::PostMultiplied,
        ) && !supported@.contains(CompositeAlphaMode::Inherit) && supported@.contains(
            CompositeAlphaMode::Opaque,
        ) ==> chosen == Some(CompositeAlphaMode::Opaque),
{
    let mut best: Option<CompositeAlphaMode> = None;
    let mut i: usize = 0;
    while i < supported.len()
        invariant
            i <= supported@.len(),
            best is None <==> i == 0,
            best matches Some(mode) ==> supported@.subrange(0, i as int).contains(mode)
                && forall|j: int| 0 <= j < i ==> alpha_rank(mode) <= alpha_rank(
                #[trigger] supported@[j]),
        decreases supported@.len() - i,
    {
        let candidate = supported[i];
        match best {
            None => {
                best = Some(candidate);
                assert(supported@.subrange(0, 1)[0] == candidate);
            },
            Some(current) => {
                if rank_of(candidate) < rank_of(current) {
                    best = Some(candidate);
                    assert(supported@.subrange(0, i + 1)[i as int] == candidate);
                } else {
                    proof {
                        let k = choose|k: int|
                            0 <= k < i && supported@.subrange(0, i as int)[k] == current;
                        assert(supported@.subrange(0, i + 1)[k] == current);
                    }
                }
            },
        }
        i = i + 1;
    }
    proof {
        if let Some(mode) = best {
            assert(supported@.subrange(0, i as int) =~= supported@);
            lemma_alpha_preference_is_strict();
            lemma_best_alpha_mode(supported@, mode);
        }
    }
    best
}

/// The preference between composite alpha modes is strict and fixed:
/// pre-multiplied before post-multiplied, post-multiplied before inherited,
/// inherited before opaque.
pub proof fn lemma_alpha_preference_is_strict()
    ensures
        alpha_rank(CompositeAlphaMode::PreMultiplied) < alpha_rank(
            CompositeAlphaMode::PostMultiplied,
        ),
        alpha_rank(CompositeAlphaMode::PostMultiplied) < alpha_rank(CompositeAlphaMode::Inherit),
        alpha_rank(CompositeAlphaMode::Inherit) < alpha_rank(CompositeAlphaMode::Opaque),
{
}

/// A supported mode that no supported mode is preferred to is, of the
/// supported modes, pre-multiplied where that is supported, else
/// post-multiplied where that is supported, else inherited where that is
/// supported, else opaque: the order of the list plays no part.
pub proof fn lemma_best_alpha_mode(supported: Seq<CompositeAlphaMode>, mode: CompositeAlphaMode)
    requires
        supported.contains(mode),
        forall|i: int|
            0 <= i < supported.len() ==> alpha_rank(mode) <= alpha_rank(#[trigger] supported[i]),
    ensures
        supported.contains(CompositeAlphaMode::PreMultiplied) ==> mode
            == CompositeAlphaMode::PreMultiplied,
        !supported.contains(CompositeAlphaMode::PreMultiplied) && supported.contains(
            CompositeAlphaMode::PostMultiplied,
        ) ==> mode == CompositeAlphaMode::PostMultiplied,
        !supported.contains(CompositeAlphaMode::PreMultiplied) && !supported.contains(
            CompositeAlphaMode::PostMultiplied,
        ) && supported.contains(CompositeAlphaMode::Inherit) ==> mode
            == CompositeAlphaMode::Inherit,
        !supported.contains(CompositeAlphaMode::PreMultiplied) && !supported.contains(
            CompositeAlphaMode::PostMultiplied,
        ) && !supported.contains(CompositeAlphaMode::Inherit) ==> mode
            == CompositeAlphaMode::Opaque,
{
    if supported.contains(CompositeAlphaMode::PreMultiplied) {
        let k = choose|k: int|
            0 <= k < supported.len() && supported[k] == CompositeAlphaMode::PreMultiplied;
        assert(alpha_rank(mode) <= alpha_rank(supported[k]));
    } else if supported.contains(CompositeAlphaMode::PostMultiplied) {
        let k = choose|k: int|
            0 <= k < supported.len() && supported[k] == CompositeAlphaMode::PostMultiplied;
        assert(alpha_rank(mode) <= alpha_rank(supported[k]));
    } else if supported.contains(CompositeAlphaMode::Inherit) {
        let k = choose|k: int|
            0 <= k < supported.len() && supported[k] == CompositeAlphaMode::Inherit;
        assert(alpha_rank(mode) <= alpha_rank(supported[k]));
    }
}

} // verus!
