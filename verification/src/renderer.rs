//! The plan for rendering a pass's batches: which framebuffer each batch
//! is drawn into, when the mask is cleared, which texture the mask sampler
//! sees, and which pair of GPU buffers holds the batch's vertices and
//! indices.
//!
//! The OpenGL calls stand outside this module and follow the plan.

use vstd::prelude::*;
use crate::batch::{BatchMasking, spec_draws_mask};

verus! {

/// The framebuffer change before drawing a batch.
#[derive(Clone, Copy, Debug, PartialEq, Eq, Structural)]
pub enum FboSwitch {
    /// Stay on the framebuffer that is bound.
    Keep,
    /// Remember the bound framebuffer and bind the mask's.
    BindMask,
    /// Bind the remembered framebuffer again.
    RestoreMain,
}

/// What to do for one batch that is drawn.
#[derive(Clone, Copy, Debug, PartialEq, Eq, Structural)]
pub struct BatchRender {
    /// The framebuffer change before drawing.
    pub fbo: FboSwitch,
    /// Whether the mask is cleared before drawing (a new mask).
    pub clear: bool,
    /// Whether the mask sampler sees the mask texture (drawing through the
    /// mask) rather than the solid-colour texture.
    pub mask_texture: bool,
    /// The first of the two buffers used: vertices, then indices.
    pub buffer_index: u16,
}

/// The framebuffer change for a batch of kind `masking` when the mask's
/// framebuffer is bound (`in_mask`) or not.
pub open spec fn spec_fbo_switch(in_mask: bool, masking: BatchMasking) -> FboSwitch {
    if !in_mask && spec_draws_mask(masking) {
        FboSwitch::BindMask
    } else if in_mask && !spec_draws_mask(masking) {
        FboSwitch::RestoreMain
    } else {
        FboSwitch::Keep
    }
}

/// Whether the mask's framebuffer is bound after the first `k` batches,
/// where `drawn[i]` says whether batch `i` is drawn at all (its texture is
/// ready).
pub open spec fn spec_in_mask(maskings: Seq<BatchMasking>, drawn: Seq<bool>, k: int) -> bool
    decreases k,
{
    if k <= 0 {
        false
    } else if !drawn[k - 1] {
        spec_in_mask(maskings, drawn, k - 1)
    } else {
        spec_draws_mask(maskings[k - 1])
    }
}

/// The number of batches drawn among the first `k`.
pub open spec fn spec_drawn_count(drawn: Seq<bool>, k: int) -> int
    decreases k,
{
    if k <= 0 {
        0
    } else {
        spec_drawn_count(drawn, k - 1) + if drawn[k - 1] {
            1int
        } else {
            0int
        }
    }
}

/// The plan for batch `k`.
pub open spec fn spec_batch_render(maskings: Seq<BatchMasking>, drawn: Seq<bool>, k: int) -> Option<
    BatchRender,
> {
    if !drawn[k] {
        None
    } else {
        Some(
            BatchRender {
                fbo: spec_fbo_switch(spec_in_mask(maskings, drawn, k), maskings[k]),
                clear: maskings[k] == BatchMasking::NewMask,
                mask_texture: maskings[k] == BatchMasking::Masked,
                buffer_index: ((2 * spec_drawn_count(drawn, k)) % 65536) as u16,
            },
        )
    }
}

/// The plan for one batch of kind `masking`, given whether the mask's
/// framebuffer is bound.
pub fn batch_render(in_mask: bool, masking: BatchMasking, buffer_index: u16) -> (r: BatchRender)
    ensures
        r == (BatchRender {
            fbo: spec_fbo_switch(in_mask, masking),
            clear: masking == BatchMasking::NewMask,
            mask_texture: masking == BatchMasking::Masked,
            buffer_index,
        }),
{
    let draws_mask = match masking {
        BatchMasking::NewMask | BatchMasking::AddToMask => true,
        BatchMasking::Unmasked | BatchMasking::Masked => false,
    };
    let fbo = if !in_mask && draws_mask {
        FboSwitch::BindMask
    } else if in_mask && !draws_mask {
        FboSwitch::RestoreMain
    } else {
        FboSwitch::Keep
    };
    BatchRender {
        fbo,
        clear: masking == BatchMasking::NewMask,
        mask_texture: masking == BatchMasking::Masked,
        buffer_index,
    }
}

proof fn lemma_drawn_count_bounds(drawn: Seq<bool>, k: int)
    requires
        0 <= k,
    ensures
        0 <= spec_drawn_count(drawn, k) <= k,
    decreases k,
{
    if k > 0 {
        lemma_drawn_count_bounds(drawn, k - 1);
    }
}

/// Plan the rendering of the batches, in order; a batch whose texture is
/// not ready (`drawn[i]` false) is skipped and changes nothing.
pub fn plan_render(maskings: &[BatchMasking], drawn: &[bool]) -> (r: Vec<Option<BatchRender>>)
    requires
        drawn@.len() == maskings@.len(),
    ensures
        r@.len() == maskings@.len(),
        forall|k: int| 0 <= k < r@.len() ==> #[trigger] r@[k] == spec_batch_render(maskings@, drawn@, k),
{
    let n = maskings.len();
    let mut out: Vec<Option<BatchRender>> = Vec::new();
    let mut in_mask = false;
    let mut buffer_index: u16 = 0;
    let mut i: usize = 0;
    while i < n
        invariant
            n == maskings@.len(),
            n == drawn@.len(),
            i <= n,
            out@.len() == i,
            in_mask == spec_in_mask(maskings@, drawn@, i as int),
            buffer_index == (2 * spec_drawn_count(drawn@, i as int)) % 65536,
            forall|k: int| 0 <= k < i ==> #[trigger] out@[k] == spec_batch_render(maskings@, drawn@, k),
        decreases n - i,
    {
        proof {
            lemma_drawn_count_bounds(drawn@, i as int);
        }
        if drawn[i] {
            let step = batch_render(in_mask, maskings[i], buffer_index);
            out.push(Some(step));
            in_mask = match maskings[i] {
                BatchMasking::NewMask | BatchMasking::AddToMask => true,
                BatchMasking::Unmasked | BatchMasking::Masked => false,
            };
            let ghost c = spec_drawn_count(drawn@, i as int);
            assert(((2 * c) % 65536 + 2) % 65536 == (2 * (c + 1)) % 65536);
            buffer_index = buffer_index.wrapping_add(2);
        } else {
            out.push(None);
        }
        i = i + 1;
    }
    out
}

/// Plan a frame: nothing is drawn when the solid-colour texture, which
/// the mask sampler falls back on, is not ready; otherwise every batch is
/// planned as `plan_render` does.
pub fn plan_frame(maskings: &[BatchMasking], drawn: &[bool], solid_ready: bool) -> (r: Vec<
    Option<BatchRender>,
>)
    requires
        drawn@.len() == maskings@.len(),
    ensures
        !solid_ready ==> r@.len() == 0,
        solid_ready ==> r@.len() == maskings@.len() && forall|k: int|
            0 <= k < r@.len() ==> #[trigger] r@[k] == spec_batch_render(maskings@, drawn@, k),
{
    if !solid_ready {
        return Vec::new();
    }
    plan_render(maskings, drawn)
}

/// How many new buffers the pass needs: two per batch, at most `u16::MAX`
/// in all, beyond the `existing` ones (an existing count that does not fit
/// 16 bits counts as enough).
pub open spec fn spec_new_buffers(batch_count: int, existing: int) -> int {
    let want = if 2 * batch_count <= 65535 {
        2 * batch_count
    } else {
        65535
    };
    let have = if existing <= 65535 {
        existing
    } else {
        want
    };
    if want > have {
        want - have
    } else {
        0
    }
}

/// The number of GPU buffers to generate before rendering.
pub fn buffers_to_generate(batch_count: usize, existing: usize) -> (r: u16)
    requires
        2 * batch_count <= usize::MAX,
    ensures
        r == spec_new_buffers(batch_count as int, existing as int),
{
    let twice = 2 * batch_count;
    let want: u16 = if twice <= 65535 {
        twice as u16
    } else {
        65535
    };
    let have: u16 = if existing <= 65535 {
        existing as u16
    } else {
        want
    };
    if want > have {
        want - have
    } else {
        0
    }
}

/// The mask's framebuffer is bound after the first `k` batches exactly
/// when the last of them that is drawn draws into the mask.  So a pass
/// whose last batch is drawn and does not draw into the mask (as when the
/// empty mask at its end is removed) ends on the main framebuffer.
pub proof fn lemma_in_mask_follows_last_drawn(maskings: Seq<BatchMasking>, drawn: Seq<bool>, k: int)
    requires
        drawn.len() == maskings.len(),
        0 <= k <= maskings.len(),
    ensures
        spec_in_mask(maskings, drawn, k) <==> exists|j: int|
            0 <= j < k && drawn[j] && spec_draws_mask(#[trigger] maskings[j]) && forall|l: int|
                j < l < k ==> !#[trigger] drawn[l],
        k > 0 && drawn[k - 1] && !spec_draws_mask(maskings[k - 1]) ==> !spec_in_mask(maskings, drawn, k),
    decreases k,
{
    if k > 0 {
        lemma_in_mask_follows_last_drawn(maskings, drawn, k - 1);
        if drawn[k - 1] {
            if spec_draws_mask(maskings[k - 1]) {
                assert(forall|l: int| k - 1 < l < k ==> !#[trigger] drawn[l]);
            } else {
                assert forall|j: int| 0 <= j < k && drawn[j] && spec_draws_mask(#[trigger] maskings[j]) implies !(forall|l: int| j < l < k ==> !#[trigger] drawn[l]) by {
                    assert(j != k - 1);
                    assert(j < k - 1 && drawn[k - 1]);
                }
            }
        } else {
            if spec_in_mask(maskings, drawn, k - 1) {
                let j = choose|j: int| 0 <= j < k - 1 && drawn[j] && spec_draws_mask(#[trigger] maskings[j]) && forall|l: int| j < l < k - 1 ==> !#[trigger] drawn[l];
                assert(forall|l: int| j < l < k ==> !#[trigger] drawn[l]);
            }
            if exists|j: int| 0 <= j < k && drawn[j] && spec_draws_mask(#[trigger] maskings[j]) && forall|l: int| j < l < k ==> !#[trigger] drawn[l] {
                let j = choose|j: int| 0 <= j < k && drawn[j] && spec_draws_mask(#[trigger] maskings[j]) && forall|l: int| j < l < k ==> !#[trigger] drawn[l];
                assert(j != k - 1);
                assert(forall|l: int| j < l < k - 1 ==> !#[trigger] drawn[l]);
            }
        }
    }
}

/// The plan for every batch.
pub open spec fn spec_plan(maskings: Seq<BatchMasking>, drawn: Seq<bool>) -> Seq<Option<BatchRender>> {
    Seq::new(maskings.len(), |k: int| spec_batch_render(maskings, drawn, k))
}

/// Whether the mask's framebuffer is bound after following the first `k`
/// steps of a plan from the main framebuffer: binding the mask's makes it
/// bound, restoring the main one unbinds it, anything else keeps it.
pub open spec fn spec_replay(steps: Seq<Option<BatchRender>>, k: int) -> bool
    decreases k,
{
    if k <= 0 {
        false
    } else {
        match steps[k - 1] {
            Some(step) => match step.fbo {
                FboSwitch::BindMask => true,
                FboSwitch::RestoreMain => false,
                FboSwitch::Keep => spec_replay(steps, k - 1),
            },
            None => spec_replay(steps, k - 1),
        }
    }
}

/// Following the plan's framebuffer switches from the main framebuffer,
/// each drawn batch is drawn into the mask's framebuffer exactly when it
/// draws into the mask (a new mask or an addition to it), and into the main
/// one otherwise (unmasked or masked drawing); no switch is redundant: the
/// mask's framebuffer is bound only from the main one and the main one
/// restored only from the mask's.
pub proof fn lemma_replay_draws_each_batch_right(maskings: Seq<BatchMasking>, drawn: Seq<bool>, k: int)
    requires
        drawn.len() == maskings.len(),
        0 <= k < maskings.len(),
    ensures
        drawn[k] ==> (spec_replay(spec_plan(maskings, drawn), k + 1) <==> (maskings[k]
            == BatchMasking::NewMask || maskings[k] == BatchMasking::AddToMask)),
        spec_plan(maskings, drawn)[k] matches Some(step) ==> (step.fbo == FboSwitch::BindMask
            ==> !spec_replay(spec_plan(maskings, drawn), k)) && (step.fbo == FboSwitch::RestoreMain
            ==> spec_replay(spec_plan(maskings, drawn), k)),
        !drawn[k] ==> spec_plan(maskings, drawn)[k] is None,
{
    lemma_replay_is_in_mask(maskings, drawn, k);
    lemma_replay_is_in_mask(maskings, drawn, k + 1);
}

proof fn lemma_drawn_count_skip(drawn: Seq<bool>, j: int, k: int)
    requires
        0 <= j <= k <= drawn.len(),
        forall|l: int| j <= l < k ==> !#[trigger] drawn[l],
    ensures
        spec_drawn_count(drawn, k) == spec_drawn_count(drawn, j),
    decreases k - j,
{
    if k > j {
        lemma_drawn_count_skip(drawn, j, k - 1);
    }
}

/// What each drawn batch does besides switching framebuffers: the mask is
/// cleared exactly before a new mask, the mask sampler sees the mask
/// texture exactly for masked drawing, and the batches take buffer pairs in
/// turn: the first drawn batch buffers 0 and 1, each next drawn batch the
/// two after those of the previous one (counting modulo 65536).
pub proof fn lemma_plan_steps(maskings: Seq<BatchMasking>, drawn: Seq<bool>, j: int, k: int)
    requires
        drawn.len() == maskings.len(),
        0 <= j,
        0 <= k < maskings.len(),
    ensures
        drawn[k] ==> (spec_plan(maskings, drawn)[k] matches Some(step) && (step.clear <==> maskings[k]
            == BatchMasking::NewMask) && (step.mask_texture <==> maskings[k] == BatchMasking::Masked)),
        drawn[k] && (forall|l: int| 0 <= l < k ==> !#[trigger] drawn[l]) ==> (spec_plan(
            maskings,
            drawn,
        )[k] matches Some(step) && step.buffer_index == 0),
        j < k && drawn[j] && drawn[k] && (forall|l: int| j < l < k ==> !#[trigger] drawn[l]) ==> (spec_plan(
            maskings,
            drawn,
        )[j] matches Some(a) && spec_plan(maskings, drawn)[k] matches Some(b) && b.buffer_index == (
        a.buffer_index + 2) % 65536),
{
    if drawn[k] && (forall|l: int| 0 <= l < k ==> !#[trigger] drawn[l]) {
        lemma_drawn_count_skip(drawn, 0, k);
    }
    if j < k && drawn[j] && drawn[k] && (forall|l: int| j < l < k ==> !#[trigger] drawn[l]) {
        lemma_drawn_count_skip(drawn, j + 1, k);
        lemma_drawn_count_bounds(drawn, j);
        let c = spec_drawn_count(drawn, j);
        assert(((2 * c) % 65536 + 2) % 65536 == (2 * (c + 1)) % 65536);
    }
}

proof fn lemma_replay_is_in_mask(maskings: Seq<BatchMasking>, drawn: Seq<bool>, k: int)
    requires
        drawn.len() == maskings.len(),
        0 <= k <= maskings.len(),
    ensures
        spec_replay(spec_plan(maskings, drawn), k) == spec_in_mask(maskings, drawn, k),
    decreases k,
{
    if k > 0 {
        lemma_replay_is_in_mask(maskings, drawn, k - 1);
        let steps = spec_plan(maskings, drawn);
        assert(steps[k - 1] == spec_batch_render(maskings, drawn, k - 1));
    }
}

/// Each switch of framebuffer in the plan is consistent with the state it
/// starts from: the mask's framebuffer is bound only when the main one is
/// bound, and the main one restored only from the mask's.
pub proof fn lemma_switches_consistent(maskings: Seq<BatchMasking>, drawn: Seq<bool>, k: int)
    requires
        drawn.len() == maskings.len(),
        0 <= k < maskings.len(),
        drawn[k],
    ensures
        spec_batch_render(maskings, drawn, k) matches Some(step) && (step.fbo == FboSwitch::BindMask
            ==> !spec_in_mask(maskings, drawn, k)) && (step.fbo == FboSwitch::RestoreMain
            ==> spec_in_mask(maskings, drawn, k)),
        spec_in_mask(maskings, drawn, k + 1) == spec_draws_mask(maskings[k]),
{
}

} // verus!
