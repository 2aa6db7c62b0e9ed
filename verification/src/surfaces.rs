//! The display targets: one per connected display, found by the identity
//! of its window.

use vstd::prelude::*;
use crate::frames::TextureFormat;
use crate::playback::{Pipeline, Position};

verus! {

/// Vertices of the full-screen quad: two triangles.
pub const QUAD_VERTICES: u32 = 6;

/// Instances drawn of the quad.
pub const QUAD_INSTANCES: u32 = 1;

/// The colour a target is cleared to before the quad is drawn: opaque
/// black, as red, green, blue and alpha.
pub const CLEAR_COLOR: [u8; 4] = [0, 0, 0, 255];

/// When a finished image is shown.
#[derive(Clone, Copy, Debug, PartialEq, Eq)]
pub enum PresentMode {
    /// As soon as it is finished.
    NoVsync,
    /// At the display's next refresh.
    Vsync,
}

/// A presentable swap target: its pixel format, its size in physical
/// pixels and when its images are shown.
#[derive(Clone, Copy, Debug, PartialEq, Eq)]
pub struct SwapChainDescriptor {
    pub format: TextureFormat,
    pub width: u32,
    pub height: u32,
    pub present_mode: PresentMode,
}

/// The swap target of a display of the given physical size: blue, green,
/// red and alpha, eight bits each, gamma-encoded, shown at the display's
/// refresh.
pub open spec fn swap_chain_for(width: u32, height: u32) -> SwapChainDescriptor {
    SwapChainDescriptor {
        format: TextureFormat::Bgra8UnormSrgb,
        width,
        height,
        present_mode: PresentMode::Vsync,
    }
}

/// One display's render target.
#[derive(Clone, Copy, Debug, PartialEq, Eq)]
pub struct PipelineWindow {
    /// Identity of the window that covers the display.
    pub window_id: u64,
    /// The swap target the window presents from.
    pub swap_chain: SwapChainDescriptor,
}

/// One draw of the quad onto one display.
#[derive(Clone, Copy, Debug, PartialEq, Eq)]
pub struct DrawCall {
    /// The window drawn to.
    pub window_id: u64,
    /// The swap target whose next image is drawn to.
    pub target: SwapChainDescriptor,
    /// Number of vertices drawn.
    pub vertices: u32,
    /// Number of instances drawn.
    pub instances: u32,
    /// The colour the target is cleared to first.
    pub clear_color: [u8; 4],
    /// The position that the uniform block read by this draw stands for.
    pub position: Position,
}

/// All display targets that are alive.
#[derive(Clone, Debug, PartialEq, Eq)]
pub struct PipelineWindows {
    pub windows: Vec<PipelineWindow>,
}

/// The descriptor of a swap target of the given physical size.
pub fn create_swap_chain(width: u32, height: u32) -> (descriptor: SwapChainDescriptor)
    ensures
        descriptor == swap_chain_for(width, height),
{
    SwapChainDescriptor {
        format: TextureFormat::Bgra8UnormSrgb,
        width,
        height,
        present_mode: PresentMode::Vsync,
    }
}

/// Whether some target in `targets` belongs to `window_id`.
pub open spec fn has_window(targets: Seq<PipelineWindow>, window_id: u64) -> bool {
    exists|i: int| 0 <= i < targets.len() && #[trigger] targets[i].window_id == window_id
}

/// An index at which `window_id` stands in `targets`, if it stands there.
pub open spec fn index_of_window(targets: Seq<PipelineWindow>, window_id: u64) -> int {
    choose|i: int| 0 <= i < targets.len() && #[trigger] targets[i].window_id == window_id
}

/// No two targets belong to the same window.
pub open spec fn distinct_windows(targets: Seq<PipelineWindow>) -> bool {
    forall|i: int, j: int|
        0 <= i < j < targets.len() ==> #[trigger] targets[i].window_id
            != #[trigger] targets[j].window_id
}

/// `targets` without the target of `window_id`: the last target takes
/// its place. Unchanged when the window has no target.
pub open spec fn without_window(targets: Seq<PipelineWindow>, window_id: u64) -> Seq<
    PipelineWindow,
> {
    if has_window(targets, window_id) {
        targets.update(index_of_window(targets, window_id), targets.last()).drop_last()
    } else {
        targets
    }
}

/// `targets` with the swap target of `window_id` replaced by one of the
/// given size. Unchanged when the window has no target.
pub open spec fn with_resized(
    targets: Seq<PipelineWindow>,
    window_id: u64,
    width: u32,
    height: u32,
) -> Seq<PipelineWindow> {
    if has_window(targets, window_id) {
        targets.update(
            index_of_window(targets, window_id),
            PipelineWindow { window_id, swap_chain: swap_chain_for(width, height) },
        )
    } else {
        targets
    }
}

/// The draw of the quad onto `window` under the clock `pipeline`.
pub open spec fn draw_of(window: PipelineWindow, pipeline: Pipeline) -> DrawCall {
    DrawCall {
        window_id: window.window_id,
        target: window.swap_chain,
        vertices: QUAD_VERTICES,
        instances: QUAD_INSTANCES,
        clear_color: CLEAR_COLOR,
        position: pipeline.staged,
    }
}

/// Among distinct windows, the index of a window is the only place where
/// it stands.
pub proof fn lemma_index_of_window(targets: Seq<PipelineWindow>, at: int)
    requires
        distinct_windows(targets),
        0 <= at < targets.len(),
    ensures
        has_window(targets, targets[at].window_id),
        index_of_window(targets, targets[at].window_id) == at,
{
    let window_id = targets[at].window_id;
    let found = index_of_window(targets, window_id);
    assert(0 <= found < targets.len() && targets[found].window_id == window_id);
    if found < at {
        assert(targets[found].window_id != targets[at].window_id);
    } else if at < found {
        assert(targets[at].window_id != targets[found].window_id);
    }
}

/// Closing a window that has a target leaves one target fewer, none of
/// them the closed window's, and every other window keeps the target it
/// had. Closing the only window leaves none.
pub proof fn lemma_close_removes_one(targets: Seq<PipelineWindow>, window_id: u64)
    requires
        distinct_windows(targets),
        has_window(targets, window_id),
    ensures
        without_window(targets, window_id).len() == targets.len() - 1,
        distinct_windows(without_window(targets, window_id)),
        !has_window(without_window(targets, window_id), window_id),
        forall|i: int|
            0 <= i < targets.len() && (#[trigger] targets[i]).window_id != window_id ==> {
                &&& has_window(without_window(targets, window_id), targets[i].window_id)
                &&& without_window(targets, window_id)[index_of_window(
                    without_window(targets, window_id),
                    targets[i].window_id,
                )] == targets[i]
            },
        targets.len() == 1 ==> without_window(targets, window_id).len() == 0,
{
    let at = index_of_window(targets, window_id);
    let rest = without_window(targets, window_id);
    let last = targets.len() - 1;
    assert(0 <= at < targets.len() && targets[at].window_id == window_id);
    assert forall|a: int, b: int| 0 <= a < b < rest.len() implies rest[a].window_id
        != rest[b].window_id by {
        if a == at {
            assert(targets[b].window_id != targets[last].window_id);
        } else if b == at {
            assert(targets[a].window_id != targets[last].window_id);
        } else {
            assert(targets[a].window_id != targets[b].window_id);
        }
    }
    if has_window(rest, window_id) {
        let k = index_of_window(rest, window_id);
        assert(rest[k].window_id == window_id);
        if k == at {
            assert(targets[at].window_id != targets[last].window_id);
        } else if k < at {
            assert(targets[k].window_id != targets[at].window_id);
        } else {
            assert(targets[at].window_id != targets[k].window_id);
        }
    }
    assert forall|i: int|
        0 <= i < targets.len() && (#[trigger] targets[i]).window_id != window_id implies {
        &&& has_window(rest, targets[i].window_id)
        &&& rest[index_of_window(rest, targets[i].window_id)] == targets[i]
    } by {
        let moved = if i == last {
            at
        } else {
            i
        };
        assert(rest[moved] == targets[i]);
        lemma_index_of_window(rest, moved);
    }
}

/// Closing a window that has no target changes nothing.
pub proof fn lemma_close_unknown_window(targets: Seq<PipelineWindow>, window_id: u64)
    requires
        !has_window(targets, window_id),
    ensures
        without_window(targets, window_id) == targets,
{
}

/// Resizing one window's target changes the size of that target alone:
/// every target stays where it was and keeps its window, and every target
/// of another window is as before.
pub proof fn lemma_resize_isolated(
    targets: Seq<PipelineWindow>,
    window_id: u64,
    width: u32,
    height: u32,
)
    requires
        distinct_windows(targets),
    ensures
        with_resized(targets, window_id, width, height).len() == targets.len(),
        distinct_windows(with_resized(targets, window_id, width, height)),
        forall|i: int|
            0 <= i < targets.len() ==> (#[trigger] with_resized(
                targets,
                window_id,
                width,
                height,
            )[i]).window_id == targets[i].window_id,
        forall|i: int|
            0 <= i < targets.len() && targets[i].window_id != window_id ==> (#[trigger] with_resized(
                targets,
                window_id,
                width,
                height,
            )[i]) == targets[i],
        forall|i: int|
            0 <= i < targets.len() && targets[i].window_id == window_id ==> (#[trigger] with_resized(
                targets,
                window_id,
                width,
                height,
            )[i]).swap_chain == swap_chain_for(width, height),
{
    let resized = with_resized(targets, window_id, width, height);
    if has_window(targets, window_id) {
        let at = index_of_window(targets, window_id);
        assert(0 <= at < targets.len() && targets[at].window_id == window_id);
        assert forall|i: int| 0 <= i < targets.len() implies (#[trigger] resized[i]).window_id
            == targets[i].window_id by {}
        assert forall|a: int, b: int| 0 <= a < b < resized.len() implies resized[a].window_id
            != resized[b].window_id by {
            assert(targets[a].window_id != targets[b].window_id);
        }
        assert forall|i: int|
            0 <= i < targets.len() && targets[i].window_id == window_id implies (
        #[trigger] resized[i]).swap_chain == swap_chain_for(width, height) by {
            lemma_index_of_window(targets, i);
        }
    }
}

/// A draw issued after the uniform block was staged for a tick reads the
/// position of that very tick: once the clock has advanced and is synced,
/// every draw carries the advanced position, not the one before, and the
/// uniform block holds that position as the fragment stage reads it.
pub proof fn lemma_draw_reads_current_tick(
    window: PipelineWindow,
    before: Pipeline,
    now: u128,
    synced: Pipeline,
)
    requires
        synced.wf(),
        synced.position == before.advanced(now).position,
        synced.spec_is_synced(),
    ensures
        draw_of(window, synced).position == before.next_position(now),
        before.next_position(now).is_encoded_by(synced.staged_bits),
        synced.uniform@ == crate::uniform::uniform_block(synced.total_frame, synced.staged_bits),
{
}

/// Every display is drawn with the same shared state: two draws of one
/// tick differ in their window and swap target alone.
pub proof fn lemma_draws_share_state(first: PipelineWindow, second: PipelineWindow, pipeline: Pipeline)
    ensures
        draw_of(first, pipeline).position == draw_of(second, pipeline).position,
        draw_of(first, pipeline).vertices == draw_of(second, pipeline).vertices,
        draw_of(first, pipeline).instances == draw_of(second, pipeline).instances,
        draw_of(first, pipeline).clear_color == draw_of(second, pipeline).clear_color,
{
}

impl PipelineWindow {
    /// The target of a window whose display has the given physical size.
    pub fn new(window_id: u64, width: u32, height: u32) -> (window: PipelineWindow)
        ensures
            window == (PipelineWindow {
                window_id,
                swap_chain: swap_chain_for(width, height),
            }),
    {
        PipelineWindow { window_id, swap_chain: create_swap_chain(width, height) }
    }

    /// Replaces the swap target by one of the given physical size.
    pub fn resize(&mut self, width: u32, height: u32)
        ensures
            *final(self) == (PipelineWindow {
                window_id: old(self).window_id,
                swap_chain: swap_chain_for(width, height),
            }),
    {
        self.swap_chain = create_swap_chain(width, height);
    }

    /// The draw of the quad onto this target. Nothing of the target but
    /// its identity and size enters it.
    pub fn render(&self, pipeline: &Pipeline) -> (draw: DrawCall)
        ensures
            draw == draw_of(*self, *pipeline),
    {
        DrawCall {
            window_id: self.window_id,
            target: self.swap_chain,
            vertices: QUAD_VERTICES,
            instances: QUAD_INSTANCES,
            clear_color: CLEAR_COLOR,
            position: pipeline.staged,
        }
    }
}

impl PipelineWindows {
    /// The invariant: every window has at most one target.
    pub open spec fn wf(&self) -> bool {
        distinct_windows(self.windows@)
    }

    /// Where the target of `window_id` stands, if the window has one.
    pub fn find(&self, window_id: u64) -> (found: Option<usize>)
        ensures
            found is Some <==> has_window(self.windows@, window_id),
            found matches Some(i) ==> {
                &&& i < self.windows@.len()
                &&& self.windows@[i as int].window_id == window_id
                &&& forall|j: int| 0 <= j < i ==> self.windows@[j].window_id != window_id
            },
            self.wf() ==> (found matches Some(i) ==> i == index_of_window(
                self.windows@,
                window_id,
            )),
    {
        let mut i: usize = 0;
        while i < self.windows.len()
            invariant
                i <= self.windows@.len(),
                forall|j: int| 0 <= j < i ==> self.windows@[j].window_id != window_id,
            decreases self.windows@.len() - i,
        {
            if self.windows[i].window_id == window_id {
                proof {
                    if self.wf() {
                        lemma_index_of_window(self.windows@, i as int);
                    }
                }
                return Some(i);
            }
            i += 1;
        }
        None
    }

    /// The target of `window_id`, to be changed in place.
    pub fn find_mut(&mut self, window_id: u64) -> (found: Option<&mut PipelineWindow>)
        requires
            old(self).wf(),
        ensures
            found is Some <==> has_window(old(self).windows@, window_id),
            found matches Some(window) ==> {
                &&& *window == old(self).windows@[index_of_window(old(self).windows@, window_id)]
                &&& final(self).windows@ == old(self).windows@.update(
                    index_of_window(old(self).windows@, window_id),
                    *final(window),
                )
            },
            found is None ==> final(self).windows@ == old(self).windows@,
    {
        match self.find(window_id) {
            Some(i) => Some(&mut self.windows[i]),
            None => None,
        }
    }

    /// The targets for the given windows, one per display, in the order
    /// given; `None` when two of them share a window.
    pub fn new(displays: Vec<PipelineWindow>) -> (made: Option<PipelineWindows>)
        ensures
            made is Some <==> distinct_windows(displays@),
            made matches Some(targets) ==> targets.wf() && targets.windows@ == displays@,
    {
        let mut j: usize = 0;
        while j < displays.len()
            invariant
                j <= displays@.len(),
                distinct_windows(displays@.take(j as int)),
            decreases displays@.len() - j,
        {
            let mut i: usize = 0;
            while i < j
                invariant
                    i <= j < displays@.len(),
                    forall|k: int| 0 <= k < i ==> displays@[k].window_id != displays@[j as int].window_id,
                decreases j - i,
            {
                if displays[i].window_id == displays[j].window_id {
                    return None;
                }
                i += 1;
            }
            assert(distinct_windows(displays@.take(j + 1))) by {
                let longer = displays@.take(j + 1);
                let shorter = displays@.take(j as int);
                assert forall|a: int, b: int| 0 <= a < b < longer.len() implies longer[a].window_id
                    != longer[b].window_id by {
                    if b < j {
                        assert(shorter[a].window_id != shorter[b].window_id);
                    }
                }
            }
            j += 1;
        }
        assert(displays@.take(j as int) =~= displays@);
        Some(PipelineWindows { windows: displays })
    }

    /// Adds the target of a display that has appeared. Returns whether it
    /// was added: a window that has a target already keeps it.
    pub fn insert(&mut self, window: PipelineWindow) -> (added: bool)
        requires
            old(self).wf(),
        ensures
            final(self).wf(),
            added == !has_window(old(self).windows@, window.window_id),
            added ==> final(self).windows@ == old(self).windows@.push(window),
            !added ==> final(self).windows@ == old(self).windows@,
    {
        match self.find(window.window_id) {
            Some(_) => false,
            None => {
                self.windows.push(window);
                true
            },
        }
    }

    /// Replaces the swap target of `window_id` by one of the given
    /// physical size and returns whether the window has a target. No
    /// other target changes.
    pub fn resize(&mut self, window_id: u64, width: u32, height: u32) -> (resized: bool)
        requires
            old(self).wf(),
        ensures
            final(self).wf(),
            resized == has_window(old(self).windows@, window_id),
            final(self).windows@ == with_resized(old(self).windows@, window_id, width, height),
    {
        match self.find_mut(window_id) {
            Some(window) => {
                window.resize(width, height);
                true
            },
            None => false,
        }
    }

    /// Drops the target of `window_id`; the last target takes its place.
    /// A window without a target is ignored.
    pub fn close(&mut self, window_id: u64)
        requires
            old(self).wf(),
        ensures
            final(self).wf(),
            final(self).windows@ == without_window(old(self).windows@, window_id),
    {
        match self.find(window_id) {
            Some(i) => {
                self.windows.swap_remove(i);
            },
            None => {},
        }
    }

    /// Whether no target is left.
    pub fn is_empty(&self) -> (empty: bool)
        ensures
            empty <==> self.windows@.len() == 0,
    {
        self.windows.is_empty()
    }

    /// Number of targets.
    pub fn len(&self) -> (count: usize)
        ensures
            count == self.windows@.len(),
    {
        self.windows.len()
    }

    /// The windows that are to schedule a redraw: every one that has a
    /// target, in the targets' order.
    pub fn request_redraw(&self) -> (redraws: Vec<u64>)
        ensures
            redraws@.len() == self.windows@.len(),
            forall|i: int|
                0 <= i < redraws@.len() ==> redraws@[i] == (#[trigger] self.windows@[i]).window_id,
    {
        let mut redraws: Vec<u64> = Vec::new();
        let mut i: usize = 0;
        while i < self.windows.len()
            invariant
                i <= self.windows@.len(),
                redraws@.len() == i,
                forall|k: int|
                    0 <= k < i ==> redraws@[k] == (#[trigger] self.windows@[k]).window_id,
            decreases self.windows@.len() - i,
        {
            redraws.push(self.windows[i].window_id);
            i += 1;
        }
        redraws
    }

    /// One draw per target, in the targets' order.
    pub fn render(&self, pipeline: &Pipeline) -> (draws: Vec<DrawCall>)
        ensures
            draws@.len() == self.windows@.len(),
            forall|i: int|
                0 <= i < draws@.len() ==> draws@[i] == draw_of(
                    #[trigger] self.windows@[i],
                    *pipeline,
                ),
    {
        let mut draws: Vec<DrawCall> = Vec::new();
        let mut i: usize = 0;
        while i < self.windows.len()
            invariant
                i <= self.windows@.len(),
                draws@.len() == i,
                forall|k: int|
                    0 <= k < i ==> draws@[k] == draw_of(#[trigger] self.windows@[k], *pipeline),
            decreases self.windows@.len() - i,
        {
            draws.push(self.windows[i].render(pipeline));
            i += 1;
        }
        draws
    }
}

} // verus!
