use vstd::prelude::*;
use crate::region::{any_holds, HitRect, RegionStore, ScaleFactor};
use crate::shape::{rebuild_input_shape, shape_of, InputShape};

verus! {

/// The mechanism that makes the window selectively transparent to input. Each
/// process uses exactly one, chosen once at startup.
#[derive(Clone, Copy, Debug, PartialEq, Eq, Structural)]
pub enum Realizer {
    /// A background tracker samples the cursor and toggles a window style bit.
    StyleBased,
    /// The windowing system takes an input-shape region, resubmitted on every update.
    RegionBased,
    /// The windowing system asks, point by point, whether a point is interactive.
    CallbackBased,
}

/// An operation on the native window that the controller asks for.
#[derive(Debug)]
pub enum WindowCommand {
    /// Set (`true`) or clear (`false`) the ignore-input style bit.
    SetPassThrough(bool),
    /// Re-assert the layering/compositing attributes and full opacity.
    RestoreVisibility,
    /// Invalidate and redraw the window.
    Redraw,
    /// Start the cursor tracker of the style-based realizer.
    StartCursorTracker,
    /// Submit this input shape at offset (0, 0).
    SubmitInputShape(InputShape),
}

/// The single entry point of the click-through controller: the region store
/// and the realizer that turns it into window behaviour.
pub struct ClickThrough {
    realizer: Realizer,
    store: RegionStore,
}

impl ClickThrough {
    pub closed spec fn realizer_spec(&self) -> Realizer {
        self.realizer
    }

    pub closed spec fn rects(&self) -> Seq<HitRect> {
        self.store.rects()
    }

    pub closed spec fn scale(&self) -> ScaleFactor {
        self.store.scale()
    }

    pub closed spec fn wf(&self) -> bool {
        self.store.wf()
    }

    /// A controller with an empty region: the whole window passes input through.
    pub fn new(realizer: Realizer) -> (r: ClickThrough)
        ensures
            r.wf(),
            r.realizer_spec() == realizer,
            r.rects() == Seq::<HitRect>::empty(),
            r.scale() == (ScaleFactor { num: 1, den: 1 }),
    {
        ClickThrough { realizer, store: RegionStore::new() }
    }

    pub fn realizer(&self) -> (r: Realizer)
        ensures
            r == self.realizer_spec(),
    {
        self.realizer
    }

    /// The region store, for readers such as the cursor tracker.
    pub fn store(&self) -> (r: &RegionStore)
        ensures
            r.rects() == self.rects(),
            r.scale() == self.scale(),
            self.wf() ==> r.wf(),
    {
        &self.store
    }

    /// The synchronous hit test of the callback-based realizer: whether a
    /// point in logical pixels lies in an interactive rectangle.
    pub fn hit_test(&self, x: i64, y: i64) -> (r: bool)
        ensures
            r == any_holds(self.rects(), x as int, y as int),
    {
        crate::region::point_in_hit_region_css(&self.store, x, y)
    }
}

/// One-time setup of the chosen realizer. The style-based one makes sure the
/// window is layered and visible, starts out passing input through and starts
/// its tracker; the region-based one submits the current shape; the
/// callback-based one needs nothing.
pub fn setup(ct: &ClickThrough) -> (cmds: Vec<WindowCommand>)
    requires
        ct.wf(),
    ensures
        ct.realizer_spec() == Realizer::StyleBased ==> {
            &&& cmds@.len() == 3
            &&& cmds@[0] is RestoreVisibility
            &&& cmds@[1] == WindowCommand::SetPassThrough(true)
            &&& cmds@[2] is StartCursorTracker
        },
        ct.realizer_spec() == Realizer::RegionBased ==> {
            &&& cmds@.len() == 1
            &&& cmds@[0] matches WindowCommand::SubmitInputShape(shape)
            &&& shape.rects@ == shape_of(ct.rects(), ct.scale())
        },
        ct.realizer_spec() == Realizer::CallbackBased ==> cmds@.len() == 0,
{
    let mut cmds: Vec<WindowCommand> = Vec::new();
    match ct.realizer {
        Realizer::StyleBased => {
            cmds.push(WindowCommand::RestoreVisibility);
            cmds.push(WindowCommand::SetPassThrough(true));
            cmds.push(WindowCommand::StartCursorTracker);
        },
        Realizer::RegionBased => {
            cmds.push(WindowCommand::SubmitInputShape(rebuild_input_shape(&ct.store)));
        },
        Realizer::CallbackBased => {},
    }
    cmds
}

/// Replaces the interactive region. The region-based realizer gets its new
/// shape at once, also when the region is now empty; the others read the
/// store when they next need it.
pub fn update_region(ct: &mut ClickThrough, rects: Vec<HitRect>, scale: ScaleFactor) -> (cmds: Vec<
    WindowCommand,
>)
    requires
        scale.wf(),
    ensures
        final(ct).wf(),
        final(ct).realizer_spec() == old(ct).realizer_spec(),
        final(ct).rects() == rects@,
        final(ct).scale() == scale,
        old(ct).realizer_spec() == Realizer::RegionBased ==> {
            &&& cmds@.len() == 1
            &&& cmds@[0] matches WindowCommand::SubmitInputShape(shape)
            &&& shape.rects@ == shape_of(rects@, scale)
        },
        old(ct).realizer_spec() != Realizer::RegionBased ==> cmds@.len() == 0,
{
    ct.store.update(rects, scale);
    let mut cmds: Vec<WindowCommand> = Vec::new();
    if let Realizer::RegionBased = ct.realizer {
        cmds.push(WindowCommand::SubmitInputShape(rebuild_input_shape(&ct.store)));
    }
    cmds
}

/// Visibility recovery, safe to call at any time. Only the style-based
/// realizer has compositing attributes to re-assert.
pub fn ensure_visible(ct: &ClickThrough) -> (cmds: Vec<WindowCommand>)
    ensures
        ct.realizer_spec() == Realizer::StyleBased ==> {
            &&& cmds@.len() == 2
            &&& cmds@[0] is RestoreVisibility
            &&& cmds@[1] is Redraw
        },
        ct.realizer_spec() != Realizer::StyleBased ==> cmds@.len() == 0,
{
    let mut cmds: Vec<WindowCommand> = Vec::new();
    if let Realizer::StyleBased = ct.realizer {
        cmds.push(WindowCommand::RestoreVisibility);
        cmds.push(WindowCommand::Redraw);
    }
    cmds
}

} // verus!
