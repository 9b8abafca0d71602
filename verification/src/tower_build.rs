//! Build mode: the tower that the player has chosen to place, from the
//! choice in the panel to the click that puts it on the ground.

use vstd::prelude::*;

verus! {

/// The tower waiting to be placed, if any.
///
/// Either nothing is chosen, and then nothing waits for a click and no frame
/// is remembered; or a definition is chosen and waits for the click that
/// places it. Whether the preview counts as tinted is kept beside the
/// choice: a preview outlives the placing of its tower and may be tinted
/// while nothing is chosen.
pub struct SelectedToBuildTower<D> {
    def: Option<D>,
    armed_frame: u32,
    awaiting_click: bool,
    tinted: bool,
}

impl<D> SelectedToBuildTower<D> {
    /// What holds of every selection that the functions below hand out.
    pub closed spec fn wf(&self) -> bool {
        match self.def {
            Some(_) => self.awaiting_click,
            None => !self.awaiting_click && self.armed_frame == 0,
        }
    }

    /// The chosen definition.
    pub closed spec fn def(&self) -> Option<D> {
        self.def
    }

    /// The frame in which the choice was made; 0 while nothing is chosen.
    pub closed spec fn armed_frame(&self) -> u32 {
        self.armed_frame
    }

    /// Whether the preview already wears the preview material.
    pub closed spec fn tinted(&self) -> bool {
        self.tinted
    }

    /// Whether the selection is as at the start: nothing chosen, no frame
    /// remembered, no preview tinted.
    pub open spec fn is_idle(&self) -> bool {
        self.def() is None && self.armed_frame() == 0 && !self.tinted()
    }

    /// Whether a click in frame `frame` may place the chosen tower: one is
    /// chosen, the frame is not the one of the choice itself (the click that
    /// chose it must not also place it), and the left button just went down.
    pub open spec fn may_place(&self, frame: u32, left_just_pressed: bool) -> bool {
        self.def() is Some && frame != self.armed_frame() && left_just_pressed
    }

    /// The selection at the start.
    pub fn new() -> (s: Self)
        ensures
            s.wf(),
            s.is_idle(),
    {
        SelectedToBuildTower { def: None, armed_frame: 0, awaiting_click: false, tinted: false }
    }

    /// Whether a tower waits for the click that places it.
    pub fn awaiting_click(&self) -> (b: bool)
        requires
            self.wf(),
        ensures
            b == (self.def() is Some),
    {
        self.awaiting_click
    }

    /// The selection after `def` was chosen during frame `frame`: the choice
    /// replaces an earlier one, and whether the preview counts as tinted
    /// stays as it was.
    pub closed spec fn after_choice(self, def: D, frame: u32) -> Self {
        SelectedToBuildTower {
            def: Some(def),
            armed_frame: frame,
            awaiting_click: true,
            tinted: self.tinted,
        }
    }

    /// The player chose `def` in the panel during frame `frame`.
    pub fn on_select_tower(&mut self, def: D, frame: u32)
        requires
            old(self).wf(),
        ensures
            final(self).wf(),
            *final(self) == old(self).after_choice(def, frame),
            final(self).def() == Some(def),
            final(self).armed_frame() == frame,
            final(self).tinted() == old(self).tinted(),
    {
        self.def = Some(def);
        self.armed_frame = frame;
        self.awaiting_click = true;
    }

    /// Whether the preview of the chosen tower still has to get the preview
    /// material.
    pub fn tower_to_build_selected_need_to_be_tinted(&self) -> (b: bool)
        ensures
            b == (self.def() is Some && !self.tinted()),
    {
        self.def.is_some() && !self.tinted
    }

    /// The preview got its material: from now on it counts as tinted,
    /// whatever is chosen. The choice itself stays as it is.
    pub fn tint_scene_preview_white(&mut self)
        requires
            old(self).wf(),
        ensures
            final(self).wf(),
            final(self).tinted(),
            final(self).def() == old(self).def(),
            final(self).armed_frame() == old(self).armed_frame(),
    {
        self.tinted = true;
    }

    /// Tells whether a click in frame `frame` may place the chosen tower, so
    /// that the caller need look for the point under the cursor only then.
    pub fn ready_to_place(&self, frame: u32, left_just_pressed: bool) -> (b: bool)
        requires
            self.wf(),
        ensures
            b == self.may_place(frame, left_just_pressed),
    {
        if !self.awaiting_click {
            return false;
        }
        if self.def.is_none() {
            return false;
        }
        if frame == self.armed_frame {
            return false;
        }
        left_just_pressed
    }

    /// Places the chosen tower if the click allows it and the cursor points
    /// at the ground (`on_ground`). Then the definition is handed out, nothing
    /// is chosen any more and the tint is forgotten; otherwise nothing changes.
    pub fn place_selected_tower_on_click(
        &mut self,
        frame: u32,
        left_just_pressed: bool,
        on_ground: bool,
    ) -> (placed: Option<D>)
        requires
            old(self).wf(),
        ensures
            final(self).wf(),
            old(self).may_place(frame, left_just_pressed) && on_ground ==> placed == old(self).def()
                && final(self).is_idle(),
            !(old(self).may_place(frame, left_just_pressed) && on_ground) ==> placed is None
                && *final(self) == *old(self),
    {
        if !self.ready_to_place(frame, left_just_pressed) {
            return None;
        }
        if !on_ground {
            return None;
        }
        let placed = self.def.take();
        self.awaiting_click = false;
        self.tinted = false;
        self.armed_frame = 0;
        placed
    }
}

/// Of several choices the last one stands: it is the chosen tower, its
/// frame is the remembered one, and the tint is that of before the first.
pub proof fn last_choice_wins<D>(
    s: SelectedToBuildTower<D>,
    first: D,
    first_frame: u32,
    last: D,
    last_frame: u32,
)
    ensures
        s.after_choice(first, first_frame).after_choice(last, last_frame) == s.after_choice(
            last,
            last_frame,
        ),
        s.after_choice(last, last_frame).def() == Some(last),
        s.after_choice(last, last_frame).armed_frame() == last_frame,
        s.after_choice(last, last_frame).tinted() == s.tinted(),
        s.after_choice(last, last_frame).wf(),
{
}

/// The click that chooses a tower never places it: in the frame of the
/// choice nothing may be placed, whatever the mouse does.
pub proof fn choice_does_not_place<D>(s: SelectedToBuildTower<D>, left_just_pressed: bool)
    ensures
        !s.may_place(s.armed_frame(), left_just_pressed),
{
}

} // verus!
