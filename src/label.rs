//! The label's layout and the rule by which a frame's projections move it.
use vstd::prelude::*;

verus! {

/// The label's position attributes: offsets of its lower-left corner from the
/// left and bottom edges of the screen, in the host's unit `T`.
#[derive(Clone, Copy, Debug, PartialEq)]
pub struct LabelLayout<T> {
    pub left: T,
    pub bottom: T,
}

/// What one projection of the tracked object asks of the label.
#[derive(Clone, Copy, Debug, PartialEq)]
pub enum Placement<T> {
    /// The object is on screen: the label's lower-left corner goes to
    /// `(left, bottom)`, which centres the label on the object.
    Centered { left: T, bottom: T },
    /// The object is behind the camera or beyond its far plane, or the camera
    /// has no viewport: the label is moved below the screen. Only its bottom
    /// offset changes.
    Hidden,
}

impl<T> Placement<T> {
    /// The layout after this placement is written over `layout`.
    pub open spec fn applied_to(self, layout: LabelLayout<T>, hidden_bottom: T) -> LabelLayout<T> {
        match self {
            Placement::Centered { left, bottom } => LabelLayout { left, bottom },
            Placement::Hidden => LabelLayout { left: layout.left, bottom: hidden_bottom },
        }
    }
}

/// The layout after the placements `ps` are written over `layout`, in order.
pub open spec fn applied_all<T>(
    layout: LabelLayout<T>,
    ps: Seq<Placement<T>>,
    hidden_bottom: T,
) -> LabelLayout<T>
    decreases ps.len(),
{
    if ps.len() == 0 {
        layout
    } else {
        ps.last().applied_to(applied_all(layout, ps.drop_last(), hidden_bottom), hidden_bottom)
    }
}

/// The label's bottom offset after a frame depends on the last placement of
/// the frame alone: its bottom when it is centred, the hiding offset when it
/// is hidden.
pub proof fn lemma_bottom_from_last<T>(layout: LabelLayout<T>, ps: Seq<Placement<T>>, hidden_bottom: T)
    requires
        ps.len() > 0,
    ensures
        applied_all(layout, ps, hidden_bottom).bottom == (match ps.last() {
            Placement::Centered { bottom, .. } => bottom,
            Placement::Hidden => hidden_bottom,
        }),
{
}

/// The label's left offset after a frame is that of the last centred placement
/// of the frame; where none of them is centred, it is left as it was.
pub proof fn lemma_left_from_last_centered<T>(
    layout: LabelLayout<T>,
    ps: Seq<Placement<T>>,
    hidden_bottom: T,
)
    ensures
        (forall|j: int| 0 <= j < ps.len() ==> ps[j] is Hidden) ==> applied_all(
            layout,
            ps,
            hidden_bottom,
        ).left == layout.left,
        forall|j: int|
            #![trigger ps[j]]
            0 <= j < ps.len() && ps[j] is Centered && (forall|k: int|
                j < k < ps.len() ==> ps[k] is Hidden) ==> applied_all(layout, ps, hidden_bottom).left
                == ps[j]->Centered_left,
    decreases ps.len(),
{
    if ps.len() > 0 {
        let init = ps.drop_last();
        lemma_left_from_last_centered(layout, init, hidden_bottom);
        assert forall|j: int| 0 <= j < init.len() implies init[j] == ps[j] by {}
    }
}

/// When every projection of a frame fails (no viewport for any camera, or the
/// object behind every camera), the label ends below the screen at the hiding
/// offset and its left offset is kept.
pub proof fn lemma_all_hidden_moves_label_off<T>(
    layout: LabelLayout<T>,
    ps: Seq<Placement<T>>,
    hidden_bottom: T,
)
    requires
        ps.len() > 0,
        forall|j: int| 0 <= j < ps.len() ==> ps[j] is Hidden,
    ensures
        applied_all(layout, ps, hidden_bottom) == (LabelLayout { left: layout.left, bottom: hidden_bottom }),
{
    lemma_bottom_from_last(layout, ps, hidden_bottom);
    lemma_left_from_last_centered(layout, ps, hidden_bottom);
}

impl<T: Copy> LabelLayout<T> {
    /// Writes one placement over the layout.
    pub fn apply(self, placement: Placement<T>, hidden_bottom: T) -> (r: LabelLayout<T>)
        ensures
            r == placement.applied_to(self, hidden_bottom),
    {
        match placement {
            Placement::Centered { left, bottom } => LabelLayout { left, bottom },
            Placement::Hidden => LabelLayout { left: self.left, bottom: hidden_bottom },
        }
    }

    /// Writes the placements of one frame over the layout, in the order in
    /// which the (camera, object) pairs were visited.
    pub fn apply_all(self, placements: &Vec<Placement<T>>, hidden_bottom: T) -> (r: LabelLayout<T>)
        ensures
            r == applied_all(self, placements@, hidden_bottom),
    {
        let mut layout = self;
        let mut i: usize = 0;
        while i < placements.len()
            invariant
                i <= placements@.len(),
                layout == applied_all(self, placements@.take(i as int), hidden_bottom),
            decreases placements@.len() - i,
        {
            layout = layout.apply(placements[i], hidden_bottom);
            proof {
                assert(placements@.take(i + 1).drop_last() =~= placements@.take(i as int));
            }
            i = i + 1;
        }
        proof {
            assert(placements@.take(i as int) =~= placements@);
        }
        layout
    }
}

} // verus!
