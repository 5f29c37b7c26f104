//! The sidebar list of loaded models.
//!
//! The presenter owns the list rows — appended exactly once per registered
//! model, in registration order, never reordered or removed — the
//! expanded/collapsed state of the dropdown that shows or hides them, and the
//! scroll offset of the list viewport, clamped so the list can never be
//! scrolled past its content.

use vstd::prelude::*;
use crate::fixed::{clamp, clamp_i64, COORD_BOUND, DELTA_BOUND};

verus! {

/// Pointer interaction states the UI layer reports for a widget.
#[derive(Clone, Copy, Debug, PartialEq, Eq, Structural)]
pub enum PointerInteraction {
    Pressed,
    Hovered,
    Idle,
}

/// The fill color a button takes for each interaction state.
#[derive(Clone, Copy, Debug, PartialEq, Eq, Structural)]
pub enum ButtonColor {
    Normal,
    Hovered,
    Pressed,
}

/// Whether the row container is shown.
#[derive(Clone, Copy, Debug, PartialEq, Eq, Structural)]
pub enum RowVisibility {
    Shown,
    Hidden,
}

/// The glyph beside the dropdown title: a down arrow while the list is
/// expanded, an up arrow while it is collapsed.
#[derive(Clone, Copy, Debug, PartialEq, Eq, Structural)]
pub enum DropdownGlyph {
    Expanded,
    Collapsed,
}

/// The unit of a wheel event: whole notches or continuous pixels.
#[derive(Clone, Copy, Debug, PartialEq, Eq, Structural)]
pub enum ScrollUnit {
    Line,
    Pixel,
}

/// Pixel-equivalents of one wheel notch, in whole pixels.
pub const LINE_STEP: i64 = 20;

/// One visible row: the model it spawns and its display label — the file
/// stem of the model's path, or nothing when the path is unknown (the shell
/// shows a fixed placeholder then).
pub struct ListRow {
    pub model_id: u64,
    pub label: Option<Vec<u8>>,
}

/// What the dropdown interaction leaves on screen.
pub struct DropdownFeedback {
    pub color: ButtonColor,
    pub glyph: DropdownGlyph,
    pub visibility: RowVisibility,
}

/// The color a button takes for an interaction state.
pub open spec fn color_for(interaction: PointerInteraction) -> ButtonColor {
    match interaction {
        PointerInteraction::Pressed => ButtonColor::Pressed,
        PointerInteraction::Hovered => ButtonColor::Hovered,
        PointerInteraction::Idle => ButtonColor::Normal,
    }
}

/// A wheel amount in pixel-equivalents: notches count twenty pixels each.
pub open spec fn normalized_delta(unit: ScrollUnit, amount: int) -> int {
    match unit {
        ScrollUnit::Line => amount * 20,
        ScrollUnit::Pixel => amount,
    }
}

/// How far up the viewport may scroll: the content height in excess of the
/// container height, and never a negative amount.
pub open spec fn max_scroll(container_height: int, content_height: int) -> int {
    if content_height - container_height >= 0 {
        content_height - container_height
    } else {
        0
    }
}

/// The sidebar list state.
pub struct ListPresenter {
    /// Rows in materialization order.
    pub rows: Vec<ListRow>,
    /// Whether the dropdown currently shows the rows.
    pub expanded: bool,
    /// Scroll offset of the list viewport, in thousandths of a pixel;
    /// zero or negative, zero meaning pinned to the top.
    pub scroll: i64,
}

impl ListPresenter {
    /// Well-formedness: the scroll offset stays in the clamped band.
    pub open spec fn wf(&self) -> bool {
        -COORD_BOUND <= self.scroll <= 0
    }

    /// A fresh presenter: no rows, expanded, scrolled to the top.
    pub fn new() -> (r: ListPresenter)
        ensures
            r.wf(),
            r.rows@.len() == 0,
            r.expanded,
            r.scroll == 0,
    {
        ListPresenter { rows: Vec::new(), expanded: true, scroll: 0 }
    }

    /// Append exactly one row for a newly registered model, in call order.
    pub fn materialize(&mut self, model_id: u64, label: Option<Vec<u8>>)
        ensures
            final(self).rows@ == old(self).rows@.push((ListRow { model_id, label })),
            final(self).expanded == old(self).expanded,
            final(self).scroll == old(self).scroll,
    {
        self.rows.push(ListRow { model_id, label });
    }

    /// React to an interaction with the dropdown title button: a press
    /// toggles whether the rows are shown and flips the glyph; hovering and
    /// idling only tint the button.
    pub fn dropdown_interact(&mut self, interaction: PointerInteraction) -> (fb: DropdownFeedback)
        ensures
            final(self).rows@ == old(self).rows@,
            final(self).scroll == old(self).scroll,
            final(self).expanded == (if interaction is Pressed {
                !old(self).expanded
            } else {
                old(self).expanded
            }),
            fb.color == color_for(interaction),
            fb.glyph == (if final(self).expanded {
                DropdownGlyph::Expanded
            } else {
                DropdownGlyph::Collapsed
            }),
            fb.visibility == (if final(self).expanded {
                RowVisibility::Shown
            } else {
                RowVisibility::Hidden
            }),
    {
        let color = match interaction {
            PointerInteraction::Pressed => {
                self.expanded = !self.expanded;
                ButtonColor::Pressed
            },
            PointerInteraction::Hovered => ButtonColor::Hovered,
            PointerInteraction::Idle => ButtonColor::Normal,
        };
        let (glyph, visibility) = if self.expanded {
            (DropdownGlyph::Expanded, RowVisibility::Shown)
        } else {
            (DropdownGlyph::Collapsed, RowVisibility::Hidden)
        };
        DropdownFeedback { color, glyph, visibility }
    }

    /// Apply one wheel event: normalize notches to pixel-equivalents, add
    /// the delta, and clamp the offset into the band the current heights
    /// allow. The offset stays pinned to zero while the content is shorter
    /// than the container.
    pub fn scroll(
        &mut self,
        unit: ScrollUnit,
        amount: i64,
        container_height: i64,
        content_height: i64,
    )
        requires
            old(self).wf(),
            -DELTA_BOUND <= amount <= DELTA_BOUND,
            0 <= container_height <= COORD_BOUND,
            0 <= content_height <= COORD_BOUND,
        ensures
            final(self).wf(),
            final(self).rows@ == old(self).rows@,
            final(self).expanded == old(self).expanded,
            final(self).scroll == clamp(
                old(self).scroll + normalized_delta(unit, amount as int),
                -max_scroll(container_height as int, content_height as int),
                0,
            ),
            -max_scroll(container_height as int, content_height as int) <= final(self).scroll <= 0,
    {
        let dy: i64 = match unit {
            ScrollUnit::Line => amount * 20,
            ScrollUnit::Pixel => amount,
        };
        let excess: i64 = if content_height >= container_height {
            content_height - container_height
        } else {
            0
        };
        self.scroll = clamp_i64(self.scroll + dy, -excess, 0);
    }
}

/// Index of the first byte of the file name in a path: just past the last
/// separator, or zero when the path has none.
pub open spec fn file_name_start(p: Seq<u8>) -> int
    decreases p.len(),
{
    if p.len() == 0 {
        0
    } else if p[p.len() - 1] == 47u8 {
        p.len() as int
    } else {
        file_name_start(p.drop_last())
    }
}

/// Index of the last dot strictly after `lo`, or `-1` when there is none. A
/// dot at the very start of the file name does not begin an extension.
pub open spec fn last_dot_after(p: Seq<u8>, lo: int) -> int
    decreases p.len(),
{
    if p.len() == 0 || p.len() - 1 <= lo {
        -1
    } else if p[p.len() - 1] == 46u8 {
        p.len() - 1
    } else {
        last_dot_after(p.drop_last(), lo)
    }
}

/// The file stem of a path: the file name with its extension, if any, cut
/// off.
pub open spec fn stem_of(p: Seq<u8>) -> Seq<u8> {
    let ns = file_name_start(p);
    let d = last_dot_after(p, ns);
    if d == -1 {
        p.skip(ns)
    } else {
        p.subrange(ns, d)
    }
}

/// Find where the file name starts: just past the last separator.
fn find_name_start(path: &Vec<u8>) -> (s: usize)
    ensures
        s == file_name_start(path@),
        s <= path@.len(),
{
    let mut i: usize = path.len();
    proof {
        assert(path@.take(path@.len() as int) =~= path@);
    }
    while i > 0
        invariant
            i <= path.len(),
            file_name_start(path@) == file_name_start(path@.take(i as int)),
        decreases i,
    {
        if path[i - 1] == 47u8 {
            proof {
                assert(path@.take(i as int)[i - 1] == path@[i - 1]);
            }
            return i;
        }
        proof {
            assert(path@.take(i as int)[i - 1] == path@[i - 1]);
            assert(path@.take(i as int).drop_last() =~= path@.take(i - 1));
        }
        i = i - 1;
    }
    proof {
        assert(path@.take(0) =~= Seq::<u8>::empty());
    }
    0
}

/// Find the last dot strictly after `lo`, if any.
fn find_last_dot_after(path: &Vec<u8>, lo: usize) -> (d: Option<usize>)
    ensures
        match d {
            Some(d) => last_dot_after(path@, lo as int) == d as int && lo < d < path@.len(),
            None => last_dot_after(path@, lo as int) == -1,
        },
{
    let mut i: usize = path.len();
    proof {
        assert(path@.take(path@.len() as int) =~= path@);
    }
    while i > 0 && i - 1 > lo
        invariant
            i <= path.len(),
            last_dot_after(path@, lo as int) == last_dot_after(path@.take(i as int), lo as int),
        decreases i,
    {
        if path[i - 1] == 46u8 {
            proof {
                assert(path@.take(i as int)[i - 1] == path@[i - 1]);
            }
            return Some(i - 1);
        }
        proof {
            assert(path@.take(i as int)[i - 1] == path@[i - 1]);
            assert(path@.take(i as int).drop_last() =~= path@.take(i - 1));
        }
        i = i - 1;
    }
    None
}

/// Copy `v[start..end]` into a fresh vector.
fn copy_range(v: &Vec<u8>, start: usize, end: usize) -> (r: Vec<u8>)
    requires
        start <= end <= v@.len(),
    ensures
        r@ == v@.subrange(start as int, end as int),
{
    let mut r: Vec<u8> = Vec::new();
    let mut i: usize = start;
    while i < end
        invariant
            start <= i <= end <= v@.len(),
            r@ == v@.subrange(start as int, i as int),
        decreases end - i,
    {
        r.push(v[i]);
        proof {
            assert(r@ =~= v@.subrange(start as int, i + 1));
        }
        i = i + 1;
    }
    proof {
        assert(r@ =~= v@.subrange(start as int, end as int));
    }
    r
}

/// The display label of a model file: the stem of its path — the file name
/// with the extension cut off, a leading dot never counting as one.
pub fn file_stem(path: &Vec<u8>) -> (r: Vec<u8>)
    ensures
        r@ == stem_of(path@),
{
    let ns = find_name_start(path);
    let d = find_last_dot_after(path, ns);
    match d {
        Some(d) => copy_range(path, ns, d),
        None => {
            proof {
                assert(path@.skip(ns as int) =~= path@.subrange(ns as int, path@.len() as int));
            }
            copy_range(path, ns, path.len())
        },
    }
}

} // verus!
