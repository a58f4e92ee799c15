//! Clickable areas of the last drawn frame and what a click on each does.
use vstd::prelude::*;

use crate::app::state::{BlockId, BlockIdView, Tab};
use crate::domain::copy::DeepCopy;
use crate::domain::resource_id::{IdView, ResourceId};

verus! {

/// A rectangle of terminal cells: its top-left corner and its size.
#[derive(Debug, Clone, Copy, PartialEq, Eq, Default, Structural)]
pub struct Rect {
    pub x: u16,
    pub y: u16,
    pub width: u16,
    pub height: u16,
}

impl Rect {
    pub fn new(x: u16, y: u16, width: u16, height: u16) -> (r: Rect)
        ensures
            r == (Rect { x, y, width, height }),
    {
        Rect { x, y, width, height }
    }
}

/// What a click on an area asks for.
#[derive(Debug, Clone, PartialEq, Eq)]
pub enum HitTarget {
    Tab(Tab),
    ToggleBlock(BlockId),
    Navigate(ResourceId),
    OpenUrl(String),
    Refresh,
    OpenCurrent,
    Quit,
    Help,
    Settings,
    CloseSettings,
    SetTheme(String),
    SetSymbols(String),
}

pub enum HitTargetView {
    Tab(Tab),
    ToggleBlock(BlockIdView),
    Navigate(IdView),
    OpenUrl(Seq<char>),
    Refresh,
    OpenCurrent,
    Quit,
    Help,
    Settings,
    CloseSettings,
    SetTheme(Seq<char>),
    SetSymbols(Seq<char>),
}

impl View for HitTarget {
    type V = HitTargetView;

    open spec fn view(&self) -> HitTargetView {
        match self {
            HitTarget::Tab(t) => HitTargetView::Tab(*t),
            HitTarget::ToggleBlock(b) => HitTargetView::ToggleBlock(b@),
            HitTarget::Navigate(id) => HitTargetView::Navigate(id@),
            HitTarget::OpenUrl(u) => HitTargetView::OpenUrl(u@),
            HitTarget::Refresh => HitTargetView::Refresh,
            HitTarget::OpenCurrent => HitTargetView::OpenCurrent,
            HitTarget::Quit => HitTargetView::Quit,
            HitTarget::Help => HitTargetView::Help,
            HitTarget::Settings => HitTargetView::Settings,
            HitTarget::CloseSettings => HitTargetView::CloseSettings,
            HitTarget::SetTheme(t) => HitTargetView::SetTheme(t@),
            HitTarget::SetSymbols(t) => HitTargetView::SetSymbols(t@),
        }
    }
}

impl DeepCopy for HitTarget {
    fn deep_copy(&self) -> (r: Self) {
        match self {
            HitTarget::Tab(t) => HitTarget::Tab(*t),
            HitTarget::ToggleBlock(b) => HitTarget::ToggleBlock(b.deep_copy()),
            HitTarget::Navigate(id) => HitTarget::Navigate(id.deep_copy()),
            HitTarget::OpenUrl(u) => HitTarget::OpenUrl(u.clone()),
            HitTarget::Refresh => HitTarget::Refresh,
            HitTarget::OpenCurrent => HitTarget::OpenCurrent,
            HitTarget::Quit => HitTarget::Quit,
            HitTarget::Help => HitTarget::Help,
            HitTarget::Settings => HitTarget::Settings,
            HitTarget::CloseSettings => HitTarget::CloseSettings,
            HitTarget::SetTheme(t) => HitTarget::SetTheme(t.clone()),
            HitTarget::SetSymbols(t) => HitTarget::SetSymbols(t.clone()),
        }
    }
}

/// Targets that act on the content rather than on the chrome around it.
pub open spec fn is_content_action_spec(t: HitTargetView) -> bool {
    match t {
        HitTargetView::ToggleBlock(_) | HitTargetView::Navigate(_) | HitTargetView::OpenUrl(_)
        | HitTargetView::SetTheme(_) | HitTargetView::SetSymbols(_) => true,
        _ => false,
    }
}

impl HitTarget {
    /// Whether the target acts on the content (see `is_content_action_spec`).
    pub fn is_content_action(&self) -> (r: bool)
        ensures
            r == is_content_action_spec(self@),
    {
        match self {
            HitTarget::ToggleBlock(_) | HitTarget::Navigate(_) | HitTarget::OpenUrl(_)
            | HitTarget::SetTheme(_) | HitTarget::SetSymbols(_) => true,
            _ => false,
        }
    }
}

/// A clickable area and its target.
#[derive(Debug, Clone, PartialEq, Eq)]
pub struct HitArea {
    pub rect: Rect,
    pub target: HitTarget,
}

pub struct HitAreaView {
    pub rect: Rect,
    pub target: HitTargetView,
}

impl View for HitArea {
    type V = HitAreaView;

    open spec fn view(&self) -> HitAreaView {
        HitAreaView { rect: self.rect, target: self.target@ }
    }
}

impl DeepCopy for HitArea {
    fn deep_copy(&self) -> (r: Self) {
        HitArea { rect: self.rect, target: self.target.deep_copy() }
    }
}

/// The end of a span that starts at `start` and is `len` long, saturated
/// at the largest `u16`.
pub open spec fn span_end(start: u16, len: u16) -> int {
    if start + len > u16::MAX { u16::MAX as int } else { start + len }
}

/// Whether the cell at `column`, `row` lies in `rect`: its top-left cell
/// does, the cells just past its right and bottom edges do not.
pub open spec fn rect_contains(rect: Rect, column: u16, row: u16) -> bool {
    &&& rect.x <= column
    &&& column < span_end(rect.x, rect.width)
    &&& rect.y <= row
    &&& row < span_end(rect.y, rect.height)
}

impl HitArea {
    pub fn new(rect: Rect, target: HitTarget) -> (a: HitArea)
        ensures
            a.rect == rect,
            a.target == target,
    {
        HitArea { rect, target }
    }

    /// Whether a cell lies in the area (see `rect_contains`).
    pub fn contains(&self, column: u16, row: u16) -> (r: bool)
        ensures
            r == rect_contains(self.rect, column, row),
    {
        column >= self.rect.x && column < self.rect.x.saturating_add(self.rect.width)
            && row >= self.rect.y && row < self.rect.y.saturating_add(self.rect.height)
    }
}

/// The target of the first area that holds the cell, if any does.
pub fn hit_test(areas: &[HitArea], column: u16, row: u16) -> (r: Option<HitTarget>)
    ensures
        match r {
            Some(t) => exists|i: int| 0 <= i < areas@.len() && rect_contains(#[trigger] areas@[i].rect, column, row)
                && t@ == areas@[i].target@
                && forall|j: int| 0 <= j < i ==> !rect_contains(#[trigger] areas@[j].rect, column, row),
            None => forall|i: int| 0 <= i < areas@.len() ==> !rect_contains(#[trigger] areas@[i].rect, column, row),
        },
{
    let mut i: usize = 0;
    while i < areas.len()
        invariant
            i <= areas@.len(),
            forall|j: int| 0 <= j < i ==> !rect_contains(#[trigger] areas@[j].rect, column, row),
        decreases areas.len() - i,
    {
        if areas[i].contains(column, row) {
            return Some(areas[i].target.deep_copy());
        }
        i = i + 1;
    }
    None
}

} // verus!
