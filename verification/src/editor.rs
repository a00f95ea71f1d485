//! Editor-facing values: gizmo modes and axes with their C codes, and the
//! selection as C callers see it.

use vstd::prelude::*;
use crate::actor::{HelioSceneActorId, SceneActorId, actor_to_c};

verus! {

/// What dragging the gizmo does to the selection.
#[derive(Debug, Clone, Copy, PartialEq, Eq, Structural)]
pub enum HelioGizmoMode {
    Translate,
    Rotate,
    Scale,
}

impl HelioGizmoMode {
    pub open spec fn spec_code(self) -> u32 {
        match self {
            HelioGizmoMode::Translate => 0,
            HelioGizmoMode::Rotate => 1,
            HelioGizmoMode::Scale => 2,
        }
    }

    /// 1 rotate, 2 scale; anything else translate.
    pub open spec fn spec_from_code(code: u32) -> HelioGizmoMode {
        match code {
            1 => HelioGizmoMode::Rotate,
            2 => HelioGizmoMode::Scale,
            _ => HelioGizmoMode::Translate,
        }
    }

    /// The C code of a mode: translate 0, rotate 1, scale 2.
    pub fn code(self) -> (c: u32)
        ensures
            c == self.spec_code(),
    {
        match self {
            HelioGizmoMode::Translate => 0,
            HelioGizmoMode::Rotate => 1,
            HelioGizmoMode::Scale => 2,
        }
    }

    /// The mode that a C code selects.
    pub fn from_code(code: u32) -> (m: HelioGizmoMode)
        ensures
            m == HelioGizmoMode::spec_from_code(code),
    {
        match code {
            1 => HelioGizmoMode::Rotate,
            2 => HelioGizmoMode::Scale,
            _ => HelioGizmoMode::Translate,
        }
    }
}

/// A gizmo handle axis; `NoAxis` stands for no axis.
#[derive(Debug, Clone, Copy, PartialEq, Eq, Structural)]
pub enum HelioGizmoAxis {
    X,
    Y,
    Z,
    W,
    NoAxis,
}

impl HelioGizmoAxis {
    pub open spec fn spec_code(self) -> u32 {
        match self {
            HelioGizmoAxis::X => 0,
            HelioGizmoAxis::Y => 1,
            HelioGizmoAxis::Z => 2,
            HelioGizmoAxis::W => 3,
            HelioGizmoAxis::NoAxis => 4,
        }
    }

    /// The C code of an axis: X 0, Y 1, Z 2, W 3, none 4.
    pub fn code(self) -> (c: u32)
        ensures
            c == self.spec_code(),
    {
        match self {
            HelioGizmoAxis::X => 0,
            HelioGizmoAxis::Y => 1,
            HelioGizmoAxis::Z => 2,
            HelioGizmoAxis::W => 3,
            HelioGizmoAxis::NoAxis => 4,
        }
    }
}

/// The hovered-axis report: the axis code of a hovered axis, -1 when no
/// axis is hovered.
pub open spec fn spec_hovered_axis_code(axis: Option<HelioGizmoAxis>) -> i32 {
    match axis {
        Some(HelioGizmoAxis::X) => 0,
        Some(HelioGizmoAxis::Y) => 1,
        Some(HelioGizmoAxis::Z) => 2,
        Some(HelioGizmoAxis::W) => 3,
        _ => -1i32,
    }
}

pub fn hovered_axis_code(axis: Option<HelioGizmoAxis>) -> (c: i32)
    ensures
        c == spec_hovered_axis_code(axis),
        c == -1 || (axis is Some && c == axis->0.spec_code()),
{
    match axis {
        Some(HelioGizmoAxis::X) => 0,
        Some(HelioGizmoAxis::Y) => 1,
        Some(HelioGizmoAxis::Z) => 2,
        Some(HelioGizmoAxis::W) => 3,
        _ => -1,
    }
}

/// The selection as C callers see it: the selected actor's C id, or the
/// empty id when nothing is selected.
pub fn selected_actor_id(selection: Option<SceneActorId>) -> (id: HelioSceneActorId)
    ensures
        id == match selection {
            Some(a) => actor_to_c(a),
            None => HelioSceneActorId::spec_none(),
        },
{
    match selection {
        Some(a) => HelioSceneActorId::from(a),
        None => HelioSceneActorId::none(),
    }
}

/// The codes of gizmo modes and axes, and the hovered-axis report: translate,
/// rotate, scale are 0, 1, 2 both ways (any other code selects translate);
/// axes X, Y, Z, W, none are 0 to 4; a hovered X, Y, Z, W reports 0 to 3 and
/// no hovered axis reports -1.
pub proof fn law_gizmo_tables(code: u32, axis: Option<HelioGizmoAxis>)
    ensures
        HelioGizmoMode::Translate.spec_code() == 0,
        HelioGizmoMode::Rotate.spec_code() == 1,
        HelioGizmoMode::Scale.spec_code() == 2,
        code == 1 ==> HelioGizmoMode::spec_from_code(code) == HelioGizmoMode::Rotate,
        code == 2 ==> HelioGizmoMode::spec_from_code(code) == HelioGizmoMode::Scale,
        (code != 1 && code != 2) ==> HelioGizmoMode::spec_from_code(code) == HelioGizmoMode::Translate,
        HelioGizmoAxis::X.spec_code() == 0,
        HelioGizmoAxis::Y.spec_code() == 1,
        HelioGizmoAxis::Z.spec_code() == 2,
        HelioGizmoAxis::W.spec_code() == 3,
        HelioGizmoAxis::NoAxis.spec_code() == 4,
        axis == Some(HelioGizmoAxis::X) ==> spec_hovered_axis_code(axis) == 0,
        axis == Some(HelioGizmoAxis::Y) ==> spec_hovered_axis_code(axis) == 1,
        axis == Some(HelioGizmoAxis::Z) ==> spec_hovered_axis_code(axis) == 2,
        axis == Some(HelioGizmoAxis::W) ==> spec_hovered_axis_code(axis) == 3,
        (axis is None || axis == Some(HelioGizmoAxis::NoAxis)) ==> spec_hovered_axis_code(axis) == -1,
{
}

/// A mode survives the trip through its code, and a code comes back as
/// itself when it is one of 0, 1, 2 and as 0 otherwise.
pub proof fn law_gizmo_mode_codes(m: HelioGizmoMode, c: u32)
    ensures
        HelioGizmoMode::spec_from_code(m.spec_code()) == m,
        HelioGizmoMode::spec_from_code(c).spec_code() == (if c <= 2 { c } else { 0 }),
{
}

} // verus!
