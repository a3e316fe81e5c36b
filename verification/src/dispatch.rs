//! Footprint editor — routing of editor messages.
//!
//! Every message of the footprint editor belongs to one concern, whose
//! update functions handle it, and either does or does not change the
//! persisted footprint; the ones that do are preceded by an undo
//! snapshot.

use vstd::prelude::*;
use crate::constraints::{find_kind, kind_of, EntityKindTag, EntityRef};
use crate::types::{FootprintEditor, FootprintEditorState, SketchEntityId};

verus! {

/// The kinds of message the footprint editor receives (payloads left
/// out). `Symbol` stands for every symbol-editor message.
#[derive(Clone, Copy, Debug, PartialEq, Eq, Structural)]
pub enum FootprintMsgKind {
    SelectActiveIdx,
    ToggleSelectionFilter,
    SelectSilkF,
    DeleteSilkF,
    MovePad,
    CursorAt,
    SelectPad,
    SelectPads,
    DeleteSelected,
    SetSelectionMode2d,
    SelectAllOnLayer,
    LassoArm,
    LassoAddVertex,
    LassoCancel,
    LassoCommit,
    TouchingLineArm,
    TouchingLineFirst,
    TouchingLineCancel,
    TouchingLineCommit,
    SelectOverlapped,
    SelectNextOverlapped,
    SelectOffGridPads,
    AddNewSibling,
    AddPad,
    AddVia,
    TrackClick,
    TrackCancel,
    ArcClick,
    ArcCancel,
    PolygonClick,
    PolygonCommit,
    PolygonCancel,
    AddText,
    AddTextFrame,
    AddHole,
    MintBody3d,
    MintExtrudedBody3d,
    SketchSelectMany,
    SketchSelect,
    SketchSetTool,
    SketchToggleConstruction,
    SketchToggleCenterline,
    SketchToolEscape,
    SketchDimensionInput,
    SketchPlacementInputChar,
    SketchPlacementInputBackspace,
    SketchPlacementInputEnter,
    SketchPlacementInputEscape,
    SketchPlacementInputTab,
    SketchPlacePoint,
    SketchMovePoint,
    SketchMoveLine,
    SketchResizeRoundPad,
    SketchSetRole,
    SketchMakePadFromProfile,
    SketchUnlinkCornerRadius,
    SketchEditParameter,
    SketchAddConstraintForSelection,
    SketchToolClick,
    ToggleLayer,
    ToggleAutoFit,
    SetMode,
    TogglePlacementPause,
    FitConsumed,
    CopyPad,
    CutPad,
    PastePad,
    SetPadsTool,
    ToolEscape,
    AlignPads,
    SetName,
    RecomputeCourtyardOutline,
    ShowContextMenu,
    CloseContextMenu,
    ContextMenuOpenSubmenu,
    ContextMenuAction,
    ToggleActiveBarMenu,
    CloseActiveBarMenu,
    ActiveBarStub,
    ApplyFilterPreset,
    ToggleAllFilters,
    CaptureFilterPreset,
    ActiveBarToggleSnap,
    ActiveBarSetSnappingMode,
    ActiveBarSetSnapSubTab,
    ActiveBarRotateSelection,
    ActiveBarFlipSelection,
    ActiveBarNudgeSelection,
    MoveByOpen,
    MoveBySetX,
    MoveBySetY,
    MoveByConfirm,
    MoveByCancel,
    ActiveBarAlignSelectionToGrid,
    ActiveBarMoveOriginToGrid,
    ActiveBarSelectAll,
    ActiveBarClearSelection,
    ActiveBarSetSketchTool,
    Symbol,
    Save,
}

/// The group of update functions a message is routed to.
#[derive(Clone, Copy, Debug, PartialEq, Eq, Structural)]
pub enum Concern {
    Selection,
    Geometry,
    SketchUi,
    SketchPlacement,
    SketchEntities,
    SketchPadBridge,
    SketchConstraints,
    SketchTools,
    View,
    ContextMenu,
    ActiveBar,
    Ignored,
}

/// The concern that handles `msg`; symbol messages and `Save` are
/// ignored by the footprint editor.
pub open spec fn spec_concern(msg: FootprintMsgKind) -> Concern {
    match msg {
        FootprintMsgKind::SelectActiveIdx |
        FootprintMsgKind::ToggleSelectionFilter |
        FootprintMsgKind::SelectSilkF |
        FootprintMsgKind::DeleteSilkF |
        FootprintMsgKind::MovePad |
        FootprintMsgKind::CursorAt |
        FootprintMsgKind::SelectPad |
        FootprintMsgKind::SelectPads |
        FootprintMsgKind::DeleteSelected |
        FootprintMsgKind::SetSelectionMode2d |
        FootprintMsgKind::SelectAllOnLayer |
        FootprintMsgKind::LassoArm |
        FootprintMsgKind::LassoAddVertex |
        FootprintMsgKind::LassoCancel |
        FootprintMsgKind::LassoCommit |
        FootprintMsgKind::TouchingLineArm |
        FootprintMsgKind::TouchingLineFirst |
        FootprintMsgKind::TouchingLineCancel |
        FootprintMsgKind::TouchingLineCommit |
        FootprintMsgKind::SelectOverlapped |
        FootprintMsgKind::SelectNextOverlapped |
        FootprintMsgKind::SelectOffGridPads => Concern::Selection,
        FootprintMsgKind::AddNewSibling |
        FootprintMsgKind::AddPad |
        FootprintMsgKind::AddVia |
        FootprintMsgKind::TrackClick |
        FootprintMsgKind::TrackCancel |
        FootprintMsgKind::ArcClick |
        FootprintMsgKind::ArcCancel |
        FootprintMsgKind::PolygonClick |
        FootprintMsgKind::PolygonCommit |
        FootprintMsgKind::PolygonCancel |
        FootprintMsgKind::AddText |
        FootprintMsgKind::AddTextFrame |
        FootprintMsgKind::AddHole |
        FootprintMsgKind::MintBody3d |
        FootprintMsgKind::MintExtrudedBody3d => Concern::Geometry,
        FootprintMsgKind::SketchSelectMany |
        FootprintMsgKind::SketchSelect |
        FootprintMsgKind::SketchSetTool |
        FootprintMsgKind::SketchToggleConstruction |
        FootprintMsgKind::SketchToggleCenterline |
        FootprintMsgKind::SketchToolEscape |
        FootprintMsgKind::SketchDimensionInput => Concern::SketchUi,
        FootprintMsgKind::SketchPlacementInputChar |
        FootprintMsgKind::SketchPlacementInputBackspace |
        FootprintMsgKind::SketchPlacementInputEnter |
        FootprintMsgKind::SketchPlacementInputEscape |
        FootprintMsgKind::SketchPlacementInputTab => Concern::SketchPlacement,
        FootprintMsgKind::SketchPlacePoint |
        FootprintMsgKind::SketchMovePoint |
        FootprintMsgKind::SketchMoveLine |
        FootprintMsgKind::SketchResizeRoundPad => Concern::SketchEntities,
        FootprintMsgKind::SketchSetRole |
        FootprintMsgKind::SketchMakePadFromProfile |
        FootprintMsgKind::SketchUnlinkCornerRadius => Concern::SketchPadBridge,
        FootprintMsgKind::SketchEditParameter |
        FootprintMsgKind::SketchAddConstraintForSelection => Concern::SketchConstraints,
        FootprintMsgKind::SketchToolClick => Concern::SketchTools,
        FootprintMsgKind::ToggleLayer |
        FootprintMsgKind::ToggleAutoFit |
        FootprintMsgKind::SetMode |
        FootprintMsgKind::TogglePlacementPause |
        FootprintMsgKind::FitConsumed |
        FootprintMsgKind::CopyPad |
        FootprintMsgKind::CutPad |
        FootprintMsgKind::PastePad |
        FootprintMsgKind::SetPadsTool |
        FootprintMsgKind::ToolEscape |
        FootprintMsgKind::AlignPads |
        FootprintMsgKind::SetName |
        FootprintMsgKind::RecomputeCourtyardOutline => Concern::View,
        FootprintMsgKind::ShowContextMenu |
        FootprintMsgKind::CloseContextMenu |
        FootprintMsgKind::ContextMenuOpenSubmenu |
        FootprintMsgKind::ContextMenuAction => Concern::ContextMenu,
        FootprintMsgKind::ToggleActiveBarMenu |
        FootprintMsgKind::CloseActiveBarMenu |
        FootprintMsgKind::ActiveBarStub |
        FootprintMsgKind::ApplyFilterPreset |
        FootprintMsgKind::ToggleAllFilters |
        FootprintMsgKind::CaptureFilterPreset |
        FootprintMsgKind::ActiveBarToggleSnap |
        FootprintMsgKind::ActiveBarSetSnappingMode |
        FootprintMsgKind::ActiveBarSetSnapSubTab |
        FootprintMsgKind::ActiveBarRotateSelection |
        FootprintMsgKind::ActiveBarFlipSelection |
        FootprintMsgKind::ActiveBarNudgeSelection |
        FootprintMsgKind::MoveByOpen |
        FootprintMsgKind::MoveBySetX |
        FootprintMsgKind::MoveBySetY |
        FootprintMsgKind::MoveByConfirm |
        FootprintMsgKind::MoveByCancel |
        FootprintMsgKind::ActiveBarAlignSelectionToGrid |
        FootprintMsgKind::ActiveBarMoveOriginToGrid |
        FootprintMsgKind::ActiveBarSelectAll |
        FootprintMsgKind::ActiveBarClearSelection |
        FootprintMsgKind::ActiveBarSetSketchTool => Concern::ActiveBar,
        FootprintMsgKind::Symbol |
        FootprintMsgKind::Save => Concern::Ignored,
    }
}

/// The concern that handles `msg`.
pub fn concern_of(msg: FootprintMsgKind) -> (r: Concern)
    ensures
        r == spec_concern(msg),
{
    match msg {
        FootprintMsgKind::SelectActiveIdx |
        FootprintMsgKind::ToggleSelectionFilter |
        FootprintMsgKind::SelectSilkF |
        FootprintMsgKind::DeleteSilkF |
        FootprintMsgKind::MovePad |
        FootprintMsgKind::CursorAt |
        FootprintMsgKind::SelectPad |
        FootprintMsgKind::SelectPads |
        FootprintMsgKind::DeleteSelected |
        FootprintMsgKind::SetSelectionMode2d |
        FootprintMsgKind::SelectAllOnLayer |
        FootprintMsgKind::LassoArm |
        FootprintMsgKind::LassoAddVertex |
        FootprintMsgKind::LassoCancel |
        FootprintMsgKind::LassoCommit |
        FootprintMsgKind::TouchingLineArm |
        FootprintMsgKind::TouchingLineFirst |
        FootprintMsgKind::TouchingLineCancel |
        FootprintMsgKind::TouchingLineCommit |
        FootprintMsgKind::SelectOverlapped |
        FootprintMsgKind::SelectNextOverlapped |
        FootprintMsgKind::SelectOffGridPads => Concern::Selection,
        FootprintMsgKind::AddNewSibling |
        FootprintMsgKind::AddPad |
        FootprintMsgKind::AddVia |
        FootprintMsgKind::TrackClick |
        FootprintMsgKind::TrackCancel |
        FootprintMsgKind::ArcClick |
        FootprintMsgKind::ArcCancel |
        FootprintMsgKind::PolygonClick |
        FootprintMsgKind::PolygonCommit |
        FootprintMsgKind::PolygonCancel |
        FootprintMsgKind::AddText |
        FootprintMsgKind::AddTextFrame |
        FootprintMsgKind::AddHole |
        FootprintMsgKind::MintBody3d |
        FootprintMsgKind::MintExtrudedBody3d => Concern::Geometry,
        FootprintMsgKind::SketchSelectMany |
        FootprintMsgKind::SketchSelect |
        FootprintMsgKind::SketchSetTool |
        FootprintMsgKind::SketchToggleConstruction |
        FootprintMsgKind::SketchToggleCenterline |
        FootprintMsgKind::SketchToolEscape |
        FootprintMsgKind::SketchDimensionInput => Concern::SketchUi,
        FootprintMsgKind::SketchPlacementInputChar |
        FootprintMsgKind::SketchPlacementInputBackspace |
        FootprintMsgKind::SketchPlacementInputEnter |
        FootprintMsgKind::SketchPlacementInputEscape |
        FootprintMsgKind::SketchPlacementInputTab => Concern::SketchPlacement,
        FootprintMsgKind::SketchPlacePoint |
        FootprintMsgKind::SketchMovePoint |
        FootprintMsgKind::SketchMoveLine |
        FootprintMsgKind::SketchResizeRoundPad => Concern::SketchEntities,
        FootprintMsgKind::SketchSetRole |
        FootprintMsgKind::SketchMakePadFromProfile |
        FootprintMsgKind::SketchUnlinkCornerRadius => Concern::SketchPadBridge,
        FootprintMsgKind::SketchEditParameter |
        FootprintMsgKind::SketchAddConstraintForSelection => Concern::SketchConstraints,
        FootprintMsgKind::SketchToolClick => Concern::SketchTools,
        FootprintMsgKind::ToggleLayer |
        FootprintMsgKind::ToggleAutoFit |
        FootprintMsgKind::SetMode |
        FootprintMsgKind::TogglePlacementPause |
        FootprintMsgKind::FitConsumed |
        FootprintMsgKind::CopyPad |
        FootprintMsgKind::CutPad |
        FootprintMsgKind::PastePad |
        FootprintMsgKind::SetPadsTool |
        FootprintMsgKind::ToolEscape |
        FootprintMsgKind::AlignPads |
        FootprintMsgKind::SetName |
        FootprintMsgKind::RecomputeCourtyardOutline => Concern::View,
        FootprintMsgKind::ShowContextMenu |
        FootprintMsgKind::CloseContextMenu |
        FootprintMsgKind::ContextMenuOpenSubmenu |
        FootprintMsgKind::ContextMenuAction => Concern::ContextMenu,
        FootprintMsgKind::ToggleActiveBarMenu |
        FootprintMsgKind::CloseActiveBarMenu |
        FootprintMsgKind::ActiveBarStub |
        FootprintMsgKind::ApplyFilterPreset |
        FootprintMsgKind::ToggleAllFilters |
        FootprintMsgKind::CaptureFilterPreset |
        FootprintMsgKind::ActiveBarToggleSnap |
        FootprintMsgKind::ActiveBarSetSnappingMode |
        FootprintMsgKind::ActiveBarSetSnapSubTab |
        FootprintMsgKind::ActiveBarRotateSelection |
        FootprintMsgKind::ActiveBarFlipSelection |
        FootprintMsgKind::ActiveBarNudgeSelection |
        FootprintMsgKind::MoveByOpen |
        FootprintMsgKind::MoveBySetX |
        FootprintMsgKind::MoveBySetY |
        FootprintMsgKind::MoveByConfirm |
        FootprintMsgKind::MoveByCancel |
        FootprintMsgKind::ActiveBarAlignSelectionToGrid |
        FootprintMsgKind::ActiveBarMoveOriginToGrid |
        FootprintMsgKind::ActiveBarSelectAll |
        FootprintMsgKind::ActiveBarClearSelection |
        FootprintMsgKind::ActiveBarSetSketchTool => Concern::ActiveBar,
        FootprintMsgKind::Symbol |
        FootprintMsgKind::Save => Concern::Ignored,
    }
}

/// Messages that only touch editor UI state (selection, cursor, tool
/// and panel state), that take their own undo snapshot, or that do
/// nothing on a footprint editor (symbol-editor messages, Save), and so
/// are not preceded by one.
pub open spec fn is_ui_only(msg: FootprintMsgKind) -> bool {
    match msg {
        FootprintMsgKind::CursorAt |
        FootprintMsgKind::SelectPad |
        FootprintMsgKind::SelectSilkF |
        FootprintMsgKind::ToggleLayer |
        FootprintMsgKind::SetPadsTool |
        FootprintMsgKind::ToolEscape |
        FootprintMsgKind::ToggleActiveBarMenu |
        FootprintMsgKind::CloseActiveBarMenu |
        FootprintMsgKind::ActiveBarStub |
        FootprintMsgKind::ActiveBarToggleSnap |
        FootprintMsgKind::ActiveBarSetSnappingMode |
        FootprintMsgKind::ActiveBarSetSnapSubTab |
        FootprintMsgKind::ActiveBarSelectAll |
        FootprintMsgKind::ActiveBarClearSelection |
        FootprintMsgKind::ActiveBarSetSketchTool |
        FootprintMsgKind::SetMode |
        FootprintMsgKind::SketchSetTool |
        FootprintMsgKind::SketchToggleConstruction |
        FootprintMsgKind::SketchToggleCenterline |
        FootprintMsgKind::TogglePlacementPause |
        FootprintMsgKind::SketchToolEscape |
        FootprintMsgKind::SketchPlacementInputChar |
        FootprintMsgKind::SketchPlacementInputBackspace |
        FootprintMsgKind::SketchPlacementInputEnter |
        FootprintMsgKind::SketchPlacementInputEscape |
        FootprintMsgKind::SketchSelect |
        FootprintMsgKind::SketchDimensionInput |
        FootprintMsgKind::ToggleSelectionFilter |
        FootprintMsgKind::ApplyFilterPreset |
        FootprintMsgKind::ToggleAllFilters |
        FootprintMsgKind::CaptureFilterPreset |
        FootprintMsgKind::ToggleAutoFit |
        FootprintMsgKind::SelectActiveIdx |
        FootprintMsgKind::ShowContextMenu |
        FootprintMsgKind::CloseContextMenu |
        FootprintMsgKind::ContextMenuOpenSubmenu |
        FootprintMsgKind::ContextMenuAction |
        FootprintMsgKind::FitConsumed |
        FootprintMsgKind::CopyPad |
        FootprintMsgKind::CutPad |
        FootprintMsgKind::PastePad |
        FootprintMsgKind::AlignPads |
        FootprintMsgKind::ActiveBarNudgeSelection |
        FootprintMsgKind::MoveByOpen |
        FootprintMsgKind::MoveBySetX |
        FootprintMsgKind::MoveBySetY |
        FootprintMsgKind::MoveByConfirm |
        FootprintMsgKind::MoveByCancel |
        FootprintMsgKind::MintBody3d |
        FootprintMsgKind::MintExtrudedBody3d |
        FootprintMsgKind::AddTextFrame |
        FootprintMsgKind::Save |
        FootprintMsgKind::Symbol => true,
        _ => false,
    }
}

/// Whether `msg` changes persisted footprint or sketch state, so that an
/// undo snapshot must be taken before it is applied.
pub fn mutates_footprint_state(msg: FootprintMsgKind) -> (r: bool)
    ensures
        r == !is_ui_only(msg),
{
    match msg {
        FootprintMsgKind::CursorAt |
        FootprintMsgKind::SelectPad |
        FootprintMsgKind::SelectSilkF |
        FootprintMsgKind::ToggleLayer |
        FootprintMsgKind::SetPadsTool |
        FootprintMsgKind::ToolEscape |
        FootprintMsgKind::ToggleActiveBarMenu |
        FootprintMsgKind::CloseActiveBarMenu |
        FootprintMsgKind::ActiveBarStub |
        FootprintMsgKind::ActiveBarToggleSnap |
        FootprintMsgKind::ActiveBarSetSnappingMode |
        FootprintMsgKind::ActiveBarSetSnapSubTab |
        FootprintMsgKind::ActiveBarSelectAll |
        FootprintMsgKind::ActiveBarClearSelection |
        FootprintMsgKind::ActiveBarSetSketchTool |
        FootprintMsgKind::SetMode |
        FootprintMsgKind::SketchSetTool |
        FootprintMsgKind::SketchToggleConstruction |
        FootprintMsgKind::SketchToggleCenterline |
        FootprintMsgKind::TogglePlacementPause |
        FootprintMsgKind::SketchToolEscape |
        FootprintMsgKind::SketchPlacementInputChar |
        FootprintMsgKind::SketchPlacementInputBackspace |
        FootprintMsgKind::SketchPlacementInputEnter |
        FootprintMsgKind::SketchPlacementInputEscape |
        FootprintMsgKind::SketchSelect |
        FootprintMsgKind::SketchDimensionInput |
        FootprintMsgKind::ToggleSelectionFilter |
        FootprintMsgKind::ApplyFilterPreset |
        FootprintMsgKind::ToggleAllFilters |
        FootprintMsgKind::CaptureFilterPreset |
        FootprintMsgKind::ToggleAutoFit |
        FootprintMsgKind::SelectActiveIdx |
        FootprintMsgKind::ShowContextMenu |
        FootprintMsgKind::CloseContextMenu |
        FootprintMsgKind::ContextMenuOpenSubmenu |
        FootprintMsgKind::ContextMenuAction |
        FootprintMsgKind::FitConsumed |
        FootprintMsgKind::CopyPad |
        FootprintMsgKind::CutPad |
        FootprintMsgKind::PastePad |
        FootprintMsgKind::AlignPads |
        FootprintMsgKind::ActiveBarNudgeSelection |
        FootprintMsgKind::MoveByOpen |
        FootprintMsgKind::MoveBySetX |
        FootprintMsgKind::MoveBySetY |
        FootprintMsgKind::MoveByConfirm |
        FootprintMsgKind::MoveByCancel |
        FootprintMsgKind::MintBody3d |
        FootprintMsgKind::MintExtrudedBody3d |
        FootprintMsgKind::AddTextFrame |
        FootprintMsgKind::Save |
        FootprintMsgKind::Symbol => false,
        _ => true,
    }
}

/// The pre-routing rewrite of a Role=Pad assignment on sketch entity
/// `id`: on a line it means "make this loop a pad", so the line is
/// selected and the message becomes `SketchMakePadFromProfile`. Returns
/// whether the rewrite applies (the first entity with that id is a
/// line); otherwise nothing changes.
pub fn retarget_pad_role<P, G>(
    editor: &mut FootprintEditor<P, G>,
    entities: &Vec<EntityRef>,
    id: SketchEntityId,
) -> (make_pad: bool)
    ensures
        make_pad == (kind_of(entities@, id) == Some(EntityKindTag::Line)),
        make_pad ==> *final(editor) == (FootprintEditor {
            state: FootprintEditorState { selected_sketch: Some(id), ..old(editor).state },
            ..*old(editor)
        }),
        !make_pad ==> *final(editor) == *old(editor),
{
    match find_kind(entities, id) {
        Some(EntityKindTag::Line) => {
            editor.state.selected_sketch = Some(id);
            true
        },
        _ => false,
    }
}

/// How a message is applied: the message after the pre-routing
/// rewrite, whether an undo snapshot precedes it, and the concern that
/// handles it.
#[derive(Clone, Copy, Debug, PartialEq, Eq, Structural)]
pub struct Route {
    pub msg: FootprintMsgKind,
    pub snapshot: bool,
    pub concern: Concern,
}

/// Route `msg`. `pad_role_on` is the target entity when `msg` assigns
/// the Pad role (`SketchSetRole` with role Pad), else `None`; `entities`
/// lists the sketch's entities.
pub fn apply_footprint_primitive_edit<P, G>(
    editor: &mut FootprintEditor<P, G>,
    msg: FootprintMsgKind,
    pad_role_on: Option<SketchEntityId>,
    entities: &Vec<EntityRef>,
) -> (route: Route)
    ensures
        ({
            let rewritten = msg == FootprintMsgKind::SketchSetRole && pad_role_on is Some
                && kind_of(entities@, pad_role_on.unwrap()) == Some(EntityKindTag::Line);
            &&& route.msg == (if rewritten {
                FootprintMsgKind::SketchMakePadFromProfile
            } else {
                msg
            })
            &&& route.snapshot == !is_ui_only(route.msg)
            &&& route.concern == spec_concern(route.msg)
            &&& *final(editor) == (if rewritten {
                FootprintEditor {
                    state: FootprintEditorState {
                        selected_sketch: pad_role_on,
                        ..old(editor).state
                    },
                    ..*old(editor)
                }
            } else {
                *old(editor)
            })
        }),
{
    let mut routed = msg;
    if let FootprintMsgKind::SketchSetRole = msg {
        if let Some(id) = pad_role_on {
            if retarget_pad_role(editor, entities, id) {
                routed = FootprintMsgKind::SketchMakePadFromProfile;
            }
        }
    }
    Route {
        msg: routed,
        snapshot: mutates_footprint_state(routed),
        concern: concern_of(routed),
    }
}

} // verus!
