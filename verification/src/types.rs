//! State model of the standalone footprint editor.
//!
//! `FootprintEditorState` is the canvas-side state (pads, selection,
//! tool and gesture state); `FootprintEditor` wraps it with the
//! document-level fields the update handlers touch (which footprint of
//! the file is active, the silk graphics of the active footprint, the
//! dirty flag and whether the canvas must be redrawn).
//!
//! Positions are of the caller's type `P`; silk graphics are of the
//! caller's type `G`. Neither is ever inspected here.

use vstd::prelude::*;

verus! {

/// Identifier of a sketch entity (point, line, arc or circle).
pub type SketchEntityId = u64;

/// Board layer a pad lives on (its primary layer).
#[derive(Clone, Copy, Debug, PartialEq, Eq, Structural)]
pub enum FpLayer {
    FCu,
    BCu,
    FMask,
    BMask,
    FPaste,
    BPaste,
    FSilkS,
    BSilkS,
    FFab,
    BFab,
    FCrtYd,
    BCrtYd,
}

/// One pad of the editor's canvas list.
pub struct EditorPad<P> {
    /// Designator, e.g. `"1"` or `"EP"`.
    pub number: String,
    /// Primary layer.
    pub layer: FpLayer,
    /// Centre of the pad.
    pub position: P,
    /// The sketch centre Point this pad mirrors into, once linked.
    pub sketch_entity_id: Option<SketchEntityId>,
    /// The four sketch corner Points of a profile pad, once linked.
    pub corner_entity_ids: Option<Vec<SketchEntityId>>,
}

impl<P: Copy> EditorPad<P> {
    /// A field-for-field copy.
    pub fn duplicate(&self) -> (r: Self)
        ensures
            r.number@ == self.number@,
            r.layer == self.layer,
            r.position == self.position,
            r.sketch_entity_id == self.sketch_entity_id,
            r.corner_entity_ids.is_some() == self.corner_entity_ids.is_some(),
            r.corner_entity_ids.is_some() ==> r.corner_entity_ids.unwrap()@
                == self.corner_entity_ids.unwrap()@,
    {
        let corners = match &self.corner_entity_ids {
            Some(v) => {
                let mut c: Vec<SketchEntityId> = Vec::new();
                let mut i: usize = 0;
                while i < v.len()
                    invariant
                        i <= v.len(),
                        c@ == v@.take(i as int),
                    decreases v.len() - i,
                {
                    c.push(v[i]);
                    assert(v@.take(i + 1) == v@.take(i as int).push(v@[i as int]));
                    i = i + 1;
                }
                assert(v@.take(v.len() as int) == v@);
                Some(c)
            },
            None => None,
        };
        EditorPad {
            number: self.number.clone(),
            layer: self.layer,
            position: self.position,
            sketch_entity_id: self.sketch_entity_id,
            corner_entity_ids: corners,
        }
    }
}

/// How the rubber-band release picks pads.
#[derive(Clone, Copy, Debug, PartialEq, Eq, Structural)]
pub enum FpSelectionMode {
    Inside,
    Touching,
    Outside,
}

/// Kinds of object the selection filter can admit or reject.
#[derive(Clone, Copy, Debug, PartialEq, Eq, Structural)]
pub enum SelectionFilterKind {
    Pads,
    Tracks,
    Arcs,
    Regions,
    Texts,
    SketchEntities,
}

/// Number of filter kinds.
pub const FILTER_KIND_COUNT: usize = 6;

impl SelectionFilterKind {
    /// Slot of the kind in the filter's flag list.
    pub open spec fn spec_slot(self) -> nat {
        match self {
            SelectionFilterKind::Pads => 0,
            SelectionFilterKind::Tracks => 1,
            SelectionFilterKind::Arcs => 2,
            SelectionFilterKind::Regions => 3,
            SelectionFilterKind::Texts => 4,
            SelectionFilterKind::SketchEntities => 5,
        }
    }

    /// Slot of the kind in the filter's flag list.
    pub fn slot(self) -> (r: usize)
        ensures
            r == self.spec_slot(),
            r < FILTER_KIND_COUNT,
    {
        match self {
            SelectionFilterKind::Pads => 0,
            SelectionFilterKind::Tracks => 1,
            SelectionFilterKind::Arcs => 2,
            SelectionFilterKind::Regions => 3,
            SelectionFilterKind::Texts => 4,
            SelectionFilterKind::SketchEntities => 5,
        }
    }
}

/// Which object kinds clicks and sweeps may select: one flag per kind.
pub struct SelectionFilter {
    pub enabled: Vec<bool>,
}

impl SelectionFilter {
    /// One flag per kind.
    pub open spec fn wf(&self) -> bool {
        self.enabled@.len() == FILTER_KIND_COUNT
    }

    /// Whether `kind` is admitted.
    pub open spec fn admits(&self, kind: SelectionFilterKind) -> bool {
        self.enabled@[kind.spec_slot() as int]
    }

    /// A filter that admits every kind.
    pub fn all_on() -> (r: Self)
        ensures
            r.wf(),
            forall|i: int| 0 <= i < FILTER_KIND_COUNT ==> r.enabled@[i],
    {
        let mut enabled: Vec<bool> = Vec::new();
        let mut i: usize = 0;
        while i < FILTER_KIND_COUNT
            invariant
                i <= FILTER_KIND_COUNT,
                enabled@.len() == i,
                forall|k: int| 0 <= k < i ==> enabled@[k],
            decreases FILTER_KIND_COUNT - i,
        {
            enabled.push(true);
            i = i + 1;
        }
        SelectionFilter { enabled }
    }

    /// Whether `kind` is admitted.
    pub fn get(&self, kind: SelectionFilterKind) -> (r: bool)
        requires
            self.wf(),
        ensures
            r == self.admits(kind),
    {
        self.enabled[kind.slot()]
    }

    /// Flip the flag of `kind`; every other flag stays.
    pub fn toggle(&mut self, kind: SelectionFilterKind)
        requires
            old(self).wf(),
        ensures
            final(self).wf(),
            final(self).enabled@ == old(self).enabled@.update(
                kind.spec_slot() as int,
                !old(self).admits(kind),
            ),
    {
        let slot = kind.slot();
        let cur = self.enabled[slot];
        self.enabled.set(slot, !cur);
    }

    /// Set every flag to `on`.
    pub fn set_all(&mut self, on: bool)
        requires
            old(self).wf(),
        ensures
            final(self).wf(),
            forall|i: int| 0 <= i < FILTER_KIND_COUNT ==> final(self).enabled@[i] == on,
    {
        let mut i: usize = 0;
        while i < self.enabled.len()
            invariant
                self.enabled@.len() == FILTER_KIND_COUNT,
                i <= FILTER_KIND_COUNT,
                forall|k: int| 0 <= k < i ==> self.enabled@[k] == on,
            decreases FILTER_KIND_COUNT - i,
        {
            self.enabled.set(i, on);
            i = i + 1;
        }
    }

    /// Whether every flag is on.
    pub fn all_enabled(&self) -> (r: bool)
        ensures
            r == (forall|i: int| 0 <= i < self.enabled@.len() ==> self.enabled@[i]),
    {
        let mut i: usize = 0;
        while i < self.enabled.len()
            invariant
                i <= self.enabled@.len(),
                forall|k: int| 0 <= k < i ==> self.enabled@[k],
            decreases self.enabled@.len() - i,
        {
            if !self.enabled[i] {
                return false;
            }
            i = i + 1;
        }
        true
    }
}

/// Dropdown menus of the active bar.
#[derive(Clone, Copy, Debug, PartialEq, Eq, Structural)]
pub enum FootprintActiveBarMenu {
    Filter,
    Select,
    Place,
    Align,
    Snap,
    SketchCreate,
    SketchModify,
}

/// What a right-click landed on.
#[derive(Clone, Copy, Debug, PartialEq, Eq, Structural)]
pub enum FootprintContextTarget {
    Pad(usize),
    SilkF(usize),
    Empty,
}

/// Submenus of the right-click context menu.
#[derive(Clone, Copy, Debug, PartialEq, Eq, Structural)]
pub enum FootprintContextSubmenu {
    Align,
    Snap,
    Place,
}

/// Actions of the right-click context menu.
#[derive(Clone, Copy, Debug, PartialEq, Eq, Structural)]
pub enum FootprintContextAction {
    SelectAllPads,
    DeselectAll,
    FitToWindow,
}

/// An open right-click menu: where it was opened, on what, and which
/// submenu is unfolded.
pub struct FootprintContextMenuState<P> {
    pub anchor: P,
    pub target: FootprintContextTarget,
    pub submenu: Option<FootprintContextSubmenu>,
}

/// Editing mode of the footprint canvas.
#[derive(Clone, Copy, Debug, PartialEq, Eq, Structural)]
pub enum EditorMode {
    Normal,
    Sketch,
    View3d,
}

/// Tools of the sketch mode.
#[derive(Clone, Copy, Debug, PartialEq, Eq, Structural)]
pub enum SketchTool {
    Select,
    Point,
    Line,
    Rectangle,
    RoundedRectangle,
    Circle,
    Arc,
    TangentArc,
    Fillet,
    Offset,
    Trim,
    Mirror,
    RectPattern,
    CircularPattern,
    BreakTrack,
    DragTrackEnd,
}

/// The in-flight multi-click gesture of the active sketch tool.
#[derive(Clone, Copy, Debug, PartialEq, Eq, Structural)]
pub enum ToolPending {
    Idle,
    LineFirst { first: SketchEntityId },
    RectangleFirst { first: SketchEntityId },
    RoundedRectangleFirst { first: SketchEntityId },
    CircleCenter { center: SketchEntityId },
    ArcCenter { center: SketchEntityId },
    ArcStart { center: SketchEntityId, start: SketchEntityId },
    TangentArcFirst { first: SketchEntityId },
    FilletFirst { line: SketchEntityId },
    RepickPolarCenter { array_id: SketchEntityId },
}

/// Tools of the pads (normal) mode.
#[derive(Clone, Copy, Debug, PartialEq, Eq, Structural)]
pub enum PadsTool {
    Select,
    PlacePad,
    PlaceVia,
    PlaceTrack,
    PlaceArc,
    PlacePolygon,
    PlaceRegion,
    PlaceText,
    PlaceHole,
}

/// The in-flight Place Arc gesture.
pub enum PlaceArcPending<P> {
    Idle,
    Center { center: P },
    Start { center: P, start: P },
}

/// Which dimension a typed placement number sets.
#[derive(Clone, Copy, Debug, PartialEq, Eq, Structural)]
pub enum PlacementInputKind {
    LineLength,
    LineAngle,
    RectWidth,
    RectHeight,
    RRectRadius,
    CircleRadius,
    ArcRadius,
    ArcSweep,
    FilletRadius,
    OffsetDistance,
}

impl PlacementInputKind {
    /// Only an arc sweep may be negative (clockwise).
    pub open spec fn spec_allows_negative(self) -> bool {
        self == PlacementInputKind::ArcSweep
    }

    /// Only an arc sweep may be negative (clockwise).
    pub fn allows_negative(self) -> (r: bool)
        ensures
            r == self.spec_allows_negative(),
    {
        match self {
            PlacementInputKind::ArcSweep => true,
            _ => false,
        }
    }
}

/// A typed number for one dimension of the active gesture.
pub struct PlacementInput {
    pub buffer: String,
    pub kind: PlacementInputKind,
}

/// Align / distribute / spacing operations on a pad selection.
#[derive(Clone, Copy, Debug, PartialEq, Eq, Structural)]
pub enum AlignOp {
    Left,
    Right,
    Top,
    Bottom,
    CenterH,
    CenterV,
    DistributeH,
    DistributeV,
    IncreaseHSpacing,
    DecreaseHSpacing,
    IncreaseVSpacing,
    DecreaseVSpacing,
}

impl AlignOp {
    /// Smallest selection the operation acts on: three pads to
    /// distribute, two for everything else.
    pub open spec fn spec_min_pads(self) -> nat {
        match self {
            AlignOp::DistributeH | AlignOp::DistributeV => 3,
            _ => 2,
        }
    }

    /// Smallest selection the operation acts on.
    pub fn min_pads(self) -> (r: usize)
        ensures
            r == self.spec_min_pads(),
    {
        match self {
            AlignOp::DistributeH | AlignOp::DistributeV => 3,
            _ => 2,
        }
    }
}

/// The "Move Selection by X, Y" dialog: the two typed deltas.
pub struct MoveByModal {
    pub dx_buf: String,
    pub dy_buf: String,
}

/// The "Align…" dialog: one optional operation per axis.
pub struct AlignModal {
    pub horizontal: Option<AlignOp>,
    pub vertical: Option<AlignOp>,
}

/// Snap targets that can be switched on and off from the active bar.
#[derive(Clone, Copy, Debug, PartialEq, Eq, Structural)]
pub enum SnapOptionFlag {
    PointHit,
    HorizontalVertical,
    Angle,
    Grid,
    TrackVertices,
    TrackLines,
    ArcCenters,
    Intersections,
    PadCenters,
    PadVertices,
    PadEdges,
    ViaCenters,
    Texts,
    Regions,
    FootprintOrigins,
    Body3dPoints,
    SnapToGrids,
    SnapToGuides,
    SnapToAxes,
}

/// Number of snap flags.
pub const SNAP_FLAG_COUNT: usize = 19;

impl SnapOptionFlag {
    /// Slot of the flag in `SnapOptions::flags`.
    pub open spec fn spec_slot(self) -> nat {
        match self {
            SnapOptionFlag::PointHit => 0,
            SnapOptionFlag::HorizontalVertical => 1,
            SnapOptionFlag::Angle => 2,
            SnapOptionFlag::Grid => 3,
            SnapOptionFlag::TrackVertices => 4,
            SnapOptionFlag::TrackLines => 5,
            SnapOptionFlag::ArcCenters => 6,
            SnapOptionFlag::Intersections => 7,
            SnapOptionFlag::PadCenters => 8,
            SnapOptionFlag::PadVertices => 9,
            SnapOptionFlag::PadEdges => 10,
            SnapOptionFlag::ViaCenters => 11,
            SnapOptionFlag::Texts => 12,
            SnapOptionFlag::Regions => 13,
            SnapOptionFlag::FootprintOrigins => 14,
            SnapOptionFlag::Body3dPoints => 15,
            SnapOptionFlag::SnapToGrids => 16,
            SnapOptionFlag::SnapToGuides => 17,
            SnapOptionFlag::SnapToAxes => 18,
        }
    }

    /// Slot of the flag in `SnapOptions::flags`.
    pub fn slot(self) -> (r: usize)
        ensures
            r == self.spec_slot(),
            r < SNAP_FLAG_COUNT,
    {
        match self {
            SnapOptionFlag::PointHit => 0,
            SnapOptionFlag::HorizontalVertical => 1,
            SnapOptionFlag::Angle => 2,
            SnapOptionFlag::Grid => 3,
            SnapOptionFlag::TrackVertices => 4,
            SnapOptionFlag::TrackLines => 5,
            SnapOptionFlag::ArcCenters => 6,
            SnapOptionFlag::Intersections => 7,
            SnapOptionFlag::PadCenters => 8,
            SnapOptionFlag::PadVertices => 9,
            SnapOptionFlag::PadEdges => 10,
            SnapOptionFlag::ViaCenters => 11,
            SnapOptionFlag::Texts => 12,
            SnapOptionFlag::Regions => 13,
            SnapOptionFlag::FootprintOrigins => 14,
            SnapOptionFlag::Body3dPoints => 15,
            SnapOptionFlag::SnapToGrids => 16,
            SnapOptionFlag::SnapToGuides => 17,
            SnapOptionFlag::SnapToAxes => 18,
        }
    }
}

/// On/off state of every snap target, one flag per `SnapOptionFlag`.
pub struct SnapOptions {
    pub flags: Vec<bool>,
}

impl SnapOptions {
    /// One flag per snap target.
    pub open spec fn wf(&self) -> bool {
        self.flags@.len() == SNAP_FLAG_COUNT
    }

    /// Whether `flag` is on.
    pub open spec fn is_on(&self, flag: SnapOptionFlag) -> bool {
        self.flags@[flag.spec_slot() as int]
    }
}

/// Canvas-side state of the footprint editor.
pub struct FootprintEditorState<P> {
    pub pads: Vec<EditorPad<P>>,
    pub mode: EditorMode,
    /// Primary pad selection (drives the Properties panel).
    pub selected_pad: Option<usize>,
    /// Further selected pads (highlight only).
    pub selected_pads_extra: Vec<usize>,
    /// Selected front-silk graphic.
    pub selected_silk_f: Option<usize>,
    /// Primary sketch selection.
    pub selected_sketch: Option<SketchEntityId>,
    /// Second sketch selection (two-entity constraints).
    pub selected_sketch_secondary: Option<SketchEntityId>,
    /// Further selected sketch entities.
    pub selected_sketch_extra: Vec<SketchEntityId>,
    /// Last cursor position reported by the canvas.
    pub cursor_mm: Option<P>,
    /// Cursor position of the last pad-selecting click.
    pub last_click_world_mm: Option<P>,
    /// Verbatim numeric field buffers of the Properties panel,
    /// as (field, text) pairs.
    pub numeric_buffers: Vec<(String, String)>,
    pub selection_filter: SelectionFilter,
    pub selection_mode_2d: FpSelectionMode,
    pub active_bar_menu: Option<FootprintActiveBarMenu>,
    pub lasso_mode_active: bool,
    pub lasso_vertices: Vec<P>,
    pub touching_line_active: bool,
    pub touching_line_first: Option<P>,
    pub context_menu: Option<FootprintContextMenuState<P>>,
    /// One-shot request for the canvas to fit the view.
    pub fit_pending: bool,
    pub active_tool: SketchTool,
    pub tool_pending: ToolPending,
    pub construction_mode: bool,
    pub centerline_mode: bool,
    /// The focused typed dimension of the active gesture.
    pub placement_input: Option<PlacementInput>,
    /// Typed dimensions parked while another one has focus.
    pub placement_input_others: Vec<PlacementInput>,
    /// Text of the constraint dimension field.
    pub dimension_input: String,
    pub pads_tool: PadsTool,
    pub track_first: Option<P>,
    pub place_arc_pending: PlaceArcPending<P>,
    pub place_polygon_vertices: Vec<P>,
    /// Tab-pause: clicks of the active tool do not commit.
    pub placement_paused: bool,
    pub snap_options: SnapOptions,
    pub move_by_modal: Option<MoveByModal>,
    pub align_modal: Option<AlignModal>,
    /// Messages for the user about sketch edits that were not applied.
    pub solve_warnings: Vec<String>,
}

impl<P> FootprintEditorState<P> {
    /// The internal lists have their fixed shapes.
    pub open spec fn wf(&self) -> bool {
        &&& self.selection_filter.wf()
        &&& self.snap_options.wf()
    }

    /// Primary and extra pad selection: at most one slot is set, and
    /// every extra follows a primary.
    pub open spec fn pad_selection(&self) -> Seq<usize> {
        match self.selected_pad {
            Some(p) => seq![p] + self.selected_pads_extra@,
            None => self.selected_pads_extra@,
        }
    }
}

/// The standalone footprint editor: canvas state plus the document
/// fields the update handlers read and write.
pub struct FootprintEditor<P, G> {
    pub state: FootprintEditorState<P>,
    /// Number of footprints in the open file.
    pub footprint_count: usize,
    /// Index of the footprint being edited.
    pub active_idx: usize,
    /// Front-silk graphics of the active footprint.
    pub silk_f: Vec<G>,
    /// Unsaved changes exist.
    pub dirty: bool,
    /// The canvas must be redrawn from scratch.
    pub canvas_stale: bool,
}

impl<P, G> FootprintEditor<P, G> {
    /// The editor state is well formed.
    pub open spec fn wf(&self) -> bool {
        self.state.wf()
    }
}

} // verus!
