//! Footprint sketch mode — adding a constraint for the current
//! selection, and the parameter edit.
//!
//! The constraint kind follows from the selection's entity kinds; a
//! dimensional constraint also takes the number typed in the dimension
//! field. Reading that number (and converting degrees to radians for
//! angles) is done by the caller: it hands in the target values as `D`,
//! `None` when the field does not read as a number.

use vstd::prelude::*;
use crate::text::{append_str, chars_of, string_from_chars};
use crate::types::{FootprintEditor, FootprintEditorState, SketchEntityId};

verus! {

/// Kind of a sketch entity.
#[derive(Clone, Copy, Debug, PartialEq, Eq, Structural)]
pub enum EntityKindTag {
    Point,
    Line,
    Arc,
    Circle,
}

/// A sketch entity as constraint selection sees it.
#[derive(Clone, Copy, Debug, PartialEq, Eq, Structural)]
pub struct EntityRef {
    pub id: SketchEntityId,
    pub kind: EntityKindTag,
}

/// Constraint requested from the constraint menu.
#[derive(Clone, Copy, Debug, PartialEq, Eq, Structural)]
pub enum SketchConstraintTag {
    Fixed,
    Coincident,
    DistancePtPt,
    Horizontal,
    Vertical,
    Parallel,
    Perpendicular,
    EqualLength,
    PointOnLine,
    Midpoint,
    TangentLineArc,
    TangentArcArc,
    Angle,
    EqualRadius,
    PointOnArc,
    DistancePtLine,
    DistancePtCircle,
    SymmetricAboutLine,
    SymmetricAboutPoint,
}

/// A constraint between sketch entities; `D` is a dimension target.
#[derive(Clone, Copy, Debug, PartialEq, Eq)]
pub enum ConstraintKind<D> {
    Fixed { point: SketchEntityId },
    Coincident { p1: SketchEntityId, p2: SketchEntityId },
    DistancePtPt { p1: SketchEntityId, p2: SketchEntityId, target: D },
    Horizontal { line: SketchEntityId },
    Vertical { line: SketchEntityId },
    Parallel { l1: SketchEntityId, l2: SketchEntityId },
    Perpendicular { l1: SketchEntityId, l2: SketchEntityId },
    EqualLength { l1: SketchEntityId, l2: SketchEntityId },
    PointOnLine { point: SketchEntityId, line: SketchEntityId },
    Midpoint { point: SketchEntityId, line: SketchEntityId },
    TangentLineArc { line: SketchEntityId, arc: SketchEntityId },
    TangentArcArc { a1: SketchEntityId, a2: SketchEntityId, internal: bool },
    Angle { l1: SketchEntityId, l2: SketchEntityId, target: D },
    EqualRadius { e1: SketchEntityId, e2: SketchEntityId },
    PointOnArc { point: SketchEntityId, arc: SketchEntityId },
    DistancePtLine { point: SketchEntityId, line: SketchEntityId, target: D },
    DistancePtCircle { point: SketchEntityId, circle: SketchEntityId, target: D },
    SymmetricAboutLine { p1: SketchEntityId, p2: SketchEntityId, line: SketchEntityId },
    SymmetricAboutPoint { p1: SketchEntityId, p2: SketchEntityId, center: SketchEntityId },
}

/// Kind of the first entity with id `id`, if the sketch has one.
pub open spec fn kind_of(entities: Seq<EntityRef>, id: SketchEntityId) -> Option<EntityKindTag>
    decreases entities.len(),
{
    if entities.len() == 0 {
        None
    } else if entities[0].id == id {
        Some(entities[0].kind)
    } else {
        kind_of(entities.drop_first(), id)
    }
}

/// Kind of an optionally selected entity.
pub open spec fn kind_of_sel(entities: Seq<EntityRef>, sel: Option<SketchEntityId>) -> Option<
    EntityKindTag,
> {
    match sel {
        Some(id) => kind_of(entities, id),
        None => None,
    }
}

/// Circle or arc.
pub open spec fn is_round(k: Option<EntityKindTag>) -> bool {
    k == Some(EntityKindTag::Circle) || k == Some(EntityKindTag::Arc)
}

/// The constraint the selection yields for `tag`: `p`, `s` are the
/// primary and secondary selection, `x` the first extra, `pk`, `sk`,
/// `xk` their kinds; `dim` and `angle` the typed length and angle
/// targets. Two-entity constraints accept either order of the two
/// kinds; the symmetric constraints take their mirror line or centre
/// point from the first extra.
pub open spec fn constraint_for<D>(
    tag: SketchConstraintTag,
    p: Option<SketchEntityId>,
    s: Option<SketchEntityId>,
    x: Option<SketchEntityId>,
    pk: Option<EntityKindTag>,
    sk: Option<EntityKindTag>,
    xk: Option<EntityKindTag>,
    dim: Option<D>,
    angle: Option<D>,
) -> Option<ConstraintKind<D>> {
    let point = Some(EntityKindTag::Point);
    let line = Some(EntityKindTag::Line);
    let arc = Some(EntityKindTag::Arc);
    if p is None || pk is None {
        None
    } else {
        let a = p.unwrap();
        match tag {
            SketchConstraintTag::Fixed => if pk == point {
                Some(ConstraintKind::Fixed { point: a })
            } else {
                None
            },
            SketchConstraintTag::Horizontal => if pk == line {
                Some(ConstraintKind::Horizontal { line: a })
            } else {
                None
            },
            SketchConstraintTag::Vertical => if pk == line {
                Some(ConstraintKind::Vertical { line: a })
            } else {
                None
            },
            _ => if s is None || sk is None {
                None
            } else {
                let b = s.unwrap();
                match tag {
                    SketchConstraintTag::Coincident => if pk == point && sk == point {
                        Some(ConstraintKind::Coincident { p1: a, p2: b })
                    } else {
                        None
                    },
                    SketchConstraintTag::DistancePtPt => if pk == point && sk == point && dim is Some {
                        Some(ConstraintKind::DistancePtPt { p1: a, p2: b, target: dim.unwrap() })
                    } else {
                        None
                    },
                    SketchConstraintTag::Parallel => if pk == line && sk == line {
                        Some(ConstraintKind::Parallel { l1: a, l2: b })
                    } else {
                        None
                    },
                    SketchConstraintTag::Perpendicular => if pk == line && sk == line {
                        Some(ConstraintKind::Perpendicular { l1: a, l2: b })
                    } else {
                        None
                    },
                    SketchConstraintTag::EqualLength => if pk == line && sk == line {
                        Some(ConstraintKind::EqualLength { l1: a, l2: b })
                    } else {
                        None
                    },
                    SketchConstraintTag::PointOnLine => if pk == point && sk == line {
                        Some(ConstraintKind::PointOnLine { point: a, line: b })
                    } else if pk == line && sk == point {
                        Some(ConstraintKind::PointOnLine { point: b, line: a })
                    } else {
                        None
                    },
                    SketchConstraintTag::Midpoint => if pk == point && sk == line {
                        Some(ConstraintKind::Midpoint { point: a, line: b })
                    } else if pk == line && sk == point {
                        Some(ConstraintKind::Midpoint { point: b, line: a })
                    } else {
                        None
                    },
                    SketchConstraintTag::TangentLineArc => if pk == line && sk == arc {
                        Some(ConstraintKind::TangentLineArc { line: a, arc: b })
                    } else if pk == arc && sk == line {
                        Some(ConstraintKind::TangentLineArc { line: b, arc: a })
                    } else {
                        None
                    },
                    SketchConstraintTag::TangentArcArc => if pk == arc && sk == arc {
                        Some(ConstraintKind::TangentArcArc { a1: a, a2: b, internal: false })
                    } else {
                        None
                    },
                    SketchConstraintTag::Angle => if pk == line && sk == line && angle is Some {
                        Some(ConstraintKind::Angle { l1: a, l2: b, target: angle.unwrap() })
                    } else {
                        None
                    },
                    SketchConstraintTag::EqualRadius => if is_round(pk) && is_round(sk) {
                        Some(ConstraintKind::EqualRadius { e1: a, e2: b })
                    } else {
                        None
                    },
                    SketchConstraintTag::PointOnArc => if pk == point && sk == arc {
                        Some(ConstraintKind::PointOnArc { point: a, arc: b })
                    } else if pk == arc && sk == point {
                        Some(ConstraintKind::PointOnArc { point: b, arc: a })
                    } else {
                        None
                    },
                    SketchConstraintTag::DistancePtLine => if dim is None {
                        None
                    } else if pk == point && sk == line {
                        Some(ConstraintKind::DistancePtLine { point: a, line: b, target: dim.unwrap() })
                    } else if pk == line && sk == point {
                        Some(ConstraintKind::DistancePtLine { point: b, line: a, target: dim.unwrap() })
                    } else {
                        None
                    },
                    SketchConstraintTag::DistancePtCircle => if dim is None {
                        None
                    } else if pk == point && is_round(sk) {
                        Some(
                            ConstraintKind::DistancePtCircle {
                                point: a,
                                circle: b,
                                target: dim.unwrap(),
                            },
                        )
                    } else if is_round(pk) && sk == point {
                        Some(
                            ConstraintKind::DistancePtCircle {
                                point: b,
                                circle: a,
                                target: dim.unwrap(),
                            },
                        )
                    } else {
                        None
                    },
                    SketchConstraintTag::SymmetricAboutLine => if pk == point && sk == point && xk
                        == line && x is Some {
                        Some(ConstraintKind::SymmetricAboutLine { p1: a, p2: b, line: x.unwrap() })
                    } else {
                        None
                    },
                    SketchConstraintTag::SymmetricAboutPoint => if pk == point && sk == point && xk
                        == point && x is Some {
                        Some(
                            ConstraintKind::SymmetricAboutPoint {
                                p1: a,
                                p2: b,
                                center: x.unwrap(),
                            },
                        )
                    } else {
                        None
                    },
                    _ => None,
                }
            },
        }
    }
}

/// The menu entry a constraint belongs to.
pub open spec fn tag_of<D>(k: ConstraintKind<D>) -> SketchConstraintTag {
    match k {
        ConstraintKind::Fixed { .. } => SketchConstraintTag::Fixed,
        ConstraintKind::Coincident { .. } => SketchConstraintTag::Coincident,
        ConstraintKind::DistancePtPt { .. } => SketchConstraintTag::DistancePtPt,
        ConstraintKind::Horizontal { .. } => SketchConstraintTag::Horizontal,
        ConstraintKind::Vertical { .. } => SketchConstraintTag::Vertical,
        ConstraintKind::Parallel { .. } => SketchConstraintTag::Parallel,
        ConstraintKind::Perpendicular { .. } => SketchConstraintTag::Perpendicular,
        ConstraintKind::EqualLength { .. } => SketchConstraintTag::EqualLength,
        ConstraintKind::PointOnLine { .. } => SketchConstraintTag::PointOnLine,
        ConstraintKind::Midpoint { .. } => SketchConstraintTag::Midpoint,
        ConstraintKind::TangentLineArc { .. } => SketchConstraintTag::TangentLineArc,
        ConstraintKind::TangentArcArc { .. } => SketchConstraintTag::TangentArcArc,
        ConstraintKind::Angle { .. } => SketchConstraintTag::Angle,
        ConstraintKind::EqualRadius { .. } => SketchConstraintTag::EqualRadius,
        ConstraintKind::PointOnArc { .. } => SketchConstraintTag::PointOnArc,
        ConstraintKind::DistancePtLine { .. } => SketchConstraintTag::DistancePtLine,
        ConstraintKind::DistancePtCircle { .. } => SketchConstraintTag::DistancePtCircle,
        ConstraintKind::SymmetricAboutLine { .. } => SketchConstraintTag::SymmetricAboutLine,
        ConstraintKind::SymmetricAboutPoint { .. } => SketchConstraintTag::SymmetricAboutPoint,
    }
}

/// The entities a constraint ties together.
pub open spec fn constrained<D>(k: ConstraintKind<D>) -> Set<SketchEntityId> {
    match k {
        ConstraintKind::Fixed { point } => set![point],
        ConstraintKind::Coincident { p1, p2 } => set![p1, p2],
        ConstraintKind::DistancePtPt { p1, p2, .. } => set![p1, p2],
        ConstraintKind::Horizontal { line } => set![line],
        ConstraintKind::Vertical { line } => set![line],
        ConstraintKind::Parallel { l1, l2 } => set![l1, l2],
        ConstraintKind::Perpendicular { l1, l2 } => set![l1, l2],
        ConstraintKind::EqualLength { l1, l2 } => set![l1, l2],
        ConstraintKind::PointOnLine { point, line } => set![point, line],
        ConstraintKind::Midpoint { point, line } => set![point, line],
        ConstraintKind::TangentLineArc { line, arc } => set![line, arc],
        ConstraintKind::TangentArcArc { a1, a2, .. } => set![a1, a2],
        ConstraintKind::Angle { l1, l2, .. } => set![l1, l2],
        ConstraintKind::EqualRadius { e1, e2 } => set![e1, e2],
        ConstraintKind::PointOnArc { point, arc } => set![point, arc],
        ConstraintKind::DistancePtLine { point, line, .. } => set![point, line],
        ConstraintKind::DistancePtCircle { point, circle, .. } => set![point, circle],
        ConstraintKind::SymmetricAboutLine { p1, p2, line } => set![p1, p2, line],
        ConstraintKind::SymmetricAboutPoint { p1, p2, center } => set![p1, p2, center],
    }
}

/// Each entity a constraint ties has the kind its role asks for (a
/// point where a point is meant, a line where a line is meant, a circle
/// or arc where a radius is meant), by the kinds `entities` gives.
pub open spec fn roles_well_kinded<D>(k: ConstraintKind<D>, entities: Seq<EntityRef>) -> bool {
    let pt = |e: SketchEntityId| kind_of(entities, e) == Some(EntityKindTag::Point);
    let ln = |e: SketchEntityId| kind_of(entities, e) == Some(EntityKindTag::Line);
    let ar = |e: SketchEntityId| kind_of(entities, e) == Some(EntityKindTag::Arc);
    let rd = |e: SketchEntityId| is_round(kind_of(entities, e));
    match k {
        ConstraintKind::Fixed { point } => pt(point),
        ConstraintKind::Coincident { p1, p2 } => pt(p1) && pt(p2),
        ConstraintKind::DistancePtPt { p1, p2, .. } => pt(p1) && pt(p2),
        ConstraintKind::Horizontal { line } => ln(line),
        ConstraintKind::Vertical { line } => ln(line),
        ConstraintKind::Parallel { l1, l2 } => ln(l1) && ln(l2),
        ConstraintKind::Perpendicular { l1, l2 } => ln(l1) && ln(l2),
        ConstraintKind::EqualLength { l1, l2 } => ln(l1) && ln(l2),
        ConstraintKind::PointOnLine { point, line } => pt(point) && ln(line),
        ConstraintKind::Midpoint { point, line } => pt(point) && ln(line),
        ConstraintKind::TangentLineArc { line, arc } => ln(line) && ar(arc),
        ConstraintKind::TangentArcArc { a1, a2, .. } => ar(a1) && ar(a2),
        ConstraintKind::Angle { l1, l2, .. } => ln(l1) && ln(l2),
        ConstraintKind::EqualRadius { e1, e2 } => rd(e1) && rd(e2),
        ConstraintKind::PointOnArc { point, arc } => pt(point) && ar(arc),
        ConstraintKind::DistancePtLine { point, line, .. } => pt(point) && ln(line),
        ConstraintKind::DistancePtCircle { point, circle, .. } => pt(point) && rd(circle),
        ConstraintKind::SymmetricAboutLine { p1, p2, line } => pt(p1) && pt(p2) && ln(line),
        ConstraintKind::SymmetricAboutPoint { p1, p2, center } => pt(p1) && pt(p2) && pt(center),
    }
}

/// The number a constraint carries, if any: lengths come from `dim`,
/// angles from `angle`.
pub open spec fn target_from<D>(k: ConstraintKind<D>, dim: Option<D>, angle: Option<D>) -> bool {
    match k {
        ConstraintKind::DistancePtPt { target, .. } => dim == Some(target),
        ConstraintKind::DistancePtLine { target, .. } => dim == Some(target),
        ConstraintKind::DistancePtCircle { target, .. } => dim == Some(target),
        ConstraintKind::Angle { target, .. } => angle == Some(target),
        _ => true,
    }
}

/// For the selection of a sketch, the constraint an entry yields puts
/// each selected entity in a role of its kind and takes its number
/// from the matching field.
pub proof fn lemma_constraint_roles<D>(
    tag: SketchConstraintTag,
    entities: Seq<EntityRef>,
    p: Option<SketchEntityId>,
    s: Option<SketchEntityId>,
    x: Option<SketchEntityId>,
    dim: Option<D>,
    angle: Option<D>,
)
    ensures
        constraint_for(
            tag,
            p,
            s,
            x,
            kind_of_sel(entities, p),
            kind_of_sel(entities, s),
            kind_of_sel(entities, x),
            dim,
            angle,
        ) matches Some(k) ==> roles_well_kinded(k, entities) && target_from(k, dim, angle),
{
}

/// A constraint produced for a menu entry is of the kind that entry
/// names, ties the primary selection (and only selected entities), and
/// the line-pair entries always succeed on two selected lines: e.g.
/// Perpendicular on lines 1 and 2 yields a Perpendicular constraint
/// between 1 and 2.
pub proof fn lemma_constraint_matches_tag<D>(
    tag: SketchConstraintTag,
    p: Option<SketchEntityId>,
    s: Option<SketchEntityId>,
    x: Option<SketchEntityId>,
    pk: Option<EntityKindTag>,
    sk: Option<EntityKindTag>,
    xk: Option<EntityKindTag>,
    dim: Option<D>,
    angle: Option<D>,
)
    ensures
        constraint_for(tag, p, s, x, pk, sk, xk, dim, angle) matches Some(k) ==> {
            &&& tag_of(k) == tag
            &&& p is Some && constrained(k).contains(p.unwrap())
            &&& forall|e: SketchEntityId| #[trigger] constrained(k).contains(e) ==> (Some(e) == p
                || Some(e) == s || Some(e) == x)
        },
        p is Some && s is Some && pk == Some(EntityKindTag::Line) && sk == Some(
            EntityKindTag::Line,
        ) && (tag == SketchConstraintTag::Parallel || tag == SketchConstraintTag::Perpendicular
            || tag == SketchConstraintTag::EqualLength) ==> constraint_for(
            tag,
            p,
            s,
            x,
            pk,
            sk,
            xk,
            dim,
            angle,
        ) is Some && tag_of(constraint_for(tag, p, s, x, pk, sk, xk, dim, angle).unwrap()) == tag
            && constrained(constraint_for(tag, p, s, x, pk, sk, xk, dim, angle).unwrap()) == set![
            p.unwrap(),
            s.unwrap(),
        ],
{
}

/// Kind of the first entity with id `id`.
pub fn find_kind(entities: &Vec<EntityRef>, id: SketchEntityId) -> (r: Option<EntityKindTag>)
    ensures
        r == kind_of(entities@, id),
{
    let mut i: usize = 0;
    assert(entities@.subrange(0, entities@.len() as int) =~= entities@);
    while i < entities.len()
        invariant
            i <= entities@.len(),
            kind_of(entities@, id) == kind_of(
                entities@.subrange(i as int, entities@.len() as int),
                id,
            ),
        decreases entities@.len() - i,
    {
        let ghost rest = entities@.subrange(i as int, entities@.len() as int);
        assert(rest.drop_first() =~= entities@.subrange(i + 1, entities@.len() as int));
        assert(rest[0] == entities@[i as int]);
        if entities[i].id == id {
            return Some(entities[i].kind);
        }
        i = i + 1;
    }
    assert(entities@.subrange(i as int, entities@.len() as int) =~= Seq::<EntityRef>::empty());
    None
}

fn kind_of_selection(entities: &Vec<EntityRef>, sel: Option<SketchEntityId>) -> (r: Option<
    EntityKindTag,
>)
    ensures
        r == kind_of_sel(entities@, sel),
{
    match sel {
        Some(id) => find_kind(entities, id),
        None => None,
    }
}

fn round(k: Option<EntityKindTag>) -> (r: bool)
    ensures
        r == is_round(k),
{
    k == Some(EntityKindTag::Circle) || k == Some(EntityKindTag::Arc)
}

/// The constraint the current sketch selection yields for `tag`
/// (see `constraint_for`); `entities` lists the sketch's entities.
pub fn constraint_for_selection<D: Copy>(
    tag: SketchConstraintTag,
    entities: &Vec<EntityRef>,
    primary: Option<SketchEntityId>,
    secondary: Option<SketchEntityId>,
    extra: Option<SketchEntityId>,
    dim: Option<D>,
    angle: Option<D>,
) -> (r: Option<ConstraintKind<D>>)
    ensures
        r == constraint_for(
            tag,
            primary,
            secondary,
            extra,
            kind_of_sel(entities@, primary),
            kind_of_sel(entities@, secondary),
            kind_of_sel(entities@, extra),
            dim,
            angle,
        ),
{
    let pk = kind_of_selection(entities, primary);
    let sk = kind_of_selection(entities, secondary);
    let xk = kind_of_selection(entities, extra);
    let point = Some(EntityKindTag::Point);
    let line = Some(EntityKindTag::Line);
    let arc = Some(EntityKindTag::Arc);
    let a = match (primary, pk) {
        (Some(a), Some(_)) => a,
        _ => return None,
    };
    match tag {
        SketchConstraintTag::Fixed => {
            return if pk == point {
                Some(ConstraintKind::Fixed { point: a })
            } else {
                None
            };
        },
        SketchConstraintTag::Horizontal => {
            return if pk == line {
                Some(ConstraintKind::Horizontal { line: a })
            } else {
                None
            };
        },
        SketchConstraintTag::Vertical => {
            return if pk == line {
                Some(ConstraintKind::Vertical { line: a })
            } else {
                None
            };
        },
        _ => {},
    }
    let b = match (secondary, sk) {
        (Some(b), Some(_)) => b,
        _ => return None,
    };
    match tag {
        SketchConstraintTag::Coincident => if pk == point && sk == point {
            Some(ConstraintKind::Coincident { p1: a, p2: b })
        } else {
            None
        },
        SketchConstraintTag::DistancePtPt => match dim {
            Some(t) if pk == point && sk == point => Some(
                ConstraintKind::DistancePtPt { p1: a, p2: b, target: t },
            ),
            _ => None,
        },
        SketchConstraintTag::Parallel => if pk == line && sk == line {
            Some(ConstraintKind::Parallel { l1: a, l2: b })
        } else {
            None
        },
        SketchConstraintTag::Perpendicular => if pk == line && sk == line {
            Some(ConstraintKind::Perpendicular { l1: a, l2: b })
        } else {
            None
        },
        SketchConstraintTag::EqualLength => if pk == line && sk == line {
            Some(ConstraintKind::EqualLength { l1: a, l2: b })
        } else {
            None
        },
        SketchConstraintTag::PointOnLine => if pk == point && sk == line {
            Some(ConstraintKind::PointOnLine { point: a, line: b })
        } else if pk == line && sk == point {
            Some(ConstraintKind::PointOnLine { point: b, line: a })
        } else {
            None
        },
        SketchConstraintTag::Midpoint => if pk == point && sk == line {
            Some(ConstraintKind::Midpoint { point: a, line: b })
        } else if pk == line && sk == point {
            Some(ConstraintKind::Midpoint { point: b, line: a })
        } else {
            None
        },
        SketchConstraintTag::TangentLineArc => if pk == line && sk == arc {
            Some(ConstraintKind::TangentLineArc { line: a, arc: b })
        } else if pk == arc && sk == line {
            Some(ConstraintKind::TangentLineArc { line: b, arc: a })
        } else {
            None
        },
        SketchConstraintTag::TangentArcArc => if pk == arc && sk == arc {
            Some(ConstraintKind::TangentArcArc { a1: a, a2: b, internal: false })
        } else {
            None
        },
        SketchConstraintTag::Angle => match angle {
            Some(t) if pk == line && sk == line => Some(
                ConstraintKind::Angle { l1: a, l2: b, target: t },
            ),
            _ => None,
        },
        SketchConstraintTag::EqualRadius => if round(pk) && round(sk) {
            Some(ConstraintKind::EqualRadius { e1: a, e2: b })
        } else {
            None
        },
        SketchConstraintTag::PointOnArc => if pk == point && sk == arc {
            Some(ConstraintKind::PointOnArc { point: a, arc: b })
        } else if pk == arc && sk == point {
            Some(ConstraintKind::PointOnArc { point: b, arc: a })
        } else {
            None
        },
        SketchConstraintTag::DistancePtLine => match dim {
            None => None,
            Some(t) => if pk == point && sk == line {
                Some(ConstraintKind::DistancePtLine { point: a, line: b, target: t })
            } else if pk == line && sk == point {
                Some(ConstraintKind::DistancePtLine { point: b, line: a, target: t })
            } else {
                None
            },
        },
        SketchConstraintTag::DistancePtCircle => match dim {
            None => None,
            Some(t) => if pk == point && round(sk) {
                Some(ConstraintKind::DistancePtCircle { point: a, circle: b, target: t })
            } else if round(pk) && sk == point {
                Some(ConstraintKind::DistancePtCircle { point: b, circle: a, target: t })
            } else {
                None
            },
        },
        SketchConstraintTag::SymmetricAboutLine => match extra {
            Some(l) if pk == point && sk == point && xk == line => Some(
                ConstraintKind::SymmetricAboutLine { p1: a, p2: b, line: l },
            ),
            _ => None,
        },
        SketchConstraintTag::SymmetricAboutPoint => match extra {
            Some(c) if pk == point && sk == point && xk == point => Some(
                ConstraintKind::SymmetricAboutPoint { p1: a, p2: b, center: c },
            ),
            _ => None,
        },
        _ => None,
    }
}


/// Name of a constraint tag, as messages show it.
pub open spec fn tag_name(tag: SketchConstraintTag) -> Seq<char> {
    match tag {
        SketchConstraintTag::Fixed => "Fixed"@,
        SketchConstraintTag::Coincident => "Coincident"@,
        SketchConstraintTag::DistancePtPt => "DistancePtPt"@,
        SketchConstraintTag::Horizontal => "Horizontal"@,
        SketchConstraintTag::Vertical => "Vertical"@,
        SketchConstraintTag::Parallel => "Parallel"@,
        SketchConstraintTag::Perpendicular => "Perpendicular"@,
        SketchConstraintTag::EqualLength => "EqualLength"@,
        SketchConstraintTag::PointOnLine => "PointOnLine"@,
        SketchConstraintTag::Midpoint => "Midpoint"@,
        SketchConstraintTag::TangentLineArc => "TangentLineArc"@,
        SketchConstraintTag::TangentArcArc => "TangentArcArc"@,
        SketchConstraintTag::Angle => "Angle"@,
        SketchConstraintTag::EqualRadius => "EqualRadius"@,
        SketchConstraintTag::PointOnArc => "PointOnArc"@,
        SketchConstraintTag::DistancePtLine => "DistancePtLine"@,
        SketchConstraintTag::DistancePtCircle => "DistancePtCircle"@,
        SketchConstraintTag::SymmetricAboutLine => "SymmetricAboutLine"@,
        SketchConstraintTag::SymmetricAboutPoint => "SymmetricAboutPoint"@,
    }
}

/// Name of a constraint tag, as messages show it.
pub fn tag_text(tag: SketchConstraintTag) -> (r: &'static str)
    ensures
        r@ == tag_name(tag),
{
    match tag {
        SketchConstraintTag::Fixed => "Fixed",
        SketchConstraintTag::Coincident => "Coincident",
        SketchConstraintTag::DistancePtPt => "DistancePtPt",
        SketchConstraintTag::Horizontal => "Horizontal",
        SketchConstraintTag::Vertical => "Vertical",
        SketchConstraintTag::Parallel => "Parallel",
        SketchConstraintTag::Perpendicular => "Perpendicular",
        SketchConstraintTag::EqualLength => "EqualLength",
        SketchConstraintTag::PointOnLine => "PointOnLine",
        SketchConstraintTag::Midpoint => "Midpoint",
        SketchConstraintTag::TangentLineArc => "TangentLineArc",
        SketchConstraintTag::TangentArcArc => "TangentArcArc",
        SketchConstraintTag::Angle => "Angle",
        SketchConstraintTag::EqualRadius => "EqualRadius",
        SketchConstraintTag::PointOnArc => "PointOnArc",
        SketchConstraintTag::DistancePtLine => "DistancePtLine",
        SketchConstraintTag::DistancePtCircle => "DistancePtCircle",
        SketchConstraintTag::SymmetricAboutLine => "SymmetricAboutLine",
        SketchConstraintTag::SymmetricAboutPoint => "SymmetricAboutPoint",
    }
}

/// The trimmed dimension text when it is present but does not read as
/// a number, `None` when it is empty or reads as one. `reads_as_number`
/// says whether the trimmed text parses as a floating-point number (the
/// caller parses it).
pub fn dim_input_error(dimension_input: &str, reads_as_number: bool) -> (r: Option<String>)
    ensures
        ({
            let typed = crate::text::trimmed(dimension_input@);
            if typed.len() == 0 || reads_as_number {
                r is None
            } else {
                r is Some && r.unwrap()@ == typed
            }
        }),
{
    let cs = chars_of(dimension_input);
    let typed = crate::text::trim_chars(&cs);
    if typed.len() == 0 || reads_as_number {
        return None;
    }
    Some(string_from_chars(&typed))
}

/// The message for a constraint that was asked for and not added:
/// either the dimension field did not read as a number, or the
/// selection does not fit the constraint.
pub open spec fn not_added_message(tag: SketchConstraintTag, bad_dimension: Option<Seq<char>>) -> Seq<
    char,
> {
    match bad_dimension {
        Some(buffer) => tag_name(tag) + ": \""@ + buffer
            + "\" is not a valid dimension \u{2014} no constraint was added. Enter a number using \".\" as the decimal separator (degrees for Angle)."@,
        None => tag_name(tag)
            + ": the current selection does not match this constraint \u{2014} no constraint was added. Check the number and kinds of selected entities."@,
    }
}

/// Report a constraint that was not added: the message goes to the
/// sketch warnings and the canvas redraws.
pub fn report_constraint_not_added<P, G>(
    editor: &mut FootprintEditor<P, G>,
    tag: SketchConstraintTag,
    bad_dimension: Option<String>,
)
    ensures
        ({
            let bad: Option<Seq<char>> = match bad_dimension {
                Some(b) => Some(b@),
                None => None,
            };
            &&& final(editor).state.solve_warnings@.len() == old(editor).state.solve_warnings@.len()
                + 1
            &&& final(editor).state.solve_warnings@.take(
                old(editor).state.solve_warnings@.len() as int,
            ) == old(editor).state.solve_warnings@
            &&& final(editor).state.solve_warnings@.last()@ == not_added_message(tag, bad)
            &&& *final(editor) == (FootprintEditor {
                state: FootprintEditorState {
                    solve_warnings: final(editor).state.solve_warnings,
                    ..old(editor).state
                },
                canvas_stale: true,
                ..*old(editor)
            })
        }),
{
    let mut w = String::new();
    append_str(&mut w, tag_text(tag));
    match &bad_dimension {
        Some(buffer) => {
            append_str(&mut w, ": \"");
            append_str(&mut w, buffer.as_str());
            append_str(
                &mut w,
                "\" is not a valid dimension \u{2014} no constraint was added. Enter a number using \".\" as the decimal separator (degrees for Angle).",
            );
        },
        None => {
            append_str(
                &mut w,
                ": the current selection does not match this constraint \u{2014} no constraint was added. Check the number and kinds of selected entities.",
            );
        },
    }
    editor.state.solve_warnings.push(w);
    editor.canvas_stale = true;
    assert(editor.state.solve_warnings@.take(old(editor).state.solve_warnings@.len() as int)
        =~= old(editor).state.solve_warnings@);
}

/// Add the constraint `tag` for the current sketch selection
/// (primary, secondary, first extra). When the selection yields a
/// constraint (see `constraint_for`) it is handed back for the caller
/// to add through the sketch solver, and the document is dirty. When it
/// does not, nothing is added and the reason is reported
/// (`report_constraint_not_added`): a dimension field that is non-empty
/// and does not read as a number, else a selection mismatch.
/// `dim` / `angle` are the typed targets (`None` unless the trimmed
/// field reads as a number, which `reads_as_number` also says).
pub fn add_constraint_for_selection<P, G, D: Copy>(
    editor: &mut FootprintEditor<P, G>,
    tag: SketchConstraintTag,
    entities: &Vec<EntityRef>,
    dim: Option<D>,
    angle: Option<D>,
    reads_as_number: bool,
) -> (added: Option<ConstraintKind<D>>)
    ensures
        ({
            let o = old(editor).state;
            let x: Option<SketchEntityId> = if o.selected_sketch_extra@.len() > 0 {
                Some(o.selected_sketch_extra@[0])
            } else {
                None
            };
            let c = constraint_for(
                tag,
                o.selected_sketch,
                o.selected_sketch_secondary,
                x,
                kind_of_sel(entities@, o.selected_sketch),
                kind_of_sel(entities@, o.selected_sketch_secondary),
                kind_of_sel(entities@, x),
                dim,
                angle,
            );
            let typed = crate::text::trimmed(o.dimension_input@);
            let bad: Option<Seq<char>> = if typed.len() == 0 || reads_as_number {
                None
            } else {
                Some(typed)
            };
            &&& added == c
            &&& c is Some ==> *final(editor) == (FootprintEditor {
                dirty: true,
                canvas_stale: true,
                ..*old(editor)
            })
            &&& c is None ==> {
                &&& final(editor).state.solve_warnings@ == o.solve_warnings@.push(
                    final(editor).state.solve_warnings@.last(),
                )
                &&& final(editor).state.solve_warnings@.last()@ == not_added_message(tag, bad)
                &&& *final(editor) == (FootprintEditor {
                    state: FootprintEditorState {
                        solve_warnings: final(editor).state.solve_warnings,
                        ..o
                    },
                    canvas_stale: true,
                    ..*old(editor)
                })
            }
        }),
{
    let extra = if editor.state.selected_sketch_extra.len() > 0 {
        Some(editor.state.selected_sketch_extra[0])
    } else {
        None
    };
    let c = constraint_for_selection(
        tag,
        entities,
        editor.state.selected_sketch,
        editor.state.selected_sketch_secondary,
        extra,
        dim,
        angle,
    );
    match c {
        Some(k) => {
            editor.dirty = true;
            editor.canvas_stale = true;
            Some(k)
        },
        None => {
            let bad = dim_input_error(editor.state.dimension_input.as_str(), reads_as_number);
            let ghost before = editor.state.solve_warnings@;
            report_constraint_not_added(editor, tag, bad);
            assert(editor.state.solve_warnings@ =~= before.push(editor.state.solve_warnings@.last()));
            None
        },
    }
}

/// Edit a sketch parameter. The caller applies the edit through the
/// sketch solver; the document is dirty and the canvas redraws.
pub fn edit_parameter<P, G>(editor: &mut FootprintEditor<P, G>)
    ensures
        *final(editor) == (FootprintEditor { dirty: true, canvas_stale: true, ..*old(editor) }),
{
    editor.canvas_stale = true;
    editor.dirty = true;
}

} // verus!
