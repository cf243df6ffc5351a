//! Side-by-side stereo layout: the surface is split into a left-eye and a
//! right-eye viewport, each half the width and the full height.
use vstd::prelude::*;

verus! {

/// A GL viewport rectangle, in pixels.
#[derive(Clone, Copy, Debug, PartialEq, Eq, Structural)]
pub struct Viewport {
    pub x: i32,
    pub y: i32,
    pub ancho: i32,
    pub alto: i32,
}

/// The two viewports drawn in one frame.
#[derive(Clone, Copy, Debug, PartialEq, Eq, Structural)]
pub struct PlanFrame {
    pub izquierdo: Viewport,
    pub derecho: Viewport,
}

/// Integer halving as `i32` division does it: rounding toward zero.
pub open spec fn mitad(v: int) -> int {
    if v >= 0 {
        v / 2
    } else {
        -((-v) / 2)
    }
}

/// The surface dimension in use: the one the surface reports now, or the
/// one stored when the renderer was made if the query failed.
pub open spec fn dimension_vigente(consulta: Option<i32>, guardada: i32) -> i32 {
    match consulta {
        Some(v) => v,
        None => guardada,
    }
}

/// `m` is half of `ancho`, rounded toward zero: twice `m` falls short of
/// `ancho` by 0 or 1 column, on the side of zero.
pub open spec fn mitad_de(ancho: i32, m: i32) -> bool {
    if ancho >= 0 {
        2 * m <= ancho <= 2 * m + 1
    } else {
        2 * m - 1 <= ancho <= 2 * m
    }
}

/// The stereo layout of a surface `ancho` x `alto`.
pub open spec fn plan_estereo(ancho: i32, alto: i32) -> PlanFrame {
    let media = mitad(ancho as int) as i32;
    PlanFrame {
        izquierdo: Viewport { x: 0, y: 0, ancho: media, alto },
        derecho: Viewport { x: media, y: 0, ancho: media, alto },
    }
}

/// Picks the dimension to draw with: the queried one when the query
/// succeeded, else the stored one.
pub fn dimension_superficie(consulta: Option<i32>, guardada: i32) -> (d: i32)
    ensures
        d == dimension_vigente(consulta, guardada),
        consulta matches Some(v) ==> d == v,
        consulta is None ==> d == guardada,
{
    match consulta {
        Some(v) => v,
        None => guardada,
    }
}

/// Splits a surface of `ancho` x `alto` pixels into the left-eye viewport
/// (left half) and the right-eye viewport (right half).
pub fn viewports_estereo(ancho: i32, alto: i32) -> (plan: PlanFrame)
    ensures
        plan == plan_estereo(ancho, alto),
        mitad_de(ancho, plan.izquierdo.ancho),
        plan.izquierdo.x == 0 && plan.izquierdo.y == 0 && plan.derecho.y == 0,
        plan.derecho.x == plan.izquierdo.ancho && plan.derecho.ancho == plan.izquierdo.ancho,
        plan.izquierdo.alto == alto && plan.derecho.alto == alto,
{
    let media = ancho / 2;
    PlanFrame {
        izquierdo: Viewport { x: 0, y: 0, ancho: media, alto },
        derecho: Viewport { x: media, y: 0, ancho: media, alto },
    }
}

/// The layout of one frame: the surface size is queried anew each frame
/// (falling back to the stored size when a query fails), then split in two.
pub fn planificar_frame(
    consulta_ancho: Option<i32>,
    consulta_alto: Option<i32>,
    ancho_guardado: i32,
    alto_guardado: i32,
) -> (plan: PlanFrame)
    ensures
        plan == plan_estereo(
            dimension_vigente(consulta_ancho, ancho_guardado),
            dimension_vigente(consulta_alto, alto_guardado),
        ),
        ({
            let ancho = match consulta_ancho {
                Some(v) => v,
                None => ancho_guardado,
            };
            let alto = match consulta_alto {
                Some(v) => v,
                None => alto_guardado,
            };
            &&& mitad_de(ancho, plan.izquierdo.ancho)
            &&& plan.izquierdo.x == 0 && plan.izquierdo.y == 0 && plan.derecho.y == 0
            &&& plan.derecho.x == plan.izquierdo.ancho
            &&& plan.derecho.ancho == plan.izquierdo.ancho
            &&& plan.izquierdo.alto == alto && plan.derecho.alto == alto
        }),
{
    let ancho = dimension_superficie(consulta_ancho, ancho_guardado);
    let alto = dimension_superficie(consulta_alto, alto_guardado);
    viewports_estereo(ancho, alto)
}

/// A successful size query always wins over the stored size, whatever the
/// values: the frame is laid out on the queried width and height, and the
/// stored ones are used only for a query that failed.
pub proof fn lemma_consulta_prevalece(
    consulta_ancho: Option<i32>,
    consulta_alto: Option<i32>,
    ancho_guardado: i32,
    alto_guardado: i32,
)
    ensures
        forall|v: i32, g: i32| dimension_vigente(Some(v), g) == v,
        forall|g: i32| dimension_vigente(None, g) == g,
        ({
            let p = plan_estereo(
                dimension_vigente(consulta_ancho, ancho_guardado),
                dimension_vigente(consulta_alto, alto_guardado),
            );
            &&& consulta_ancho matches Some(w) ==> mitad_de(w, p.izquierdo.ancho)
                && p.derecho.x == p.izquierdo.ancho && p.derecho.ancho == p.izquierdo.ancho
            &&& consulta_ancho is None ==> mitad_de(ancho_guardado, p.izquierdo.ancho)
            &&& consulta_alto matches Some(h) ==> p.izquierdo.alto == h && p.derecho.alto == h
            &&& consulta_alto is None ==> p.izquierdo.alto == alto_guardado
                && p.derecho.alto == alto_guardado
        }),
{
}

/// On a surface of non-negative width the two eyes get equal, adjacent,
/// non-overlapping halves of full height that together leave at most one
/// column unused, starting at the left edge.
pub proof fn lemma_mitades_contiguas(ancho: i32, alto: i32)
    requires
        ancho >= 0,
    ensures
        ({
            let p = plan_estereo(ancho, alto);
            &&& p.izquierdo.x == 0 && p.izquierdo.y == 0 && p.derecho.y == 0
            &&& p.derecho.x == p.izquierdo.x + p.izquierdo.ancho
            &&& p.izquierdo.ancho == p.derecho.ancho
            &&& p.izquierdo.alto == alto && p.derecho.alto == alto
            &&& p.izquierdo.ancho >= 0
            &&& ancho - 1 <= p.derecho.x + p.derecho.ancho <= ancho
        }),
{
}

} // verus!
