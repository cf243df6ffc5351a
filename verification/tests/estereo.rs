use cliente_vr_pandasz::estereo::{
    dimension_superficie, planificar_frame, viewports_estereo, PlanFrame, Viewport,
};

#[test]
fn mitades_de_pantalla() {
    let p = viewports_estereo(2400, 1080);
    assert_eq!(p.izquierdo, Viewport { x: 0, y: 0, ancho: 1200, alto: 1080 });
    assert_eq!(p.derecho, Viewport { x: 1200, y: 0, ancho: 1200, alto: 1080 });
}

#[test]
fn ancho_impar_pierde_una_columna() {
    let p = viewports_estereo(1081, 500);
    assert_eq!(p.izquierdo.ancho, 540);
    assert_eq!(p.derecho.x, 540);
    assert_eq!(p.derecho.ancho, 540);
}

#[test]
fn ancho_negativo_se_divide_hacia_cero() {
    let p = viewports_estereo(-3, 10);
    assert_eq!(p.izquierdo.ancho, -1);
    assert_eq!(p.derecho.x, -1);
}

#[test]
fn dimension_consultada_o_guardada() {
    assert_eq!(dimension_superficie(Some(800), 640), 800);
    assert_eq!(dimension_superficie(None, 640), 640);
}

#[test]
fn plan_con_consulta_fallida() {
    let p = planificar_frame(None, Some(720), 1920, 1080);
    assert_eq!(
        p,
        PlanFrame {
            izquierdo: Viewport { x: 0, y: 0, ancho: 960, alto: 720 },
            derecho: Viewport { x: 960, y: 0, ancho: 960, alto: 720 },
        }
    );
}

#[test]
fn plan_con_consulta_exitosa() {
    let p = planificar_frame(Some(1000), Some(400), 1920, 1080);
    assert_eq!(p.izquierdo, Viewport { x: 0, y: 0, ancho: 500, alto: 400 });
    assert_eq!(p.derecho, Viewport { x: 500, y: 0, ancho: 500, alto: 400 });
}
