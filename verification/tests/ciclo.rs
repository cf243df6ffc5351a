use cliente_vr_pandasz::ciclo::{
    entrada_atendida, permiso_otorgado, AccionPermiso, AccionPrincipal, CicloPrincipal,
    EsperaPermiso, EventoPrincipal, TipoEntrada, BANDERAS_INMERSIVAS, INTENTOS_PERMISO,
    PAUSA_PERMISO_MS, PERIODO_SENSOR_US,
};
use cliente_vr_pandasz::codificador::{parametros_encoder, ParametroFormato, ValorFormato};

#[test]
fn codigo_de_permiso() {
    assert!(permiso_otorgado(0));
    assert!(!permiso_otorgado(-1));
}

#[test]
fn espera_de_permiso_se_agota_tras_60_consultas() {
    let mut e = EsperaPermiso::new();
    let mut consultas = 0;
    while e.pendiente() {
        assert_eq!(e.al_consultar(false), AccionPermiso::Esperar);
        consultas += 1;
    }
    assert_eq!(consultas, 60);
    assert_eq!(INTENTOS_PERMISO as u64 * PAUSA_PERMISO_MS, 30_000);
}

#[test]
fn permiso_concedido_continua() {
    let mut e = EsperaPermiso::new();
    e.al_consultar(false);
    assert_eq!(e.al_consultar(true), AccionPermiso::Continuar);
    assert!(e.pendiente());
}

#[test]
fn ciclo_principal_termina_con_destruir() {
    let mut c = CicloPrincipal::new();
    assert!(c.sigue());
    assert_eq!(c.al_evento(EventoPrincipal::VentanaCreada), AccionPrincipal::CrearRenderer);
    assert_eq!(c.al_evento(EventoPrincipal::EntradaDisponible), AccionPrincipal::ConsumirEntrada);
    assert_eq!(c.al_evento(EventoPrincipal::VentanaDestruida), AccionPrincipal::SoltarRenderer);
    assert_eq!(c.al_evento(EventoPrincipal::Otro), AccionPrincipal::Ninguna);
    assert!(c.sigue());
    assert_eq!(c.al_evento(EventoPrincipal::Destruir), AccionPrincipal::Salir);
    assert!(!c.sigue());
    c.al_evento(EventoPrincipal::VentanaCreada);
    assert!(!c.sigue());
}

#[test]
fn entradas_atendidas() {
    assert!(entrada_atendida(TipoEntrada::Movimiento));
    assert!(entrada_atendida(TipoEntrada::Tecla));
    assert!(!entrada_atendida(TipoEntrada::Otra));
}

#[test]
fn constantes_de_pantalla_y_sensor() {
    assert_eq!(BANDERAS_INMERSIVAS, 5894);
    assert_eq!(PERIODO_SENSOR_US, 16_666);
}

#[test]
fn formato_del_encoder() {
    let p = parametros_encoder();
    assert_eq!(p.len(), 11);
    assert_eq!(p[0], ParametroFormato { clave: "mime", valor: ValorFormato::Texto("video/avc") });
    assert_eq!(p[1], ParametroFormato { clave: "width", valor: ValorFormato::Entero(640) });
    assert_eq!(p[2], ParametroFormato { clave: "height", valor: ValorFormato::Entero(480) });
    assert_eq!(p[3].valor, ValorFormato::Entero(4_000_000));
    assert_eq!(p[5].valor, ValorFormato::Entero(0x7f000789));
    assert_eq!(p[10], ParametroFormato { clave: "latency", valor: ValorFormato::Entero(0) });
}
