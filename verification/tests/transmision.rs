use cliente_vr_pandasz::transmision::{
    es_buffer_de_configuracion, AccionTrasEnvio, AccionTrasReconexion, Transmision,
    BUFFER_FLAG_CODEC_CONFIG,
};

const SPS_PPS: [u8; 6] = [0, 0, 0, 1, 0x67, 0x42];
const IDR: [u8; 5] = [0, 0, 0, 1, 0x65];

#[test]
fn bandera_de_configuracion() {
    assert!(es_buffer_de_configuracion(BUFFER_FLAG_CODEC_CONFIG));
    assert!(es_buffer_de_configuracion(3));
    assert!(!es_buffer_de_configuracion(1));
    assert!(!es_buffer_de_configuracion(0));
}

#[test]
fn nueva_transmision_vacia() {
    let t = Transmision::new();
    assert!(t.csd().is_empty());
    assert_eq!(t.frames_enviados(), 0);
}

#[test]
fn buffer_de_configuracion_se_guarda_y_se_envia() {
    let mut t = Transmision::new();
    let trama = t.al_salir_buffer(2, Some(&SPS_PPS));
    assert_eq!(trama, Some(vec![6, 0, 0, 0, 0, 0, 0, 1, 0x67, 0x42]));
    assert_eq!(t.csd(), &SPS_PPS);
}

#[test]
fn buffer_normal_no_reemplaza_configuracion() {
    let mut t = Transmision::new();
    t.al_salir_buffer(2, Some(&SPS_PPS));
    let trama = t.al_salir_buffer(1, Some(&IDR));
    assert_eq!(trama, Some(vec![5, 0, 0, 0, 0, 0, 0, 1, 0x65]));
    assert_eq!(t.csd(), &SPS_PPS);
}

#[test]
fn buffer_sin_datos_solo_se_libera() {
    let mut t = Transmision::new();
    assert_eq!(t.al_salir_buffer(2, None), None);
    assert_eq!(t.al_salir_buffer(2, Some(&[])), None);
    assert!(t.csd().is_empty());
}

#[test]
fn nueva_configuracion_reemplaza_la_anterior() {
    let mut t = Transmision::new();
    t.al_salir_buffer(2, Some(&SPS_PPS));
    t.al_salir_buffer(2, Some(&[9, 9]));
    assert_eq!(t.csd(), &[9, 9]);
}

#[test]
fn envio_exitoso_cuenta_y_reporta_cada_60() {
    let mut t = Transmision::new();
    for i in 1..=59u64 {
        assert_eq!(t.al_terminar_envio(true), AccionTrasEnvio::Liberar { reportar: false });
        assert_eq!(t.frames_enviados(), i);
    }
    assert_eq!(t.al_terminar_envio(true), AccionTrasEnvio::Liberar { reportar: true });
    assert_eq!(t.frames_enviados(), 60);
    assert_eq!(t.al_terminar_envio(true), AccionTrasEnvio::Liberar { reportar: false });
}

#[test]
fn envio_fallido_pide_reconectar() {
    let mut t = Transmision::new();
    t.al_terminar_envio(true);
    assert_eq!(t.al_terminar_envio(false), AccionTrasEnvio::LiberarYReconectar);
    assert_eq!(t.frames_enviados(), 1);
}

#[test]
fn reconexion_reenvia_configuracion() {
    let mut t = Transmision::new();
    t.al_salir_buffer(2, Some(&SPS_PPS));
    t.al_salir_buffer(0, Some(&IDR));
    match t.al_reconectar(true) {
        AccionTrasReconexion::Reanudar { reenviar: Some(trama) } => {
            assert_eq!(trama, vec![6, 0, 0, 0, 0, 0, 0, 1, 0x67, 0x42]);
        }
        otra => panic!("accion inesperada: {:?}", otra),
    }
}

#[test]
fn reconexion_sin_configuracion_no_reenvia() {
    let t = Transmision::new();
    assert!(matches!(t.al_reconectar(true), AccionTrasReconexion::Reanudar { reenviar: None }));
}

#[test]
fn sin_conexion_termina() {
    let mut t = Transmision::new();
    t.al_salir_buffer(2, Some(&SPS_PPS));
    assert!(matches!(t.al_reconectar(false), AccionTrasReconexion::Terminar));
}
