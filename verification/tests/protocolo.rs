use cliente_vr_pandasz::protocolo::{empaquetar_orientacion, enmarcar_nal};

fn leer_u32_le(b: &[u8]) -> u32 {
    u32::from_le_bytes([b[0], b[1], b[2], b[3]])
}

#[test]
fn trama_de_tres_bytes() {
    assert_eq!(enmarcar_nal(&[1, 2, 3]), vec![3, 0, 0, 0, 1, 2, 3]);
}

#[test]
fn trama_vacia_solo_lleva_longitud() {
    assert_eq!(enmarcar_nal(&[]), vec![0, 0, 0, 0]);
}

#[test]
fn longitud_en_little_endian() {
    let datos = vec![7u8; 300];
    let trama = enmarcar_nal(&datos);
    assert_eq!(&trama[..4], &[44, 1, 0, 0]);
    assert_eq!(&trama[4..], &datos[..]);
    assert_eq!(trama.len(), 304);
}

#[test]
fn flujo_de_tramas_se_lee_en_orden() {
    let cargas: Vec<Vec<u8>> = vec![vec![0, 0, 0, 1, 0x67], vec![], vec![9; 70000]];
    let mut flujo = Vec::new();
    for c in &cargas {
        flujo.extend_from_slice(&enmarcar_nal(c));
    }
    let mut leidas = Vec::new();
    let mut pos = 0;
    while pos < flujo.len() {
        let n = leer_u32_le(&flujo[pos..pos + 4]) as usize;
        leidas.push(flujo[pos + 4..pos + 4 + n].to_vec());
        pos += 4 + n;
    }
    assert_eq!(leidas, cargas);
}

#[test]
fn paquete_de_orientacion() {
    let (x, y, z, w) = (0.25f32, -0.5f32, 1.0f32, 0.0f32);
    let paquete = empaquetar_orientacion(x.to_bits(), y.to_bits(), z.to_bits(), w.to_bits());
    let mut esperado = Vec::new();
    esperado.extend_from_slice(&x.to_le_bytes());
    esperado.extend_from_slice(&y.to_le_bytes());
    esperado.extend_from_slice(&z.to_le_bytes());
    esperado.extend_from_slice(&w.to_le_bytes());
    assert_eq!(paquete, esperado);
    assert_eq!(paquete.len(), 16);
}

#[test]
fn paquete_de_orientacion_se_lee() {
    let paquete = empaquetar_orientacion(0x0102_0304, 0xdead_beef, 0, u32::MAX);
    assert_eq!(&paquete[..4], &[4, 3, 2, 1]);
    assert_eq!(leer_u32_le(&paquete[0..4]), 0x0102_0304);
    assert_eq!(leer_u32_le(&paquete[4..8]), 0xdead_beef);
    assert_eq!(leer_u32_le(&paquete[8..12]), 0);
    assert_eq!(leer_u32_le(&paquete[12..16]), u32::MAX);
}
