//! Wire formats sent to the PC.
//!
//! * Camera channel (TCP): every NAL unit, or the SPS/PPS block, travels as
//!   `[4 bytes: length, little endian][bytes]`.
//! * Head channel (UDP): one 16-byte datagram per orientation sample, the
//!   quaternion components `x, y, z, w` as little-endian IEEE-754 `f32`
//!   (here carried as their 32-bit patterns).
use vstd::bytes::{spec_u32_from_le_bytes, spec_u32_to_le_bytes, u32_to_le_bytes};
use vstd::prelude::*;
use vstd::slice::slice_to_vec;

verus! {

/// 2^32: the length prefix is a `u32`.
pub open spec fn modulo_u32() -> int {
    0x1_0000_0000
}

/// The length that the 4-byte prefix carries for a payload of `n` bytes
/// (the payload length reduced to 32 bits).
pub open spec fn longitud_prefijo(n: nat) -> u32 {
    (n % 0x1_0000_0000nat) as u32
}

/// The frame of one NAL unit: its length prefix followed by the bytes.
pub open spec fn trama_nal(datos: Seq<u8>) -> Seq<u8> {
    spec_u32_to_le_bytes(longitud_prefijo(datos.len())) + datos
}

/// How the receiver reads one frame from the front of a stream: the payload
/// and what follows it, or `None` when the stream is too short.
pub open spec fn leer_trama(flujo: Seq<u8>) -> Option<(Seq<u8>, Seq<u8>)> {
    if flujo.len() < 4 {
        None
    } else {
        let n = spec_u32_from_le_bytes(flujo.take(4)) as int;
        if flujo.len() - 4 < n {
            None
        } else {
            Some((flujo.subrange(4, 4 + n), flujo.skip(4 + n)))
        }
    }
}

/// The bytes on the wire after sending the payloads `cargas` in order.
pub open spec fn concatenar_tramas(cargas: Seq<Seq<u8>>) -> Seq<u8>
    decreases cargas.len(),
{
    if cargas.len() == 0 {
        Seq::empty()
    } else {
        trama_nal(cargas[0]) + concatenar_tramas(cargas.drop_first())
    }
}

/// How the receiver splits a whole stream into payloads, frame after frame.
pub open spec fn leer_flujo(flujo: Seq<u8>) -> Option<Seq<Seq<u8>>>
    decreases flujo.len(),
{
    if flujo.len() == 0 {
        Some(Seq::empty())
    } else {
        match leer_trama(flujo) {
            None => None,
            Some((carga, resto)) => {
                if resto.len() < flujo.len() {
                    match leer_flujo(resto) {
                        None => None,
                        Some(siguientes) => Some(seq![carga] + siguientes),
                    }
                } else {
                    None
                }
            },
        }
    }
}

/// Every payload fits the 32-bit length prefix.
pub open spec fn cargas_representables(cargas: Seq<Seq<u8>>) -> bool {
    forall|i: int| 0 <= i < cargas.len() ==> #[trigger] cargas[i].len() < modulo_u32()
}

/// Builds the frame that carries `datos` on the camera channel:
/// the length as a little-endian `u32`, then the bytes themselves.
pub fn enmarcar_nal(datos: &[u8]) -> (trama: Vec<u8>)
    ensures
        trama@ == trama_nal(datos@),
        trama@.len() == datos@.len() + 4,
        spec_u32_from_le_bytes(trama@.take(4)) as int == datos@.len() % 0x1_0000_0000,
        trama@.skip(4) == datos@,
{
    let n64: u64 = datos.len() as u64;
    let n: u32 = (n64 % 0x1_0000_0000u64) as u32;
    let mut trama = u32_to_le_bytes(n);
    let mut cuerpo = slice_to_vec(datos);
    trama.append(&mut cuerpo);
    proof {
        vstd::bytes::lemma_auto_spec_u32_to_from_le_bytes();
        assert(trama@.take(4) =~= spec_u32_to_le_bytes(n));
        assert(trama@.skip(4) =~= datos@);
    }
    trama
}

/// Reading a frame back gives the payload that was framed, and leaves the
/// bytes that followed it untouched.
pub proof fn lemma_trama_se_lee(datos: Seq<u8>, resto: Seq<u8>)
    requires
        datos.len() < modulo_u32(),
    ensures
        leer_trama(trama_nal(datos) + resto) == Some((datos, resto)),
{
    vstd::bytes::lemma_auto_spec_u32_to_from_le_bytes();
    let cabecera = spec_u32_to_le_bytes(longitud_prefijo(datos.len()));
    let flujo = trama_nal(datos) + resto;
    assert(cabecera.len() == 4);
    assert(flujo.take(4) =~= cabecera);
    assert(longitud_prefijo(datos.len()) == datos.len());
    assert(flujo.subrange(4, 4 + datos.len() as int) =~= datos);
    assert(flujo.skip(4 + datos.len() as int) =~= resto);
}

/// A stream made of frames splits back into exactly the payloads that were
/// sent, in the order they were sent.
pub proof fn lemma_flujo_se_lee(cargas: Seq<Seq<u8>>)
    requires
        cargas_representables(cargas),
    ensures
        leer_flujo(concatenar_tramas(cargas)) == Some(cargas),
    decreases cargas.len(),
{
    if cargas.len() == 0 {
    } else {
        let cola = cargas.drop_first();
        assert(cargas_representables(cola)) by {
            assert forall|i: int| 0 <= i < cola.len() implies #[trigger] cola[i].len()
                < modulo_u32() by {
                assert(cola[i] == cargas[i + 1]);
            }
        }
        assert(cargas[0].len() < modulo_u32());
        lemma_flujo_se_lee(cola);
        let resto = concatenar_tramas(cola);
        let flujo = concatenar_tramas(cargas);
        assert(flujo == trama_nal(cargas[0]) + resto);
        lemma_trama_se_lee(cargas[0], resto);
        assert(seq![cargas[0]] + cola =~= cargas);
    }
}

/// The 16-byte datagram of one orientation sample: the bit patterns of the
/// quaternion components `x, y, z, w`, each as a little-endian `u32`.
pub open spec fn paquete_orientacion(x: u32, y: u32, z: u32, w: u32) -> Seq<u8> {
    spec_u32_to_le_bytes(x) + spec_u32_to_le_bytes(y) + spec_u32_to_le_bytes(z)
        + spec_u32_to_le_bytes(w)
}

/// How the PC reads the four components back from a datagram.
pub open spec fn leer_orientacion(paquete: Seq<u8>) -> (u32, u32, u32, u32) {
    (
        spec_u32_from_le_bytes(paquete.subrange(0, 4)),
        spec_u32_from_le_bytes(paquete.subrange(4, 8)),
        spec_u32_from_le_bytes(paquete.subrange(8, 12)),
        spec_u32_from_le_bytes(paquete.subrange(12, 16)),
    )
}

/// Packs one orientation sample (the `f32` bit patterns of `x, y, z, w`)
/// into the datagram sent on the head channel.
pub fn empaquetar_orientacion(x: u32, y: u32, z: u32, w: u32) -> (paquete: Vec<u8>)
    ensures
        paquete@ == paquete_orientacion(x, y, z, w),
        paquete@.len() == 16,
        spec_u32_from_le_bytes(paquete@.subrange(0, 4)) == x,
        spec_u32_from_le_bytes(paquete@.subrange(4, 8)) == y,
        spec_u32_from_le_bytes(paquete@.subrange(8, 12)) == z,
        spec_u32_from_le_bytes(paquete@.subrange(12, 16)) == w,
{
    proof {
        vstd::bytes::lemma_auto_spec_u32_to_from_le_bytes();
    }
    let mut paquete = u32_to_le_bytes(x);
    let mut by = u32_to_le_bytes(y);
    let mut bz = u32_to_le_bytes(z);
    let mut bw = u32_to_le_bytes(w);
    paquete.append(&mut by);
    paquete.append(&mut bz);
    paquete.append(&mut bw);
    proof {
        lemma_orientacion_se_lee(x, y, z, w);
    }
    paquete
}

/// The datagram is 16 bytes long and the PC reads back exactly the four
/// components that were packed.
pub proof fn lemma_orientacion_se_lee(x: u32, y: u32, z: u32, w: u32)
    ensures
        paquete_orientacion(x, y, z, w).len() == 16,
        leer_orientacion(paquete_orientacion(x, y, z, w)) == (x, y, z, w),
{
    vstd::bytes::lemma_auto_spec_u32_to_from_le_bytes();
    let p = paquete_orientacion(x, y, z, w);
    assert(p.subrange(0, 4) =~= spec_u32_to_le_bytes(x));
    assert(p.subrange(4, 8) =~= spec_u32_to_le_bytes(y));
    assert(p.subrange(8, 12) =~= spec_u32_to_le_bytes(z));
    assert(p.subrange(12, 16) =~= spec_u32_to_le_bytes(w));
}

} // verus!
