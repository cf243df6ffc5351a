//! Decisions of the camera capture loop.
//!
//! The host dequeues encoder output buffers and sends them over TCP. This
//! state machine keeps the SPS/PPS block (the buffer flagged as codec
//! configuration) so that it can be sent again first to every new
//! connection, counts the frames sent, and says what to do after each send
//! and each reconnection attempt.
use crate::protocolo::{enmarcar_nal, trama_nal};
use vstd::prelude::*;
use vstd::slice::slice_to_vec;

verus! {

/// `AMEDIACODEC_BUFFER_FLAG_CODEC_CONFIG`: the buffer holds SPS/PPS.
pub const BUFFER_FLAG_CODEC_CONFIG: u32 = 2;

/// A progress report is due every this many frames sent.
pub const FRAMES_POR_REPORTE: u64 = 60;

/// The buffer flags mark codec configuration data.
pub open spec fn es_configuracion(flags: u32) -> bool {
    flags & BUFFER_FLAG_CODEC_CONFIG != 0
}

/// What the stored SPS/PPS block becomes after one output buffer: an
/// output with bytes flagged as configuration replaces it.
pub open spec fn csd_tras_salida(csd: Seq<u8>, flags: u32, datos: Seq<u8>) -> Seq<u8> {
    if datos.len() > 0 && es_configuracion(flags) {
        datos
    } else {
        csd
    }
}

/// The stored block after a whole run of output buffers, oldest first.
pub open spec fn csd_tras_salidas(csd: Seq<u8>, salidas: Seq<(u32, Seq<u8>)>) -> Seq<u8>
    decreases salidas.len(),
{
    if salidas.len() == 0 {
        csd
    } else {
        csd_tras_salidas(
            csd_tras_salida(csd, salidas[0].0, salidas[0].1),
            salidas.drop_first(),
        )
    }
}

/// The bytes of the latest output in `salidas` that carried configuration
/// data, if any did.
pub open spec fn ultima_configuracion(salidas: Seq<(u32, Seq<u8>)>) -> Option<Seq<u8>>
    decreases salidas.len(),
{
    if salidas.len() == 0 {
        None
    } else {
        let (flags, datos) = salidas.last();
        if datos.len() > 0 && es_configuracion(flags) {
            Some(datos)
        } else {
            ultima_configuracion(salidas.drop_last())
        }
    }
}

/// Tells whether the buffer flags mark codec configuration data.
pub fn es_buffer_de_configuracion(flags: u32) -> (r: bool)
    ensures
        r == es_configuracion(flags),
        r == (flags & 2u32 != 0),
{
    flags & BUFFER_FLAG_CODEC_CONFIG != 0
}

/// What to do once a send has finished.
#[derive(Clone, Copy, Debug, PartialEq, Eq, Structural)]
pub enum AccionTrasEnvio {
    /// The frame went out: release the buffer; log the count if `reportar`.
    Liberar { reportar: bool },
    /// The connection dropped: release the buffer and reconnect.
    LiberarYReconectar,
}

/// What to do once a reconnection attempt has finished.
#[derive(Debug)]
pub enum AccionTrasReconexion {
    /// Use the new connection, first sending it `reenviar` if present
    /// (the framed SPS/PPS block).
    Reanudar { reenviar: Option<Vec<u8>> },
    /// No connection could be made while the client was active: stop.
    Terminar,
}

/// State of one camera stream.
pub struct Transmision {
    csd: Vec<u8>,
    frames_enviados: u64,
}

impl Transmision {
    /// The SPS/PPS block kept for new connections (empty until seen).
    pub closed spec fn csd_guardado(&self) -> Seq<u8> {
        self.csd@
    }

    /// Frames sent successfully so far.
    pub closed spec fn enviados(&self) -> nat {
        self.frames_enviados as nat
    }

    /// A stream that has seen no configuration and sent nothing.
    pub fn new() -> (t: Self)
        ensures
            t.csd_guardado() == Seq::<u8>::empty(),
            t.enviados() == 0,
    {
        Transmision { csd: Vec::new(), frames_enviados: 0 }
    }

    /// The SPS/PPS block kept for new connections.
    pub fn csd(&self) -> (c: &[u8])
        ensures
            c@ == self.csd_guardado(),
    {
        self.csd.as_slice()
    }

    /// Frames sent successfully so far.
    pub fn frames_enviados(&self) -> (n: u64)
        ensures
            n == self.enviados(),
    {
        self.frames_enviados
    }

    /// An output buffer came out of the encoder. `salida` is `None` when the
    /// buffer has no memory behind it, else its bytes. A buffer with bytes
    /// is sent (the frame to write is returned) and, when flagged as codec
    /// configuration, kept as the new SPS/PPS block; any other buffer is
    /// only released (`None`).
    pub fn al_salir_buffer(&mut self, flags: u32, salida: Option<&[u8]>) -> (trama: Option<
        Vec<u8>,
    >)
        ensures
            final(self).enviados() == old(self).enviados(),
            match salida {
                Some(datos) if datos@.len() > 0 => {
                    &&& final(self).csd_guardado() == csd_tras_salida(
                        old(self).csd_guardado(),
                        flags,
                        datos@,
                    )
                    &&& trama matches Some(t) && t@ == trama_nal(datos@)
                    &&& flags & 2u32 != 0 ==> final(self).csd_guardado() == datos@
                    &&& flags & 2u32 == 0 ==> final(self).csd_guardado()
                        == old(self).csd_guardado()
                },
                _ => {
                    &&& final(self).csd_guardado() == old(self).csd_guardado()
                    &&& trama is None
                },
            },
    {
        match salida {
            Some(datos) => {
                if datos.len() > 0 {
                    if es_buffer_de_configuracion(flags) {
                        self.csd = slice_to_vec(datos);
                    }
                    Some(enmarcar_nal(datos))
                } else {
                    None
                }
            },
            None => None,
        }
    }

    /// A send has finished, successfully (`exito`) or not. A success is
    /// counted and asks for a report every `FRAMES_POR_REPORTE` frames; a
    /// failure asks for a reconnection.
    pub fn al_terminar_envio(&mut self, exito: bool) -> (accion: AccionTrasEnvio)
        requires
            exito ==> old(self).enviados() < u64::MAX,
        ensures
            final(self).csd_guardado() == old(self).csd_guardado(),
            exito ==> final(self).enviados() == old(self).enviados() + 1 && accion
                == (AccionTrasEnvio::Liberar {
                reportar: final(self).enviados() % (FRAMES_POR_REPORTE as nat) == 0,
            }),
            !exito ==> final(self).enviados() == old(self).enviados() && accion
                == AccionTrasEnvio::LiberarYReconectar,
    {
        if exito {
            self.frames_enviados = self.frames_enviados + 1;
            AccionTrasEnvio::Liberar { reportar: self.frames_enviados % FRAMES_POR_REPORTE == 0 }
        } else {
            AccionTrasEnvio::LiberarYReconectar
        }
    }

    /// A reconnection attempt has finished. With a new connection, the kept
    /// SPS/PPS block (if any was seen) must go out first, framed; without
    /// one, the capture stops.
    pub fn al_reconectar(&self, conectado: bool) -> (accion: AccionTrasReconexion)
        ensures
            match accion {
                AccionTrasReconexion::Reanudar { reenviar: Some(t) } => {
                    &&& conectado
                    &&& self.csd_guardado().len() > 0
                    &&& t@ == trama_nal(self.csd_guardado())
                },
                AccionTrasReconexion::Reanudar { reenviar: None } => {
                    conectado && self.csd_guardado().len() == 0
                },
                AccionTrasReconexion::Terminar => !conectado,
            },
    {
        if !conectado {
            AccionTrasReconexion::Terminar
        } else if self.csd.len() == 0 {
            AccionTrasReconexion::Reanudar { reenviar: None }
        } else {
            AccionTrasReconexion::Reanudar { reenviar: Some(enmarcar_nal(self.csd.as_slice())) }
        }
    }
}

proof fn lemma_csd_tras_salidas_push(
    csd: Seq<u8>,
    salidas: Seq<(u32, Seq<u8>)>,
    s: (u32, Seq<u8>),
)
    ensures
        csd_tras_salidas(csd, salidas.push(s)) == csd_tras_salida(
            csd_tras_salidas(csd, salidas),
            s.0,
            s.1,
        ),
    decreases salidas.len(),
{
    if salidas.len() == 0 {
        let vacia = Seq::<(u32, Seq<u8>)>::empty();
        assert(salidas.push(s).drop_first() =~= vacia);
        assert(salidas.push(s)[0] == s);
        assert(csd_tras_salidas(csd_tras_salida(csd, s.0, s.1), vacia) == csd_tras_salida(
            csd,
            s.0,
            s.1,
        ));
    } else {
        let siguiente = csd_tras_salida(csd, salidas[0].0, salidas[0].1);
        lemma_csd_tras_salidas_push(siguiente, salidas.drop_first(), s);
        assert(salidas.push(s).drop_first() =~= salidas.drop_first().push(s));
        assert(salidas.push(s)[0] == salidas[0]);
    }
}

/// The SPS/PPS block kept after any run of encoder outputs is the one
/// carried by the latest configuration output of that run; a run without
/// one leaves the kept block as it was.
pub proof fn lemma_csd_es_la_ultima_configuracion(
    csd: Seq<u8>,
    salidas: Seq<(u32, Seq<u8>)>,
)
    ensures
        csd_tras_salidas(csd, salidas) == match ultima_configuracion(salidas) {
            Some(datos) => datos,
            None => csd,
        },
    decreases salidas.len(),
{
    if salidas.len() > 0 {
        let previas = salidas.drop_last();
        lemma_csd_es_la_ultima_configuracion(csd, previas);
        lemma_csd_tras_salidas_push(csd, previas, salidas.last());
        assert(previas.push(salidas.last()) =~= salidas);
    }
}

} // verus!
