//! Settings of the H.264 encoder and of the camera capture.
use vstd::prelude::*;

verus! {

/// MIME type of the encoder's output.
pub const MIME_H264: &'static str = "video/avc";

/// `TEMPLATE_RECORD`: capture request template for video recording.
pub const TEMPLATE_RECORD: u32 = 3;

/// `AMEDIACODEC_CONFIGURE_FLAG_ENCODE`: configure the codec as an encoder.
pub const CONFIGURE_FLAG_ENCODE: u32 = 1;

/// How long one wait for an encoder output buffer may last, in microseconds.
pub const ESPERA_SALIDA_US: i64 = 10_000;

/// The value of one media format entry.
#[derive(Clone, Copy, Debug, PartialEq, Eq)]
pub enum ValorFormato {
    Texto(&'static str),
    Entero(i32),
}

/// One entry `clave = valor` of the encoder's media format.
#[derive(Clone, Copy, Debug, PartialEq, Eq)]
pub struct ParametroFormato {
    pub clave: &'static str,
    pub valor: ValorFormato,
}

/// The encoder's media format, in the order it is set: 640x480 H.264 at
/// 30 fps and 4 Mbit/s from a surface, a key frame every 2 s, and the
/// low-latency hints (baseline profile, constant bitrate, real-time
/// priority, no internal latency).
pub open spec fn formato_encoder() -> Seq<ParametroFormato> {
    seq![
        ParametroFormato { clave: "mime", valor: ValorFormato::Texto(MIME_H264) },
        ParametroFormato { clave: "width", valor: ValorFormato::Entero(640) },
        ParametroFormato { clave: "height", valor: ValorFormato::Entero(480) },
        ParametroFormato { clave: "bitrate", valor: ValorFormato::Entero(4_000_000) },
        ParametroFormato { clave: "frame-rate", valor: ValorFormato::Entero(30) },
        ParametroFormato { clave: "color-format", valor: ValorFormato::Entero(0x7f000789) },
        ParametroFormato { clave: "i-frame-interval", valor: ValorFormato::Entero(2) },
        ParametroFormato { clave: "profile", valor: ValorFormato::Entero(0x01) },
        ParametroFormato { clave: "bitrate-mode", valor: ValorFormato::Entero(2) },
        ParametroFormato { clave: "priority", valor: ValorFormato::Entero(0) },
        ParametroFormato { clave: "latency", valor: ValorFormato::Entero(0) },
    ]
}

/// The value a media format ends up with for `clave` when the entries of
/// `p` are set in order (a later entry for the same key overrides an earlier
/// one), or `None` if no entry sets it.
pub open spec fn valor_formato(p: Seq<ParametroFormato>, clave: &str) -> Option<ValorFormato>
    decreases p.len(),
{
    if p.len() == 0 {
        None
    } else if p.last().clave == clave {
        Some(p.last().valor)
    } else {
        valor_formato(p.drop_last(), clave)
    }
}

/// The encoder settings, key by key: H.264 at 640x480, 4 Mbit/s, 30 fps,
/// color format `COLOR_FormatSurface` (0x7f000789), a key frame every 2 s,
/// baseline profile (1: no B-frames, no reordering), constant bitrate (2),
/// real-time priority (0) and no added latency (0).
pub open spec fn ajustes_de_baja_latencia(p: Seq<ParametroFormato>) -> bool {
    &&& valor_formato(p, "mime") == Some(ValorFormato::Texto("video/avc"))
    &&& valor_formato(p, "width") == Some(ValorFormato::Entero(640))
    &&& valor_formato(p, "height") == Some(ValorFormato::Entero(480))
    &&& valor_formato(p, "bitrate") == Some(ValorFormato::Entero(4_000_000))
    &&& valor_formato(p, "frame-rate") == Some(ValorFormato::Entero(30))
    &&& valor_formato(p, "color-format") == Some(ValorFormato::Entero(0x7f000789))
    &&& valor_formato(p, "i-frame-interval") == Some(ValorFormato::Entero(2))
    &&& valor_formato(p, "profile") == Some(ValorFormato::Entero(1))
    &&& valor_formato(p, "bitrate-mode") == Some(ValorFormato::Entero(2))
    &&& valor_formato(p, "priority") == Some(ValorFormato::Entero(0))
    &&& valor_formato(p, "latency") == Some(ValorFormato::Entero(0))
}

/// Each key of the encoder format is set to the value that the low-latency
/// stream needs; in particular the profile is baseline (1), the bitrate
/// mode constant (2), 30 fps with a key frame every 2 s, and real-time
/// priority (0).
pub proof fn lemma_formato_por_clave()
    ensures
        ajustes_de_baja_latencia(formato_encoder()),
        formato_encoder().len() == 11,
{
    reveal_strlit("mime");
    reveal_strlit("width");
    reveal_strlit("height");
    reveal_strlit("bitrate");
    reveal_strlit("frame-rate");
    reveal_strlit("color-format");
    reveal_strlit("i-frame-interval");
    reveal_strlit("profile");
    reveal_strlit("bitrate-mode");
    reveal_strlit("priority");
    reveal_strlit("latency");
    reveal_with_fuel(valor_formato, 12);
}

/// The entries to set on the encoder's media format, in order.
pub fn parametros_encoder() -> (p: Vec<ParametroFormato>)
    ensures
        p@ == formato_encoder(),
        ajustes_de_baja_latencia(p@),
        p@.len() == 11,
{
    let mut p: Vec<ParametroFormato> = Vec::new();
    p.push(ParametroFormato { clave: "mime", valor: ValorFormato::Texto(MIME_H264) });
    p.push(ParametroFormato { clave: "width", valor: ValorFormato::Entero(640) });
    p.push(ParametroFormato { clave: "height", valor: ValorFormato::Entero(480) });
    p.push(ParametroFormato { clave: "bitrate", valor: ValorFormato::Entero(4_000_000) });
    p.push(ParametroFormato { clave: "frame-rate", valor: ValorFormato::Entero(30) });
    p.push(ParametroFormato { clave: "color-format", valor: ValorFormato::Entero(0x7f000789) });
    p.push(ParametroFormato { clave: "i-frame-interval", valor: ValorFormato::Entero(2) });
    p.push(ParametroFormato { clave: "profile", valor: ValorFormato::Entero(0x01) });
    p.push(ParametroFormato { clave: "bitrate-mode", valor: ValorFormato::Entero(2) });
    p.push(ParametroFormato { clave: "priority", valor: ValorFormato::Entero(0) });
    p.push(ParametroFormato { clave: "latency", valor: ValorFormato::Entero(0) });
    assert(p@ =~= formato_encoder());
    proof {
        lemma_formato_por_clave();
    }
    p
}

} // verus!
