//! Decisions of the host's loops: the activity's event loop, the wait for
//! the camera permission, and the head sensor loop.
use vstd::prelude::*;

verus! {

/// `PackageManager.PERMISSION_GRANTED`, as `checkSelfPermission` answers.
pub const PERMISO_CONCEDIDO: i32 = 0;

/// How many times the camera permission is checked before giving up.
pub const INTENTOS_PERMISO: u32 = 60;

/// Pause between two checks of the camera permission, in milliseconds.
pub const PAUSA_PERMISO_MS: u64 = 500;

/// Looper identifier under which the head sensor's events arrive.
pub const IDENT_SENSOR: i32 = 1;

/// Period between two head sensor samples, in microseconds (60 Hz).
pub const PERIODO_SENSOR_US: i32 = 16_666;

/// Longest wait of one looper poll in the sensor loop, in milliseconds; the
/// loop checks after each poll whether the client is still active.
pub const ESPERA_SENSOR_MS: i32 = 100;

/// Wait of one event poll in the activity's loop, in milliseconds.
pub const ESPERA_EVENTOS_MS: u64 = 16;

/// `WindowManager.LayoutParams.FLAG_KEEP_SCREEN_ON`.
pub const FLAG_KEEP_SCREEN_ON: i32 = 0x80;

/// `View.SYSTEM_UI_FLAG_HIDE_NAVIGATION`.
pub const UI_OCULTAR_NAVEGACION: i32 = 0x2;

/// `View.SYSTEM_UI_FLAG_FULLSCREEN`.
pub const UI_PANTALLA_COMPLETA: i32 = 0x4;

/// `View.SYSTEM_UI_FLAG_LAYOUT_STABLE`.
pub const UI_DISENO_ESTABLE: i32 = 0x100;

/// `View.SYSTEM_UI_FLAG_LAYOUT_HIDE_NAVIGATION`.
pub const UI_DISENO_SIN_NAVEGACION: i32 = 0x200;

/// `View.SYSTEM_UI_FLAG_LAYOUT_FULLSCREEN`.
pub const UI_DISENO_COMPLETO: i32 = 0x400;

/// `View.SYSTEM_UI_FLAG_IMMERSIVE_STICKY`.
pub const UI_INMERSIVO_PERSISTENTE: i32 = 0x1000;

/// Sticky immersive mode: system bars hidden, layout behind them.
pub const BANDERAS_INMERSIVAS: i32 = UI_DISENO_ESTABLE | UI_DISENO_SIN_NAVEGACION
    | UI_DISENO_COMPLETO | UI_OCULTAR_NAVEGACION | UI_PANTALLA_COMPLETA
    | UI_INMERSIVO_PERSISTENTE;

/// The immersive flags make up the value 5894 that the window is given, and
/// the sensor period is a 60th of a second, rounded down to microseconds.
pub proof fn lemma_constantes_de_plataforma()
    ensures
        BANDERAS_INMERSIVAS == 5894,
        PERIODO_SENSOR_US == 1_000_000int / 60,
{
    assert(0x100i32 | 0x200i32 | 0x400i32 | 0x2i32 | 0x4i32 | 0x1000i32 == 5894i32)
        by (bit_vector);
}

/// The permission check answered "granted".
pub fn permiso_otorgado(codigo: i32) -> (r: bool)
    ensures
        r == (codigo == PERMISO_CONCEDIDO),
        r == (codigo == 0),
{
    codigo == PERMISO_CONCEDIDO
}

/// What to do after one check of the camera permission.
#[derive(Clone, Copy, Debug, PartialEq, Eq, Structural)]
pub enum AccionPermiso {
    /// Granted: go on with the camera.
    Continuar,
    /// Not yet: pause `PAUSA_PERMISO_MS` before checking again.
    Esperar,
}

/// The wait for the user to grant the camera permission.
pub struct EsperaPermiso {
    consultas: u32,
}

impl EsperaPermiso {
    /// Checks answered "not granted" so far.
    pub closed spec fn fallidas(&self) -> nat {
        self.consultas as nat
    }

    /// Whether another check is still allowed.
    pub open spec fn en_curso(&self) -> bool {
        self.fallidas() < INTENTOS_PERMISO
    }

    /// A wait that has made no check yet.
    pub fn new() -> (e: Self)
        ensures
            e.fallidas() == 0,
    {
        EsperaPermiso { consultas: 0 }
    }

    /// Whether another check is still allowed; once `INTENTOS_PERMISO`
    /// checks have failed, the wait has timed out.
    pub fn pendiente(&self) -> (r: bool)
        ensures
            r == self.en_curso(),
            r == (self.fallidas() < 60),
    {
        self.consultas < INTENTOS_PERMISO
    }

    /// One check has answered `concedido`.
    pub fn al_consultar(&mut self, concedido: bool) -> (accion: AccionPermiso)
        requires
            old(self).en_curso(),
        ensures
            concedido ==> accion == AccionPermiso::Continuar && final(self).fallidas()
                == old(self).fallidas(),
            !concedido ==> accion == AccionPermiso::Esperar && final(self).fallidas()
                == old(self).fallidas() + 1,
            final(self).fallidas() <= INTENTOS_PERMISO,
    {
        if concedido {
            AccionPermiso::Continuar
        } else {
            self.consultas = self.consultas + 1;
            AccionPermiso::Esperar
        }
    }
}

/// The wait gives up after exactly `INTENTOS_PERMISO` refused checks, that
/// is after `INTENTOS_PERMISO * PAUSA_PERMISO_MS` = 30 s of pauses.
pub proof fn lemma_espera_permiso_acotada(e: EsperaPermiso)
    ensures
        e.en_curso() <==> e.fallidas() < 60,
        INTENTOS_PERMISO as int * PAUSA_PERMISO_MS as int == 30_000,
{
}

/// The events of the activity's loop that the client acts on.
#[derive(Clone, Copy, Debug, PartialEq, Eq, Structural)]
pub enum EventoPrincipal {
    VentanaCreada,
    VentanaDestruida,
    EntradaDisponible,
    Destruir,
    Otro,
}

/// What the activity's loop does for one event.
#[derive(Clone, Copy, Debug, PartialEq, Eq, Structural)]
pub enum AccionPrincipal {
    /// A window appeared: build a renderer on it.
    CrearRenderer,
    /// The window went away: drop the renderer.
    SoltarRenderer,
    /// Input is pending: drain it.
    ConsumirEntrada,
    /// The activity is being destroyed: leave the loop.
    Salir,
    /// Nothing to do.
    Ninguna,
}

/// The kinds of input events.
#[derive(Clone, Copy, Debug, PartialEq, Eq, Structural)]
pub enum TipoEntrada {
    Movimiento,
    Tecla,
    Otra,
}

/// The action for each event of the activity's loop.
pub open spec fn accion_de(evento: EventoPrincipal) -> AccionPrincipal {
    match evento {
        EventoPrincipal::VentanaCreada => AccionPrincipal::CrearRenderer,
        EventoPrincipal::VentanaDestruida => AccionPrincipal::SoltarRenderer,
        EventoPrincipal::EntradaDisponible => AccionPrincipal::ConsumirEntrada,
        EventoPrincipal::Destruir => AccionPrincipal::Salir,
        EventoPrincipal::Otro => AccionPrincipal::Ninguna,
    }
}

/// Motion and key events are marked handled; the rest are not.
pub fn entrada_atendida(tipo: TipoEntrada) -> (r: bool)
    ensures
        r == (tipo == TipoEntrada::Movimiento || tipo == TipoEntrada::Tecla),
{
    match tipo {
        TipoEntrada::Movimiento => true,
        TipoEntrada::Tecla => true,
        TipoEntrada::Otra => false,
    }
}

/// The activity's event loop.
pub struct CicloPrincipal {
    salir: bool,
}

impl CicloPrincipal {
    /// The loop has been told to end.
    pub closed spec fn terminado(&self) -> bool {
        self.salir
    }

    /// A loop that runs.
    pub fn new() -> (c: Self)
        ensures
            !c.terminado(),
    {
        CicloPrincipal { salir: false }
    }

    /// Whether to poll events once more.
    pub fn sigue(&self) -> (r: bool)
        ensures
            r == !self.terminado(),
    {
        !self.salir
    }

    /// Decides what to do for one event; a destroy event ends the loop.
    pub fn al_evento(&mut self, evento: EventoPrincipal) -> (accion: AccionPrincipal)
        ensures
            accion == accion_de(evento),
            (accion == AccionPrincipal::CrearRenderer) == (evento
                == EventoPrincipal::VentanaCreada),
            (accion == AccionPrincipal::SoltarRenderer) == (evento
                == EventoPrincipal::VentanaDestruida),
            (accion == AccionPrincipal::ConsumirEntrada) == (evento
                == EventoPrincipal::EntradaDisponible),
            (accion == AccionPrincipal::Salir) == (evento == EventoPrincipal::Destruir),
            (accion == AccionPrincipal::Ninguna) == (evento == EventoPrincipal::Otro),
            final(self).terminado() == (old(self).terminado() || evento
                == EventoPrincipal::Destruir),
    {
        let accion = match evento {
            EventoPrincipal::VentanaCreada => AccionPrincipal::CrearRenderer,
            EventoPrincipal::VentanaDestruida => AccionPrincipal::SoltarRenderer,
            EventoPrincipal::EntradaDisponible => AccionPrincipal::ConsumirEntrada,
            EventoPrincipal::Destruir => AccionPrincipal::Salir,
            EventoPrincipal::Otro => AccionPrincipal::Ninguna,
        };
        if let AccionPrincipal::Salir = accion {
            self.salir = true;
        }
        accion
    }
}

/// The loop's state after a run of events, from a given state.
pub open spec fn terminado_tras(inicial: bool, eventos: Seq<EventoPrincipal>) -> bool
    decreases eventos.len(),
{
    if eventos.len() == 0 {
        inicial
    } else {
        terminado_tras(inicial || eventos[0] == EventoPrincipal::Destruir, eventos.drop_first())
    }
}

/// The event loop ends after a run of events exactly when it had already
/// ended or the run holds a destroy event; once ended it stays ended.
pub proof fn lemma_fin_del_ciclo(inicial: bool, eventos: Seq<EventoPrincipal>)
    ensures
        terminado_tras(inicial, eventos) == (inicial || eventos.contains(
            EventoPrincipal::Destruir,
        )),
    decreases eventos.len(),
{
    if eventos.len() > 0 {
        let cola = eventos.drop_first();
        lemma_fin_del_ciclo(inicial || eventos[0] == EventoPrincipal::Destruir, cola);
        if cola.contains(EventoPrincipal::Destruir) {
            let i = choose|i: int| 0 <= i < cola.len() && cola[i] == EventoPrincipal::Destruir;
            assert(eventos[i + 1] == EventoPrincipal::Destruir);
        }
        if eventos.contains(EventoPrincipal::Destruir) && eventos[0] != EventoPrincipal::Destruir {
            let i = choose|i: int|
                0 <= i < eventos.len() && eventos[i] == EventoPrincipal::Destruir;
            assert(cola[i - 1] == EventoPrincipal::Destruir);
        }
    }
}

} // verus!
