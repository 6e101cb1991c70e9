//! Commands on an installed server: writing its launcher, opening the plugin
//! folder, starting it and shutting it down.

use vstd::prelude::*;
use crate::proceso::{
    dos_avisos, ningun_aviso, paso_error, paso_exito, terminar_con_error, terminar_con_exito,
    texto, un_aviso, unir, unir3, vista_avisos, vista_resultado, EstadoInstalacion, Evento,
    EventoV, Operacion, OperacionV, Paso, PasoV,
};
use crate::aleatorio::{
    contrasena_desde, contrasena_desde_semilla, generar_server_seed, semilla_servidor,
};
use crate::iniciador::{contenido_iniciador, contenido_script_iniciador};
use crate::rcon::{contrasena_rcon, extraer_rcon_password, sin_contrasena};
use crate::webrcon::{
    inicio_webrcon, servidor_ya_apagado, transicion_webrcon, EnviarQuit, EtapaWebrcon,
};

verus! {

fn paso(avisos: Vec<String>, operacion: Operacion) -> (r: Paso)
    ensures
        r@ == (PasoV { avisos: vista_avisos(avisos@), operacion: operacion@ }),
{
    Paso { avisos, operacion }
}

pub open spec fn ruta_iniciador() -> Seq<char> {
    "SERVER/INICIADOR SERVER.bat"@
}

// ---------------------------------------------------------------------------
// Writing the launcher
// ---------------------------------------------------------------------------
/// Where writing the launcher is.
#[derive(Clone, Copy, Debug, PartialEq, Eq, Structural)]
pub enum EtapaIniciador {
    /// waiting for the clock reading that seeds the password
    RelojContrasena { existe: bool },
    /// waiting for the clock reading that seeds the map
    RelojSemilla { existe: bool, semilla_contrasena: u64 },
    Escribiendo { existe: bool },
    Terminado,
}

/// The first step of writing the launcher: refuse without the server, else
/// read the clock.
pub open spec fn inicio_iniciador(estado: EstadoInstalacion) -> (EtapaIniciador, PasoV) {
    if !estado.rust {
        (EtapaIniciador::Terminado, terminar_con_error("❌ Primero instala Rust"@))
    } else {
        (
            EtapaIniciador::RelojContrasena { existe: estado.iniciador },
            PasoV { avisos: seq![], operacion: OperacionV::LeerReloj },
        )
    }
}

/// The events that writing the launcher cannot take: a clock reading whose
/// milliseconds plus process id overflow 64 bits (the password seed is their
/// sum).
pub open spec fn evento_admisible_iniciador(etapa: EtapaIniciador, evento: EventoV) -> bool {
    match (etapa, evento) {
        (EtapaIniciador::RelojContrasena { .. }, EventoV::Reloj { milisegundos, id_proceso }) =>
            milisegundos + id_proceso <= u64::MAX,
        _ => true,
    }
}

/// Writing the launcher once both clock readings are in: the password from
/// `semilla_contrasena`, the map seed from the second reading.
pub open spec fn paso_escritura_spec(
    existe: bool,
    semilla_contrasena: u64,
    milisegundos: u64,
    id_proceso: u32,
) -> (EtapaIniciador, PasoV) {
    (
        EtapaIniciador::Escribiendo { existe },
        PasoV {
            avisos: seq![
                "📝 "@ + (if existe {
                    "Actualizando"@
                } else {
                    "Creando"@
                }) + " INICIADOR SERVER.bat..."@,
            ],
            operacion: OperacionV::EscribirArchivo {
                ruta: ruta_iniciador(),
                contenido: contenido_iniciador(
                    contrasena_desde(semilla_contrasena),
                    semilla_servidor(milisegundos, id_proceso) as i32,
                ),
            },
        },
    )
}

fn paso_escritura(existe: bool, semilla_contrasena: u64, milisegundos: u64, id_proceso: u32) -> (r: (
    EtapaIniciador,
    Paso,
))
    ensures
        (r.0, r.1@) == paso_escritura_spec(existe, semilla_contrasena, milisegundos, id_proceso),
{
    let contrasena = contrasena_desde_semilla(semilla_contrasena);
    let semilla = generar_server_seed(milisegundos, id_proceso);
    let contenido = contenido_script_iniciador(contrasena.as_str(), semilla);
    let tipo = if existe {
        "Actualizando"
    } else {
        "Creando"
    };
    (
        EtapaIniciador::Escribiendo { existe },
        paso(
            un_aviso(unir3("📝 ", tipo, " INICIADOR SERVER.bat...")),
            Operacion::EscribirArchivo { ruta: texto("SERVER/INICIADOR SERVER.bat"), contenido },
        ),
    )
}

/// How writing the launcher goes on after `evento`; `None` when the pending
/// operation cannot produce `evento`. The password is generated from the
/// first clock reading, the map seed from the second.
pub open spec fn transicion_iniciador(etapa: EtapaIniciador, evento: EventoV) -> Option<
    (EtapaIniciador, PasoV),
> {
    match (etapa, evento) {
        (
            EtapaIniciador::RelojContrasena { existe },
            EventoV::Reloj { milisegundos, id_proceso },
        ) => Some(
            (
                EtapaIniciador::RelojSemilla {
                    existe,
                    semilla_contrasena: (milisegundos + id_proceso) as u64,
                },
                PasoV { avisos: seq![], operacion: OperacionV::LeerReloj },
            ),
        ),
        (
            EtapaIniciador::RelojSemilla { existe, semilla_contrasena },
            EventoV::Reloj { milisegundos, id_proceso },
        ) => Some(paso_escritura_spec(existe, semilla_contrasena, milisegundos, id_proceso)),
        (EtapaIniciador::Escribiendo { existe }, EventoV::Hecho) => Some(
            (
                EtapaIniciador::Terminado,
                terminar_con_exito(
                    seq![
                        if existe {
                            "✅ INICIADOR SERVER.bat regenerado correctamente"@
                        } else {
                            "✅ INICIADOR SERVER.bat creado correctamente"@
                        },
                    ],
                ),
            ),
        ),
        (EtapaIniciador::Escribiendo { .. }, EventoV::Fallo(e)) => Some(
            (EtapaIniciador::Terminado, terminar_con_error(e)),
        ),
        _ => None,
    }
}

/// Writing `SERVER/INICIADOR SERVER.bat` with a fresh RCON password and map
/// seed.
#[derive(Debug)]
pub struct CrearIniciador {
    pub etapa: EtapaIniciador,
}

impl CrearIniciador {
    /// Starts from what is on disk.
    pub fn iniciar(estado: &EstadoInstalacion) -> (r: (CrearIniciador, Paso))
        ensures
            (r.0.etapa, r.1@) == inicio_iniciador(*estado),
    {
        if !estado.rust {
            return (
                CrearIniciador { etapa: EtapaIniciador::Terminado },
                paso_error(texto("❌ Primero instala Rust")),
            );
        }
        (
            CrearIniciador { etapa: EtapaIniciador::RelojContrasena { existe: estado.iniciador } },
            paso(ningun_aviso(), Operacion::LeerReloj),
        )
    }

    /// Goes on after the pending operation produced `evento`.
    pub fn avanzar(&mut self, evento: Evento) -> (r: Option<Paso>)
        requires
            evento_admisible_iniciador(old(self).etapa, evento@),
        ensures
            match transicion_iniciador(old(self).etapa, evento@) {
                Some((etapa, p)) => final(self).etapa == etapa && r is Some && r->0@ == p,
                None => final(self).etapa == old(self).etapa && r is None,
            },
    {
        let (etapa, p) = match (self.etapa, evento) {
            (
                EtapaIniciador::RelojContrasena { existe },
                Evento::Reloj { milisegundos, id_proceso },
            ) => (
                EtapaIniciador::RelojSemilla {
                    existe,
                    semilla_contrasena: milisegundos + id_proceso as u64,
                },
                paso(ningun_aviso(), Operacion::LeerReloj),
            ),
            (
                EtapaIniciador::RelojSemilla { existe, semilla_contrasena },
                Evento::Reloj { milisegundos, id_proceso },
            ) => paso_escritura(existe, semilla_contrasena, milisegundos, id_proceso),
            (EtapaIniciador::Escribiendo { existe }, Evento::Hecho) => {
                let aviso = if existe {
                    texto("✅ INICIADOR SERVER.bat regenerado correctamente")
                } else {
                    texto("✅ INICIADOR SERVER.bat creado correctamente")
                };
                (EtapaIniciador::Terminado, paso_exito(un_aviso(aviso)))
            },
            (EtapaIniciador::Escribiendo { .. }, Evento::Fallo(e)) => (
                EtapaIniciador::Terminado,
                paso_error(e),
            ),
            _ => {
                return None;
            },
        };
        self.etapa = etapa;
        Some(p)
    }
}

// ---------------------------------------------------------------------------
// Opening the plugin folder
// ---------------------------------------------------------------------------
/// Where opening the plugin folder is.
#[derive(Clone, Copy, Debug, PartialEq, Eq, Structural)]
pub enum EtapaPlugins {
    Abriendo,
    Terminado,
}

/// The first step of opening the plugin folder: refuse without SteamCMD, the
/// server, Oxide's folder or its plugin folder, in that order; else open it.
pub open spec fn inicio_plugins(estado: EstadoInstalacion) -> (EtapaPlugins, PasoV) {
    if !estado.steamcmd {
        (EtapaPlugins::Terminado, terminar_con_error("❌ Primero instala SteamCMD."@))
    } else if !estado.rust {
        (EtapaPlugins::Terminado, terminar_con_error("❌ Primero instala Rust."@))
    } else if !estado.oxide {
        (
            EtapaPlugins::Terminado,
            terminar_con_error(
                "❌ Primero instala Oxide y ejecuta el servidor al menos una vez para generar las carpetas"@,
            ),
        )
    } else if !estado.plugins {
        (
            EtapaPlugins::Terminado,
            terminar_con_error(
                "❌ La carpeta plugins no existe. Ejecuta el servidor una vez para que Oxide la genere automáticamente"@,
            ),
        )
    } else {
        (
            EtapaPlugins::Abriendo,
            PasoV {
                avisos: seq!["📂 Abriendo carpeta de plugins..."@],
                operacion: OperacionV::AbrirCarpeta("SERVER/oxide/plugins"@),
            },
        )
    }
}

/// How opening the plugin folder goes on after `evento`; `None` when the
/// pending operation cannot produce `evento`.
pub open spec fn transicion_plugins(etapa: EtapaPlugins, evento: EventoV) -> Option<
    (EtapaPlugins, PasoV),
> {
    match (etapa, evento) {
        (EtapaPlugins::Abriendo, EventoV::Hecho) => Some(
            (EtapaPlugins::Terminado, terminar_con_exito(seq!["✅ Carpeta de plugins abierta"@])),
        ),
        (EtapaPlugins::Abriendo, EventoV::Fallo(e)) => Some(
            (EtapaPlugins::Terminado, terminar_con_error("No se pudo abrir el explorador: "@ + e)),
        ),
        _ => None,
    }
}

/// Opening Oxide's plugin folder in the file explorer.
#[derive(Debug)]
pub struct AbrirCarpetaPlugins {
    pub etapa: EtapaPlugins,
}

impl AbrirCarpetaPlugins {
    /// Starts from what is on disk.
    pub fn iniciar(estado: &EstadoInstalacion) -> (r: (AbrirCarpetaPlugins, Paso))
        ensures
            (r.0.etapa, r.1@) == inicio_plugins(*estado),
    {
        let terminado = AbrirCarpetaPlugins { etapa: EtapaPlugins::Terminado };
        if !estado.steamcmd {
            return (terminado, paso_error(texto("❌ Primero instala SteamCMD.")));
        }
        if !estado.rust {
            return (terminado, paso_error(texto("❌ Primero instala Rust.")));
        }
        if !estado.oxide {
            return (
                terminado,
                paso_error(
                    texto(
                        "❌ Primero instala Oxide y ejecuta el servidor al menos una vez para generar las carpetas",
                    ),
                ),
            );
        }
        if !estado.plugins {
            return (
                terminado,
                paso_error(
                    texto(
                        "❌ La carpeta plugins no existe. Ejecuta el servidor una vez para que Oxide la genere automáticamente",
                    ),
                ),
            );
        }
        (
            AbrirCarpetaPlugins { etapa: EtapaPlugins::Abriendo },
            paso(
                un_aviso(texto("📂 Abriendo carpeta de plugins...")),
                Operacion::AbrirCarpeta(texto("SERVER/oxide/plugins")),
            ),
        )
    }

    /// Goes on after the pending operation produced `evento`.
    pub fn avanzar(&mut self, evento: Evento) -> (r: Option<Paso>)
        ensures
            match transicion_plugins(old(self).etapa, evento@) {
                Some((etapa, p)) => final(self).etapa == etapa && r is Some && r->0@ == p,
                None => final(self).etapa == old(self).etapa && r is None,
            },
    {
        let (etapa, p) = match (self.etapa, evento) {
            (EtapaPlugins::Abriendo, Evento::Hecho) => (
                EtapaPlugins::Terminado,
                paso_exito(un_aviso(texto("✅ Carpeta de plugins abierta"))),
            ),
            (EtapaPlugins::Abriendo, Evento::Fallo(e)) => (
                EtapaPlugins::Terminado,
                paso_error(unir("No se pudo abrir el explorador: ", e.as_str())),
            ),
            _ => {
                return None;
            },
        };
        self.etapa = etapa;
        Some(p)
    }
}

// ---------------------------------------------------------------------------
// Starting the server
// ---------------------------------------------------------------------------
/// Where starting the server is.
#[derive(Clone, Copy, Debug, PartialEq, Eq, Structural)]
pub enum EtapaInicio {
    Iniciando,
    Terminado,
}

/// The checks that starting and stopping the server make first: SteamCMD,
/// the server and the launcher must exist, in that order.
pub open spec fn error_previo_servidor(estado: EstadoInstalacion) -> Option<Seq<char>> {
    if !estado.steamcmd {
        Some("❌ Primero instala SteamCMD"@)
    } else if !estado.rust {
        Some("❌ Primero instala Rust"@)
    } else if !estado.iniciador {
        Some("❌ Crea el iniciador primero"@)
    } else {
        None
    }
}

fn comprobar_previo_servidor(estado: &EstadoInstalacion) -> (r: Option<String>)
    ensures
        match error_previo_servidor(*estado) {
            Some(e) => r is Some && r->0@ == e,
            None => r is None,
        },
{
    if !estado.steamcmd {
        Some(texto("❌ Primero instala SteamCMD"))
    } else if !estado.rust {
        Some(texto("❌ Primero instala Rust"))
    } else if !estado.iniciador {
        Some(texto("❌ Crea el iniciador primero"))
    } else {
        None
    }
}

/// The first step of starting the server: the checks, then run the launcher
/// in the server folder.
pub open spec fn inicio_servidor(estado: EstadoInstalacion) -> (EtapaInicio, PasoV) {
    match error_previo_servidor(estado) {
        Some(e) => (EtapaInicio::Terminado, terminar_con_error(e)),
        None => (
            EtapaInicio::Iniciando,
            PasoV {
                avisos: seq!["🚀 Iniciando servidor en nueva ventana..."@],
                operacion: OperacionV::LanzarIniciador {
                    archivo: ruta_iniciador(),
                    directorio: "SERVER"@,
                },
            },
        ),
    }
}

/// How starting the server goes on after `evento`; `None` when the pending
/// operation cannot produce `evento`.
pub open spec fn transicion_servidor(etapa: EtapaInicio, evento: EventoV) -> Option<
    (EtapaInicio, PasoV),
> {
    match (etapa, evento) {
        (EtapaInicio::Iniciando, EventoV::Hecho) => Some(
            (
                EtapaInicio::Terminado,
                terminar_con_exito(
                    seq![
                        "✅ Servidor iniciado en ventana aparte"@,
                        "💡 Escribe 'quit' en esa ventana para cerrar, o usa el botón Apagar"@,
                    ],
                ),
            ),
        ),
        (EtapaInicio::Iniciando, EventoV::Fallo(e)) => Some(
            (EtapaInicio::Terminado, terminar_con_error("Error al iniciar: "@ + e)),
        ),
        _ => None,
    }
}

/// Starting the server through its launcher, in a window of its own.
#[derive(Debug)]
pub struct IniciarServidor {
    pub etapa: EtapaInicio,
}

impl IniciarServidor {
    /// Starts from what is on disk.
    pub fn iniciar(estado: &EstadoInstalacion) -> (r: (IniciarServidor, Paso))
        ensures
            (r.0.etapa, r.1@) == inicio_servidor(*estado),
    {
        if let Some(e) = comprobar_previo_servidor(estado) {
            return (IniciarServidor { etapa: EtapaInicio::Terminado }, paso_error(e));
        }
        (
            IniciarServidor { etapa: EtapaInicio::Iniciando },
            paso(
                un_aviso(texto("🚀 Iniciando servidor en nueva ventana...")),
                Operacion::LanzarIniciador {
                    archivo: texto("SERVER/INICIADOR SERVER.bat"),
                    directorio: texto("SERVER"),
                },
            ),
        )
    }

    /// Goes on after the pending operation produced `evento`.
    pub fn avanzar(&mut self, evento: Evento) -> (r: Option<Paso>)
        ensures
            match transicion_servidor(old(self).etapa, evento@) {
                Some((etapa, p)) => final(self).etapa == etapa && r is Some && r->0@ == p,
                None => final(self).etapa == old(self).etapa && r is None,
            },
    {
        let (etapa, p) = match (self.etapa, evento) {
            (EtapaInicio::Iniciando, Evento::Hecho) => (
                EtapaInicio::Terminado,
                paso_exito(
                    dos_avisos(
                        texto("✅ Servidor iniciado en ventana aparte"),
                        texto("💡 Escribe 'quit' en esa ventana para cerrar, o usa el botón Apagar"),
                    ),
                ),
            ),
            (EtapaInicio::Iniciando, Evento::Fallo(e)) => (
                EtapaInicio::Terminado,
                paso_error(unir("Error al iniciar: ", e.as_str())),
            ),
            _ => {
                return None;
            },
        };
        self.etapa = etapa;
        Some(p)
    }
}

// ---------------------------------------------------------------------------
// Shutting the server down
// ---------------------------------------------------------------------------
/// Where the shutdown is.
#[derive(Clone, Copy, Debug, PartialEq, Eq, Structural)]
pub enum EtapaApagado {
    Leyendo,
    Webrcon(EtapaWebrcon),
    Terminado,
}

/// The address of the server's WebRCON.
pub open spec fn direccion_rcon() -> Seq<char> {
    "127.0.0.1:28016"@
}

/// What the shutdown sends and answers once the WebRCON exchange ended with
/// `r`: a refused connection means the server was already off, which is no
/// error; any other error is reported and returned.
pub open spec fn cierre_apagado(r: Result<(), Seq<char>>) -> (Seq<Seq<char>>, Result<(), Seq<char>>) {
    match r {
        Ok(()) => (seq![], Ok(())),
        Err(c) => if c == servidor_ya_apagado() {
            (seq!["⚠️ El servidor ya estaba apagado"@], Ok(()))
        } else {
            (seq!["❌ Error WebRCON: "@ + c], Err(c))
        },
    }
}

/// The shutdown's view of a WebRCON step: when the exchange ends, the
/// shutdown ends too, with `cierre_apagado` of its result.
pub open spec fn paso_apagado(etapa: EtapaWebrcon, p: PasoV) -> (EtapaApagado, PasoV) {
    match p.operacion {
        OperacionV::Terminar(r) => (
            EtapaApagado::Terminado,
            PasoV { avisos: p.avisos + cierre_apagado(r).0, operacion: OperacionV::Terminar(cierre_apagado(r).1) },
        ),
        _ => (EtapaApagado::Webrcon(etapa), p),
    }
}

/// The first step of the shutdown: the checks, then read the launcher.
pub open spec fn inicio_apagado(estado: EstadoInstalacion) -> (EtapaApagado, PasoV) {
    match error_previo_servidor(estado) {
        Some(e) => (EtapaApagado::Terminado, terminar_con_error(e)),
        None => (
            EtapaApagado::Leyendo,
            PasoV {
                avisos: seq!["🛑 Conectando vía WebRCON para enviar quit..."@],
                operacion: OperacionV::LeerArchivo(ruta_iniciador()),
            },
        ),
    }
}

/// How the shutdown goes on after `evento`; `None` when the pending
/// operation cannot produce `evento`. The RCON password comes from the
/// launcher's text; without one the shutdown ends with that error.
pub open spec fn transicion_apagado(etapa: EtapaApagado, evento: EventoV) -> Option<
    (EtapaApagado, PasoV),
> {
    match (etapa, evento) {
        (EtapaApagado::Leyendo, EventoV::Fallo(e)) => Some(
            (EtapaApagado::Terminado, terminar_con_error(e)),
        ),
        (EtapaApagado::Leyendo, EventoV::Texto(t)) => match contrasena_rcon(t) {
            None => Some((EtapaApagado::Terminado, terminar_con_error(sin_contrasena()))),
            Some(c) => {
                let (w, p) = inicio_webrcon(direccion_rcon(), c);
                Some(paso_apagado(w, p))
            },
        },
        (EtapaApagado::Webrcon(w), ev) => match transicion_webrcon(w, ev) {
            Some((w2, p)) => Some(paso_apagado(w2, p)),
            None => None,
        },
        _ => None,
    }
}

/// Shutting the server down cleanly with WebRCON `quit`.
#[derive(Debug)]
pub struct ApagarServidor {
    pub etapa: EtapaApagado,
}

/// What the shutdown sends and answers once the WebRCON exchange ended with
/// `r`.
pub fn resultado_apagado(r: Result<(), String>) -> (s: (Vec<String>, Result<(), String>))
    ensures
        (vista_avisos(s.0@), vista_resultado(s.1)) == cierre_apagado(vista_resultado(r)),
{
    match r {
        Ok(()) => (ningun_aviso(), Ok(())),
        Err(c) => {
            if c == texto("SERVIDOR_YA_APAGADO") {
                (un_aviso(texto("⚠️ El servidor ya estaba apagado")), Ok(()))
            } else {
                let aviso = unir("❌ Error WebRCON: ", c.as_str());
                (un_aviso(aviso), Err(c))
            }
        },
    }
}

fn continuar_apagado(quit: EnviarQuit, p: Paso) -> (r: (EtapaApagado, Paso))
    ensures
        (r.0, r.1@) == paso_apagado(quit.etapa, p@),
{
    let Paso { avisos, operacion } = p;
    match operacion {
        Operacion::Terminar(res) => {
            let (extra, final_res) = resultado_apagado(res);
            let mut todos = avisos;
            let ghost antes = todos@;
            let mut extra = extra;
            let ghost anadidos = extra@;
            todos.append(&mut extra);
            proof {
                assert(todos@ =~= antes + anadidos);
                assert(vista_avisos(todos@) =~= vista_avisos(antes) + vista_avisos(anadidos));
            }
            (EtapaApagado::Terminado, paso(todos, Operacion::Terminar(final_res)))
        },
        operacion => (EtapaApagado::Webrcon(quit.etapa), paso(avisos, operacion)),
    }
}

impl ApagarServidor {
    /// Starts from what is on disk.
    pub fn iniciar(estado: &EstadoInstalacion) -> (r: (ApagarServidor, Paso))
        ensures
            (r.0.etapa, r.1@) == inicio_apagado(*estado),
    {
        if let Some(e) = comprobar_previo_servidor(estado) {
            return (ApagarServidor { etapa: EtapaApagado::Terminado }, paso_error(e));
        }
        (
            ApagarServidor { etapa: EtapaApagado::Leyendo },
            paso(
                un_aviso(texto("🛑 Conectando vía WebRCON para enviar quit...")),
                Operacion::LeerArchivo(texto("SERVER/INICIADOR SERVER.bat")),
            ),
        )
    }

    /// Goes on after the pending operation produced `evento`.
    pub fn avanzar(&mut self, evento: Evento) -> (r: Option<Paso>)
        ensures
            match transicion_apagado(old(self).etapa, evento@) {
                Some((etapa, p)) => final(self).etapa == etapa && r is Some && r->0@ == p,
                None => final(self).etapa == old(self).etapa && r is None,
            },
    {
        let (etapa, p) = match (self.etapa, evento) {
            (EtapaApagado::Leyendo, Evento::Fallo(e)) => (EtapaApagado::Terminado, paso_error(e)),
            (EtapaApagado::Leyendo, Evento::Texto(t)) => {
                match extraer_rcon_password(t.as_str()) {
                    Err(e) => (EtapaApagado::Terminado, paso_error(e)),
                    Ok(c) => {
                        let (quit, p) = EnviarQuit::iniciar("127.0.0.1:28016", c.as_str());
                        continuar_apagado(quit, p)
                    },
                }
            },
            (EtapaApagado::Webrcon(w), ev) => {
                let mut quit = EnviarQuit { etapa: w };
                match quit.avanzar(ev) {
                    Some(p) => continuar_apagado(quit, p),
                    None => {
                        return None;
                    },
                }
            },
            _ => {
                return None;
            },
        };
        self.etapa = etapa;
        Some(p)
    }
}

} // verus!
