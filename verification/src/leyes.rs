//! What holds of every command, whatever the disk and the network report.

use vstd::prelude::*;
use crate::proceso::{ArgumentoV, EstadoInstalacion, EventoV, OperacionV, PasoV};
use crate::instalacion::{
    inicio_eliminar, inicio_oxide, inicio_rust, inicio_steam, transicion_eliminar,
    transicion_oxide, transicion_rust, transicion_steam, EtapaEliminar, EtapaOxide, EtapaRust,
    EtapaSteam,
};
use crate::servidor::{
    cierre_apagado, evento_admisible_iniciador, inicio_apagado, inicio_iniciador,
    inicio_plugins, inicio_servidor, transicion_apagado, transicion_iniciador,
    transicion_plugins, transicion_servidor, EtapaApagado, EtapaIniciador, EtapaInicio,
    EtapaPlugins,
};
use crate::webrcon::{direccion_webrcon, error_conexion, servidor_ya_apagado, url_analizada, EtapaWebrcon};
use crate::texto::contiene;
use crate::aleatorio::{caracter_de_contrasena, contrasena_desde, ley_contrasena_caracteres};
use crate::iniciador::{contenido_iniciador, ley_iniciador_devuelve_contrasena};
use crate::rcon::contrasena_rcon;

verus! {

/// The step ends the command, with an error and nothing sent.
pub open spec fn falla_sin_mas(p: PasoV) -> bool {
    p.avisos.len() == 0 && p.operacion matches OperacionV::Terminar(Err(_))
}

/// The step ends the command, with an error.
pub open spec fn termina_con_error(p: PasoV) -> bool {
    p.operacion matches OperacionV::Terminar(Err(_))
}

/// The step ends the command.
pub open spec fn termina(p: PasoV) -> bool {
    p.operacion matches OperacionV::Terminar(_)
}

/// Each command refuses to run before what it builds on is there, in the
/// order SteamCMD, server, then Oxide (or the launcher): it ends at once with
/// an error, touching nothing and sending no message.
pub proof fn ley_requisitos(estado: EstadoInstalacion)
    ensures
        !estado.steamcmd ==> falla_sin_mas(inicio_rust(estado).1) && falla_sin_mas(
            inicio_oxide(estado).1,
        ) && falla_sin_mas(inicio_plugins(estado).1) && falla_sin_mas(inicio_servidor(estado).1)
            && falla_sin_mas(inicio_apagado(estado).1),
        !estado.rust ==> falla_sin_mas(inicio_oxide(estado).1) && falla_sin_mas(
            inicio_plugins(estado).1,
        ) && falla_sin_mas(inicio_iniciador(estado).1) && falla_sin_mas(inicio_servidor(estado).1)
            && falla_sin_mas(inicio_apagado(estado).1),
        !estado.oxide || !estado.plugins ==> falla_sin_mas(inicio_plugins(estado).1),
        !estado.iniciador ==> falla_sin_mas(inicio_servidor(estado).1) && falla_sin_mas(
            inicio_apagado(estado).1,
        ),
{
}

/// A command has ended exactly when its step ends it: a step reaches the
/// final stage if and only if its operation is `Terminar`.
pub proof fn ley_fin_coherente(estado: EstadoInstalacion)
    ensures
        (inicio_steam(estado).0 == EtapaSteam::Terminado) == termina(inicio_steam(estado).1),
        (inicio_rust(estado).0 == EtapaRust::Terminado) == termina(inicio_rust(estado).1),
        (inicio_oxide(estado).0 == EtapaOxide::Terminado) == termina(inicio_oxide(estado).1),
        (inicio_eliminar(estado).0 == EtapaEliminar::Terminado) == termina(
            inicio_eliminar(estado).1,
        ),
        (inicio_iniciador(estado).0 == EtapaIniciador::Terminado) == termina(
            inicio_iniciador(estado).1,
        ),
        (inicio_plugins(estado).0 == EtapaPlugins::Terminado) == termina(inicio_plugins(estado).1),
        (inicio_servidor(estado).0 == EtapaInicio::Terminado) == termina(
            inicio_servidor(estado).1,
        ),
        (inicio_apagado(estado).0 == EtapaApagado::Terminado) == termina(inicio_apagado(estado).1),
{
}

/// The WebRCON address holds the whole password: it is `ws://`, the host
/// and port, a `/`, and then every character of the password, in order.
pub proof fn ley_direccion_webrcon(direccion: Seq<char>, contrasena: Seq<char>)
    ensures
        direccion_webrcon(direccion, contrasena).len() == 6 + direccion.len() + contrasena.len(),
        direccion_webrcon(direccion, contrasena).subrange(0, 5) == seq!['w', 's', ':', '/', '/'],
        direccion_webrcon(direccion, contrasena).subrange(5, 5int + direccion.len()) == direccion,
        direccion_webrcon(direccion, contrasena)[5int + direccion.len()] == '/',
        direccion_webrcon(direccion, contrasena).subrange(
            6int + direccion.len(),
            6int + direccion.len() + contrasena.len(),
        ) == contrasena,
{
    reveal_strlit("ws://");
    reveal_strlit("/");
    let a = direccion_webrcon(direccion, contrasena);
    assert(a.subrange(0, 5) =~= seq!['w', 's', ':', '/', '/']);
    assert(a.subrange(5, 5int + direccion.len()) =~= direccion);
    assert(a.subrange(6int + direccion.len(), 6int + direccion.len() + contrasena.len()) =~= contrasena);
}

/// After reading a launcher that this tool writes, the shutdown connects to
/// the URL parsed from `ws://127.0.0.1:28016/` followed by the whole password
/// of that launcher; when the URL does not parse, it ends with that error.
pub proof fn ley_apagado_conecta_con_contrasena(contrasena: Seq<char>, semilla: i32)
    requires
        forall|j: int|
            0 <= j < contrasena.len() ==> contrasena[j] != '"' && contrasena[j] != '\n',
    ensures
        url_analizada("ws://127.0.0.1:28016/"@ + contrasena) matches Ok(u) ==> transicion_apagado(
            EtapaApagado::Leyendo,
            EventoV::Texto(contenido_iniciador(contrasena, semilla)),
        ) == Some(
            (
                EtapaApagado::Webrcon(EtapaWebrcon::Conectando),
                PasoV { avisos: seq![], operacion: OperacionV::Conectar(u) },
            ),
        ),
        url_analizada("ws://127.0.0.1:28016/"@ + contrasena) matches Err(e) ==> transicion_apagado(
            EtapaApagado::Leyendo,
            EventoV::Texto(contenido_iniciador(contrasena, semilla)),
        ) == Some(
            (
                EtapaApagado::Terminado,
                PasoV {
                    avisos: seq!["❌ Error WebRCON: URL inválida: "@ + e],
                    operacion: OperacionV::Terminar(Err("URL inválida: "@ + e)),
                },
            ),
        ),
{
    ley_iniciador_devuelve_contrasena(contrasena, semilla);
    reveal_strlit("ws://");
    reveal_strlit("/");
    reveal_strlit("127.0.0.1:28016");
    reveal_strlit("ws://127.0.0.1:28016/");
    assert(direccion_webrcon("127.0.0.1:28016"@, contrasena) =~= "ws://127.0.0.1:28016/"@
        + contrasena);
    if let Err(e) = url_analizada("ws://127.0.0.1:28016/"@ + contrasena) {
        reveal_strlit("URL inválida: ");
        reveal_strlit("SERVIDOR_YA_APAGADO");
        reveal_strlit("❌ Error WebRCON: ");
        reveal_strlit("❌ Error WebRCON: URL inválida: ");
        let m = "URL inválida: "@ + e;
        assert(m[0] != servidor_ya_apagado()[0]);
        assert(m != servidor_ya_apagado());
        assert("❌ Error WebRCON: "@ + m =~= "❌ Error WebRCON: URL inválida: "@ + e);
        assert(Seq::<Seq<char>>::empty() + seq!["❌ Error WebRCON: "@ + m] =~= seq![
            "❌ Error WebRCON: URL inválida: "@ + e,
        ]);
    }
}

/// Once SteamCMD's executable is found, any nonzero size ends the
/// installation successfully, with the note of a fresh install or of an
/// update; a size of zero ends it with the error that SteamCMD did not
/// install.
pub proof fn ley_steam_tamano(actualizando: bool, n: u64)
    ensures
        n > 0 ==> transicion_steam(EtapaSteam::Midiendo { actualizando }, EventoV::Tamano(n))
            == Some(
            (
                EtapaSteam::Terminado,
                PasoV {
                    avisos: seq![
                        if actualizando {
                            "✅ SteamCMD actualizado correctamente"@
                        } else {
                            "✅ SteamCMD instalado correctamente"@
                        },
                    ],
                    operacion: OperacionV::Terminar(Ok(())),
                },
            ),
        ),
        n == 0 ==> transicion_steam(EtapaSteam::Midiendo { actualizando }, EventoV::Tamano(n))
            == Some(
            (
                EtapaSteam::Terminado,
                PasoV {
                    avisos: seq![],
                    operacion: OperacionV::Terminar(Err("❌ SteamCMD no se instaló correctamente"@)),
                },
            ),
        ),
{
}

/// Turning a SteamCMD installation into an update, or back, leaves every
/// operation it asks for unchanged.
pub open spec fn otra_bandera_steam(e: EtapaSteam) -> EtapaSteam {
    match e {
        EtapaSteam::BorrandoDirectorio { actualizando } => EtapaSteam::BorrandoDirectorio {
            actualizando: !actualizando,
        },
        EtapaSteam::CreandoDirectorio { actualizando } => EtapaSteam::CreandoDirectorio {
            actualizando: !actualizando,
        },
        EtapaSteam::Descargando { actualizando } => EtapaSteam::Descargando {
            actualizando: !actualizando,
        },
        EtapaSteam::Descomprimiendo { actualizando } => EtapaSteam::Descomprimiendo {
            actualizando: !actualizando,
        },
        EtapaSteam::BorrandoZip { actualizando } => EtapaSteam::BorrandoZip {
            actualizando: !actualizando,
        },
        EtapaSteam::Inicializando { actualizando } => EtapaSteam::Inicializando {
            actualizando: !actualizando,
        },
        EtapaSteam::Verificando { actualizando } => EtapaSteam::Verificando {
            actualizando: !actualizando,
        },
        EtapaSteam::Midiendo { actualizando } => EtapaSteam::Midiendo {
            actualizando: !actualizando,
        },
        EtapaSteam::Terminado => EtapaSteam::Terminado,
    }
}

/// Updating SteamCMD does the same work as installing it: from the same
/// stage with the other flag, every event leads to the same operation, and
/// to the same stage with the other flag (or to the end).
pub proof fn ley_steam_actualizar_como_instalar(e: EtapaSteam, ev: EventoV)
    ensures
        transicion_steam(e, ev) is Some <==> transicion_steam(otra_bandera_steam(e), ev) is Some,
        transicion_steam(e, ev) matches Some((e2, p)) ==> (transicion_steam(
            otra_bandera_steam(e),
            ev,
        ) matches Some((e3, q)) && q.operacion == p.operacion && e3 == otra_bandera_steam(e2)),
{
}

/// Installing and updating the server run the same SteamCMD command: after
/// `SERVER` is created, `STEAMCMD/steamcmd.exe` is started with
/// `+login anonymous +force_install_dir <SERVER> +app_update 258550 validate +quit`,
/// whichever the flag.
pub proof fn ley_rust_mismo_comando(actualizando: bool)
    ensures
        transicion_rust(EtapaRust::Creando { actualizando }, EventoV::Hecho) == Some(
            (
                EtapaRust::Lanzando { actualizando },
                PasoV {
                    avisos: seq!["🔄 Descargando archivos del servidor..."@],
                    operacion: OperacionV::LanzarPrograma {
                        programa: "STEAMCMD/steamcmd.exe"@,
                        argumentos: seq![
                            ArgumentoV::Texto("+login"@),
                            ArgumentoV::Texto("anonymous"@),
                            ArgumentoV::Texto("+force_install_dir"@),
                            ArgumentoV::Ruta("SERVER"@),
                            ArgumentoV::Texto("+app_update"@),
                            ArgumentoV::Texto("258550"@),
                            ArgumentoV::Texto("validate"@),
                            ArgumentoV::Texto("+quit"@),
                        ],
                    },
                },
            ),
        ),
        transicion_rust(EtapaRust::Lanzando { actualizando }, EventoV::Hecho) == Some(
            (
                EtapaRust::Esperando { actualizando },
                PasoV { avisos: seq![], operacion: OperacionV::EsperarPrograma },
            ),
        ),
        transicion_rust(EtapaRust::Esperando { actualizando }, EventoV::Salida(true)) == Some(
            (
                EtapaRust::Terminado,
                PasoV {
                    avisos: seq![
                        if actualizando {
                            "✅ Servidor de Rust actualizado correctamente"@
                        } else {
                            "✅ Servidor de Rust instalado correctamente"@
                        },
                    ],
                    operacion: OperacionV::Terminar(Ok(())),
                },
            ),
        ),
{
}

/// What each command needs is all it needs: with its prerequisites present,
/// whatever else is on disk, each command starts its work.
pub proof fn ley_requisitos_bastan(estado: EstadoInstalacion)
    ensures
        inicio_steam(estado).1.operacion == (if estado.directorio_steamcmd {
            OperacionV::EliminarDirectorio("STEAMCMD"@)
        } else {
            OperacionV::CrearDirectorio("STEAMCMD"@)
        }),
        inicio_steam(estado).1.avisos == seq![
            if estado.steamcmd {
                "🔧 Actualizando SteamCMD..."@
            } else {
                "🔧 Instalando SteamCMD..."@
            },
            "📁 Paso 1/4: Preparando carpetas..."@,
        ],
        estado.steamcmd ==> inicio_rust(estado) == (
            EtapaRust::Creando { actualizando: estado.rust },
            PasoV {
                avisos: seq![
                    if estado.rust {
                        "🎮 Actualizando servidor de Rust..."@
                    } else {
                        "🎮 Instalando servidor de Rust..."@
                    },
                    "⏳ Esto puede tardar 5-10 minutos dependiendo de tu conexión..."@,
                ],
                operacion: OperacionV::CrearDirectorio("SERVER"@),
            },
        ),
        estado.steamcmd && estado.rust ==> inicio_oxide(estado) == (
            EtapaOxide::Descargando,
            PasoV {
                avisos: seq!["⬇️ Descargando Oxide desde umod.org..."@],
                operacion: OperacionV::Descargar {
                    url: "https://umod.org/games/rust/download"@,
                    destino: "Oxide.Rust.zip"@,
                },
            },
        ),
        estado.rust ==> inicio_iniciador(estado) == (
            EtapaIniciador::RelojContrasena { existe: estado.iniciador },
            PasoV { avisos: seq![], operacion: OperacionV::LeerReloj },
        ),
        estado.steamcmd && estado.rust && estado.oxide && estado.plugins ==> inicio_plugins(
            estado,
        ) == (
            EtapaPlugins::Abriendo,
            PasoV {
                avisos: seq!["📂 Abriendo carpeta de plugins..."@],
                operacion: OperacionV::AbrirCarpeta("SERVER/oxide/plugins"@),
            },
        ),
        estado.steamcmd && estado.rust && estado.iniciador ==> inicio_servidor(estado) == (
            EtapaInicio::Iniciando,
            PasoV {
                avisos: seq!["🚀 Iniciando servidor en nueva ventana..."@],
                operacion: OperacionV::LanzarIniciador {
                    archivo: "SERVER/INICIADOR SERVER.bat"@,
                    directorio: "SERVER"@,
                },
            },
        ),
        estado.steamcmd && estado.rust && estado.iniciador ==> inicio_apagado(estado) == (
            EtapaApagado::Leyendo,
            PasoV {
                avisos: seq!["🛑 Conectando vía WebRCON para enviar quit..."@],
                operacion: OperacionV::LeerArchivo("SERVER/INICIADOR SERVER.bat"@),
            },
        ),
{
    reveal_strlit("🔧 ");
    reveal_strlit("Actualizando");
    reveal_strlit("Instalando");
    reveal_strlit(" SteamCMD...");
    reveal_strlit("🔧 Actualizando SteamCMD...");
    reveal_strlit("🔧 Instalando SteamCMD...");
    reveal_strlit("🎮 ");
    reveal_strlit(" servidor de Rust...");
    reveal_strlit("🎮 Actualizando servidor de Rust...");
    reveal_strlit("🎮 Instalando servidor de Rust...");
    if estado.steamcmd {
        assert("🔧 "@ + "Actualizando"@ + " SteamCMD..."@ =~= "🔧 Actualizando SteamCMD..."@);
    } else {
        assert("🔧 "@ + "Instalando"@ + " SteamCMD..."@ =~= "🔧 Instalando SteamCMD..."@);
    }
    if estado.rust {
        assert("🎮 "@ + "Actualizando"@ + " servidor de Rust..."@
            =~= "🎮 Actualizando servidor de Rust..."@);
    } else {
        assert("🎮 "@ + "Instalando"@ + " servidor de Rust..."@
            =~= "🎮 Instalando servidor de Rust..."@);
    }
    assert(inicio_steam(estado).1.avisos =~= seq![
        if estado.steamcmd {
            "🔧 Actualizando SteamCMD..."@
        } else {
            "🔧 Instalando SteamCMD..."@
        },
        "📁 Paso 1/4: Preparando carpetas..."@,
    ]);
}

pub open spec fn rango_steam(e: EtapaSteam) -> nat {
    match e {
        EtapaSteam::BorrandoDirectorio { .. } => 9,
        EtapaSteam::CreandoDirectorio { .. } => 8,
        EtapaSteam::Descargando { .. } => 7,
        EtapaSteam::Descomprimiendo { .. } => 6,
        EtapaSteam::BorrandoZip { .. } => 5,
        EtapaSteam::Inicializando { .. } => 4,
        EtapaSteam::Verificando { .. } => 3,
        EtapaSteam::Midiendo { .. } => 2,
        EtapaSteam::Terminado => 0,
    }
}

/// Installing SteamCMD always comes to an end: every step moves it forward,
/// a step ends it exactly when it reaches the final stage, and once ended it
/// takes no event. Every failure reported along the way ends it with an
/// error, and it succeeds only once the executable was found with a nonzero
/// size.
pub proof fn ley_instalar_steam(e: EtapaSteam, ev: EventoV)
    ensures
        transicion_steam(e, ev) matches Some((e2, p)) ==> rango_steam(e2) < rango_steam(e) && (e2
            == EtapaSteam::Terminado) == termina(p),
        e == EtapaSteam::Terminado ==> transicion_steam(e, ev) is None,
        ev is Fallo ==> (transicion_steam(e, ev) matches Some((_, p)) ==> termina_con_error(p)),
        transicion_steam(e, ev) matches Some((_, p)) && p.operacion == OperacionV::Terminar(
            Ok(()),
        ) ==> (e is Midiendo && (ev matches EventoV::Tamano(n) && n > 0)),
{
}

pub open spec fn rango_rust(e: EtapaRust) -> nat {
    match e {
        EtapaRust::Creando { .. } => 3,
        EtapaRust::Lanzando { .. } => 2,
        EtapaRust::Esperando { .. } => 1,
        EtapaRust::Terminado => 0,
    }
}

/// Installing the server always comes to an end, every failure ends it with
/// an error, and it succeeds only when SteamCMD exited successfully.
pub proof fn ley_instalar_rust(e: EtapaRust, ev: EventoV)
    ensures
        transicion_rust(e, ev) matches Some((e2, p)) ==> rango_rust(e2) < rango_rust(e) && (e2
            == EtapaRust::Terminado) == termina(p),
        e == EtapaRust::Terminado ==> transicion_rust(e, ev) is None,
        ev is Fallo ==> (transicion_rust(e, ev) matches Some((_, p)) ==> termina_con_error(p)),
        transicion_rust(e, ev) matches Some((_, p)) && p.operacion == OperacionV::Terminar(
            Ok(()),
        ) ==> e is Esperando && ev == EventoV::Salida(true),
{
}

pub open spec fn rango_oxide(e: EtapaOxide) -> nat {
    match e {
        EtapaOxide::Descargando => 3,
        EtapaOxide::Extrayendo => 2,
        EtapaOxide::BorrandoZip => 1,
        EtapaOxide::Terminado => 0,
    }
}

/// Installing Oxide always comes to an end, and every failure ends it with
/// an error.
pub proof fn ley_instalar_oxide(e: EtapaOxide, ev: EventoV)
    ensures
        transicion_oxide(e, ev) matches Some((e2, p)) ==> rango_oxide(e2) < rango_oxide(e) && (e2
            == EtapaOxide::Terminado) == termina(p),
        e == EtapaOxide::Terminado ==> transicion_oxide(e, ev) is None,
        ev is Fallo ==> (transicion_oxide(e, ev) matches Some((_, p)) ==> termina_con_error(p)),
{
}

/// Removing everything always comes to an end in one step, and a failure
/// ends it with an error.
pub proof fn ley_eliminar_todo(e: EtapaEliminar, ev: EventoV)
    ensures
        transicion_eliminar(e, ev) matches Some((e2, p)) ==> e2 == EtapaEliminar::Terminado
            && termina(p),
        e == EtapaEliminar::Terminado ==> transicion_eliminar(e, ev) is None,
        ev is Fallo ==> (transicion_eliminar(e, ev) matches Some((_, p)) ==> termina_con_error(
            p,
        )),
{
}

/// Removing everything twice: the first run's only change to the disk is the
/// removal of the whole data folder (path `""`), and a run that starts with
/// that folder absent, as a successful removal leaves it, succeeds at once
/// with the one note that there is nothing to remove, touching nothing.
pub proof fn ley_eliminar_dos_veces(antes: EstadoInstalacion, despues: EstadoInstalacion)
    requires
        !despues.raiz,
    ensures
        antes.raiz ==> inicio_eliminar(antes) == (
            EtapaEliminar::Borrando,
            PasoV {
                avisos: seq!["🗑️ Eliminando todos los archivos..."@],
                operacion: OperacionV::EliminarDirectorio(""@),
            },
        ),
        transicion_eliminar(EtapaEliminar::Borrando, EventoV::Hecho) == Some(
            (
                EtapaEliminar::Terminado,
                PasoV {
                    avisos: seq!["✅ Todos los archivos han sido eliminados"@],
                    operacion: OperacionV::Terminar(Ok(())),
                },
            ),
        ),
        inicio_eliminar(despues) == (
            EtapaEliminar::Terminado,
            PasoV {
                avisos: seq!["⚠️ No hay nada que eliminar"@],
                operacion: OperacionV::Terminar(Ok(())),
            },
        ),
{
}

pub open spec fn rango_iniciador(e: EtapaIniciador) -> nat {
    match e {
        EtapaIniciador::RelojContrasena { .. } => 3,
        EtapaIniciador::RelojSemilla { .. } => 2,
        EtapaIniciador::Escribiendo { .. } => 1,
        EtapaIniciador::Terminado => 0,
    }
}

/// Writing the launcher always comes to an end, and a failure ends it with
/// an error.
pub proof fn ley_crear_iniciador(e: EtapaIniciador, ev: EventoV)
    requires
        evento_admisible_iniciador(e, ev),
    ensures
        transicion_iniciador(e, ev) matches Some((e2, p)) ==> rango_iniciador(e2)
            < rango_iniciador(e) && (e2 == EtapaIniciador::Terminado) == termina(p),
        e == EtapaIniciador::Terminado ==> transicion_iniciador(e, ev) is None,
        ev is Fallo ==> (transicion_iniciador(e, ev) matches Some((_, p)) ==> termina_con_error(
            p,
        )),
{
}

/// The launcher that is written gives back, when read, the password that it
/// was written with: a 32-character password of ASCII letters, digits and
/// the symbols `-`, `_`, `.`, `~`.
pub proof fn ley_iniciador_escrito(semilla_contrasena: u64, semilla: i32)
    ensures
        contrasena_rcon(contenido_iniciador(contrasena_desde(semilla_contrasena), semilla))
            == Some(contrasena_desde(semilla_contrasena)),
        contrasena_desde(semilla_contrasena).len() == 32,
{
    let c = contrasena_desde(semilla_contrasena);
    ley_contrasena_caracteres(semilla_contrasena);
    assert forall|j: int| 0 <= j < c.len() implies c[j] != '"' && c[j] != '\n' by {
        assert(caracter_de_contrasena(c[j]));
    }
    ley_iniciador_devuelve_contrasena(c, semilla);
}

/// Opening the plugin folder and starting the server come to an end in one
/// step, and a failure ends them with an error.
pub proof fn ley_plugins_y_servidor(e: EtapaPlugins, f: EtapaInicio, ev: EventoV)
    ensures
        transicion_plugins(e, ev) matches Some((e2, p)) ==> e2 == EtapaPlugins::Terminado
            && termina(p),
        e == EtapaPlugins::Terminado ==> transicion_plugins(e, ev) is None,
        ev is Fallo ==> (transicion_plugins(e, ev) matches Some((_, p)) ==> termina_con_error(p)),
        transicion_servidor(f, ev) matches Some((f2, p)) ==> f2 == EtapaInicio::Terminado
            && termina(p),
        f == EtapaInicio::Terminado ==> transicion_servidor(f, ev) is None,
        ev is Fallo ==> (transicion_servidor(f, ev) matches Some((_, p)) ==> termina_con_error(
            p,
        )),
{
}

pub open spec fn rango_webrcon(e: EtapaWebrcon) -> nat {
    match e {
        EtapaWebrcon::Conectando => 4,
        EtapaWebrcon::Enviando => 3,
        EtapaWebrcon::Esperando => 2,
        EtapaWebrcon::Cerrando => 1,
        EtapaWebrcon::Terminado => 0,
    }
}

pub open spec fn rango_apagado(e: EtapaApagado) -> nat {
    match e {
        EtapaApagado::Leyendo => 6,
        EtapaApagado::Webrcon(w) => 1 + rango_webrcon(w),
        EtapaApagado::Terminado => 0,
    }
}

/// The shutdown always comes to an end. Once `quit` was sent, whatever
/// happens to the reply, it ends successfully; a server that refuses the
/// connection (it is not running) ends it successfully too, with a note
/// that it was already off.
pub proof fn ley_apagar_servidor(e: EtapaApagado, ev: EventoV)
    ensures
        transicion_apagado(e, ev) matches Some((e2, p)) ==> rango_apagado(e2) < rango_apagado(e)
            && (e2 == EtapaApagado::Terminado) == termina(p),
        e == EtapaApagado::Terminado ==> transicion_apagado(e, ev) is None,
        e == EtapaApagado::Webrcon(EtapaWebrcon::Esperando) && transicion_apagado(e, ev) is Some
            ==> transicion_apagado(e, ev).unwrap().0 == EtapaApagado::Webrcon(EtapaWebrcon::Cerrando),
        e == EtapaApagado::Webrcon(EtapaWebrcon::Cerrando) ==> (transicion_apagado(e, ev) matches Some(
            (_, p),
        ) ==> p.operacion == OperacionV::Terminar(Ok(()))),
        ev matches EventoV::Fallo(m) && (contiene(m, "10061"@) || contiene(m, "connection refused"@)) && e
            == EtapaApagado::Webrcon(EtapaWebrcon::Conectando) ==> transicion_apagado(e, ev)
            == Some(
            (
                EtapaApagado::Terminado,
                PasoV {
                    avisos: seq!["⚠️ El servidor ya estaba apagado"@],
                    operacion: OperacionV::Terminar(Ok(())),
                },
            ),
        ),
{
    if let EventoV::Fallo(m) = ev {
        if contiene(m, "10061"@) || contiene(m, "connection refused"@) {
            assert(error_conexion(m) == servidor_ya_apagado());
            assert(cierre_apagado(Err(servidor_ya_apagado())).1 == Ok::<(), Seq<char>>(()));
            assert(seq![] + seq!["⚠️ El servidor ya estaba apagado"@] =~= seq![
                "⚠️ El servidor ya estaba apagado"@,
            ]);
        }
    }
}

} // verus!
