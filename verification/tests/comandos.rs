use servidor_rust_simple::instalacion::{
    guion_descarga, resultado_descarga, EliminarTodo, InstalarOxide, InstalarRust, InstalarSteam,
};
use servidor_rust_simple::proceso::{
    comprobar_rust_instalado, comprobar_steamcmd_instalado, Argumento, EstadoInstalacion, Evento,
    Operacion, Paso,
};
use servidor_rust_simple::servidor::{
    resultado_apagado, AbrirCarpetaPlugins, ApagarServidor, CrearIniciador, IniciarServidor,
};
use servidor_rust_simple::enlace::{argumentos_abrir_enlace, resultado_abrir_enlace};
use servidor_rust_simple::rcon::extraer_rcon_password;
use servidor_rust_simple::webrcon::mensaje_quit;

fn vacio() -> EstadoInstalacion {
    EstadoInstalacion {
        steamcmd: false,
        directorio_steamcmd: false,
        rust: false,
        oxide: false,
        plugins: false,
        iniciador: false,
        raiz: false,
    }
}

fn completo() -> EstadoInstalacion {
    EstadoInstalacion {
        steamcmd: true,
        directorio_steamcmd: true,
        rust: true,
        oxide: true,
        plugins: true,
        iniciador: true,
        raiz: true,
    }
}

fn t(s: &str) -> String {
    s.to_string()
}

fn error(p: &Paso) -> Option<String> {
    match &p.operacion {
        Operacion::Terminar(Err(e)) => Some(e.clone()),
        _ => None,
    }
}

fn exito(p: &Paso) -> bool {
    matches!(p.operacion, Operacion::Terminar(Ok(())))
}

#[test]
fn comprobaciones_de_instalacion() {
    assert!(!comprobar_steamcmd_instalado(&vacio()));
    assert!(!comprobar_rust_instalado(&vacio()));
    assert!(comprobar_steamcmd_instalado(&completo()));
    assert!(comprobar_rust_instalado(&completo()));
    let solo_steam = EstadoInstalacion { steamcmd: true, ..vacio() };
    assert!(comprobar_steamcmd_instalado(&solo_steam));
    assert!(!comprobar_rust_instalado(&solo_steam));
}

#[test]
fn instalar_steam_desde_cero() {
    let (mut m, p) = InstalarSteam::iniciar(&vacio());
    assert_eq!(p.avisos, vec![t("🔧 Instalando SteamCMD..."), t("📁 Paso 1/4: Preparando carpetas...")]);
    assert_eq!(p.operacion, Operacion::CrearDirectorio(t("STEAMCMD")));
    let p = m.avanzar(Evento::Hecho).unwrap();
    assert_eq!(p.avisos, vec![t("⬇️ Paso 2/4: Descargando SteamCMD...")]);
    assert_eq!(
        p.operacion,
        Operacion::Descargar {
            url: t("https://steamcdn-a.akamaihd.net/client/installer/steamcmd.zip"),
            destino: t("steamcmd.zip"),
        }
    );
    let p = m.avanzar(Evento::Hecho).unwrap();
    assert_eq!(p.avisos, vec![t("📦 Paso 3/4: Descomprimiendo archivos...")]);
    assert_eq!(
        p.operacion,
        Operacion::Descomprimir { archivo: t("steamcmd.zip"), destino: t("STEAMCMD") }
    );
    let p = m.avanzar(Evento::Salida(true)).unwrap();
    assert_eq!(p.operacion, Operacion::EliminarArchivo(t("steamcmd.zip")));
    let p = m.avanzar(Evento::Hecho).unwrap();
    assert_eq!(p.avisos, vec![t("⚙️ Paso 4/4: Inicializando SteamCMD...")]);
    assert_eq!(
        p.operacion,
        Operacion::EjecutarPrograma {
            programa: t("STEAMCMD/steamcmd.exe"),
            argumentos: vec![Argumento::Texto(t("+quit"))],
        }
    );
    // the exit status of the first run does not matter
    let p = m.avanzar(Evento::Salida(false)).unwrap();
    assert_eq!(p.operacion, Operacion::ComprobarRuta(t("STEAMCMD/steamcmd.exe")));
    let p = m.avanzar(Evento::Existe(true)).unwrap();
    assert_eq!(p.operacion, Operacion::MedirArchivo(t("STEAMCMD/steamcmd.exe")));
    let p = m.avanzar(Evento::Tamano(4096)).unwrap();
    assert!(exito(&p));
    assert_eq!(p.avisos, vec![t("✅ SteamCMD instalado correctamente")]);
    assert!(m.avanzar(Evento::Hecho).is_none());
}

#[test]
fn actualizar_steam_borra_la_carpeta() {
    let estado = EstadoInstalacion { steamcmd: true, directorio_steamcmd: true, ..vacio() };
    let (mut m, p) = InstalarSteam::iniciar(&estado);
    assert_eq!(p.avisos[0], "🔧 Actualizando SteamCMD...");
    assert_eq!(p.operacion, Operacion::EliminarDirectorio(t("STEAMCMD")));
    let p = m.avanzar(Evento::Hecho).unwrap();
    assert!(p.avisos.is_empty());
    assert_eq!(p.operacion, Operacion::CrearDirectorio(t("STEAMCMD")));
    for ev in [Evento::Hecho, Evento::Hecho, Evento::Salida(true), Evento::Hecho, Evento::Salida(true), Evento::Existe(true)] {
        m.avanzar(ev).unwrap();
    }
    let p = m.avanzar(Evento::Tamano(1)).unwrap();
    assert_eq!(p.avisos, vec![t("✅ SteamCMD actualizado correctamente")]);
    assert!(exito(&p));
}

#[test]
fn instalar_steam_errores() {
    let (mut m, _) = InstalarSteam::iniciar(&vacio());
    let p = m.avanzar(Evento::Fallo(t("acceso denegado"))).unwrap();
    assert_eq!(error(&p), Some(t("acceso denegado")));
    assert!(m.avanzar(Evento::Hecho).is_none());

    let (mut m, _) = InstalarSteam::iniciar(&vacio());
    m.avanzar(Evento::Hecho).unwrap();
    m.avanzar(Evento::Hecho).unwrap();
    let p = m.avanzar(Evento::Salida(false)).unwrap();
    assert_eq!(error(&p), Some(t("Error al descomprimir")));

    let (mut m, _) = InstalarSteam::iniciar(&vacio());
    m.avanzar(Evento::Hecho).unwrap();
    m.avanzar(Evento::Hecho).unwrap();
    let p = m.avanzar(Evento::Fallo(t("tar no existe"))).unwrap();
    assert_eq!(error(&p), Some(t("Error descomprimiendo: tar no existe")));

    let (mut m, _) = InstalarSteam::iniciar(&vacio());
    for ev in [Evento::Hecho, Evento::Hecho, Evento::Salida(true), Evento::Hecho] {
        m.avanzar(ev).unwrap();
    }
    let p = m.avanzar(Evento::Fallo(t("no ejecutable"))).unwrap();
    assert_eq!(error(&p), Some(t("Error ejecutando: no ejecutable")));

    let (mut m, _) = InstalarSteam::iniciar(&vacio());
    for ev in [Evento::Hecho, Evento::Hecho, Evento::Salida(true), Evento::Hecho, Evento::Salida(true)] {
        m.avanzar(ev).unwrap();
    }
    let p = m.avanzar(Evento::Existe(false)).unwrap();
    assert_eq!(error(&p), Some(t("❌ SteamCMD no se instaló correctamente")));

    let (mut m, _) = InstalarSteam::iniciar(&vacio());
    for ev in [Evento::Hecho, Evento::Hecho, Evento::Salida(true), Evento::Hecho, Evento::Salida(true), Evento::Existe(true)] {
        m.avanzar(ev).unwrap();
    }
    let p = m.avanzar(Evento::Tamano(0)).unwrap();
    assert_eq!(error(&p), Some(t("❌ SteamCMD no se instaló correctamente")));
}

#[test]
fn evento_inesperado_no_cambia_nada() {
    let (mut m, _) = InstalarSteam::iniciar(&vacio());
    assert!(m.avanzar(Evento::Tamano(3)).is_none());
    let p = m.avanzar(Evento::Hecho).unwrap();
    assert_eq!(p.avisos, vec![t("⬇️ Paso 2/4: Descargando SteamCMD...")]);
}

#[test]
fn instalar_rust() {
    let (_, p) = InstalarRust::iniciar(&vacio());
    assert_eq!(error(&p), Some(t("❌ Primero instala SteamCMD.")));
    assert!(p.avisos.is_empty());

    let estado = EstadoInstalacion { steamcmd: true, ..vacio() };
    let (mut m, p) = InstalarRust::iniciar(&estado);
    assert_eq!(
        p.avisos,
        vec![
            t("🎮 Instalando servidor de Rust..."),
            t("⏳ Esto puede tardar 5-10 minutos dependiendo de tu conexión..."),
        ]
    );
    assert_eq!(p.operacion, Operacion::CrearDirectorio(t("SERVER")));
    let p = m.avanzar(Evento::Hecho).unwrap();
    assert_eq!(p.avisos, vec![t("🔄 Descargando archivos del servidor...")]);
    assert_eq!(
        p.operacion,
        Operacion::LanzarPrograma {
            programa: t("STEAMCMD/steamcmd.exe"),
            argumentos: vec![
                Argumento::Texto(t("+login")),
                Argumento::Texto(t("anonymous")),
                Argumento::Texto(t("+force_install_dir")),
                Argumento::Ruta(t("SERVER")),
                Argumento::Texto(t("+app_update")),
                Argumento::Texto(t("258550")),
                Argumento::Texto(t("validate")),
                Argumento::Texto(t("+quit")),
            ],
        }
    );
    let p = m.avanzar(Evento::Hecho).unwrap();
    assert_eq!(p.operacion, Operacion::EsperarPrograma);
    let p = m.avanzar(Evento::Salida(true)).unwrap();
    assert!(exito(&p));
    assert_eq!(p.avisos, vec![t("✅ Servidor de Rust instalado correctamente")]);

    let (mut m, p) = InstalarRust::iniciar(&completo());
    assert_eq!(p.avisos[0], "🎮 Actualizando servidor de Rust...");
    m.avanzar(Evento::Hecho).unwrap();
    m.avanzar(Evento::Hecho).unwrap();
    let p = m.avanzar(Evento::Salida(false)).unwrap();
    assert_eq!(error(&p), Some(t("❌ Error al instalar Rust")));

    let (mut m, _) = InstalarRust::iniciar(&completo());
    m.avanzar(Evento::Hecho).unwrap();
    let p = m.avanzar(Evento::Fallo(t("no hay steamcmd"))).unwrap();
    assert_eq!(error(&p), Some(t("Error ejecutando steamcmd: no hay steamcmd")));

    let (mut m, _) = InstalarRust::iniciar(&completo());
    m.avanzar(Evento::Hecho).unwrap();
    m.avanzar(Evento::Hecho).unwrap();
    let p = m.avanzar(Evento::Salida(true)).unwrap();
    assert_eq!(p.avisos, vec![t("✅ Servidor de Rust actualizado correctamente")]);
}

#[test]
fn instalar_oxide() {
    let (_, p) = InstalarOxide::iniciar(&vacio());
    assert_eq!(error(&p), Some(t("❌ Primero instala SteamCMD.")));
    let (_, p) = InstalarOxide::iniciar(&EstadoInstalacion { steamcmd: true, ..vacio() });
    assert_eq!(error(&p), Some(t("❌ Primero instala Rust.")));

    let (mut m, p) = InstalarOxide::iniciar(&completo());
    assert_eq!(p.avisos, vec![t("⬇️ Descargando Oxide desde umod.org...")]);
    assert_eq!(
        p.operacion,
        Operacion::Descargar {
            url: t("https://umod.org/games/rust/download"),
            destino: t("Oxide.Rust.zip"),
        }
    );
    let p = m.avanzar(Evento::Hecho).unwrap();
    assert_eq!(
        p.avisos,
        vec![t("📦 Extrayendo archivos en el servidor..."), t("🔌 Instalando Oxide...")]
    );
    let p = m.avanzar(Evento::Salida(true)).unwrap();
    assert_eq!(p.operacion, Operacion::EliminarArchivo(t("Oxide.Rust.zip")));
    let p = m.avanzar(Evento::Hecho).unwrap();
    assert!(exito(&p));
    assert_eq!(
        p.avisos,
        vec![t("✅ Oxide instalado correctamente. El servidor ya soporta plugins!")]
    );

    let (mut m, _) = InstalarOxide::iniciar(&completo());
    m.avanzar(Evento::Hecho).unwrap();
    let p = m.avanzar(Evento::Salida(false)).unwrap();
    assert_eq!(error(&p), Some(t("❌ Error al instalar Oxide")));

    let (mut m, _) = InstalarOxide::iniciar(&completo());
    m.avanzar(Evento::Hecho).unwrap();
    let p = m.avanzar(Evento::Fallo(t("x"))).unwrap();
    assert_eq!(error(&p), Some(t("Error descomprimiendo Oxide: x")));
}

#[test]
fn eliminar_todo_dos_veces() {
    let (mut m, _) = EliminarTodo::iniciar(&completo());
    let p = m.avanzar(Evento::Hecho).unwrap();
    assert!(exito(&p));
    // the data folder is gone: the second run only notes it
    let (mut m, p) = EliminarTodo::iniciar(&EstadoInstalacion { raiz: false, ..completo() });
    assert!(exito(&p));
    assert_eq!(p.avisos, vec![t("⚠️ No hay nada que eliminar")]);
    assert!(m.avanzar(Evento::Hecho).is_none());
}

#[test]
fn eliminar_todo() {
    let (_, p) = EliminarTodo::iniciar(&vacio());
    assert!(exito(&p));
    assert_eq!(p.avisos, vec![t("⚠️ No hay nada que eliminar")]);

    let (mut m, p) = EliminarTodo::iniciar(&completo());
    assert_eq!(p.avisos, vec![t("🗑️ Eliminando todos los archivos...")]);
    assert_eq!(p.operacion, Operacion::EliminarDirectorio(t("")));
    let p = m.avanzar(Evento::Hecho).unwrap();
    assert!(exito(&p));
    assert_eq!(p.avisos, vec![t("✅ Todos los archivos han sido eliminados")]);

    let (mut m, _) = EliminarTodo::iniciar(&completo());
    let p = m.avanzar(Evento::Fallo(t("en uso"))).unwrap();
    assert_eq!(error(&p), Some(t("en uso")));
}

#[test]
fn crear_iniciador() {
    let (_, p) = CrearIniciador::iniciar(&vacio());
    assert_eq!(error(&p), Some(t("❌ Primero instala Rust")));

    let estado = EstadoInstalacion { steamcmd: true, rust: true, ..vacio() };
    let (mut m, p) = CrearIniciador::iniciar(&estado);
    assert_eq!(p.operacion, Operacion::LeerReloj);
    let p = m.avanzar(Evento::Reloj { milisegundos: 1_700_000_000_000, id_proceso: 4242 }).unwrap();
    assert_eq!(p.operacion, Operacion::LeerReloj);
    let p = m.avanzar(Evento::Reloj { milisegundos: 1_700_000_000_000, id_proceso: 4242 }).unwrap();
    assert_eq!(p.avisos, vec![t("📝 Creando INICIADOR SERVER.bat...")]);
    match &p.operacion {
        Operacion::EscribirArchivo { ruta, contenido } => {
            assert_eq!(ruta, "SERVER/INICIADOR SERVER.bat");
            assert!(contenido.contains("+rcon.password \"BKXaB.p8R-3W3m_mrafqXyjW3YHCjoJk\" ^\n"));
            assert!(contenido.contains("+server.seed 1113391715 +server.worldsize 4000"));
            assert_eq!(
                extraer_rcon_password(contenido),
                Ok(t("BKXaB.p8R-3W3m_mrafqXyjW3YHCjoJk"))
            );
        },
        otra => panic!("unexpected operation {:?}", otra),
    }
    let p = m.avanzar(Evento::Hecho).unwrap();
    assert!(exito(&p));
    assert_eq!(p.avisos, vec![t("✅ INICIADOR SERVER.bat creado correctamente")]);

    let (mut m, _) = CrearIniciador::iniciar(&completo());
    m.avanzar(Evento::Reloj { milisegundos: 1, id_proceso: 2 }).unwrap();
    let p = m.avanzar(Evento::Reloj { milisegundos: 3, id_proceso: 4 }).unwrap();
    assert_eq!(p.avisos, vec![t("📝 Actualizando INICIADOR SERVER.bat...")]);
    let p = m.avanzar(Evento::Fallo(t("disco lleno"))).unwrap();
    assert_eq!(error(&p), Some(t("disco lleno")));

    let (mut m, _) = CrearIniciador::iniciar(&completo());
    m.avanzar(Evento::Reloj { milisegundos: 1, id_proceso: 2 }).unwrap();
    m.avanzar(Evento::Reloj { milisegundos: 3, id_proceso: 4 }).unwrap();
    let p = m.avanzar(Evento::Hecho).unwrap();
    assert_eq!(p.avisos, vec![t("✅ INICIADOR SERVER.bat regenerado correctamente")]);
}

#[test]
fn abrir_carpeta_plugins() {
    let (_, p) = AbrirCarpetaPlugins::iniciar(&vacio());
    assert_eq!(error(&p), Some(t("❌ Primero instala SteamCMD.")));
    let (_, p) = AbrirCarpetaPlugins::iniciar(&EstadoInstalacion { steamcmd: true, ..vacio() });
    assert_eq!(error(&p), Some(t("❌ Primero instala Rust.")));
    let e = EstadoInstalacion { steamcmd: true, rust: true, ..vacio() };
    let (_, p) = AbrirCarpetaPlugins::iniciar(&e);
    assert_eq!(
        error(&p),
        Some(t("❌ Primero instala Oxide y ejecuta el servidor al menos una vez para generar las carpetas"))
    );
    let e = EstadoInstalacion { steamcmd: true, rust: true, oxide: true, ..vacio() };
    let (_, p) = AbrirCarpetaPlugins::iniciar(&e);
    assert_eq!(
        error(&p),
        Some(t("❌ La carpeta plugins no existe. Ejecuta el servidor una vez para que Oxide la genere automáticamente"))
    );
    let (mut m, p) = AbrirCarpetaPlugins::iniciar(&completo());
    assert_eq!(p.avisos, vec![t("📂 Abriendo carpeta de plugins...")]);
    assert_eq!(p.operacion, Operacion::AbrirCarpeta(t("SERVER/oxide/plugins")));
    let p = m.avanzar(Evento::Hecho).unwrap();
    assert!(exito(&p));
    assert_eq!(p.avisos, vec![t("✅ Carpeta de plugins abierta")]);

    let (mut m, _) = AbrirCarpetaPlugins::iniciar(&completo());
    let p = m.avanzar(Evento::Fallo(t("sin explorador"))).unwrap();
    assert_eq!(error(&p), Some(t("No se pudo abrir el explorador: sin explorador")));
}

#[test]
fn iniciar_servidor() {
    let (_, p) = IniciarServidor::iniciar(&vacio());
    assert_eq!(error(&p), Some(t("❌ Primero instala SteamCMD")));
    let (_, p) = IniciarServidor::iniciar(&EstadoInstalacion { steamcmd: true, ..vacio() });
    assert_eq!(error(&p), Some(t("❌ Primero instala Rust")));
    let e = EstadoInstalacion { steamcmd: true, rust: true, ..vacio() };
    let (_, p) = IniciarServidor::iniciar(&e);
    assert_eq!(error(&p), Some(t("❌ Crea el iniciador primero")));

    let (mut m, p) = IniciarServidor::iniciar(&completo());
    assert_eq!(p.avisos, vec![t("🚀 Iniciando servidor en nueva ventana...")]);
    assert_eq!(
        p.operacion,
        Operacion::LanzarIniciador {
            archivo: t("SERVER/INICIADOR SERVER.bat"),
            directorio: t("SERVER"),
        }
    );
    let p = m.avanzar(Evento::Hecho).unwrap();
    assert!(exito(&p));
    assert_eq!(
        p.avisos,
        vec![
            t("✅ Servidor iniciado en ventana aparte"),
            t("💡 Escribe 'quit' en esa ventana para cerrar, o usa el botón Apagar"),
        ]
    );
    let (mut m, _) = IniciarServidor::iniciar(&completo());
    let p = m.avanzar(Evento::Fallo(t("no encontrado"))).unwrap();
    assert_eq!(error(&p), Some(t("Error al iniciar: no encontrado")));
}

const LANZADOR: &str = "@echo off\n+rcon.password \"Abc123\" ^\n+server.seed 5\n";

#[test]
fn apagar_servidor_completo() {
    let (_, p) = ApagarServidor::iniciar(&vacio());
    assert_eq!(error(&p), Some(t("❌ Primero instala SteamCMD")));

    let (mut m, p) = ApagarServidor::iniciar(&completo());
    assert_eq!(p.avisos, vec![t("🛑 Conectando vía WebRCON para enviar quit...")]);
    assert_eq!(p.operacion, Operacion::LeerArchivo(t("SERVER/INICIADOR SERVER.bat")));
    let p = m.avanzar(Evento::Texto(t(LANZADOR))).unwrap();
    assert!(p.avisos.is_empty());
    assert_eq!(p.operacion, Operacion::Conectar(t("ws://127.0.0.1:28016/Abc123")));
    let p = m.avanzar(Evento::Hecho).unwrap();
    assert_eq!(p.avisos, vec![t("📡 Conectado a WebRCON")]);
    assert_eq!(p.operacion, Operacion::EnviarTexto(mensaje_quit()));
    let p = m.avanzar(Evento::Hecho).unwrap();
    assert_eq!(p.avisos, vec![t("📤 Comando 'quit' enviado")]);
    assert_eq!(p.operacion, Operacion::EsperarRespuesta);
    let p = m.avanzar(Evento::Hecho).unwrap();
    assert_eq!(
        p.avisos,
        vec![t("📨 Respuesta recibida del servidor"), t("✅ Proceso de apagado finalizado")]
    );
    assert_eq!(p.operacion, Operacion::CerrarConexion);
    let p = m.avanzar(Evento::Fallo(t("ya cerrado"))).unwrap();
    assert!(exito(&p));
    assert!(p.avisos.is_empty());
    assert!(m.avanzar(Evento::Hecho).is_none());
}

#[test]
fn apagar_servidor_respuestas() {
    for (ev, aviso) in [
        (Evento::Fallo(t("reset")), "⚠️ Error respuesta WebSocket: reset"),
        (Evento::Cerrado, "⚠️ WebRCON cerró sin respuesta"),
        (Evento::TiempoAgotado, "⏱️ Sin respuesta (timeout)"),
    ] {
        let (mut m, _) = ApagarServidor::iniciar(&completo());
        m.avanzar(Evento::Texto(t(LANZADOR))).unwrap();
        m.avanzar(Evento::Hecho).unwrap();
        m.avanzar(Evento::Hecho).unwrap();
        let p = m.avanzar(ev).unwrap();
        assert_eq!(p.avisos, vec![t(aviso), t("✅ Proceso de apagado finalizado")]);
        let p = m.avanzar(Evento::Hecho).unwrap();
        assert!(exito(&p));
    }
}

#[test]
fn apagar_servidor_ya_apagado() {
    let (mut m, _) = ApagarServidor::iniciar(&completo());
    m.avanzar(Evento::Texto(t(LANZADOR))).unwrap();
    let p = m.avanzar(Evento::Fallo(t("IO error: connection refused"))).unwrap();
    assert!(exito(&p));
    assert_eq!(p.avisos, vec![t("⚠️ El servidor ya estaba apagado")]);
}

#[test]
fn apagar_servidor_errores() {
    let (mut m, _) = ApagarServidor::iniciar(&completo());
    let p = m.avanzar(Evento::Fallo(t("no se puede leer"))).unwrap();
    assert_eq!(error(&p), Some(t("no se puede leer")));
    assert!(p.avisos.is_empty());

    let (mut m, _) = ApagarServidor::iniciar(&completo());
    let p = m.avanzar(Evento::Texto(t("@echo off\n"))).unwrap();
    assert_eq!(error(&p), Some(t("No se encontró contraseña RCON en el .bat")));
    assert!(p.avisos.is_empty());

    let (mut m, _) = ApagarServidor::iniciar(&completo());
    m.avanzar(Evento::Texto(t(LANZADOR))).unwrap();
    let p = m.avanzar(Evento::TiempoAgotado).unwrap();
    assert_eq!(error(&p), Some(t("Tiempo de espera agotado al conectar")));
    assert_eq!(p.avisos, vec![t("❌ Error WebRCON: Tiempo de espera agotado al conectar")]);

    let (mut m, _) = ApagarServidor::iniciar(&completo());
    m.avanzar(Evento::Texto(t(LANZADOR))).unwrap();
    let p = m.avanzar(Evento::Fallo(t("HTTP error: 401"))).unwrap();
    assert_eq!(error(&p), Some(t("Error conectando WebRCON: HTTP error: 401")));

    let (mut m, _) = ApagarServidor::iniciar(&completo());
    m.avanzar(Evento::Texto(t(LANZADOR))).unwrap();
    m.avanzar(Evento::Hecho).unwrap();
    let p = m.avanzar(Evento::Fallo(t("roto"))).unwrap();
    assert_eq!(error(&p), Some(t("Error enviando quit: roto")));
    assert_eq!(p.avisos, vec![t("❌ Error WebRCON: Error enviando quit: roto")]);
}

#[test]
fn apagar_con_espacio_en_contrasena() {
    let (mut m, _) = ApagarServidor::iniciar(&completo());
    // a space in the password is percent-encoded by the URL parser
    let p = m.avanzar(Evento::Texto(t("+rcon.password \"a b\" ^"))).unwrap();
    assert_eq!(p.operacion, Operacion::Conectar(t("ws://127.0.0.1:28016/a%20b")));
}

#[test]
fn cierre_del_apagado() {
    assert_eq!(resultado_apagado(Ok(())), (vec![], Ok(())));
    assert_eq!(
        resultado_apagado(Err(t("SERVIDOR_YA_APAGADO"))),
        (vec![t("⚠️ El servidor ya estaba apagado")], Ok(()))
    );
    assert_eq!(
        resultado_apagado(Err(t("otro"))),
        (vec![t("❌ Error WebRCON: otro")], Err(t("otro")))
    );
}

#[test]
fn descarga() {
    assert_eq!(
        guion_descarga("https://a/b.zip", "C:\\x\\b.zip"),
        "Invoke-WebRequest -Uri 'https://a/b.zip' -OutFile 'C:\\x\\b.zip' -UseBasicParsing"
    );
    assert_eq!(resultado_descarga(Ok((true, t("")))), Ok(()));
    assert_eq!(
        resultado_descarga(Ok((false, t("404")))),
        Err(t("PowerShell error: 404"))
    );
    assert_eq!(
        resultado_descarga(Err(t("no powershell"))),
        Err(t("Error descargando: no powershell"))
    );
}

#[test]
fn enlace() {
    assert_eq!(
        argumentos_abrir_enlace("https://umod.org"),
        vec![t("/C"), t("start"), t("https://umod.org")]
    );
    assert_eq!(resultado_abrir_enlace(Ok(true)), Ok(()));
    assert_eq!(
        resultado_abrir_enlace(Ok(false)),
        Err(t("No se pudo abrir el enlace"))
    );
    assert_eq!(resultado_abrir_enlace(Err(t("x"))), Err(t("x")));
}
