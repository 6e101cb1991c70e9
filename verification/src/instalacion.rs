//! Installing SteamCMD, the dedicated server and Oxide, and removing it all.

use vstd::prelude::*;
use crate::proceso::{
    dos_avisos, ningun_aviso, paso_error, paso_exito, terminar_con_error, terminar_con_exito,
    texto, un_aviso, unir, unir3, vista_argumentos, vista_avisos, Argumento, ArgumentoV,
    EstadoInstalacion, Evento, EventoV, Operacion, OperacionV, Paso, PasoV,
};

verus! {

/// The PowerShell command that downloads `url` into the file `destino`.
pub open spec fn guion_descarga_spec(url: Seq<char>, destino: Seq<char>) -> Seq<char> {
    "Invoke-WebRequest -Uri '"@ + url + "' -OutFile '"@ + destino + "' -UseBasicParsing"@
}

/// The PowerShell command that downloads `url` into the file `destino`.
pub fn guion_descarga(url: &str, destino: &str) -> (r: String)
    ensures
        r@ == guion_descarga_spec(url@, destino@),
{
    let mut r = String::from_str("Invoke-WebRequest -Uri '");
    r.append(url);
    r.append("' -OutFile '");
    r.append(destino);
    r.append("' -UseBasicParsing");
    r
}

/// The outcome of a download from how PowerShell ran: it could not start
/// (`Err` with the error's text), or it ended with a success flag and what it
/// wrote to its error output.
pub fn resultado_descarga(ejecucion: Result<(bool, String), String>) -> (r: Result<(), String>)
    ensures
        match ejecucion {
            Err(e) => r is Err && r->Err_0@ == "Error descargando: "@ + e@,
            Ok((true, _)) => r is Ok,
            Ok((false, salida)) => r is Err && r->Err_0@ == "PowerShell error: "@ + salida@,
        },
{
    match ejecucion {
        Err(e) => Err(unir("Error descargando: ", e.as_str())),
        Ok((exito, salida)) => {
            if exito {
                Ok(())
            } else {
                Err(unir("PowerShell error: ", salida.as_str()))
            }
        },
    }
}

/// "Actualizando" when the thing is already there, else `nuevo`.
pub open spec fn tipo_operacion(actualizando: bool, nuevo: Seq<char>) -> Seq<char> {
    if actualizando {
        "Actualizando"@
    } else {
        nuevo
    }
}

fn tipo_exec(actualizando: bool, nuevo: &str) -> (r: String)
    ensures
        r@ == tipo_operacion(actualizando, nuevo@),
{
    if actualizando {
        texto("Actualizando")
    } else {
        texto(nuevo)
    }
}

fn paso(avisos: Vec<String>, operacion: Operacion) -> (r: Paso)
    ensures
        r@ == (PasoV { avisos: vista_avisos(avisos@), operacion: operacion@ }),
{
    Paso { avisos, operacion }
}

// ---------------------------------------------------------------------------
// 1. SteamCMD
// ---------------------------------------------------------------------------
/// Where the SteamCMD installation is.
#[derive(Clone, Copy, Debug, PartialEq, Eq, Structural)]
pub enum EtapaSteam {
    BorrandoDirectorio { actualizando: bool },
    CreandoDirectorio { actualizando: bool },
    Descargando { actualizando: bool },
    Descomprimiendo { actualizando: bool },
    BorrandoZip { actualizando: bool },
    Inicializando { actualizando: bool },
    Verificando { actualizando: bool },
    Midiendo { actualizando: bool },
    Terminado,
}

pub open spec fn url_steamcmd() -> Seq<char> {
    "https://steamcdn-a.akamaihd.net/client/installer/steamcmd.zip"@
}

pub open spec fn steamcmd_no_instalado() -> Seq<char> {
    "❌ SteamCMD no se instaló correctamente"@
}

pub open spec fn aviso_final_steam(actualizando: bool) -> Seq<char> {
    if actualizando {
        "✅ SteamCMD actualizado correctamente"@
    } else {
        "✅ SteamCMD instalado correctamente"@
    }
}

/// The first step of installing SteamCMD: announce whether it installs or
/// updates, then clear out an earlier `STEAMCMD` folder, or create it.
pub open spec fn inicio_steam(estado: EstadoInstalacion) -> (EtapaSteam, PasoV) {
    let act = estado.steamcmd;
    let avisos = seq![
        "🔧 "@ + tipo_operacion(act, "Instalando"@) + " SteamCMD..."@,
        "📁 Paso 1/4: Preparando carpetas..."@,
    ];
    if estado.directorio_steamcmd {
        (
            EtapaSteam::BorrandoDirectorio { actualizando: act },
            PasoV { avisos, operacion: OperacionV::EliminarDirectorio("STEAMCMD"@) },
        )
    } else {
        (
            EtapaSteam::CreandoDirectorio { actualizando: act },
            PasoV { avisos, operacion: OperacionV::CrearDirectorio("STEAMCMD"@) },
        )
    }
}

/// How installing SteamCMD goes on after `evento`; `None` when the pending
/// operation cannot produce `evento`.
pub open spec fn transicion_steam(etapa: EtapaSteam, evento: EventoV) -> Option<
    (EtapaSteam, PasoV),
> {
    match (etapa, evento) {
        (EtapaSteam::BorrandoDirectorio { actualizando }, EventoV::Hecho) => Some(
            (
                EtapaSteam::CreandoDirectorio { actualizando },
                PasoV { avisos: seq![], operacion: OperacionV::CrearDirectorio("STEAMCMD"@) },
            ),
        ),
        (EtapaSteam::CreandoDirectorio { actualizando }, EventoV::Hecho) => Some(
            (
                EtapaSteam::Descargando { actualizando },
                PasoV {
                    avisos: seq!["⬇️ Paso 2/4: Descargando SteamCMD..."@],
                    operacion: OperacionV::Descargar {
                        url: url_steamcmd(),
                        destino: "steamcmd.zip"@,
                    },
                },
            ),
        ),
        (EtapaSteam::Descargando { actualizando }, EventoV::Hecho) => Some(
            (
                EtapaSteam::Descomprimiendo { actualizando },
                PasoV {
                    avisos: seq!["📦 Paso 3/4: Descomprimiendo archivos..."@],
                    operacion: OperacionV::Descomprimir {
                        archivo: "steamcmd.zip"@,
                        destino: "STEAMCMD"@,
                    },
                },
            ),
        ),
        (EtapaSteam::Descomprimiendo { actualizando }, EventoV::Salida(exito)) => if exito {
            Some(
                (
                    EtapaSteam::BorrandoZip { actualizando },
                    PasoV {
                        avisos: seq![],
                        operacion: OperacionV::EliminarArchivo("steamcmd.zip"@),
                    },
                ),
            )
        } else {
            Some((EtapaSteam::Terminado, terminar_con_error("Error al descomprimir"@)))
        },
        (EtapaSteam::Descomprimiendo { .. }, EventoV::Fallo(e)) => Some(
            (EtapaSteam::Terminado, terminar_con_error("Error descomprimiendo: "@ + e)),
        ),
        (EtapaSteam::BorrandoZip { actualizando }, EventoV::Hecho) => Some(
            (
                EtapaSteam::Inicializando { actualizando },
                PasoV {
                    avisos: seq!["⚙️ Paso 4/4: Inicializando SteamCMD..."@],
                    operacion: OperacionV::EjecutarPrograma {
                        programa: "STEAMCMD/steamcmd.exe"@,
                        argumentos: seq![ArgumentoV::Texto("+quit"@)],
                    },
                },
            ),
        ),
        (EtapaSteam::Inicializando { actualizando }, EventoV::Salida(_)) => Some(
            (
                EtapaSteam::Verificando { actualizando },
                PasoV {
                    avisos: seq![],
                    operacion: OperacionV::ComprobarRuta("STEAMCMD/steamcmd.exe"@),
                },
            ),
        ),
        (EtapaSteam::Inicializando { .. }, EventoV::Fallo(e)) => Some(
            (EtapaSteam::Terminado, terminar_con_error("Error ejecutando: "@ + e)),
        ),
        (EtapaSteam::Verificando { actualizando }, EventoV::Existe(existe)) => if existe {
            Some(
                (
                    EtapaSteam::Midiendo { actualizando },
                    PasoV {
                        avisos: seq![],
                        operacion: OperacionV::MedirArchivo("STEAMCMD/steamcmd.exe"@),
                    },
                ),
            )
        } else {
            Some((EtapaSteam::Terminado, terminar_con_error(steamcmd_no_instalado())))
        },
        (EtapaSteam::Midiendo { actualizando }, EventoV::Tamano(n)) => if n > 0 {
            Some((EtapaSteam::Terminado, terminar_con_exito(seq![aviso_final_steam(actualizando)])))
        } else {
            Some((EtapaSteam::Terminado, terminar_con_error(steamcmd_no_instalado())))
        },
        // Every other failure ends the installation with the error's own text.
        (EtapaSteam::BorrandoDirectorio { .. }, EventoV::Fallo(e)) => Some(
            (EtapaSteam::Terminado, terminar_con_error(e)),
        ),
        (EtapaSteam::CreandoDirectorio { .. }, EventoV::Fallo(e)) => Some(
            (EtapaSteam::Terminado, terminar_con_error(e)),
        ),
        (EtapaSteam::Descargando { .. }, EventoV::Fallo(e)) => Some(
            (EtapaSteam::Terminado, terminar_con_error(e)),
        ),
        (EtapaSteam::BorrandoZip { .. }, EventoV::Fallo(e)) => Some(
            (EtapaSteam::Terminado, terminar_con_error(e)),
        ),
        (EtapaSteam::Midiendo { .. }, EventoV::Fallo(e)) => Some(
            (EtapaSteam::Terminado, terminar_con_error(e)),
        ),
        _ => None,
    }
}

/// Installing (or reinstalling) SteamCMD into `STEAMCMD`.
#[derive(Debug)]
pub struct InstalarSteam {
    pub etapa: EtapaSteam,
}

impl InstalarSteam {
    /// Starts the installation from what is on disk.
    pub fn iniciar(estado: &EstadoInstalacion) -> (r: (InstalarSteam, Paso))
        ensures
            (r.0.etapa, r.1@) == inicio_steam(*estado),
    {
        let act = estado.steamcmd;
        let tipo = tipo_exec(act, "Instalando");
        let avisos = dos_avisos(
            unir3("🔧 ", tipo.as_str(), " SteamCMD..."),
            texto("📁 Paso 1/4: Preparando carpetas..."),
        );
        if estado.directorio_steamcmd {
            (
                InstalarSteam { etapa: EtapaSteam::BorrandoDirectorio { actualizando: act } },
                paso(avisos, Operacion::EliminarDirectorio(texto("STEAMCMD"))),
            )
        } else {
            (
                InstalarSteam { etapa: EtapaSteam::CreandoDirectorio { actualizando: act } },
                paso(avisos, Operacion::CrearDirectorio(texto("STEAMCMD"))),
            )
        }
    }

    /// Goes on after the pending operation produced `evento`.
    pub fn avanzar(&mut self, evento: Evento) -> (r: Option<Paso>)
        ensures
            match transicion_steam(old(self).etapa, evento@) {
                Some((etapa, p)) => final(self).etapa == etapa && r is Some && r->0@ == p,
                None => final(self).etapa == old(self).etapa && r is None,
            },
    {
        let (etapa, p) = match (self.etapa, evento) {
            (EtapaSteam::BorrandoDirectorio { actualizando }, Evento::Hecho) => (
                EtapaSteam::CreandoDirectorio { actualizando },
                paso(ningun_aviso(), Operacion::CrearDirectorio(texto("STEAMCMD"))),
            ),
            (EtapaSteam::CreandoDirectorio { actualizando }, Evento::Hecho) => (
                EtapaSteam::Descargando { actualizando },
                paso(
                    un_aviso(texto("⬇️ Paso 2/4: Descargando SteamCMD...")),
                    Operacion::Descargar {
                        url: texto("https://steamcdn-a.akamaihd.net/client/installer/steamcmd.zip"),
                        destino: texto("steamcmd.zip"),
                    },
                ),
            ),
            (EtapaSteam::Descargando { actualizando }, Evento::Hecho) => (
                EtapaSteam::Descomprimiendo { actualizando },
                paso(
                    un_aviso(texto("📦 Paso 3/4: Descomprimiendo archivos...")),
                    Operacion::Descomprimir {
                        archivo: texto("steamcmd.zip"),
                        destino: texto("STEAMCMD"),
                    },
                ),
            ),
            (EtapaSteam::Descomprimiendo { actualizando }, Evento::Salida(exito)) => {
                if exito {
                    (
                        EtapaSteam::BorrandoZip { actualizando },
                        paso(ningun_aviso(), Operacion::EliminarArchivo(texto("steamcmd.zip"))),
                    )
                } else {
                    (EtapaSteam::Terminado, paso_error(texto("Error al descomprimir")))
                }
            },
            (EtapaSteam::Descomprimiendo { .. }, Evento::Fallo(e)) => (
                EtapaSteam::Terminado,
                paso_error(unir("Error descomprimiendo: ", e.as_str())),
            ),
            (EtapaSteam::BorrandoZip { actualizando }, Evento::Hecho) => {
                let mut argumentos: Vec<Argumento> = Vec::new();
                argumentos.push(Argumento::Texto(texto("+quit")));
                assert(vista_argumentos(argumentos@) =~= seq![ArgumentoV::Texto("+quit"@)]);
                (
                    EtapaSteam::Inicializando { actualizando },
                    paso(
                        un_aviso(texto("⚙️ Paso 4/4: Inicializando SteamCMD...")),
                        Operacion::EjecutarPrograma {
                            programa: texto("STEAMCMD/steamcmd.exe"),
                            argumentos,
                        },
                    ),
                )
            },
            (EtapaSteam::Inicializando { actualizando }, Evento::Salida(_)) => (
                EtapaSteam::Verificando { actualizando },
                paso(ningun_aviso(), Operacion::ComprobarRuta(texto("STEAMCMD/steamcmd.exe"))),
            ),
            (EtapaSteam::Inicializando { .. }, Evento::Fallo(e)) => (
                EtapaSteam::Terminado,
                paso_error(unir("Error ejecutando: ", e.as_str())),
            ),
            (EtapaSteam::Verificando { actualizando }, Evento::Existe(existe)) => {
                if existe {
                    (
                        EtapaSteam::Midiendo { actualizando },
                        paso(
                            ningun_aviso(),
                            Operacion::MedirArchivo(texto("STEAMCMD/steamcmd.exe")),
                        ),
                    )
                } else {
                    (
                        EtapaSteam::Terminado,
                        paso_error(texto("❌ SteamCMD no se instaló correctamente")),
                    )
                }
            },
            (EtapaSteam::Midiendo { actualizando }, Evento::Tamano(n)) => {
                if n > 0 {
                    let aviso = if actualizando {
                        texto("✅ SteamCMD actualizado correctamente")
                    } else {
                        texto("✅ SteamCMD instalado correctamente")
                    };
                    (EtapaSteam::Terminado, paso_exito(un_aviso(aviso)))
                } else {
                    (
                        EtapaSteam::Terminado,
                        paso_error(texto("❌ SteamCMD no se instaló correctamente")),
                    )
                }
            },
            (EtapaSteam::BorrandoDirectorio { .. }, Evento::Fallo(e)) => (
                EtapaSteam::Terminado,
                paso_error(e),
            ),
            (EtapaSteam::CreandoDirectorio { .. }, Evento::Fallo(e)) => (
                EtapaSteam::Terminado,
                paso_error(e),
            ),
            (EtapaSteam::Descargando { .. }, Evento::Fallo(e)) => (
                EtapaSteam::Terminado,
                paso_error(e),
            ),
            (EtapaSteam::BorrandoZip { .. }, Evento::Fallo(e)) => (
                EtapaSteam::Terminado,
                paso_error(e),
            ),
            (EtapaSteam::Midiendo { .. }, Evento::Fallo(e)) => (EtapaSteam::Terminado, paso_error(e)),
            _ => {
                return None;
            },
        };
        self.etapa = etapa;
        Some(p)
    }
}

// ---------------------------------------------------------------------------
// 2. The Rust dedicated server
// ---------------------------------------------------------------------------
/// Where the server installation is.
#[derive(Clone, Copy, Debug, PartialEq, Eq, Structural)]
pub enum EtapaRust {
    Creando { actualizando: bool },
    Lanzando { actualizando: bool },
    Esperando { actualizando: bool },
    Terminado,
}

/// The SteamCMD arguments that install or update the server (Steam app
/// 258550) into `SERVER`, checking its files.
pub open spec fn argumentos_actualizacion() -> Seq<ArgumentoV> {
    seq![
        ArgumentoV::Texto("+login"@),
        ArgumentoV::Texto("anonymous"@),
        ArgumentoV::Texto("+force_install_dir"@),
        ArgumentoV::Ruta("SERVER"@),
        ArgumentoV::Texto("+app_update"@),
        ArgumentoV::Texto("258550"@),
        ArgumentoV::Texto("validate"@),
        ArgumentoV::Texto("+quit"@),
    ]
}

pub open spec fn aviso_final_rust(actualizando: bool) -> Seq<char> {
    if actualizando {
        "✅ Servidor de Rust actualizado correctamente"@
    } else {
        "✅ Servidor de Rust instalado correctamente"@
    }
}

/// The first step of installing the server: refuse without SteamCMD, else
/// announce whether it installs or updates and create `SERVER`.
pub open spec fn inicio_rust(estado: EstadoInstalacion) -> (EtapaRust, PasoV) {
    if !estado.steamcmd {
        (EtapaRust::Terminado, terminar_con_error("❌ Primero instala SteamCMD."@))
    } else {
        (
            EtapaRust::Creando { actualizando: estado.rust },
            PasoV {
                avisos: seq![
                    "🎮 "@ + tipo_operacion(estado.rust, "Instalando"@) + " servidor de Rust..."@,
                    "⏳ Esto puede tardar 5-10 minutos dependiendo de tu conexión..."@,
                ],
                operacion: OperacionV::CrearDirectorio("SERVER"@),
            },
        )
    }
}

/// How installing the server goes on after `evento`; `None` when the pending
/// operation cannot produce `evento`.
pub open spec fn transicion_rust(etapa: EtapaRust, evento: EventoV) -> Option<(EtapaRust, PasoV)> {
    match (etapa, evento) {
        (EtapaRust::Creando { actualizando }, EventoV::Hecho) => Some(
            (
                EtapaRust::Lanzando { actualizando },
                PasoV {
                    avisos: seq!["🔄 Descargando archivos del servidor..."@],
                    operacion: OperacionV::LanzarPrograma {
                        programa: "STEAMCMD/steamcmd.exe"@,
                        argumentos: argumentos_actualizacion(),
                    },
                },
            ),
        ),
        (EtapaRust::Creando { .. }, EventoV::Fallo(e)) => Some(
            (EtapaRust::Terminado, terminar_con_error(e)),
        ),
        (EtapaRust::Lanzando { actualizando }, EventoV::Hecho) => Some(
            (
                EtapaRust::Esperando { actualizando },
                PasoV { avisos: seq![], operacion: OperacionV::EsperarPrograma },
            ),
        ),
        (EtapaRust::Lanzando { .. }, EventoV::Fallo(e)) => Some(
            (EtapaRust::Terminado, terminar_con_error("Error ejecutando steamcmd: "@ + e)),
        ),
        (EtapaRust::Esperando { actualizando }, EventoV::Salida(exito)) => if exito {
            Some((EtapaRust::Terminado, terminar_con_exito(seq![aviso_final_rust(actualizando)])))
        } else {
            Some((EtapaRust::Terminado, terminar_con_error("❌ Error al instalar Rust"@)))
        },
        (EtapaRust::Esperando { .. }, EventoV::Fallo(e)) => Some(
            (EtapaRust::Terminado, terminar_con_error(e)),
        ),
        _ => None,
    }
}

/// Installing or updating the dedicated server into `SERVER` with SteamCMD.
#[derive(Debug)]
pub struct InstalarRust {
    pub etapa: EtapaRust,
}

impl InstalarRust {
    /// Starts the installation from what is on disk.
    pub fn iniciar(estado: &EstadoInstalacion) -> (r: (InstalarRust, Paso))
        ensures
            (r.0.etapa, r.1@) == inicio_rust(*estado),
    {
        if !estado.steamcmd {
            return (
                InstalarRust { etapa: EtapaRust::Terminado },
                paso_error(texto("❌ Primero instala SteamCMD.")),
            );
        }
        let tipo = tipo_exec(estado.rust, "Instalando");
        let avisos = dos_avisos(
            unir3("🎮 ", tipo.as_str(), " servidor de Rust..."),
            texto("⏳ Esto puede tardar 5-10 minutos dependiendo de tu conexión..."),
        );
        (
            InstalarRust { etapa: EtapaRust::Creando { actualizando: estado.rust } },
            paso(avisos, Operacion::CrearDirectorio(texto("SERVER"))),
        )
    }

    /// Goes on after the pending operation produced `evento`.
    pub fn avanzar(&mut self, evento: Evento) -> (r: Option<Paso>)
        ensures
            match transicion_rust(old(self).etapa, evento@) {
                Some((etapa, p)) => final(self).etapa == etapa && r is Some && r->0@ == p,
                None => final(self).etapa == old(self).etapa && r is None,
            },
    {
        let (etapa, p) = match (self.etapa, evento) {
            (EtapaRust::Creando { actualizando }, Evento::Hecho) => {
                let mut a: Vec<Argumento> = Vec::new();
                a.push(Argumento::Texto(texto("+login")));
                a.push(Argumento::Texto(texto("anonymous")));
                a.push(Argumento::Texto(texto("+force_install_dir")));
                a.push(Argumento::Ruta(texto("SERVER")));
                a.push(Argumento::Texto(texto("+app_update")));
                a.push(Argumento::Texto(texto("258550")));
                a.push(Argumento::Texto(texto("validate")));
                a.push(Argumento::Texto(texto("+quit")));
                assert(vista_argumentos(a@) =~= argumentos_actualizacion());
                (
                    EtapaRust::Lanzando { actualizando },
                    paso(
                        un_aviso(texto("🔄 Descargando archivos del servidor...")),
                        Operacion::LanzarPrograma {
                            programa: texto("STEAMCMD/steamcmd.exe"),
                            argumentos: a,
                        },
                    ),
                )
            },
            (EtapaRust::Creando { .. }, Evento::Fallo(e)) => (EtapaRust::Terminado, paso_error(e)),
            (EtapaRust::Lanzando { actualizando }, Evento::Hecho) => (
                EtapaRust::Esperando { actualizando },
                paso(ningun_aviso(), Operacion::EsperarPrograma),
            ),
            (EtapaRust::Lanzando { .. }, Evento::Fallo(e)) => (
                EtapaRust::Terminado,
                paso_error(unir("Error ejecutando steamcmd: ", e.as_str())),
            ),
            (EtapaRust::Esperando { actualizando }, Evento::Salida(exito)) => {
                if exito {
                    let aviso = if actualizando {
                        texto("✅ Servidor de Rust actualizado correctamente")
                    } else {
                        texto("✅ Servidor de Rust instalado correctamente")
                    };
                    (EtapaRust::Terminado, paso_exito(un_aviso(aviso)))
                } else {
                    (EtapaRust::Terminado, paso_error(texto("❌ Error al instalar Rust")))
                }
            },
            (EtapaRust::Esperando { .. }, Evento::Fallo(e)) => (
                EtapaRust::Terminado,
                paso_error(e),
            ),
            _ => {
                return None;
            },
        };
        self.etapa = etapa;
        Some(p)
    }
}

// ---------------------------------------------------------------------------
// 3. Oxide
// ---------------------------------------------------------------------------
/// Where the Oxide installation is.
#[derive(Clone, Copy, Debug, PartialEq, Eq, Structural)]
pub enum EtapaOxide {
    Descargando,
    Extrayendo,
    BorrandoZip,
    Terminado,
}

/// The first step of installing Oxide: refuse without SteamCMD, then without
/// the server; else download Oxide from umod.org.
pub open spec fn inicio_oxide(estado: EstadoInstalacion) -> (EtapaOxide, PasoV) {
    if !estado.steamcmd {
        (EtapaOxide::Terminado, terminar_con_error("❌ Primero instala SteamCMD."@))
    } else if !estado.rust {
        (EtapaOxide::Terminado, terminar_con_error("❌ Primero instala Rust."@))
    } else {
        (
            EtapaOxide::Descargando,
            PasoV {
                avisos: seq!["⬇️ Descargando Oxide desde umod.org..."@],
                operacion: OperacionV::Descargar {
                    url: "https://umod.org/games/rust/download"@,
                    destino: "Oxide.Rust.zip"@,
                },
            },
        )
    }
}

/// How installing Oxide goes on after `evento`; `None` when the pending
/// operation cannot produce `evento`.
pub open spec fn transicion_oxide(etapa: EtapaOxide, evento: EventoV) -> Option<(EtapaOxide, PasoV)> {
    match (etapa, evento) {
        (EtapaOxide::Descargando, EventoV::Hecho) => Some(
            (
                EtapaOxide::Extrayendo,
                PasoV {
                    avisos: seq![
                        "📦 Extrayendo archivos en el servidor..."@,
                        "🔌 Instalando Oxide..."@,
                    ],
                    operacion: OperacionV::Descomprimir {
                        archivo: "Oxide.Rust.zip"@,
                        destino: "SERVER"@,
                    },
                },
            ),
        ),
        (EtapaOxide::Descargando, EventoV::Fallo(e)) => Some(
            (EtapaOxide::Terminado, terminar_con_error(e)),
        ),
        (EtapaOxide::Extrayendo, EventoV::Salida(exito)) => if exito {
            Some(
                (
                    EtapaOxide::BorrandoZip,
                    PasoV {
                        avisos: seq![],
                        operacion: OperacionV::EliminarArchivo("Oxide.Rust.zip"@),
                    },
                ),
            )
        } else {
            Some((EtapaOxide::Terminado, terminar_con_error("❌ Error al instalar Oxide"@)))
        },
        (EtapaOxide::Extrayendo, EventoV::Fallo(e)) => Some(
            (EtapaOxide::Terminado, terminar_con_error("Error descomprimiendo Oxide: "@ + e)),
        ),
        (EtapaOxide::BorrandoZip, EventoV::Hecho) => Some(
            (
                EtapaOxide::Terminado,
                terminar_con_exito(
                    seq!["✅ Oxide instalado correctamente. El servidor ya soporta plugins!"@],
                ),
            ),
        ),
        (EtapaOxide::BorrandoZip, EventoV::Fallo(e)) => Some(
            (EtapaOxide::Terminado, terminar_con_error(e)),
        ),
        _ => None,
    }
}

/// Installing Oxide (umod) over the server, for plugins.
#[derive(Debug)]
pub struct InstalarOxide {
    pub etapa: EtapaOxide,
}

impl InstalarOxide {
    /// Starts the installation from what is on disk.
    pub fn iniciar(estado: &EstadoInstalacion) -> (r: (InstalarOxide, Paso))
        ensures
            (r.0.etapa, r.1@) == inicio_oxide(*estado),
    {
        if !estado.steamcmd {
            return (
                InstalarOxide { etapa: EtapaOxide::Terminado },
                paso_error(texto("❌ Primero instala SteamCMD.")),
            );
        }
        if !estado.rust {
            return (
                InstalarOxide { etapa: EtapaOxide::Terminado },
                paso_error(texto("❌ Primero instala Rust.")),
            );
        }
        (
            InstalarOxide { etapa: EtapaOxide::Descargando },
            paso(
                un_aviso(texto("⬇️ Descargando Oxide desde umod.org...")),
                Operacion::Descargar {
                    url: texto("https://umod.org/games/rust/download"),
                    destino: texto("Oxide.Rust.zip"),
                },
            ),
        )
    }

    /// Goes on after the pending operation produced `evento`.
    pub fn avanzar(&mut self, evento: Evento) -> (r: Option<Paso>)
        ensures
            match transicion_oxide(old(self).etapa, evento@) {
                Some((etapa, p)) => final(self).etapa == etapa && r is Some && r->0@ == p,
                None => final(self).etapa == old(self).etapa && r is None,
            },
    {
        let (etapa, p) = match (self.etapa, evento) {
            (EtapaOxide::Descargando, Evento::Hecho) => (
                EtapaOxide::Extrayendo,
                paso(
                    dos_avisos(
                        texto("📦 Extrayendo archivos en el servidor..."),
                        texto("🔌 Instalando Oxide..."),
                    ),
                    Operacion::Descomprimir {
                        archivo: texto("Oxide.Rust.zip"),
                        destino: texto("SERVER"),
                    },
                ),
            ),
            (EtapaOxide::Descargando, Evento::Fallo(e)) => (EtapaOxide::Terminado, paso_error(e)),
            (EtapaOxide::Extrayendo, Evento::Salida(exito)) => {
                if exito {
                    (
                        EtapaOxide::BorrandoZip,
                        paso(ningun_aviso(), Operacion::EliminarArchivo(texto("Oxide.Rust.zip"))),
                    )
                } else {
                    (EtapaOxide::Terminado, paso_error(texto("❌ Error al instalar Oxide")))
                }
            },
            (EtapaOxide::Extrayendo, Evento::Fallo(e)) => (
                EtapaOxide::Terminado,
                paso_error(unir("Error descomprimiendo Oxide: ", e.as_str())),
            ),
            (EtapaOxide::BorrandoZip, Evento::Hecho) => (
                EtapaOxide::Terminado,
                paso_exito(
                    un_aviso(
                        texto("✅ Oxide instalado correctamente. El servidor ya soporta plugins!"),
                    ),
                ),
            ),
            (EtapaOxide::BorrandoZip, Evento::Fallo(e)) => (EtapaOxide::Terminado, paso_error(e)),
            _ => {
                return None;
            },
        };
        self.etapa = etapa;
        Some(p)
    }
}

// ---------------------------------------------------------------------------
// 4. Removing everything
// ---------------------------------------------------------------------------
/// Where the removal is.
#[derive(Clone, Copy, Debug, PartialEq, Eq, Structural)]
pub enum EtapaEliminar {
    Borrando,
    Terminado,
}

/// The first step of removing everything: remove the data folder when it
/// exists, else report that there is nothing to remove.
pub open spec fn inicio_eliminar(estado: EstadoInstalacion) -> (EtapaEliminar, PasoV) {
    if estado.raiz {
        (
            EtapaEliminar::Borrando,
            PasoV {
                avisos: seq!["🗑️ Eliminando todos los archivos..."@],
                operacion: OperacionV::EliminarDirectorio(""@),
            },
        )
    } else {
        (EtapaEliminar::Terminado, terminar_con_exito(seq!["⚠️ No hay nada que eliminar"@]))
    }
}

/// How the removal goes on after `evento`; `None` when the pending operation
/// cannot produce `evento`.
pub open spec fn transicion_eliminar(etapa: EtapaEliminar, evento: EventoV) -> Option<
    (EtapaEliminar, PasoV),
> {
    match (etapa, evento) {
        (EtapaEliminar::Borrando, EventoV::Hecho) => Some(
            (
                EtapaEliminar::Terminado,
                terminar_con_exito(seq!["✅ Todos los archivos han sido eliminados"@]),
            ),
        ),
        (EtapaEliminar::Borrando, EventoV::Fallo(e)) => Some(
            (EtapaEliminar::Terminado, terminar_con_error(e)),
        ),
        _ => None,
    }
}

/// Removing the whole data folder: SteamCMD, the server and Oxide.
#[derive(Debug)]
pub struct EliminarTodo {
    pub etapa: EtapaEliminar,
}

impl EliminarTodo {
    /// Starts the removal from what is on disk.
    pub fn iniciar(estado: &EstadoInstalacion) -> (r: (EliminarTodo, Paso))
        ensures
            (r.0.etapa, r.1@) == inicio_eliminar(*estado),
    {
        if estado.raiz {
            (
                EliminarTodo { etapa: EtapaEliminar::Borrando },
                paso(
                    un_aviso(texto("🗑️ Eliminando todos los archivos...")),
                    Operacion::EliminarDirectorio(texto("")),
                ),
            )
        } else {
            (
                EliminarTodo { etapa: EtapaEliminar::Terminado },
                paso_exito(un_aviso(texto("⚠️ No hay nada que eliminar"))),
            )
        }
    }

    /// Goes on after the pending operation produced `evento`.
    pub fn avanzar(&mut self, evento: Evento) -> (r: Option<Paso>)
        ensures
            match transicion_eliminar(old(self).etapa, evento@) {
                Some((etapa, p)) => final(self).etapa == etapa && r is Some && r->0@ == p,
                None => final(self).etapa == old(self).etapa && r is None,
            },
    {
        let (etapa, p) = match (self.etapa, evento) {
            (EtapaEliminar::Borrando, Evento::Hecho) => (
                EtapaEliminar::Terminado,
                paso_exito(un_aviso(texto("✅ Todos los archivos han sido eliminados"))),
            ),
            (EtapaEliminar::Borrando, Evento::Fallo(e)) => (EtapaEliminar::Terminado, paso_error(e)),
            _ => {
                return None;
            },
        };
        self.etapa = etapa;
        Some(p)
    }
}

} // verus!
