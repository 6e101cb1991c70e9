//! What the commands ask of their caller and what the caller reports back.
//!
//! Each command is a state machine: it hands out a `Paso` (status messages to
//! send, then one operation to perform) and is advanced with the `Evento`
//! that the operation produced, until an operation `Terminar` gives the
//! command's result. Paths are relative to the application's data folder
//! (`RUST SERVER` next to the executable); the empty path is that folder.

use vstd::prelude::*;

verus! {

/// What the caller saw on disk when the command started: whether each of the
/// paths that the commands test exists.
#[derive(Clone, Copy, Debug, PartialEq, Eq)]
pub struct EstadoInstalacion {
    /// `STEAMCMD/steamcmd.exe`
    pub steamcmd: bool,
    /// `STEAMCMD`
    pub directorio_steamcmd: bool,
    /// `SERVER/RustDedicated.exe`
    pub rust: bool,
    /// `SERVER/oxide`
    pub oxide: bool,
    /// `SERVER/oxide/plugins`
    pub plugins: bool,
    /// `SERVER/INICIADOR SERVER.bat`
    pub iniciador: bool,
    /// the data folder itself
    pub raiz: bool,
}

/// SteamCMD is installed: its executable exists.
pub fn comprobar_steamcmd_instalado(estado: &EstadoInstalacion) -> (r: bool)
    ensures
        r == estado.steamcmd,
{
    estado.steamcmd
}

/// The Rust dedicated server is installed: its executable exists.
pub fn comprobar_rust_instalado(estado: &EstadoInstalacion) -> (r: bool)
    ensures
        r == estado.rust,
{
    estado.rust
}

/// An argument of a program run: plain text, or a path that the caller
/// turns into its full form.
#[derive(Debug, PartialEq, Eq)]
pub enum Argumento {
    Texto(String),
    Ruta(String),
}

pub enum ArgumentoV {
    Texto(Seq<char>),
    Ruta(Seq<char>),
}

impl View for Argumento {
    type V = ArgumentoV;

    open spec fn view(&self) -> ArgumentoV {
        match self {
            Argumento::Texto(t) => ArgumentoV::Texto(t@),
            Argumento::Ruta(r) => ArgumentoV::Ruta(r@),
        }
    }
}

/// One operation for the caller to perform. The comment on each variant
/// names the events it produces.
#[derive(Debug, PartialEq, Eq)]
pub enum Operacion {
    /// `Existe`
    ComprobarRuta(String),
    /// size in bytes: `Tamano`, or `Fallo`
    MedirArchivo(String),
    /// remove a folder and all it holds: `Hecho` or `Fallo`
    EliminarDirectorio(String),
    /// create a folder and its parents: `Hecho` or `Fallo`
    CrearDirectorio(String),
    /// `Hecho` or `Fallo`
    EliminarArchivo(String),
    /// download `url` into `destino`: `Hecho`, or `Fallo` with the message
    /// of `resultado_descarga`
    Descargar { url: String, destino: String },
    /// unpack the archive `archivo` into `destino` and wait: `Salida`, or
    /// `Fallo` when the tool could not run
    Descomprimir { archivo: String, destino: String },
    /// run a program and wait for it: `Salida`, or `Fallo` when it could not run
    EjecutarPrograma { programa: String, argumentos: Vec<Argumento> },
    /// start a program with its output captured: `Hecho` or `Fallo`
    LanzarPrograma { programa: String, argumentos: Vec<Argumento> },
    /// wait for the program last started: `Salida` or `Fallo`
    EsperarPrograma,
    /// read the clock (milliseconds since the Unix epoch) and the process id: `Reloj`
    LeerReloj,
    /// create or replace a file with `contenido`: `Hecho` or `Fallo`
    EscribirArchivo { ruta: String, contenido: String },
    /// `Texto` with the file's contents, or `Fallo`
    LeerArchivo(String),
    /// open a folder in the file explorer: `Hecho` or `Fallo`
    AbrirCarpeta(String),
    /// start the launcher script `archivo` in the working folder `directorio`:
    /// `Hecho` or `Fallo`
    LanzarIniciador { archivo: String, directorio: String },
    /// open a WebSocket to `url`, giving up after 3 seconds: `Hecho`,
    /// `Fallo` with the error's text, or `TiempoAgotado`
    Conectar(String),
    /// send a text message on the WebSocket: `Hecho` or `Fallo`
    EnviarTexto(String),
    /// wait up to 3 seconds for a message: `Hecho` when one came, `Fallo`
    /// with the error's text, `Cerrado` when the stream ended, or `TiempoAgotado`
    EsperarRespuesta,
    /// close the WebSocket: `Hecho` or `Fallo`, either way the same
    CerrarConexion,
    /// the command is over with this result
    Terminar(Result<(), String>),
}

pub enum OperacionV {
    ComprobarRuta(Seq<char>),
    MedirArchivo(Seq<char>),
    EliminarDirectorio(Seq<char>),
    CrearDirectorio(Seq<char>),
    EliminarArchivo(Seq<char>),
    Descargar { url: Seq<char>, destino: Seq<char> },
    Descomprimir { archivo: Seq<char>, destino: Seq<char> },
    EjecutarPrograma { programa: Seq<char>, argumentos: Seq<ArgumentoV> },
    LanzarPrograma { programa: Seq<char>, argumentos: Seq<ArgumentoV> },
    EsperarPrograma,
    LeerReloj,
    EscribirArchivo { ruta: Seq<char>, contenido: Seq<char> },
    LeerArchivo(Seq<char>),
    AbrirCarpeta(Seq<char>),
    LanzarIniciador { archivo: Seq<char>, directorio: Seq<char> },
    Conectar(Seq<char>),
    EnviarTexto(Seq<char>),
    EsperarRespuesta,
    CerrarConexion,
    Terminar(Result<(), Seq<char>>),
}

pub open spec fn vista_argumentos(a: Seq<Argumento>) -> Seq<ArgumentoV> {
    a.map_values(|x: Argumento| x@)
}

pub open spec fn vista_resultado(r: Result<(), String>) -> Result<(), Seq<char>> {
    match r {
        Ok(()) => Ok(()),
        Err(e) => Err(e@),
    }
}

impl View for Operacion {
    type V = OperacionV;

    open spec fn view(&self) -> OperacionV {
        match self {
            Operacion::ComprobarRuta(r) => OperacionV::ComprobarRuta(r@),
            Operacion::MedirArchivo(r) => OperacionV::MedirArchivo(r@),
            Operacion::EliminarDirectorio(r) => OperacionV::EliminarDirectorio(r@),
            Operacion::CrearDirectorio(r) => OperacionV::CrearDirectorio(r@),
            Operacion::EliminarArchivo(r) => OperacionV::EliminarArchivo(r@),
            Operacion::Descargar { url, destino } => OperacionV::Descargar {
                url: url@,
                destino: destino@,
            },
            Operacion::Descomprimir { archivo, destino } => OperacionV::Descomprimir {
                archivo: archivo@,
                destino: destino@,
            },
            Operacion::EjecutarPrograma { programa, argumentos } => OperacionV::EjecutarPrograma {
                programa: programa@,
                argumentos: vista_argumentos(argumentos@),
            },
            Operacion::LanzarPrograma { programa, argumentos } => OperacionV::LanzarPrograma {
                programa: programa@,
                argumentos: vista_argumentos(argumentos@),
            },
            Operacion::EsperarPrograma => OperacionV::EsperarPrograma,
            Operacion::LeerReloj => OperacionV::LeerReloj,
            Operacion::EscribirArchivo { ruta, contenido } => OperacionV::EscribirArchivo {
                ruta: ruta@,
                contenido: contenido@,
            },
            Operacion::LeerArchivo(r) => OperacionV::LeerArchivo(r@),
            Operacion::AbrirCarpeta(r) => OperacionV::AbrirCarpeta(r@),
            Operacion::LanzarIniciador { archivo, directorio } => OperacionV::LanzarIniciador {
                archivo: archivo@,
                directorio: directorio@,
            },
            Operacion::Conectar(u) => OperacionV::Conectar(u@),
            Operacion::EnviarTexto(t) => OperacionV::EnviarTexto(t@),
            Operacion::EsperarRespuesta => OperacionV::EsperarRespuesta,
            Operacion::CerrarConexion => OperacionV::CerrarConexion,
            Operacion::Terminar(r) => OperacionV::Terminar(vista_resultado(*r)),
        }
    }
}

/// What the caller reports after performing an operation.
#[derive(Debug, PartialEq, Eq)]
pub enum Evento {
    Hecho,
    Fallo(String),
    Existe(bool),
    /// a program ended; whether its exit status tells success
    Salida(bool),
    Tamano(u64),
    Texto(String),
    Reloj { milisegundos: u64, id_proceso: u32 },
    Cerrado,
    TiempoAgotado,
}

pub enum EventoV {
    Hecho,
    Fallo(Seq<char>),
    Existe(bool),
    Salida(bool),
    Tamano(u64),
    Texto(Seq<char>),
    Reloj { milisegundos: u64, id_proceso: u32 },
    Cerrado,
    TiempoAgotado,
}

impl View for Evento {
    type V = EventoV;

    open spec fn view(&self) -> EventoV {
        match self {
            Evento::Hecho => EventoV::Hecho,
            Evento::Fallo(e) => EventoV::Fallo(e@),
            Evento::Existe(b) => EventoV::Existe(*b),
            Evento::Salida(b) => EventoV::Salida(*b),
            Evento::Tamano(n) => EventoV::Tamano(*n),
            Evento::Texto(t) => EventoV::Texto(t@),
            Evento::Reloj { milisegundos, id_proceso } => EventoV::Reloj {
                milisegundos: *milisegundos,
                id_proceso: *id_proceso,
            },
            Evento::Cerrado => EventoV::Cerrado,
            Evento::TiempoAgotado => EventoV::TiempoAgotado,
        }
    }
}

/// Status messages to send, in order, then one operation.
#[derive(Debug, PartialEq, Eq)]
pub struct Paso {
    pub avisos: Vec<String>,
    pub operacion: Operacion,
}

pub struct PasoV {
    pub avisos: Seq<Seq<char>>,
    pub operacion: OperacionV,
}

pub open spec fn vista_avisos(a: Seq<String>) -> Seq<Seq<char>> {
    a.map_values(|s: String| s@)
}

impl View for Paso {
    type V = PasoV;

    open spec fn view(&self) -> PasoV {
        PasoV { avisos: vista_avisos(self.avisos@), operacion: self.operacion@ }
    }
}

/// The step that ends a command with error `e`, sending nothing.
pub open spec fn terminar_con_error(e: Seq<char>) -> PasoV {
    PasoV { avisos: seq![], operacion: OperacionV::Terminar(Err(e)) }
}

/// The step that ends a command successfully after sending `avisos`.
pub open spec fn terminar_con_exito(avisos: Seq<Seq<char>>) -> PasoV {
    PasoV { avisos, operacion: OperacionV::Terminar(Ok(())) }
}

/// A `String` holding the text of `s`.
pub fn texto(s: &str) -> (r: String)
    ensures
        r@ == s@,
{
    String::from_str(s)
}

/// The text of `a` followed by that of `b`.
pub fn unir(a: &str, b: &str) -> (r: String)
    ensures
        r@ == a@ + b@,
{
    let mut r = String::from_str(a);
    r.append(b);
    r
}

/// The text of `a`, `b` and `c`, one after another.
pub fn unir3(a: &str, b: &str, c: &str) -> (r: String)
    ensures
        r@ == a@ + b@ + c@,
{
    let mut r = String::from_str(a);
    r.append(b);
    r.append(c);
    r
}

pub fn ningun_aviso() -> (r: Vec<String>)
    ensures
        vista_avisos(r@) == Seq::<Seq<char>>::empty(),
{
    let r: Vec<String> = Vec::new();
    assert(vista_avisos(r@) =~= Seq::<Seq<char>>::empty());
    r
}

pub fn un_aviso(a: String) -> (r: Vec<String>)
    ensures
        vista_avisos(r@) == seq![a@],
{
    let mut r: Vec<String> = Vec::new();
    r.push(a);
    assert(vista_avisos(r@) =~= seq![r@[0]@]);
    r
}

pub fn dos_avisos(a: String, b: String) -> (r: Vec<String>)
    ensures
        vista_avisos(r@) == seq![a@, b@],
{
    let mut r: Vec<String> = Vec::new();
    r.push(a);
    r.push(b);
    assert(vista_avisos(r@) =~= seq![r@[0]@, r@[1]@]);
    r
}

/// Ends the command with error `e`.
pub fn paso_error(e: String) -> (r: Paso)
    ensures
        r@ == terminar_con_error(e@),
{
    Paso { avisos: ningun_aviso(), operacion: Operacion::Terminar(Err(e)) }
}

/// Sends `avisos`, then ends the command successfully.
pub fn paso_exito(avisos: Vec<String>) -> (r: Paso)
    ensures
        r@ == terminar_con_exito(vista_avisos(avisos@)),
{
    Paso { avisos, operacion: Operacion::Terminar(Ok(())) }
}

} // verus!
