//! Sending `quit` to the running server over WebRCON (a WebSocket at
//! `ws://<address>/<rcon password>`).

use vstd::prelude::*;
use crate::texto::{a_caracteres, contiene, contiene_en, decimal_con_signo};
use crate::proceso::{
    dos_avisos, ningun_aviso, paso_error, terminar_con_error, texto, un_aviso, unir, vista_avisos,
    Evento, EventoV, Operacion, OperacionV, Paso, PasoV,
};

verus! {

/// What the `url` crate makes of `entrada`: the serialization of the parsed
/// URL, or the text of the parse error.
pub uninterp spec fn url_analizada(entrada: Seq<char>) -> Result<Seq<char>, Seq<char>>;

/// Parses `entrada` as an absolute URL with `url::Url::parse`, and gives
/// back `Url::as_str` of the result, or the parse error's `Display` text.
/// The contract names the outcome and claims no more than that it depends on
/// `entrada` alone.
#[verifier::external_body]
fn analizar_url(entrada: &str) -> (r: Result<String, String>)
    ensures
        match url_analizada(entrada@) {
            Ok(u) => r is Ok && r->Ok_0@ == u,
            Err(e) => r is Err && r->Err_0@ == e,
        },
{
    match url::Url::parse(entrada) {
        Ok(url) => Ok(url.as_str().to_string()),
        Err(error) => Err(error.to_string()),
    }
}

/// serde_json's compact text of the JSON object with the integer member
/// `campo_numero` and the string members `campo_a` and `campo_b`.
pub uninterp spec fn json_objeto(
    campo_numero: Seq<char>,
    numero: int,
    campo_a: Seq<char>,
    texto_a: Seq<char>,
    campo_b: Seq<char>,
    texto_b: Seq<char>,
) -> Seq<char>;

/// A text that serde_json writes between quotes unchanged: it escapes only
/// `"`, `\` and the control characters below U+0020.
pub open spec fn texto_json_llano(t: Seq<char>) -> bool {
    forall|i: int| 0 <= i < t.len() ==> t[i] != '"' && t[i] != '\\' && (t[i] as int) >= 0x20
}

/// A JSON string holding `t` unescaped.
pub open spec fn cadena_json(t: Seq<char>) -> Seq<char> {
    seq!['"'] + t + seq!['"']
}

/// The compact JSON text of an object with the three members in this order.
pub open spec fn texto_objeto_json(
    campo_numero: Seq<char>,
    numero: int,
    campo_a: Seq<char>,
    texto_a: Seq<char>,
    campo_b: Seq<char>,
    texto_b: Seq<char>,
) -> Seq<char> {
    seq!['{'] + cadena_json(campo_numero) + seq![':'] + decimal_con_signo(numero) + seq![',']
        + cadena_json(campo_a) + seq![':'] + cadena_json(texto_a) + seq![','] + cadena_json(
        campo_b,
    ) + seq![':'] + cadena_json(texto_b) + seq!['}']
}

/// Builds a `serde_json::Value` object from three members (one integer,
/// two strings) and renders it with its `Display` impl (compact JSON). The
/// contract names the text, which depends on the arguments alone. It states
/// the text where no escaping comes in and the member names begin with
/// increasing characters: serde_json's map is then a `BTreeMap` that yields
/// the members in that order (without its `preserve_order` feature, which
/// this crate does not enable), integers are written in plain decimal, and
/// strings are written between quotes, escaping only `"`, `\` and control
/// characters.
#[verifier::external_body]
fn objeto_json(
    campo_numero: &str,
    numero: i64,
    campo_a: &str,
    texto_a: &str,
    campo_b: &str,
    texto_b: &str,
) -> (r: String)
    ensures
        r@ == json_objeto(campo_numero@, numero as int, campo_a@, texto_a@, campo_b@, texto_b@),
        texto_json_llano(campo_numero@) && texto_json_llano(campo_a@) && texto_json_llano(
            campo_b@,
        ) && texto_json_llano(texto_a@) && texto_json_llano(texto_b@) && campo_numero@.len() > 0
            && campo_a@.len() > 0 && campo_b@.len() > 0 && (campo_numero@[0] as int) < (
        campo_a@[0] as int) && (campo_a@[0] as int) < (campo_b@[0] as int) ==> r@
            == texto_objeto_json(campo_numero@, numero as int, campo_a@, texto_a@, campo_b@, texto_b@),
{
    let mut objeto = serde_json::Map::new();
    objeto.insert(campo_numero.to_string(), serde_json::Value::from(numero));
    objeto.insert(campo_a.to_string(), serde_json::Value::from(texto_a));
    objeto.insert(campo_b.to_string(), serde_json::Value::from(texto_b));
    serde_json::Value::Object(objeto).to_string()
}

/// The WebRCON address before it is parsed.
pub open spec fn direccion_webrcon(direccion: Seq<char>, contrasena: Seq<char>) -> Seq<char> {
    "ws://"@ + direccion + "/"@ + contrasena
}

/// The URL to connect to, from what the URL parser made of it.
pub open spec fn url_o_error(analisis: Result<Seq<char>, Seq<char>>) -> Result<
    Seq<char>,
    Seq<char>,
> {
    match analisis {
        Ok(u) => Ok(u),
        Err(e) => Err("URL inválida: "@ + e),
    }
}

/// The URL to connect to, from what the URL parser made of the address: the
/// parsed URL, or the parse error prefixed by "URL inválida: ".
pub fn resultado_url(analisis: Result<String, String>) -> (r: Result<String, String>)
    ensures
        match analisis {
            Ok(u) => r is Ok && r->Ok_0@ == u@,
            Err(e) => r is Err && r->Err_0@ == "URL inválida: "@ + e@,
        },
{
    match analisis {
        Ok(u) => Ok(u),
        Err(e) => Err(unir("URL inválida: ", e.as_str())),
    }
}

/// The WebRCON URL for the server at `direccion` (host and port) with RCON
/// password `contrasena`, checked by the URL parser.
pub fn preparar_url_webrcon(direccion: &str, contrasena: &str) -> (r: Result<String, String>)
    ensures
        match url_o_error(url_analizada(direccion_webrcon(direccion@, contrasena@))) {
            Ok(u) => r is Ok && r->Ok_0@ == u,
            Err(e) => r is Err && r->Err_0@ == e,
        },
{
    let mut crudo = String::from_str("ws://");
    crudo.append(direccion);
    crudo.append("/");
    crudo.append(contrasena);
    resultado_url(analizar_url(crudo.as_str()))
}

/// The text of the WebRCON `quit` command.
pub open spec fn mensaje_quit_spec() -> Seq<char> {
    "{\"Identifier\":1,\"Message\":\"quit\",\"Name\":\"WebRcon\"}"@
}

/// The WebRCON message that asks the server to quit: the JSON object
/// `{"Identifier": 1, "Message": "quit", "Name": "WebRcon"}`.
pub fn mensaje_quit() -> (r: String)
    ensures
        r@ == mensaje_quit_spec(),
{
    let r = objeto_json("Identifier", 1, "Message", "quit", "Name", "WebRcon");
    proof {
        reveal_strlit("Identifier");
        reveal_strlit("Message");
        reveal_strlit("quit");
        reveal_strlit("Name");
        reveal_strlit("WebRcon");
        reveal_strlit("{\"Identifier\":1,\"Message\":\"quit\",\"Name\":\"WebRcon\"}");
        assert(decimal_con_signo(1) =~= seq!['1']);
        assert(texto_objeto_json("Identifier"@, 1, "Message"@, "quit"@, "Name"@, "WebRcon"@)
            =~= mensaje_quit_spec());
    }
    r
}

/// The error code that tells the server was not running.
pub open spec fn servidor_ya_apagado() -> Seq<char> {
    "SERVIDOR_YA_APAGADO"@
}

/// The error a failed connection gives: "connection refused" (Windows error
/// 10061) means the server is already off.
pub open spec fn error_conexion(mensaje: Seq<char>) -> Seq<char> {
    if contiene(mensaje, "10061"@) || contiene(mensaje, "connection refused"@) {
        servidor_ya_apagado()
    } else {
        "Error conectando WebRCON: "@ + mensaje
    }
}

/// The error a failed connection gives, from the connection error's text.
pub fn clasificar_error_conexion(mensaje: &str) -> (r: String)
    ensures
        r@ == error_conexion(mensaje@),
{
    let v = a_caracteres(mensaje);
    let codigo = a_caracteres("10061");
    let rechazo = a_caracteres("connection refused");
    let n = v.len();
    assert(v@.subrange(0, n as int) =~= mensaje@);
    if contiene_en(&v, 0, n, &codigo) || contiene_en(&v, 0, n, &rechazo) {
        texto("SERVIDOR_YA_APAGADO")
    } else {
        unir("Error conectando WebRCON: ", mensaje)
    }
}

/// Where the WebRCON exchange is.
#[derive(Clone, Copy, Debug, PartialEq, Eq, Structural)]
pub enum EtapaWebrcon {
    Conectando,
    Enviando,
    Esperando,
    Cerrando,
    Terminado,
}

/// The first step of the exchange: connect, unless the URL is malformed.
pub open spec fn inicio_webrcon(direccion: Seq<char>, contrasena: Seq<char>) -> (
    EtapaWebrcon,
    PasoV,
) {
    match url_o_error(url_analizada(direccion_webrcon(direccion, contrasena))) {
        Ok(u) => (
            EtapaWebrcon::Conectando,
            PasoV { avisos: seq![], operacion: OperacionV::Conectar(u) },
        ),
        Err(e) => (EtapaWebrcon::Terminado, terminar_con_error(e)),
    }
}

pub open spec fn aviso_fin_apagado() -> Seq<char> {
    "✅ Proceso de apagado finalizado"@
}

/// After the reply (or its absence) is reported, the exchange closes.
pub open spec fn tras_respuesta(aviso: Seq<char>) -> (EtapaWebrcon, PasoV) {
    (
        EtapaWebrcon::Cerrando,
        PasoV { avisos: seq![aviso, aviso_fin_apagado()], operacion: OperacionV::CerrarConexion },
    )
}

/// How the exchange goes on after `evento`; `None` when the pending
/// operation cannot produce `evento`.
pub open spec fn transicion_webrcon(etapa: EtapaWebrcon, evento: EventoV) -> Option<
    (EtapaWebrcon, PasoV),
> {
    match (etapa, evento) {
        (EtapaWebrcon::Conectando, EventoV::Hecho) => Some(
            (
                EtapaWebrcon::Enviando,
                PasoV {
                    avisos: seq!["📡 Conectado a WebRCON"@],
                    operacion: OperacionV::EnviarTexto(mensaje_quit_spec()),
                },
            ),
        ),
        (EtapaWebrcon::Conectando, EventoV::Fallo(m)) => Some(
            (EtapaWebrcon::Terminado, terminar_con_error(error_conexion(m))),
        ),
        (EtapaWebrcon::Conectando, EventoV::TiempoAgotado) => Some(
            (EtapaWebrcon::Terminado, terminar_con_error("Tiempo de espera agotado al conectar"@)),
        ),
        (EtapaWebrcon::Enviando, EventoV::Hecho) => Some(
            (
                EtapaWebrcon::Esperando,
                PasoV {
                    avisos: seq!["📤 Comando 'quit' enviado"@],
                    operacion: OperacionV::EsperarRespuesta,
                },
            ),
        ),
        (EtapaWebrcon::Enviando, EventoV::Fallo(e)) => Some(
            (EtapaWebrcon::Terminado, terminar_con_error("Error enviando quit: "@ + e)),
        ),
        (EtapaWebrcon::Esperando, EventoV::Hecho) => Some(
            tras_respuesta("📨 Respuesta recibida del servidor"@),
        ),
        (EtapaWebrcon::Esperando, EventoV::Fallo(e)) => Some(
            tras_respuesta("⚠️ Error respuesta WebSocket: "@ + e),
        ),
        (EtapaWebrcon::Esperando, EventoV::Cerrado) => Some(
            tras_respuesta("⚠️ WebRCON cerró sin respuesta"@),
        ),
        (EtapaWebrcon::Esperando, EventoV::TiempoAgotado) => Some(
            tras_respuesta("⏱️ Sin respuesta (timeout)"@),
        ),
        (EtapaWebrcon::Cerrando, EventoV::Hecho) => Some(
            (
                EtapaWebrcon::Terminado,
                PasoV { avisos: seq![], operacion: OperacionV::Terminar(Ok(())) },
            ),
        ),
        (EtapaWebrcon::Cerrando, EventoV::Fallo(_)) => Some(
            (
                EtapaWebrcon::Terminado,
                PasoV { avisos: seq![], operacion: OperacionV::Terminar(Ok(())) },
            ),
        ),
        _ => None,
    }
}

/// Connecting to WebRCON and sending `quit`.
#[derive(Debug)]
pub struct EnviarQuit {
    pub etapa: EtapaWebrcon,
}

fn paso(avisos: Vec<String>, operacion: Operacion) -> (r: Paso)
    ensures
        r@ == (PasoV { avisos: vista_avisos(avisos@), operacion: operacion@ }),
{
    Paso { avisos, operacion }
}

fn paso_tras_respuesta(aviso: String) -> (r: (EtapaWebrcon, Paso))
    ensures
        (r.0, r.1@) == tras_respuesta(aviso@),
{
    (
        EtapaWebrcon::Cerrando,
        paso(
            dos_avisos(aviso, texto("✅ Proceso de apagado finalizado")),
            Operacion::CerrarConexion,
        ),
    )
}

impl EnviarQuit {
    /// Starts the exchange with the server at `direccion` (host and port),
    /// authenticating with `contrasena`.
    pub fn iniciar(direccion: &str, contrasena: &str) -> (r: (EnviarQuit, Paso))
        ensures
            (r.0.etapa, r.1@) == inicio_webrcon(direccion@, contrasena@),
    {
        match preparar_url_webrcon(direccion, contrasena) {
            Ok(u) => (
                EnviarQuit { etapa: EtapaWebrcon::Conectando },
                paso(ningun_aviso(), Operacion::Conectar(u)),
            ),
            Err(e) => (EnviarQuit { etapa: EtapaWebrcon::Terminado }, paso_error(e)),
        }
    }

    /// Goes on after the pending operation produced `evento`.
    pub fn avanzar(&mut self, evento: Evento) -> (r: Option<Paso>)
        ensures
            match transicion_webrcon(old(self).etapa, evento@) {
                Some((etapa, p)) => final(self).etapa == etapa && r is Some && r->0@ == p,
                None => final(self).etapa == old(self).etapa && r is None,
            },
    {
        let (etapa, p) = match (self.etapa, evento) {
            (EtapaWebrcon::Conectando, Evento::Hecho) => (
                EtapaWebrcon::Enviando,
                paso(
                    un_aviso(texto("📡 Conectado a WebRCON")),
                    Operacion::EnviarTexto(mensaje_quit()),
                ),
            ),
            (EtapaWebrcon::Conectando, Evento::Fallo(m)) => (
                EtapaWebrcon::Terminado,
                paso_error(clasificar_error_conexion(m.as_str())),
            ),
            (EtapaWebrcon::Conectando, Evento::TiempoAgotado) => (
                EtapaWebrcon::Terminado,
                paso_error(texto("Tiempo de espera agotado al conectar")),
            ),
            (EtapaWebrcon::Enviando, Evento::Hecho) => (
                EtapaWebrcon::Esperando,
                paso(un_aviso(texto("📤 Comando 'quit' enviado")), Operacion::EsperarRespuesta),
            ),
            (EtapaWebrcon::Enviando, Evento::Fallo(e)) => (
                EtapaWebrcon::Terminado,
                paso_error(unir("Error enviando quit: ", e.as_str())),
            ),
            (EtapaWebrcon::Esperando, Evento::Hecho) => paso_tras_respuesta(
                texto("📨 Respuesta recibida del servidor"),
            ),
            (EtapaWebrcon::Esperando, Evento::Fallo(e)) => paso_tras_respuesta(
                unir("⚠️ Error respuesta WebSocket: ", e.as_str()),
            ),
            (EtapaWebrcon::Esperando, Evento::Cerrado) => paso_tras_respuesta(
                texto("⚠️ WebRCON cerró sin respuesta"),
            ),
            (EtapaWebrcon::Esperando, Evento::TiempoAgotado) => paso_tras_respuesta(
                texto("⏱️ Sin respuesta (timeout)"),
            ),
            (EtapaWebrcon::Cerrando, Evento::Hecho) => (
                EtapaWebrcon::Terminado,
                paso(ningun_aviso(), Operacion::Terminar(Ok(()))),
            ),
            (EtapaWebrcon::Cerrando, Evento::Fallo(_)) => (
                EtapaWebrcon::Terminado,
                paso(ningun_aviso(), Operacion::Terminar(Ok(()))),
            ),
            _ => {
                return None;
            },
        };
        self.etapa = etapa;
        Some(p)
    }
}

} // verus!
