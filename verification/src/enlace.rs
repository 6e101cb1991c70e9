//! Opening a web link in the user's browser (through `cmd /C start`).

use vstd::prelude::*;
use crate::proceso::{texto, vista_avisos};

verus! {

/// The `cmd` arguments that open `url` with the default browser.
pub fn argumentos_abrir_enlace(url: &str) -> (r: Vec<String>)
    ensures
        vista_avisos(r@) == seq!["/C"@, "start"@, url@],
{
    let mut r: Vec<String> = Vec::new();
    r.push(texto("/C"));
    r.push(texto("start"));
    r.push(texto(url));
    assert(vista_avisos(r@) =~= seq!["/C"@, "start"@, url@]);
    r
}

/// The outcome of opening a link, from how `cmd` ran: it could not run
/// (`Err` with the error's text), or it ended with this success flag.
pub fn resultado_abrir_enlace(estado: Result<bool, String>) -> (r: Result<(), String>)
    ensures
        match estado {
            Err(e) => r is Err && r->Err_0@ == e@,
            Ok(true) => r is Ok,
            Ok(false) => r is Err && r->Err_0@ == "No se pudo abrir el enlace"@,
        },
{
    match estado {
        Err(e) => Err(e),
        Ok(exito) => {
            if exito {
                Ok(())
            } else {
                Err(texto("No se pudo abrir el enlace"))
            }
        },
    }
}

} // verus!
