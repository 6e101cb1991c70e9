//! The launcher script (`INICIADOR SERVER.bat`) that starts the dedicated
//! server with a given RCON password and map seed.

use vstd::prelude::*;
use crate::texto::{
    contiene, decimal_con_signo, escribir_entero, lema_contiene_prefijo, lema_lineas_primera,
    lema_no_contiene, lema_posicion_de, lema_posicion_de_en, ley_decimal_con_signo, lineas,
    solo_digitos, valor_decimal,
};
use crate::rcon::{
    clave_contrasena, contrasena_en_linea, contrasena_rcon, lema_lineas_concat,
    lema_primera_concat, primera_contrasena,
};

verus! {

/// The script's lines before the one holding the RCON password, each with
/// its line break.
pub open spec fn encabezado_iniciador() -> Seq<char> {
    "@echo off\n"@ + "RustDedicated.exe -batchmode -nographics ^\n"@
        + "+server.hostname \"Servidor Rust Simple SCR98\" ^\n"@
        + "+server.description \"Servidor creado con Instalador\" ^\n"@
        + "+server.headerimage \"\" ^\n"@ + "+server.url \"\" ^\n"@ + "+server.ip 0.0.0.0 ^\n"@
        + "+server.port 28015 ^\n"@ + "+server.maxplayers 100 ^\n"@ + "+rcon.ip 0.0.0.0 ^\n"@
        + "+rcon.port 28016 ^\n"@
}

/// The line that sets the RCON password, with its line break.
pub open spec fn linea_contrasena(contrasena: Seq<char>) -> Seq<char> {
    "+rcon.password \""@ + contrasena + "\" ^\n"@
}

/// The script's lines after the password line; the map seed is written in
/// decimal on the first of them.
pub open spec fn resto_iniciador(semilla: i32) -> Seq<char> {
    "+server.identity \"default\" ^\n"@ + "+server.level \"Procedural Map\" ^\n"@
        + "+server.seed "@ + decimal_con_signo(semilla as int)
        + " +server.worldsize 4000 ^\n"@ + "+server.radiation \"True\" ^\n"@
        + "+bradley.enabled \"True\" ^\n"@ + "+bradley.respawndelayminutes \"60\" ^\n"@
        + "+bradley.respawndelayvariance \"1\" ^\n"@ + "+heli.lifetimeminutes \"15\" ^\n"@
        + "+server.stability \"True\" ^\n"@ + "+decay.upkeep \"True\" ^\n"@
        + "+decay.upkeep_heal_scale \"1\" ^\n"@
        + "+decay.upkeep_inside_decay_scale \"0.1\" ^\n"@
        + "+decay.upkeep_period_minutes \"1440\" ^\n"@ + "+rcon.web \"True\" ^\n"@
        + "-logfile \"servidor-rust-simple-logfile.log\" ^"@
}

/// The whole launcher script for `contrasena` and `semilla`.
pub open spec fn contenido_iniciador(contrasena: Seq<char>, semilla: i32) -> Seq<char> {
    encabezado_iniciador() + linea_contrasena(contrasena) + resto_iniciador(semilla)
}

fn escribir_encabezado(s: &mut String)
    ensures
        final(s)@ == old(s)@ + encabezado_iniciador(),
{
    s.append("@echo off\n");
    s.append("RustDedicated.exe -batchmode -nographics ^\n");
    s.append("+server.hostname \"Servidor Rust Simple SCR98\" ^\n");
    s.append("+server.description \"Servidor creado con Instalador\" ^\n");
    s.append("+server.headerimage \"\" ^\n");
    s.append("+server.url \"\" ^\n");
    s.append("+server.ip 0.0.0.0 ^\n");
    s.append("+server.port 28015 ^\n");
    s.append("+server.maxplayers 100 ^\n");
    s.append("+rcon.ip 0.0.0.0 ^\n");
    s.append("+rcon.port 28016 ^\n");
    assert(s@ =~= old(s)@ + encabezado_iniciador());
}

fn escribir_resto(s: &mut String, semilla: i32)
    ensures
        final(s)@ == old(s)@ + resto_iniciador(semilla),
{
    s.append("+server.identity \"default\" ^\n");
    s.append("+server.level \"Procedural Map\" ^\n");
    s.append("+server.seed ");
    escribir_entero(s, semilla);
    s.append(" +server.worldsize 4000 ^\n");
    s.append("+server.radiation \"True\" ^\n");
    s.append("+bradley.enabled \"True\" ^\n");
    s.append("+bradley.respawndelayminutes \"60\" ^\n");
    s.append("+bradley.respawndelayvariance \"1\" ^\n");
    s.append("+heli.lifetimeminutes \"15\" ^\n");
    s.append("+server.stability \"True\" ^\n");
    s.append("+decay.upkeep \"True\" ^\n");
    s.append("+decay.upkeep_heal_scale \"1\" ^\n");
    s.append("+decay.upkeep_inside_decay_scale \"0.1\" ^\n");
    s.append("+decay.upkeep_period_minutes \"1440\" ^\n");
    s.append("+rcon.web \"True\" ^\n");
    s.append("-logfile \"servidor-rust-simple-logfile.log\" ^");
    assert(s@ =~= old(s)@ + resto_iniciador(semilla));
}

/// The text of the launcher script that starts the server with RCON password
/// `contrasena` and map seed `semilla`.
pub fn contenido_script_iniciador(contrasena: &str, semilla: i32) -> (r: String)
    ensures
        r@ == contenido_iniciador(contrasena@, semilla),
{
    let mut s = String::new();
    escribir_encabezado(&mut s);
    s.append("+rcon.password \"");
    s.append(contrasena);
    s.append("\" ^\n");
    escribir_resto(&mut s, semilla);
    assert(s@ =~= contenido_iniciador(contrasena@, semilla));
    s
}

/// A line `h` (with its break) that lacks the letter `w` yields one line and
/// no password: the key `rcon.password` holds a `w`.
proof fn lema_linea_sin_clave(h: Seq<char>)
    requires
        h.len() >= 2,
        h.last() == '\n',
        h[h.len() - 2] != '\r',
        forall|j: int| 0 <= j < h.len() - 1 ==> h[j] != '\n' && h[j] != 'w',
    ensures
        lineas(h) == seq![h.drop_last()],
        primera_contrasena(lineas(h)) is None,
{
    let l = h.drop_last();
    assert(l + seq!['\n'] + Seq::<char>::empty() =~= h);
    lema_lineas_primera(l, Seq::<char>::empty());
    assert(lineas(Seq::<char>::empty()) =~= Seq::<Seq<char>>::empty());
    assert(seq![l] + Seq::<Seq<char>>::empty() =~= seq![l]);
    reveal_strlit("rcon.password");
    assert(clave_contrasena()[9] == 'w');
    assert forall|j: int| 0 <= j < l.len() implies l[j] != clave_contrasena()[9] by {
        assert(l[j] == h[j]);
    }
    lema_no_contiene(l, clave_contrasena(), 9);
    assert(contrasena_en_linea(l) is None);
    assert(seq![l][0] == l);
    assert(seq![l].drop_first() =~= Seq::<Seq<char>>::empty());
    assert(primera_contrasena(Seq::<Seq<char>>::empty()) is None);
}

/// Adding a key-free line after text that ends in a line break adds no
/// password and keeps the text ending in a line break.
proof fn lema_anadir_linea(p: Seq<char>, h: Seq<char>)
    requires
        p.len() == 0 || p.last() == '\n',
        primera_contrasena(lineas(p)) is None,
        h.len() >= 2,
        h.last() == '\n',
        h[h.len() - 2] != '\r',
        forall|j: int| 0 <= j < h.len() - 1 ==> h[j] != '\n' && h[j] != 'w',
    ensures
        (p + h).last() == '\n',
        primera_contrasena(lineas(p + h)) is None,
{
    lema_linea_sin_clave(h);
    lema_lineas_concat(p, h);
    lema_primera_concat(lineas(p), lineas(h));
}

/// The header ends in a line break and holds no password.
proof fn lema_encabezado()
    ensures
        encabezado_iniciador().last() == '\n',
        primera_contrasena(lineas(encabezado_iniciador())) is None,
{
    let h1 = "@echo off\n"@;
    let h2 = "RustDedicated.exe -batchmode -nographics ^\n"@;
    let h3 = "+server.hostname \"Servidor Rust Simple SCR98\" ^\n"@;
    let h4 = "+server.description \"Servidor creado con Instalador\" ^\n"@;
    let h5 = "+server.headerimage \"\" ^\n"@;
    let h6 = "+server.url \"\" ^\n"@;
    let h7 = "+server.ip 0.0.0.0 ^\n"@;
    let h8 = "+server.port 28015 ^\n"@;
    let h9 = "+server.maxplayers 100 ^\n"@;
    let h10 = "+rcon.ip 0.0.0.0 ^\n"@;
    let h11 = "+rcon.port 28016 ^\n"@;
    reveal_strlit("@echo off\n");
    reveal_strlit("RustDedicated.exe -batchmode -nographics ^\n");
    reveal_strlit("+server.hostname \"Servidor Rust Simple SCR98\" ^\n");
    reveal_strlit("+server.description \"Servidor creado con Instalador\" ^\n");
    reveal_strlit("+server.headerimage \"\" ^\n");
    reveal_strlit("+server.url \"\" ^\n");
    reveal_strlit("+server.ip 0.0.0.0 ^\n");
    reveal_strlit("+server.port 28015 ^\n");
    reveal_strlit("+server.maxplayers 100 ^\n");
    reveal_strlit("+rcon.ip 0.0.0.0 ^\n");
    reveal_strlit("+rcon.port 28016 ^\n");
    let vacio = Seq::<char>::empty();
    assert(lineas(vacio) =~= Seq::<Seq<char>>::empty());
    lema_anadir_linea(vacio, h1);
    assert(vacio + h1 =~= h1);
    lema_anadir_linea(h1, h2);
    lema_anadir_linea(h1 + h2, h3);
    lema_anadir_linea(h1 + h2 + h3, h4);
    lema_anadir_linea(h1 + h2 + h3 + h4, h5);
    lema_anadir_linea(h1 + h2 + h3 + h4 + h5, h6);
    lema_anadir_linea(h1 + h2 + h3 + h4 + h5 + h6, h7);
    lema_anadir_linea(h1 + h2 + h3 + h4 + h5 + h6 + h7, h8);
    lema_anadir_linea(h1 + h2 + h3 + h4 + h5 + h6 + h7 + h8, h9);
    lema_anadir_linea(h1 + h2 + h3 + h4 + h5 + h6 + h7 + h8 + h9, h10);
    lema_anadir_linea(h1 + h2 + h3 + h4 + h5 + h6 + h7 + h8 + h9 + h10, h11);
}

/// The password line gives back the password that it was written with.
proof fn lema_linea_contrasena(contrasena: Seq<char>)
    requires
        forall|j: int|
            0 <= j < contrasena.len() ==> contrasena[j] != '"' && contrasena[j] != '\n',
    ensures
        linea_contrasena(contrasena).last() == '\n',
        primera_contrasena(lineas(linea_contrasena(contrasena))) == Some(contrasena),
{
    let a = "+rcon.password \""@;
    reveal_strlit("+rcon.password \"");
    reveal_strlit("\" ^\n");
    reveal_strlit("rcon.password");
    let l = a + contrasena + "\" ^"@;
    reveal_strlit("\" ^");
    assert(linea_contrasena(contrasena) =~= l + seq!['\n'] + Seq::<char>::empty());
    assert forall|j: int| 0 <= j < l.len() implies l[j] != '\n' by {
        if j >= a.len() && j < a.len() + contrasena.len() {
            assert(l[j] == contrasena[j - a.len()]);
        }
    }
    lema_lineas_primera(l, Seq::<char>::empty());
    assert(lineas(Seq::<char>::empty()) =~= Seq::<Seq<char>>::empty());
    assert(seq![l] + Seq::<Seq<char>>::empty() =~= seq![l]);
    // The key occurs in the line, right after its leading `+`.
    let resto = l.skip(1);
    assert(a.skip(1).take(13) =~= clave_contrasena());
    assert(l.skip(1) =~= clave_contrasena() + l.skip(14));
    lema_contiene_prefijo(clave_contrasena(), l.skip(14));
    let i = choose|i: int|
        0 <= i && i + clave_contrasena().len() <= resto.len() && #[trigger] resto.subrange(
            i,
            i + clave_contrasena().len(),
        ) == clave_contrasena();
    assert(l.subrange(i + 1, i + 1 + clave_contrasena().len()) =~= resto.subrange(
        i,
        i + clave_contrasena().len(),
    ));
    assert(contiene(l, clave_contrasena()));
    // The first quote closes the key, the next one closes the password.
    assert forall|j: int| 0 <= j < 15 implies l[j] != '"' by {}
    assert(l[15] == '"');
    lema_posicion_de(l, '"');
    lema_posicion_de_en(l, '"', 15);
    let cola = l.skip(16);
    assert(cola =~= contrasena + "\" ^"@);
    assert forall|j: int| 0 <= j < contrasena.len() implies cola[j] != '"' by {
        assert(cola[j] == contrasena[j]);
    }
    assert(cola[contrasena.len() as int] == '"');
    lema_posicion_de_en(cola, '"', contrasena.len() as int);
    assert(l.subrange(16, 16int + contrasena.len()) =~= contrasena);
    assert(contrasena_en_linea(l) == Some(contrasena));
    assert(seq![l][0] == l);
}

/// Reading the RCON password back from a launcher script gives the password
/// that the script was written with, whatever the map seed, for every
/// password free of double quotes and line breaks (every generated password
/// is: it holds only letters, digits and `-_.~`).
pub proof fn ley_iniciador_devuelve_contrasena(contrasena: Seq<char>, semilla: i32)
    requires
        forall|j: int|
            0 <= j < contrasena.len() ==> contrasena[j] != '"' && contrasena[j] != '\n',
    ensures
        contrasena_rcon(contenido_iniciador(contrasena, semilla)) == Some(contrasena),
{
    let e = encabezado_iniciador();
    let c = linea_contrasena(contrasena);
    let r = resto_iniciador(semilla);
    lema_encabezado();
    lema_linea_contrasena(contrasena);
    assert(contenido_iniciador(contrasena, semilla) =~= e + (c + r));
    lema_lineas_concat(e, c + r);
    lema_lineas_concat(c, r);
    lema_primera_concat(lineas(e), lineas(c) + lineas(r));
    lema_primera_concat(lineas(c), lineas(r));
}

/// The launcher states the map seed it was written with: a line starts with
/// `+server.seed `, followed by digits whose decimal value is the seed (for a
/// negative seed, a `-` and the digits of its magnitude).
pub proof fn ley_iniciador_semilla(contrasena: Seq<char>, semilla: i32)
    ensures
        exists|x: Seq<char>, d: Seq<char>, y: Seq<char>|
            {
                &&& contenido_iniciador(contrasena, semilla) == x + "+server.seed "@ + d
                    + " +server.worldsize 4000 ^\n"@ + y
                &&& x.len() > 0 && x.last() == '\n'
                &&& semilla >= 0 ==> solo_digitos(d) && valor_decimal(d) == semilla
                &&& semilla < 0 ==> d[0] == '-' && solo_digitos(d.skip(1)) && valor_decimal(
                    d.skip(1),
                ) == -semilla
            },
{
    let x = encabezado_iniciador() + linea_contrasena(contrasena)
        + "+server.identity \"default\" ^\n"@ + "+server.level \"Procedural Map\" ^\n"@;
    let d = decimal_con_signo(semilla as int);
    let y = "+server.radiation \"True\" ^\n"@ + "+bradley.enabled \"True\" ^\n"@
        + "+bradley.respawndelayminutes \"60\" ^\n"@
        + "+bradley.respawndelayvariance \"1\" ^\n"@ + "+heli.lifetimeminutes \"15\" ^\n"@
        + "+server.stability \"True\" ^\n"@ + "+decay.upkeep \"True\" ^\n"@
        + "+decay.upkeep_heal_scale \"1\" ^\n"@
        + "+decay.upkeep_inside_decay_scale \"0.1\" ^\n"@
        + "+decay.upkeep_period_minutes \"1440\" ^\n"@ + "+rcon.web \"True\" ^\n"@
        + "-logfile \"servidor-rust-simple-logfile.log\" ^"@;
    assert(contenido_iniciador(contrasena, semilla) =~= x + "+server.seed "@ + d
        + " +server.worldsize 4000 ^\n"@ + y);
    reveal_strlit("+server.level \"Procedural Map\" ^\n");
    assert(x.last() == '\n');
    ley_decimal_con_signo(semilla as int);
}

} // verus!
