//! Reading the RCON password back out of a launcher script.

use vstd::prelude::*;
use crate::texto::{
    a_caracteres, buscar_caracter, contiene, contiene_en, lema_posicion_de, lema_posicion_de_en,
    lineas, posicion_de, sin_retorno, texto_de,
};

verus! {

/// The key that marks the line holding the RCON password.
pub open spec fn clave_contrasena() -> Seq<char> {
    "rcon.password"@
}

/// What `extraer_rcon_password` answers when no line holds a password.
pub open spec fn sin_contrasena() -> Seq<char> {
    "No se encontró contraseña RCON en el .bat"@
}

/// The password that line `l` holds: when `l` mentions the key, the text
/// between its first double quote and the next one.
pub open spec fn contrasena_en_linea(l: Seq<char>) -> Option<Seq<char>> {
    if contiene(l, clave_contrasena()) {
        match posicion_de(l, '"') {
            Some(a) => match posicion_de(l.skip(a + 1), '"') {
                Some(b) => Some(l.subrange(a + 1, a + 1 + b)),
                None => None,
            },
            None => None,
        }
    } else {
        None
    }
}

/// The password of the first of `ls` that holds one.
pub open spec fn primera_contrasena(ls: Seq<Seq<char>>) -> Option<Seq<char>>
    decreases ls.len(),
{
    if ls.len() == 0 {
        None
    } else {
        match contrasena_en_linea(ls[0]) {
            Some(p) => Some(p),
            None => primera_contrasena(ls.drop_first()),
        }
    }
}

/// The RCON password that a launcher script `s` holds, if any.
pub open spec fn contrasena_rcon(s: Seq<char>) -> Option<Seq<char>> {
    primera_contrasena(lineas(s))
}

/// Looking through two lists of lines is looking through the first, then
/// through the second.
pub proof fn lema_primera_concat(a: Seq<Seq<char>>, b: Seq<Seq<char>>)
    ensures
        primera_contrasena(a + b) == match primera_contrasena(a) {
            Some(p) => Some(p),
            None => primera_contrasena(b),
        },
    decreases a.len(),
{
    if a.len() > 0 {
        assert((a + b)[0] == a[0]);
        assert((a + b).drop_first() =~= a.drop_first() + b);
        lema_primera_concat(a.drop_first(), b);
    } else {
        assert(a + b =~= b);
    }
}

/// The lines of a text that ends with a line break, followed by more text,
/// are its own lines followed by those of the rest.
pub proof fn lema_lineas_concat(p: Seq<char>, r: Seq<char>)
    requires
        p.len() == 0 || p.last() == '\n',
    ensures
        lineas(p + r) == lineas(p) + lineas(r),
    decreases p.len(),
{
    if p.len() == 0 {
        assert(p + r =~= r);
        assert(lineas(p) =~= Seq::<Seq<char>>::empty());
        assert(lineas(p) + lineas(r) =~= lineas(r));
    } else {
        lema_posicion_de(p, '\n');
        let i = posicion_de(p, '\n').unwrap();
        let s = p + r;
        assert forall|j: int| 0 <= j < i implies s[j] != '\n' by {
            assert(s[j] == p[j]);
        }
        assert(s[i] == p[i]);
        lema_posicion_de_en(s, '\n', i);
        assert(s.take(i) =~= p.take(i));
        assert(s.skip(i + 1) =~= p.skip(i + 1) + r);
        let q = p.skip(i + 1);
        assert(q.len() == 0 || q.last() == p.last());
        lema_lineas_concat(q, r);
        assert(lineas(s) =~= seq![sin_retorno(p.take(i))] + (lineas(q) + lineas(r)));
        assert(lineas(p) == seq![sin_retorno(p.take(i))] + lineas(q));
        assert(lineas(p) + lineas(r) =~= seq![sin_retorno(p.take(i))] + (lineas(q) + lineas(r)));
    }
}

/// The password that the line `v[desde..hasta]` holds.
fn contrasena_de_linea(v: &Vec<char>, desde: usize, hasta: usize, clave: &Vec<char>) -> (r: Option<
    String,
>)
    requires
        desde <= hasta <= v.len(),
        clave@ == clave_contrasena(),
    ensures
        match contrasena_en_linea(v@.subrange(desde as int, hasta as int)) {
            Some(p) => r is Some && r->0@ == p,
            None => r is None,
        },
{
    let ghost linea = v@.subrange(desde as int, hasta as int);
    if !contiene_en(v, desde, hasta, clave) {
        return None;
    }
    let comilla = buscar_caracter(v, desde, hasta, '"');
    proof {
        lema_posicion_de(linea, '"');
    }
    match comilla {
        None => None,
        Some(a) => {
            let cierre = buscar_caracter(v, a + 1, hasta, '"');
            proof {
                assert(linea.skip(a - desde + 1) =~= v@.subrange(a + 1, hasta as int));
                lema_posicion_de(v@.subrange(a + 1, hasta as int), '"');
            }
            match cierre {
                None => None,
                Some(b) => {
                    proof {
                        assert(linea.subrange(a - desde + 1, a - desde + 1 + (b - (a + 1)))
                            =~= v@.subrange(a + 1, b as int));
                    }
                    Some(texto_de(v, a + 1, b))
                },
            }
        },
    }
}

/// One step through the lines of `t[inicio..]`: where the first line ends and
/// where the next one starts.
proof fn lema_paso_linea(t: Seq<char>, inicio: int, salto: Option<int>, fin: int, siguiente: int)
    requires
        0 <= inicio < t.len(),
        match posicion_de(t.subrange(inicio, t.len() as int), '\n') {
            Some(i) => salto == Some(inicio + i),
            None => salto is None,
        },
        match salto {
            Some(e) => siguiente == e + 1 && (if e > inicio && t[e - 1] == '\r' {
                fin == e - 1
            } else {
                fin == e
            }),
            None => fin == t.len() && siguiente == t.len(),
        },
    ensures
        inicio <= fin <= t.len(),
        inicio < siguiente <= t.len(),
        lineas(t.subrange(inicio, t.len() as int)) == seq![t.subrange(inicio, fin)] + lineas(
            t.subrange(siguiente, t.len() as int),
        ),
{
    let n = t.len() as int;
    let s = t.subrange(inicio, n);
    lema_posicion_de(s, '\n');
    match salto {
        Some(e) => {
            let i = e - inicio;
            assert(s.take(i) =~= t.subrange(inicio, e));
            assert(sin_retorno(s.take(i)) =~= t.subrange(inicio, fin));
            assert(s.skip(i + 1) =~= t.subrange(siguiente, n));
        },
        None => {
            assert(t.subrange(inicio, fin) =~= s);
            assert(t.subrange(siguiente, n) =~= Seq::<char>::empty());
            assert(lineas(t.subrange(siguiente, n)) =~= Seq::<Seq<char>>::empty());
            assert(seq![s] + Seq::<Seq<char>>::empty() =~= seq![s]);
        },
    }
}

/// Extracts the RCON password from the text of a launcher script: from the
/// first line that mentions `rcon.password` and holds two double quotes, the
/// text between the first two of them.
pub fn extraer_rcon_password(contenido: &str) -> (r: Result<String, String>)
    ensures
        match contrasena_rcon(contenido@) {
            Some(p) => r is Ok && r->Ok_0@ == p,
            None => r is Err && r->Err_0@ == sin_contrasena(),
        },
{
    let v = a_caracteres(contenido);
    let clave = a_caracteres("rcon.password");
    let n = v.len();
    let mut inicio: usize = 0;
    assert(v@.subrange(0, n as int) =~= contenido@);
    while inicio < n
        invariant
            inicio <= n == v.len(),
            v@ == contenido@,
            clave@ == clave_contrasena(),
            contrasena_rcon(contenido@) == primera_contrasena(
                lineas(v@.subrange(inicio as int, n as int)),
            ),
        decreases n - inicio,
    {
        let salto = buscar_caracter(&v, inicio, n, '\n');
        proof {
            lema_posicion_de(v@.subrange(inicio as int, n as int), '\n');
        }
        let (fin, siguiente) = match salto {
            Some(e) => {
                if e > inicio && v[e - 1] == '\r' {
                    (e - 1, e + 1)
                } else {
                    (e, e + 1)
                }
            },
            None => (n, n),
        };
        proof {
            let ghost salto_int: Option<int> = match salto {
                Some(e) => Some(e as int),
                None => None,
            };
            lema_paso_linea(v@, inicio as int, salto_int, fin as int, siguiente as int);
            let ls = lineas(v@.subrange(inicio as int, n as int));
            assert(ls[0] == v@.subrange(inicio as int, fin as int));
            assert(ls.drop_first() =~= lineas(v@.subrange(siguiente as int, n as int)));
        }
        if let Some(p) = contrasena_de_linea(&v, inicio, fin, &clave) {
            return Ok(p);
        }
        inicio = siguiente;
    }
    proof {
        assert(v@.subrange(inicio as int, n as int) =~= Seq::<char>::empty());
        assert(lineas(v@.subrange(inicio as int, n as int)) =~= Seq::<Seq<char>>::empty());
    }
    Err(String::from_str("No se encontró contraseña RCON en el .bat"))
}

/// An occurrence inside an occurrence is an occurrence.
proof fn lema_contiene_trans(s: Seq<char>, l: Seq<char>, p: Seq<char>)
    requires
        contiene(s, l),
        contiene(l, p),
    ensures
        contiene(s, p),
{
    let i = choose|i: int| 0 <= i && i + l.len() <= s.len() && #[trigger] s.subrange(i, i + l.len()) == l;
    let j = choose|j: int| 0 <= j && j + p.len() <= l.len() && #[trigger] l.subrange(j, j + p.len()) == p;
    assert(s.subrange(i + j, i + j + p.len()) =~= l.subrange(j, j + p.len()));
}

/// Every line of `s` occurs in `s` and holds no line break.
proof fn lema_lineas_en_texto(s: Seq<char>)
    ensures
        forall|k: int|
            0 <= k < lineas(s).len() ==> contiene(s, #[trigger] lineas(s)[k]) && forall|j: int|
                0 <= j < lineas(s)[k].len() ==> lineas(s)[k][j] != '\n',
    decreases s.len(),
{
    if s.len() > 0 {
        lema_posicion_de(s, '\n');
        match posicion_de(s, '\n') {
            None => {
                assert(lineas(s) == seq![s]);
                assert(s.subrange(0, 0int + s.len()) =~= s);
            },
            Some(i) => {
                let primera = sin_retorno(s.take(i));
                let resto = s.skip(i + 1);
                lema_lineas_en_texto(resto);
                assert(lineas(s) == seq![primera] + lineas(resto));
                assert(s.subrange(0, 0int + primera.len()) =~= primera);
                assert(s.subrange(i + 1, i + 1 + resto.len()) =~= resto);
                assert(contiene(s, resto));
                assert forall|k: int| 0 <= k < lineas(s).len() implies contiene(
                    s,
                    #[trigger] lineas(s)[k],
                ) && forall|j: int| 0 <= j < lineas(s)[k].len() ==> lineas(s)[k][j] != '\n' by {
                    if k == 0 {
                        assert(lineas(s)[0] == primera);
                    } else {
                        assert(lineas(s)[k] == lineas(resto)[k - 1]);
                        lema_contiene_trans(s, resto, lineas(resto)[k - 1]);
                    }
                }
            },
        }
    }
}

/// A password found among lines comes from one of them.
proof fn lema_primera_de_alguna(ls: Seq<Seq<char>>)
    ensures
        primera_contrasena(ls) matches Some(p) ==> exists|k: int|
            0 <= k < ls.len() && contrasena_en_linea(#[trigger] ls[k]) == Some(p),
    decreases ls.len(),
{
    if ls.len() > 0 {
        lema_primera_de_alguna(ls.drop_first());
        if let Some(p) = primera_contrasena(ls) {
            if contrasena_en_linea(ls[0]) is None {
                let k = choose|k: int|
                    0 <= k < ls.drop_first().len() && contrasena_en_linea(
                        #[trigger] ls.drop_first()[k],
                    ) == Some(p);
                assert(ls[k + 1] == ls.drop_first()[k]);
            }
        }
    }
}

/// What a line yields is quoted in it and mentions the key there.
proof fn lema_contrasena_en_linea(l: Seq<char>)
    ensures
        contrasena_en_linea(l) matches Some(p) ==> contiene(l, clave_contrasena()) && contiene(
            l,
            seq!['"'] + p + seq!['"'],
        ) && forall|j: int| 0 <= j < p.len() ==> p[j] != '"',
{
    if let Some(p) = contrasena_en_linea(l) {
        lema_posicion_de(l, '"');
        let a = posicion_de(l, '"').unwrap();
        lema_posicion_de(l.skip(a + 1), '"');
        let b = posicion_de(l.skip(a + 1), '"').unwrap();
        assert(p =~= l.subrange(a + 1, a + 1 + b));
        assert(l[a + 1 + b] == l.skip(a + 1)[b]);
        assert(l.subrange(a, a + (seq!['"'] + p + seq!['"']).len()) =~= seq!['"'] + p + seq![
            '"',
        ]);
        assert forall|j: int| 0 <= j < p.len() implies p[j] != '"' by {
            assert(p[j] == l.skip(a + 1)[j]);
        }
    }
}

/// A password read from a text stands in it between double quotes on a line
/// that mentions `rcon.password`, and holds no double quote and no line
/// break; a text that never mentions `rcon.password` holds no password.
pub proof fn ley_contrasena_leida(s: Seq<char>)
    ensures
        contrasena_rcon(s) matches Some(p) ==> contiene(s, seq!['"'] + p + seq!['"'])
            && forall|j: int| 0 <= j < p.len() ==> p[j] != '"' && p[j] != '\n',
        !contiene(s, "rcon.password"@) ==> contrasena_rcon(s) is None,
{
    lema_lineas_en_texto(s);
    lema_primera_de_alguna(lineas(s));
    if let Some(p) = contrasena_rcon(s) {
        let ls = lineas(s);
        let k = choose|k: int| 0 <= k < ls.len() && contrasena_en_linea(#[trigger] ls[k]) == Some(p);
        lema_contrasena_en_linea(ls[k]);
        lema_contiene_trans(s, ls[k], seq!['"'] + p + seq!['"']);
        lema_contiene_trans(s, ls[k], clave_contrasena());
        let q = seq!['"'] + p + seq!['"'];
        let i = choose|i: int| 0 <= i && i + q.len() <= ls[k].len() && #[trigger] ls[k].subrange(i, i + q.len()) == q;
        assert forall|j: int| 0 <= j < p.len() implies p[j] != '"' && p[j] != '\n' by {
            assert(p[j] == q[j + 1]);
            assert(q[j + 1] == ls[k][i + j + 1]);
        }
    }
}

} // verus!
