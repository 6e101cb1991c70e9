//! The linear congruential generator behind the RCON password and the map
//! seed. Both start from the clock and the process id, which the caller reads.

use vstd::prelude::*;
use crate::texto::anadir_caracter;

verus! {

/// Characters a generated password is drawn from, in table order: the ASCII
/// letters and digits, and the symbols `-`, `_`, `.` and `~`, which need no
/// escaping inside the launcher's double quotes nor in a URL path.
pub open spec fn caracteres_permitidos() -> Seq<char> {
    "ABCDEFGHIJKLMNOPQRSTUVWXYZabcdefghijklmnopqrstuvwxyz0123456789-_.~"@
}

/// Length of a generated password.
pub open spec fn longitud_contrasena() -> nat {
    32
}

/// One step of the generator: `s * 1103515245 + 12345`, modulo 2^64.
pub open spec fn paso_lcg(s: u64) -> u64 {
    ((s as int * 1103515245 + 12345) % 0x1_0000_0000_0000_0000) as u64
}

/// The generator's state after `n` steps from `s`.
pub open spec fn semilla_tras(s: u64, n: nat) -> u64
    decreases n,
{
    if n == 0 {
        s
    } else {
        paso_lcg(semilla_tras(s, (n - 1) as nat))
    }
}

/// The password generated from the starting state `s`: character `i` is the
/// table entry at the state after `i + 1` steps, modulo the table's size.
pub open spec fn contrasena_desde(s: u64) -> Seq<char> {
    Seq::new(
        longitud_contrasena(),
        |i: int| caracteres_permitidos()[(semilla_tras(s, (i + 1) as nat) % 66) as int],
    )
}

/// The map seed generated from the clock reading `milisegundos` and the
/// process id: one step from their wrapping sum, modulo 2^31.
pub open spec fn semilla_servidor(milisegundos: u64, id_proceso: u32) -> int {
    (paso_lcg(((milisegundos + id_proceso) % 0x1_0000_0000_0000_0000) as u64) % 0x8000_0000) as int
}

/// `wrapping_mul` then `wrapping_add` is one step of the generator.
fn siguiente(s: u64) -> (r: u64)
    ensures
        r == paso_lcg(s),
{
    let m = s.wrapping_mul(1103515245);
    let r = m.wrapping_add(12345);
    proof {
        let p: int = s as int * 1103515245;
        let big: int = 0x1_0000_0000_0000_0000;
        assert(m == p % big);
        vstd::arithmetic::div_mod::lemma_add_mod_noop(p, 12345, big);
        vstd::arithmetic::div_mod::lemma_small_mod(12345nat, big as nat);
        if m + 12345 < big {
            vstd::arithmetic::div_mod::lemma_small_mod((m + 12345) as nat, big as nat);
        } else {
            vstd::arithmetic::div_mod::lemma_mod_sub_multiples_vanish(m + 12345, big);
            vstd::arithmetic::div_mod::lemma_small_mod((m + 12345 - big) as nat, big as nat);
        }
    }
    r
}

/// The password that the generator started at `inicial` draws.
pub fn contrasena_desde_semilla(inicial: u64) -> (r: String)
    ensures
        r@ == contrasena_desde(inicial),
{
    let tabla = "ABCDEFGHIJKLMNOPQRSTUVWXYZabcdefghijklmnopqrstuvwxyz0123456789-_.~";
    proof {
        reveal_strlit("ABCDEFGHIJKLMNOPQRSTUVWXYZabcdefghijklmnopqrstuvwxyz0123456789-_.~");
    }
    let mut semilla = inicial;
    let mut r = String::new();
    let mut contador: u64 = 0;
    while contador < 32
        invariant
            contador <= 32,
            tabla@ == caracteres_permitidos(),
            tabla@.len() == 66,
            semilla == semilla_tras(inicial, contador as nat),
            r@ == contrasena_desde(inicial).take(contador as int),
        decreases 32 - contador,
    {
        semilla = siguiente(semilla);
        let indice = semilla % 66;
        let c = tabla.get_char(indice as usize);
        anadir_caracter(&mut r, c);
        contador = contador + 1;
        assert(r@ =~= contrasena_desde(inicial).take(contador as int));
    }
    assert(contrasena_desde(inicial).take(32) =~= contrasena_desde(inicial));
    r
}

/// Generates the RCON password: 32 characters of `A-Z`, `a-z`, `0-9` and
/// `-_.~`, drawn by the generator started at `milisegundos + id_proceso`.
pub fn generar_contrasena_aleatoria(milisegundos: u64, id_proceso: u32) -> (r: String)
    requires
        milisegundos + id_proceso <= u64::MAX,
    ensures
        r@ == contrasena_desde((milisegundos + id_proceso) as u64),
{
    contrasena_desde_semilla(milisegundos + id_proceso as u64)
}

/// Generates the map seed, in `0..=i32::MAX`.
pub fn generar_server_seed(milisegundos: u64, id_proceso: u32) -> (r: i32)
    ensures
        r == semilla_servidor(milisegundos, id_proceso),
{
    let mut semilla = milisegundos;
    semilla = semilla.wrapping_add(id_proceso as u64);
    semilla = siguiente(semilla);
    let limite: u64 = i32::MAX as u64 + 1;
    (semilla % limite) as i32
}

/// A character a password may hold: an ASCII letter or digit, or one of the
/// symbols `-`, `_`, `.`, `~`.
pub open spec fn caracter_de_contrasena(c: char) -> bool {
    ('A' <= c <= 'Z') || ('a' <= c <= 'z') || ('0' <= c <= '9') || c == '-' || c == '_' || c
        == '.' || c == '~'
}

/// Every generated password is 32 characters long and holds only ASCII
/// letters, digits and the symbols `-`, `_`, `.`, `~`.
pub proof fn ley_contrasena_caracteres(s: u64)
    ensures
        contrasena_desde(s).len() == 32,
        forall|i: int| 0 <= i < 32 ==> caracter_de_contrasena(#[trigger] contrasena_desde(s)[i]),
{
    reveal_strlit("ABCDEFGHIJKLMNOPQRSTUVWXYZabcdefghijklmnopqrstuvwxyz0123456789-_.~");
    assert forall|k: int| 0 <= k < 66 implies caracter_de_contrasena(
        #[trigger] caracteres_permitidos()[k],
    ) by {}
}

/// Each password character comes from the next state of the generator: the
/// first from one step after the start, and the rest are the password that
/// starts one step later, shifted by one.
pub proof fn ley_contrasena_desplazada(s: u64)
    ensures
        contrasena_desde(s)[0] == caracteres_permitidos()[(paso_lcg(s) % 66) as int],
        forall|i: int|
            0 <= i < 31 ==> #[trigger] contrasena_desde(s)[i + 1] == contrasena_desde(
                paso_lcg(s),
            )[i],
{
    assert(semilla_tras(s, 1) == paso_lcg(semilla_tras(s, 0)));
    assert forall|i: int| 0 <= i < 31 implies #[trigger] contrasena_desde(s)[i + 1]
        == contrasena_desde(paso_lcg(s))[i] by {
        lema_semilla_tras(s, (i + 1) as nat);
    }
}

/// Stepping `n + 1` times from `s` is stepping `n` times from the next state.
proof fn lema_semilla_tras(s: u64, n: nat)
    ensures
        semilla_tras(s, n + 1) == semilla_tras(paso_lcg(s), n),
    decreases n,
{
    let t = paso_lcg(s);
    if n > 0 {
        let m = (n - 1) as nat;
        lema_semilla_tras(s, m);
        assert(semilla_tras(s, n + 1) == paso_lcg(semilla_tras(s, n)));
        assert(semilla_tras(t, n) == paso_lcg(semilla_tras(t, m)));
        assert(semilla_tras(s, n) == semilla_tras(s, m + 1));
    } else {
        assert(semilla_tras(s, 1) == paso_lcg(semilla_tras(s, 0)));
        assert(semilla_tras(t, 0) == t);
    }
}

/// Every generated map seed lies in `0..=i32::MAX`.
pub proof fn ley_semilla_en_rango(milisegundos: u64, id_proceso: u32)
    ensures
        0 <= semilla_servidor(milisegundos, id_proceso) <= i32::MAX,
{
}

} // verus!
