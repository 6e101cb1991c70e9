//! Text primitives over character sequences: searching, line splitting and
//! building `String`s one character at a time.

use vstd::prelude::*;

verus! {

/// Position of the first occurrence of `c` in `s`, if any.
pub open spec fn posicion_de(s: Seq<char>, c: char) -> Option<int>
    decreases s.len(),
{
    if s.len() == 0 {
        None
    } else if s[0] == c {
        Some(0)
    } else {
        match posicion_de(s.drop_first(), c) {
            Some(i) => Some(i + 1),
            None => None,
        }
    }
}

/// `p` occurs in `s` as a contiguous block.
pub open spec fn contiene(s: Seq<char>, p: Seq<char>) -> bool {
    exists|i: int| 0 <= i && i + p.len() <= s.len() && #[trigger] s.subrange(i, i + p.len()) == p
}

/// Drops one carriage return at the end of a line, as `str::lines` does for
/// lines terminated by `"\r\n"`.
pub open spec fn sin_retorno(l: Seq<char>) -> Seq<char> {
    if l.len() > 0 && l.last() == '\r' {
        l.drop_last()
    } else {
        l
    }
}

/// The lines of `s`, as `str::lines` yields them: split at each `'\n'`, with
/// one `'\r'` removed before a `'\n'`; a final line break yields no empty
/// last line, and the last line, when unterminated, is kept as it is.
pub open spec fn lineas(s: Seq<char>) -> Seq<Seq<char>>
    decreases s.len(),
{
    if s.len() == 0 {
        seq![]
    } else {
        match posicion_de(s, '\n') {
            None => seq![s],
            Some(i) => {
                proof {
                    lema_posicion_de(s, '\n');
                }
                seq![sin_retorno(s.take(i))] + lineas(s.skip(i + 1))
            },
        }
    }
}

/// What `posicion_de` finds: the first matching index, or no match at all.
pub proof fn lema_posicion_de(s: Seq<char>, c: char)
    ensures
        match posicion_de(s, c) {
            Some(i) => 0 <= i < s.len() && s[i] == c && forall|j: int| 0 <= j < i ==> s[j] != c,
            None => forall|j: int| 0 <= j < s.len() ==> s[j] != c,
        },
    decreases s.len(),
{
    if s.len() > 0 && s[0] != c {
        lema_posicion_de(s.drop_first(), c);
        assert forall|j: int| 1 <= j < s.len() implies s[j] == s.drop_first()[j - 1] by {}
    }
}

/// The first index holding `c` determines `posicion_de`.
pub proof fn lema_posicion_de_en(s: Seq<char>, c: char, i: int)
    requires
        0 <= i < s.len(),
        s[i] == c,
        forall|j: int| 0 <= j < i ==> s[j] != c,
    ensures
        posicion_de(s, c) == Some(i),
{
    lema_posicion_de(s, c);
}

/// A sequence free of `c` has no position of `c`.
pub proof fn lema_posicion_de_ninguna(s: Seq<char>, c: char)
    requires
        forall|j: int| 0 <= j < s.len() ==> s[j] != c,
    ensures
        posicion_de(s, c) is None,
{
    lema_posicion_de(s, c);
}

/// A line `l` followed by `'\n'` comes out of `lineas` first, untouched,
/// when it holds no line break and does not end in a carriage return.
pub proof fn lema_lineas_primera(l: Seq<char>, resto: Seq<char>)
    requires
        forall|j: int| 0 <= j < l.len() ==> l[j] != '\n',
        l.len() > 0 ==> l.last() != '\r',
    ensures
        lineas(l + seq!['\n'] + resto) == seq![l] + lineas(resto),
{
    let s = l + seq!['\n'] + resto;
    assert(s[l.len() as int] == '\n');
    assert forall|j: int| 0 <= j < l.len() implies s[j] != '\n' by {
        assert(s[j] == l[j]);
    }
    lema_posicion_de_en(s, '\n', l.len() as int);
    assert(s.take(l.len() as int) =~= l);
    assert(s.skip(l.len() + 1 as int) =~= resto);
}

/// A pattern holding a character that `s` lacks does not occur in `s`.
pub proof fn lema_no_contiene(s: Seq<char>, p: Seq<char>, k: int)
    requires
        0 <= k < p.len(),
        forall|j: int| 0 <= j < s.len() ==> s[j] != p[k],
    ensures
        !contiene(s, p),
{
    if contiene(s, p) {
        let i = choose|i: int|
            0 <= i && i + p.len() <= s.len() && #[trigger] s.subrange(i, i + p.len()) == p;
        assert(s.subrange(i, i + p.len())[k] == s[i + k]);
    }
}

/// A prefix is an occurrence.
pub proof fn lema_contiene_prefijo(p: Seq<char>, resto: Seq<char>)
    ensures
        contiene(p + resto, p),
{
    assert((p + resto).subrange(0, 0int + p.len()) =~= p);
}

/// Appends one character to a string (std's `String::push`).
#[verifier::external_body]
pub(crate) fn anadir_caracter(s: &mut String, c: char)
    ensures
        final(s)@ == old(s)@.push(c),
{
    s.push(c);
}

/// The characters of `s`, in order.
pub fn a_caracteres(s: &str) -> (v: Vec<char>)
    ensures
        v@ == s@,
{
    broadcast use vstd::string::group_string_axioms;

    let mut v: Vec<char> = Vec::new();
    for c in it: s.chars()
        invariant
            it.seq() == s@,
            v@ == s@.take(it.index() as int),
    {
        v.push(c);
    }
    v
}

/// The characters `v[desde..hasta]` as a `String`.
pub fn texto_de(v: &Vec<char>, desde: usize, hasta: usize) -> (r: String)
    requires
        desde <= hasta <= v.len(),
    ensures
        r@ == v@.subrange(desde as int, hasta as int),
{
    let mut r = String::new();
    let mut i = desde;
    while i < hasta
        invariant
            desde <= i <= hasta <= v.len(),
            r@ == v@.subrange(desde as int, i as int),
        decreases hasta - i,
    {
        anadir_caracter(&mut r, v[i]);
        i = i + 1;
        assert(r@ =~= v@.subrange(desde as int, i as int));
    }
    r
}

/// The first index in `desde..hasta` that holds `c`.
pub fn buscar_caracter(v: &Vec<char>, desde: usize, hasta: usize, c: char) -> (r: Option<usize>)
    requires
        desde <= hasta <= v.len(),
    ensures
        match posicion_de(v@.subrange(desde as int, hasta as int), c) {
            Some(i) => r == Some((desde + i) as usize),
            None => r is None,
        },
{
    let ghost s = v@.subrange(desde as int, hasta as int);
    let mut k = desde;
    while k < hasta
        invariant
            desde <= k <= hasta <= v.len(),
            s == v@.subrange(desde as int, hasta as int),
            forall|j: int| desde <= j < k ==> v@[j] != c,
        decreases hasta - k,
    {
        if v[k] == c {
            proof {
                assert forall|j: int| 0 <= j < k - desde implies s[j] != c by {
                    assert(s[j] == v@[desde + j]);
                }
                lema_posicion_de_en(s, c, k - desde);
            }
            return Some(k);
        }
        k = k + 1;
    }
    proof {
        assert forall|j: int| 0 <= j < s.len() implies s[j] != c by {
            assert(s[j] == v@[desde + j]);
        }
        lema_posicion_de_ninguna(s, c);
    }
    None
}

/// `v[i..i + p.len()]` equals `p`.
fn coincide_en(v: &Vec<char>, i: usize, p: &Vec<char>) -> (r: bool)
    requires
        i + p.len() <= v.len(),
    ensures
        r == (v@.subrange(i as int, i + p.len()) == p@),
{
    let mut j: usize = 0;
    while j < p.len()
        invariant
            j <= p.len(),
            i + p.len() <= v.len(),
            forall|t: int| 0 <= t < j ==> v@[i + t] == p@[t],
        decreases p.len() - j,
    {
        if v[i + j] != p[j] {
            assert(v@.subrange(i as int, i + p.len())[j as int] != p@[j as int]);
            return false;
        }
        j = j + 1;
    }
    assert(v@.subrange(i as int, i + p.len()) =~= p@);
    true
}

/// `p` occurs in `v[desde..hasta]`.
pub fn contiene_en(v: &Vec<char>, desde: usize, hasta: usize, p: &Vec<char>) -> (r: bool)
    requires
        desde <= hasta <= v.len(),
    ensures
        r == contiene(v@.subrange(desde as int, hasta as int), p@),
{
    let ghost s = v@.subrange(desde as int, hasta as int);
    if p.len() > hasta - desde {
        return false;
    }
    if p.len() == 0 {
        assert(s.subrange(0, 0int + p@.len()) =~= p@);
        return true;
    }
    let ultimo = hasta - p.len();
    let mut i = desde;
    while i <= ultimo
        invariant
            desde <= i <= ultimo + 1,
            ultimo + p.len() == hasta,
            p.len() > 0,
            hasta <= v.len(),
            s == v@.subrange(desde as int, hasta as int),
            forall|t: int|
                0 <= t < i - desde ==> #[trigger] s.subrange(t, t + p.len()) != p@,
        decreases ultimo + 1 - i,
    {
        let encontrado = coincide_en(v, i, p);
        assert(s.subrange(i - desde, i - desde + p.len()) =~= v@.subrange(
            i as int,
            i + p.len(),
        ));
        if encontrado {
            return true;
        }
        i = i + 1;
    }
    assert(!contiene(s, p@));
    false
}

/// The decimal digit for `d` (`0 <= d < 10`).
pub open spec fn digito(d: int) -> char {
    (48 + d) as char
}

/// The decimal representation of `n`, without leading zeros.
pub open spec fn decimal(n: nat) -> Seq<char>
    decreases n,
{
    if n < 10 {
        seq![digito(n as int)]
    } else {
        decimal(n / 10).push(digito((n % 10) as int))
    }
}

/// The decimal representation of `x`, with a leading `'-'` when negative,
/// as `{}` formats an integer.
pub open spec fn decimal_con_signo(x: int) -> Seq<char> {
    if x < 0 {
        seq!['-'] + decimal((-x) as nat)
    } else {
        decimal(x as nat)
    }
}

/// The number that a string of decimal digits stands for, most significant
/// digit first.
pub open spec fn valor_decimal(s: Seq<char>) -> int
    decreases s.len(),
{
    if s.len() == 0 {
        0
    } else {
        valor_decimal(s.drop_last()) * 10 + (s.last() as int - 48)
    }
}

/// Every character of `s` is a decimal digit.
pub open spec fn solo_digitos(s: Seq<char>) -> bool {
    forall|i: int| 0 <= i < s.len() ==> '0' <= #[trigger] s[i] <= '9'
}

proof fn lema_digito(k: int)
    requires
        0 <= k < 10,
    ensures
        digito(k) as int == 48 + k,
        '0' <= digito(k) <= '9',
{
}

/// The decimal text of `n` reads back as `n`: it is made of digits, with no
/// leading zero, and their base-10 value is `n`.
pub proof fn ley_decimal(n: nat)
    ensures
        solo_digitos(decimal(n)),
        valor_decimal(decimal(n)) == n,
        decimal(n).len() > 0,
        decimal(n).len() > 1 ==> decimal(n)[0] != '0',
    decreases n,
{
    if n >= 10 {
        ley_decimal(n / 10);
        lema_digito((n % 10) as int);
        let d = decimal(n / 10);
        let t = d.push(digito((n % 10) as int));
        assert(t.drop_last() =~= d);
        assert(t[0] == d[0]);
        assert forall|i: int| 0 <= i < t.len() implies '0' <= #[trigger] t[i] <= '9' by {
            if i < d.len() {
                assert(t[i] == d[i]);
            }
        }
        assert(n == (n / 10) * 10 + n % 10);
        assert(valor_decimal(t) == valor_decimal(d) * 10 + (n % 10));
        if d.len() == 1 {
            assert(d.drop_last() =~= Seq::<char>::empty());
            assert(valor_decimal(Seq::<char>::empty()) == 0);
            assert(d.last() == d[0]);
            assert(valor_decimal(d) == d[0] as int - 48);
        }
    } else {
        lema_digito(n as int);
        let t = seq![digito(n as int)];
        assert(decimal(n) == t);
        assert(t.drop_last() =~= Seq::<char>::empty());
        assert(valor_decimal(Seq::<char>::empty()) == 0);
        assert(t.last() == digito(n as int));
        assert(valor_decimal(t) == n);
    }
}

/// The signed decimal text of `x` reads back as `x`: digits worth `x`, or a
/// `'-'` followed by digits worth `-x`.
pub proof fn ley_decimal_con_signo(x: int)
    ensures
        x >= 0 ==> solo_digitos(decimal_con_signo(x)) && valor_decimal(decimal_con_signo(x)) == x,
        x < 0 ==> decimal_con_signo(x)[0] == '-' && solo_digitos(decimal_con_signo(x).skip(1))
            && valor_decimal(decimal_con_signo(x).skip(1)) == -x,
{
    if x >= 0 {
        ley_decimal(x as nat);
    } else {
        ley_decimal((-x) as nat);
        assert(decimal_con_signo(x).skip(1) =~= decimal((-x) as nat));
    }
}

/// Appends the decimal digits of `n`.
pub fn escribir_natural(s: &mut String, n: u64)
    ensures
        final(s)@ == old(s)@ + decimal(n as nat),
    decreases n,
{
    if n >= 10 {
        escribir_natural(s, n / 10);
    }
    let d: u8 = (n % 10) as u8;
    let c: char = (48u8 + d) as char;
    anadir_caracter(s, c);
    assert(s@ =~= old(s)@ + decimal(n as nat));
}

/// Appends `x` in decimal, as `{}` formats an `i32`.
pub fn escribir_entero(s: &mut String, x: i32)
    ensures
        final(s)@ == old(s)@ + decimal_con_signo(x as int),
{
    if x < 0 {
        anadir_caracter(s, '-');
        let magnitud: u64 = (0i64 - (x as i64)) as u64;
        escribir_natural(s, magnitud);
        assert(s@ =~= old(s)@ + decimal_con_signo(x as int));
    } else {
        escribir_natural(s, x as u64);
    }
}

} // verus!
