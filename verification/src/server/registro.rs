//! Text records exchanged between a node and the leader: ASCII lines of
//! decimal fields separated by dashes.

use crate::decimal::{
    append_dash, append_decimal, ascii_chars, decimal, field_bounded, is_digit,
    lemma_decimal_reads_back, parse_bounded,
};
use vstd::prelude::*;
use vstd::utf8::*;

verus! {

/// The fields of a line, read left to right: a dash closes the current
/// field and opens a new one, any other character extends the current one.
pub open spec fn campos(s: Seq<char>) -> Seq<Seq<char>>
    decreases s.len(),
{
    if s.len() == 0 {
        seq![Seq::<char>::empty()]
    } else {
        let antes = campos(s.drop_last());
        if s.last() == '-' {
            antes.push(Seq::<char>::empty())
        } else {
            antes.update(antes.len() - 1, antes.last().push(s.last()))
        }
    }
}

/// True when `s` holds no dash.
pub open spec fn sin_guion(s: Seq<char>) -> bool {
    forall|i: int| 0 <= i < s.len() ==> #[trigger] s[i] != '-'
}

/// `s`, a dash, then `t`.
pub open spec fn unir(s: Seq<char>, t: Seq<char>) -> Seq<char> {
    s.push('-') + t
}

/// The text of a short record: five numbers joined by dashes.
pub open spec fn registro(
    tipo: u8,
    id_nodo: u8,
    id_cuenta: u32,
    id_transaccion: u32,
    id_cafetera: u8,
) -> Seq<char> {
    unir(
        unir(
            unir(unir(decimal(tipo as nat), decimal(id_nodo as nat)), decimal(id_cuenta as nat)),
            decimal(id_transaccion as nat),
        ),
        decimal(id_cafetera as nat),
    )
}

/// The text of a long record: a short record with the kind of transfer and
/// the amount put before the machine.
pub open spec fn registro_largo(
    tipo: u8,
    id_nodo: u8,
    id_cuenta: u32,
    id_transaccion: u32,
    transferencia: u8,
    cantidad: u32,
    id_cafetera: u8,
) -> Seq<char> {
    unir(
        unir(
            unir(
                unir(
                    unir(
                        unir(decimal(tipo as nat), decimal(id_nodo as nat)),
                        decimal(id_cuenta as nat),
                    ),
                    decimal(id_transaccion as nat),
                ),
                decimal(transferencia as nat),
            ),
            decimal(cantidad as nat),
        ),
        decimal(id_cafetera as nat),
    )
}

/// What a short record says after its kind.
pub struct CamposRegistro {
    pub id_nodo: u8,
    pub id_cuenta: u32,
    pub id_transaccion: u32,
    pub id_cafetera: u8,
}

/// What a long record says after its kind.
pub struct CamposRegistroLargo {
    pub id_nodo: u8,
    pub id_cuenta: u32,
    pub id_transaccion: u32,
    pub transferencia: u8,
    pub cantidad: u32,
    pub id_cafetera: u8,
}

/// The kind that a line announces: its first field, when the line is ASCII
/// and that field is a number of one byte.
pub open spec fn leer_tipo_spec(s: Seq<char>) -> Option<u8> {
    let c = campos(s);
    if is_ascii_chars(s) && field_bounded(c[0], 255) is Some {
        Some(field_bounded(c[0], 255)->0 as u8)
    } else {
        None
    }
}

/// True when `s` can be read as a short record: ASCII, at least five
/// fields, and numbers of the right width in the second to fifth. The kind
/// and any further field are not looked at.
pub open spec fn registro_valido(s: Seq<char>) -> bool {
    let c = campos(s);
    &&& is_ascii_chars(s)
    &&& c.len() >= 5
    &&& field_bounded(c[1], 255) is Some
    &&& field_bounded(c[2], u32::MAX as nat) is Some
    &&& field_bounded(c[3], u32::MAX as nat) is Some
    &&& field_bounded(c[4], 255) is Some
}

/// The content of a short record; meaningful where `registro_valido` holds.
pub open spec fn leer_registro_spec(s: Seq<char>) -> CamposRegistro {
    let c = campos(s);
    CamposRegistro {
        id_nodo: field_bounded(c[1], 255)->0 as u8,
        id_cuenta: field_bounded(c[2], u32::MAX as nat)->0 as u32,
        id_transaccion: field_bounded(c[3], u32::MAX as nat)->0 as u32,
        id_cafetera: field_bounded(c[4], 255)->0 as u8,
    }
}

/// True when `s` can be read as a long record: ASCII, at least seven
/// fields, and numbers of the right width in the second to seventh.
pub open spec fn registro_largo_valido(s: Seq<char>) -> bool {
    let c = campos(s);
    &&& is_ascii_chars(s)
    &&& c.len() >= 7
    &&& field_bounded(c[1], 255) is Some
    &&& field_bounded(c[2], u32::MAX as nat) is Some
    &&& field_bounded(c[3], u32::MAX as nat) is Some
    &&& field_bounded(c[4], 255) is Some
    &&& field_bounded(c[5], u32::MAX as nat) is Some
    &&& field_bounded(c[6], 255) is Some
}

/// The content of a long record; meaningful where `registro_largo_valido`
/// holds.
pub open spec fn leer_registro_largo_spec(s: Seq<char>) -> CamposRegistroLargo {
    let c = campos(s);
    CamposRegistroLargo {
        id_nodo: field_bounded(c[1], 255)->0 as u8,
        id_cuenta: field_bounded(c[2], u32::MAX as nat)->0 as u32,
        id_transaccion: field_bounded(c[3], u32::MAX as nat)->0 as u32,
        transferencia: field_bounded(c[4], 255)->0 as u8,
        cantidad: field_bounded(c[5], u32::MAX as nat)->0 as u32,
        id_cafetera: field_bounded(c[6], 255)->0 as u8,
    }
}

/// A line always has at least one field.
pub proof fn lemma_campos_no_vacio(s: Seq<char>)
    ensures
        campos(s).len() >= 1,
    decreases s.len(),
{
    if s.len() > 0 {
        lemma_campos_no_vacio(s.drop_last());
    }
}

/// Text without a dash appended to a line only extends its last field.
pub proof fn lemma_campos_extiende(s: Seq<char>, t: Seq<char>)
    requires
        sin_guion(t),
    ensures
        campos(s + t).len() == campos(s).len(),
        campos(s + t) == campos(s).update(campos(s).len() - 1, campos(s).last() + t),
    decreases t.len(),
{
    lemma_campos_no_vacio(s);
    if t.len() == 0 {
        assert(s + t =~= s);
        assert(campos(s).last() + t =~= campos(s).last());
        assert(campos(s).update(campos(s).len() - 1, campos(s).last()) =~= campos(s));
    } else {
        let t0 = t.drop_last();
        assert(sin_guion(t0)) by {
            assert forall|i: int| 0 <= i < t0.len() implies #[trigger] t0[i] != '-' by {
                assert(t0[i] == t[i]);
            }
        }
        lemma_campos_extiende(s, t0);
        let st = s + t;
        assert(st.drop_last() =~= s + t0);
        assert(st.last() == t.last());
        assert(t.last() == t[t.len() - 1]);
        let antes = campos(s + t0);
        assert(campos(st) == antes.update(antes.len() - 1, antes.last().push(t.last())));
        assert((campos(s).last() + t0).push(t.last()) =~= campos(s).last() + t);
        assert(campos(st) =~= campos(s).update(campos(s).len() - 1, campos(s).last() + t));
    }
}

/// A text without a dash is a single field.
pub proof fn lemma_campos_uno(t: Seq<char>)
    requires
        sin_guion(t),
    ensures
        campos(t) == seq![t],
{
    let e = Seq::<char>::empty();
    lemma_campos_extiende(e, t);
    assert(e + t =~= t);
    assert(campos(e) =~= seq![e]);
    assert(campos(t) =~= seq![t]);
}

/// Joining a dash-free text to a line adds exactly that text as a field.
pub proof fn lemma_campos_unir(s: Seq<char>, t: Seq<char>)
    requires
        sin_guion(t),
    ensures
        campos(unir(s, t)) == campos(s).push(t),
{
    let sd = s.push('-');
    assert(sd.drop_last() =~= s);
    assert(campos(sd) == campos(s).push(Seq::<char>::empty()));
    lemma_campos_extiende(sd, t);
    assert(Seq::<char>::empty() + t =~= t);
    assert(campos(unir(s, t)) =~= campos(s).push(t));
}

/// The spelling of a number holds no dash and only ASCII characters.
pub proof fn lemma_decimal_limpio(n: nat)
    ensures
        sin_guion(decimal(n)),
        is_ascii_chars(decimal(n)),
{
    lemma_decimal_reads_back(n);
    let d = decimal(n);
    assert forall|i: int| 0 <= i < d.len() implies #[trigger] d[i] != '-' by {
        assert(is_digit(d[i]));
    }
    assert forall|i: int| 0 <= i < d.len() implies '\0' <= #[trigger] d[i] <= '\u{7f}' by {
        assert(is_digit(d[i]));
    }
}

/// Joining keeps a text ASCII.
pub proof fn lemma_unir_ascii(s: Seq<char>, t: Seq<char>)
    requires
        is_ascii_chars(s),
        is_ascii_chars(t),
    ensures
        is_ascii_chars(unir(s, t)),
{
    let u = unir(s, t);
    assert forall|i: int| 0 <= i < u.len() implies '\0' <= #[trigger] u[i] <= '\u{7f}' by {
        if i < s.len() {
            assert(u[i] == s[i]);
        } else if i == s.len() {
            assert(u[i] == '-');
        } else {
            assert(u[i] == t[i - s.len() - 1]);
        }
    }
}

/// The spelling of a number within a bound is a field that reads as it.
pub proof fn lemma_campo_decimal(n: nat, max: nat)
    requires
        n <= max,
    ensures
        field_bounded(decimal(n), max) == Some(n),
{
    lemma_decimal_reads_back(n);
}

/// The fields of a short record are the spellings it was joined from.
pub proof fn lemma_campos_registro(d0: Seq<char>, d1: Seq<char>, d2: Seq<char>, d3: Seq<char>, d4: Seq<char>)
    requires
        sin_guion(d0) && is_ascii_chars(d0),
        sin_guion(d1) && is_ascii_chars(d1),
        sin_guion(d2) && is_ascii_chars(d2),
        sin_guion(d3) && is_ascii_chars(d3),
        sin_guion(d4) && is_ascii_chars(d4),
    ensures
        campos(unir(unir(unir(unir(d0, d1), d2), d3), d4)) == seq![d0, d1, d2, d3, d4],
        is_ascii_chars(unir(unir(unir(unir(d0, d1), d2), d3), d4)),
{
    let r1 = unir(d0, d1);
    let r2 = unir(r1, d2);
    let r3 = unir(r2, d3);
    let r4 = unir(r3, d4);
    lemma_campos_uno(d0);
    lemma_campos_unir(d0, d1);
    lemma_campos_unir(r1, d2);
    lemma_campos_unir(r2, d3);
    lemma_campos_unir(r3, d4);
    lemma_unir_ascii(d0, d1);
    lemma_unir_ascii(r1, d2);
    lemma_unir_ascii(r2, d3);
    lemma_unir_ascii(r3, d4);
    assert(campos(r4) =~= seq![d0, d1, d2, d3, d4]);
}

/// Two more spellings joined to a line add two fields.
pub proof fn lemma_campos_dos_mas(s: Seq<char>, c: Seq<Seq<char>>, d5: Seq<char>, d6: Seq<char>)
    requires
        campos(s) == c,
        is_ascii_chars(s),
        sin_guion(d5) && is_ascii_chars(d5),
        sin_guion(d6) && is_ascii_chars(d6),
    ensures
        campos(unir(unir(s, d5), d6)) == c.push(d5).push(d6),
        is_ascii_chars(unir(unir(s, d5), d6)),
{
    lemma_campos_unir(s, d5);
    lemma_campos_unir(unir(s, d5), d6);
    lemma_unir_ascii(s, d5);
    lemma_unir_ascii(unir(s, d5), d6);
}

/// A short record reads back as the numbers it was written from.
pub proof fn lemma_registro_roundtrip(
    tipo: u8,
    id_nodo: u8,
    id_cuenta: u32,
    id_transaccion: u32,
    id_cafetera: u8,
)
    ensures
        registro_valido(registro(tipo, id_nodo, id_cuenta, id_transaccion, id_cafetera)),
        leer_tipo_spec(registro(tipo, id_nodo, id_cuenta, id_transaccion, id_cafetera)) == Some(
            tipo,
        ),
        leer_registro_spec(registro(tipo, id_nodo, id_cuenta, id_transaccion, id_cafetera))
            == (CamposRegistro { id_nodo, id_cuenta, id_transaccion, id_cafetera }),
        campos(registro(tipo, id_nodo, id_cuenta, id_transaccion, id_cafetera)).len() == 5,
{
    let d0 = decimal(tipo as nat);
    let d1 = decimal(id_nodo as nat);
    let d2 = decimal(id_cuenta as nat);
    let d3 = decimal(id_transaccion as nat);
    let d4 = decimal(id_cafetera as nat);
    lemma_decimal_limpio(tipo as nat);
    lemma_decimal_limpio(id_nodo as nat);
    lemma_decimal_limpio(id_cuenta as nat);
    lemma_decimal_limpio(id_transaccion as nat);
    lemma_decimal_limpio(id_cafetera as nat);
    lemma_campos_registro(d0, d1, d2, d3, d4);
    lemma_campo_decimal(tipo as nat, 255);
    lemma_campo_decimal(id_nodo as nat, 255);
    lemma_campo_decimal(id_cuenta as nat, u32::MAX as nat);
    lemma_campo_decimal(id_transaccion as nat, u32::MAX as nat);
    lemma_campo_decimal(id_cafetera as nat, 255);
    let c = campos(registro(tipo, id_nodo, id_cuenta, id_transaccion, id_cafetera));
    assert(c[0] == d0 && c[1] == d1 && c[2] == d2 && c[3] == d3 && c[4] == d4);
}

/// A long record reads back as the numbers it was written from.
pub proof fn lemma_registro_largo_roundtrip(
    tipo: u8,
    id_nodo: u8,
    id_cuenta: u32,
    id_transaccion: u32,
    transferencia: u8,
    cantidad: u32,
    id_cafetera: u8,
)
    ensures
        registro_largo_valido(
            registro_largo(
                tipo,
                id_nodo,
                id_cuenta,
                id_transaccion,
                transferencia,
                cantidad,
                id_cafetera,
            ),
        ),
        leer_tipo_spec(
            registro_largo(
                tipo,
                id_nodo,
                id_cuenta,
                id_transaccion,
                transferencia,
                cantidad,
                id_cafetera,
            ),
        ) == Some(tipo),
        leer_registro_largo_spec(
            registro_largo(
                tipo,
                id_nodo,
                id_cuenta,
                id_transaccion,
                transferencia,
                cantidad,
                id_cafetera,
            ),
        ) == (CamposRegistroLargo {
            id_nodo,
            id_cuenta,
            id_transaccion,
            transferencia,
            cantidad,
            id_cafetera,
        }),
{
    let d0 = decimal(tipo as nat);
    let d1 = decimal(id_nodo as nat);
    let d2 = decimal(id_cuenta as nat);
    let d3 = decimal(id_transaccion as nat);
    let d4 = decimal(transferencia as nat);
    let d5 = decimal(cantidad as nat);
    let d6 = decimal(id_cafetera as nat);
    lemma_decimal_limpio(tipo as nat);
    lemma_decimal_limpio(id_nodo as nat);
    lemma_decimal_limpio(id_cuenta as nat);
    lemma_decimal_limpio(id_transaccion as nat);
    lemma_decimal_limpio(transferencia as nat);
    lemma_decimal_limpio(cantidad as nat);
    lemma_decimal_limpio(id_cafetera as nat);
    lemma_campos_registro(d0, d1, d2, d3, d4);
    let r4 = unir(unir(unir(unir(d0, d1), d2), d3), d4);
    lemma_campos_dos_mas(r4, seq![d0, d1, d2, d3, d4], d5, d6);
    lemma_campo_decimal(tipo as nat, 255);
    lemma_campo_decimal(id_nodo as nat, 255);
    lemma_campo_decimal(id_cuenta as nat, u32::MAX as nat);
    lemma_campo_decimal(id_transaccion as nat, u32::MAX as nat);
    lemma_campo_decimal(transferencia as nat, 255);
    lemma_campo_decimal(cantidad as nat, u32::MAX as nat);
    lemma_campo_decimal(id_cafetera as nat, 255);
    let c = campos(
        registro_largo(
            tipo,
            id_nodo,
            id_cuenta,
            id_transaccion,
            transferencia,
            cantidad,
            id_cafetera,
        ),
    );
    assert(c == seq![d0, d1, d2, d3, d4].push(d5).push(d6));
    assert(c.len() == 7);
    assert(c[0] == d0 && c[1] == d1 && c[2] == d2 && c[3] == d3 && c[4] == d4 && c[5] == d5
        && c[6] == d6);
}

/// Splits a line into its fields.
pub fn separar(linea: &Vec<char>) -> (r: Vec<Vec<char>>)
    ensures
        r@.len() == campos(linea@).len(),
        forall|k: int| 0 <= k < r@.len() ==> (#[trigger] r@[k])@ == campos(linea@)[k],
{
    let mut hechos: Vec<Vec<char>> = Vec::new();
    let mut actual: Vec<char> = Vec::new();
    let mut i: usize = 0;
    assert(linea@.take(0) =~= Seq::<char>::empty());
    while i < linea.len()
        invariant
            i <= linea@.len(),
            campos(linea@.take(i as int)).len() == hechos@.len() + 1,
            forall|k: int|
                0 <= k < hechos@.len() ==> (#[trigger] hechos@[k])@ == campos(
                    linea@.take(i as int),
                )[k],
            actual@ == campos(linea@.take(i as int)).last(),
        decreases linea@.len() - i,
    {
        let c = linea[i];
        proof {
            let p = linea@.take(i as int + 1);
            assert(p.drop_last() =~= linea@.take(i as int));
            assert(p.last() == c);
        }
        if c == '-' {
            hechos.push(actual);
            actual = Vec::new();
        } else {
            actual.push(c);
        }
        i = i + 1;
    }
    assert(linea@.take(i as int) =~= linea@);
    hechos.push(actual);
    hechos
}

/// Reads the kind that a line announces.
pub fn leer_tipo(linea: &str) -> (r: Option<u8>)
    ensures
        r == leer_tipo_spec(linea@),
{
    match ascii_chars(linea) {
        None => None,
        Some(chars) => {
            let c = separar(&chars);
            proof {
                lemma_campos_no_vacio(linea@);
            }
            match parse_bounded(&c[0], 255) {
                Some(v) => Some(v as u8),
                None => None,
            }
        },
    }
}

/// Reads a short record: `Some` exactly when the line is a valid one.
pub fn leer_registro(linea: &str) -> (r: Option<CamposRegistro>)
    ensures
        r is Some <==> registro_valido(linea@),
        r is Some ==> r->0 == leer_registro_spec(linea@),
{
    let chars = match ascii_chars(linea) {
        None => {
            return None;
        },
        Some(chars) => chars,
    };
    let c = separar(&chars);
    if c.len() < 5 {
        return None;
    }
    let id_nodo = match parse_bounded(&c[1], 255) {
        None => {
            return None;
        },
        Some(v) => v as u8,
    };
    let id_cuenta = match parse_bounded(&c[2], u32::MAX) {
        None => {
            return None;
        },
        Some(v) => v,
    };
    let id_transaccion = match parse_bounded(&c[3], u32::MAX) {
        None => {
            return None;
        },
        Some(v) => v,
    };
    let id_cafetera = match parse_bounded(&c[4], 255) {
        None => {
            return None;
        },
        Some(v) => v as u8,
    };
    Some(CamposRegistro { id_nodo, id_cuenta, id_transaccion, id_cafetera })
}

/// Reads a long record: `Some` exactly when the line is a valid one.
pub fn leer_registro_largo(linea: &str) -> (r: Option<CamposRegistroLargo>)
    ensures
        r is Some <==> registro_largo_valido(linea@),
        r is Some ==> r->0 == leer_registro_largo_spec(linea@),
{
    let chars = match ascii_chars(linea) {
        None => {
            return None;
        },
        Some(chars) => chars,
    };
    let c = separar(&chars);
    if c.len() < 7 {
        return None;
    }
    let id_nodo = match parse_bounded(&c[1], 255) {
        None => {
            return None;
        },
        Some(v) => v as u8,
    };
    let id_cuenta = match parse_bounded(&c[2], u32::MAX) {
        None => {
            return None;
        },
        Some(v) => v,
    };
    let id_transaccion = match parse_bounded(&c[3], u32::MAX) {
        None => {
            return None;
        },
        Some(v) => v,
    };
    let transferencia = match parse_bounded(&c[4], 255) {
        None => {
            return None;
        },
        Some(v) => v as u8,
    };
    let cantidad = match parse_bounded(&c[5], u32::MAX) {
        None => {
            return None;
        },
        Some(v) => v,
    };
    let id_cafetera = match parse_bounded(&c[6], 255) {
        None => {
            return None;
        },
        Some(v) => v as u8,
    };
    Some(
        CamposRegistroLargo {
            id_nodo,
            id_cuenta,
            id_transaccion,
            transferencia,
            cantidad,
            id_cafetera,
        },
    )
}

/// Writes a short record.
pub fn escribir_registro(
    tipo: u8,
    id_nodo: u8,
    id_cuenta: u32,
    id_transaccion: u32,
    id_cafetera: u8,
) -> (r: String)
    ensures
        r@ == registro(tipo, id_nodo, id_cuenta, id_transaccion, id_cafetera),
{
    let mut s = String::new();
    append_decimal(&mut s, tipo as u64);
    append_dash(&mut s);
    append_decimal(&mut s, id_nodo as u64);
    append_dash(&mut s);
    append_decimal(&mut s, id_cuenta as u64);
    append_dash(&mut s);
    append_decimal(&mut s, id_transaccion as u64);
    append_dash(&mut s);
    append_decimal(&mut s, id_cafetera as u64);
    assert(s@ =~= registro(tipo, id_nodo, id_cuenta, id_transaccion, id_cafetera));
    s
}

/// Writes a long record.
pub fn escribir_registro_largo(
    tipo: u8,
    id_nodo: u8,
    id_cuenta: u32,
    id_transaccion: u32,
    transferencia: u8,
    cantidad: u32,
    id_cafetera: u8,
) -> (r: String)
    ensures
        r@ == registro_largo(
            tipo,
            id_nodo,
            id_cuenta,
            id_transaccion,
            transferencia,
            cantidad,
            id_cafetera,
        ),
{
    let mut s = String::new();
    append_decimal(&mut s, tipo as u64);
    append_dash(&mut s);
    append_decimal(&mut s, id_nodo as u64);
    append_dash(&mut s);
    append_decimal(&mut s, id_cuenta as u64);
    append_dash(&mut s);
    append_decimal(&mut s, id_transaccion as u64);
    append_dash(&mut s);
    append_decimal(&mut s, transferencia as u64);
    append_dash(&mut s);
    append_decimal(&mut s, cantidad as u64);
    append_dash(&mut s);
    append_decimal(&mut s, id_cafetera as u64);
    assert(s@ =~= registro_largo(
        tipo,
        id_nodo,
        id_cuenta,
        id_transaccion,
        transferencia,
        cantidad,
        id_cafetera,
    ));
    s
}

} // verus!
