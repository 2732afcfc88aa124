//! The order file: one order on each line, made of words such as `A5 M2 C1
//! E3`. The first letter of a word says which ingredient it is about, the
//! rest how many grams are asked for: `A` for hot water, `M` for ground
//! coffee, `C` for cocoa, `E` for milk foam. Words with another first
//! letter are passed over; an ingredient that is not named is not asked
//! for; of two words about one ingredient the later one counts.

use crate::decimal::{chars_de, gramos, parse_gramos};
use crate::enums::ErrorType;
use crate::error_dispenser::ErrorCafeteria;
use crate::order::Order;
use vstd::prelude::*;

verus! {

/// True for the characters that separate words.
pub open spec fn es_espacio(c: char) -> bool {
    c == ' ' || ('\u{9}' <= c && c <= '\u{d}') || c == '\u{85}' || c == '\u{a0}' || c
        == '\u{1680}' || ('\u{2000}' <= c && c <= '\u{200a}') || c == '\u{2028}' || c
        == '\u{2029}' || c == '\u{202f}' || c == '\u{205f}' || c == '\u{3000}'
}

/// The pieces of a text between its line feeds, read left to right: a line
/// feed closes the current piece and opens a new one.
pub open spec fn partes(s: Seq<char>) -> Seq<Seq<char>>
    decreases s.len(),
{
    if s.len() == 0 {
        seq![Seq::<char>::empty()]
    } else {
        let antes = partes(s.drop_last());
        if s.last() == '\n' {
            antes.push(Seq::<char>::empty())
        } else {
            antes.update(antes.len() - 1, antes.last().push(s.last()))
        }
    }
}

/// The lines of a text: its pieces, but for an empty one at the end.
pub open spec fn renglones(s: Seq<char>) -> Seq<Seq<char>> {
    let p = partes(s);
    if p.last().len() == 0 {
        p.drop_last()
    } else {
        p
    }
}

/// The words of a line that are closed, and the one that is still open,
/// read left to right: a space closes the open word, any other character
/// extends it.
pub open spec fn palabras_y_resto(s: Seq<char>) -> (Seq<Seq<char>>, Seq<char>)
    decreases s.len(),
{
    if s.len() == 0 {
        (Seq::<Seq<char>>::empty(), Seq::<char>::empty())
    } else {
        let (hechas, abierta) = palabras_y_resto(s.drop_last());
        if es_espacio(s.last()) {
            if abierta.len() > 0 {
                (hechas.push(abierta), Seq::<char>::empty())
            } else {
                (hechas, abierta)
            }
        } else {
            (hechas, abierta.push(s.last()))
        }
    }
}

/// The words of a line: its runs of characters other than spaces.
pub open spec fn palabras(s: Seq<char>) -> Seq<Seq<char>> {
    let (hechas, abierta) = palabras_y_resto(s);
    if abierta.len() > 0 {
        hechas.push(abierta)
    } else {
        hechas
    }
}

/// The grams asked for by a line, of each of the four ingredients.
#[derive(Debug, Clone, Copy, PartialEq, Eq, Structural)]
pub struct Cantidades {
    pub agua: u64,
    pub granos_molidos: u64,
    pub cacao: u64,
    pub espuma_de_leche: u64,
}

/// What was asked for once the word `w` is read: the amount it spells for
/// its ingredient, the rest as before. Nothing if the word is about an
/// ingredient and spells no amount.
pub open spec fn leer_palabra(c: Cantidades, w: Seq<char>) -> Option<Cantidades> {
    if w.len() == 0 {
        Some(c)
    } else {
        let resto = w.subrange(1, w.len() as int);
        if w[0] == 'A' {
            match gramos(resto) {
                Some(v) => Some(Cantidades { agua: v as u64, ..c }),
                None => None,
            }
        } else if w[0] == 'M' {
            match gramos(resto) {
                Some(v) => Some(Cantidades { granos_molidos: v as u64, ..c }),
                None => None,
            }
        } else if w[0] == 'C' {
            match gramos(resto) {
                Some(v) => Some(Cantidades { cacao: v as u64, ..c }),
                None => None,
            }
        } else if w[0] == 'E' {
            match gramos(resto) {
                Some(v) => Some(Cantidades { espuma_de_leche: v as u64, ..c }),
                None => None,
            }
        } else {
            Some(c)
        }
    }
}

/// What the words `ws` ask for, read one after the other from nothing.
pub open spec fn leer_palabras(ws: Seq<Seq<char>>) -> Option<Cantidades>
    decreases ws.len(),
{
    if ws.len() == 0 {
        Some(Cantidades { agua: 0, granos_molidos: 0, cacao: 0, espuma_de_leche: 0 })
    } else {
        match leer_palabras(ws.drop_last()) {
            Some(c) => leer_palabra(c, ws.last()),
            None => None,
        }
    }
}

/// The id of the order on the line `i`.
pub open spec fn id_de(i: int) -> i64 {
    if i <= i64::MAX {
        i as i64
    } else {
        i64::MAX
    }
}

/// The orders of the lines `rs`, each with the number of its line, counted
/// from zero, as its id. Nothing if any line spells no order.
pub open spec fn leer_renglones(rs: Seq<Seq<char>>) -> Option<Seq<Order>>
    decreases rs.len(),
{
    if rs.len() == 0 {
        Some(Seq::<Order>::empty())
    } else {
        match (leer_renglones(rs.drop_last()), leer_palabras(palabras(rs.last()))) {
            (Some(os), Some(c)) => Some(
                os.push(
                    Order::spec_new(
                        id_de(rs.len() - 1),
                        c.granos_molidos,
                        c.espuma_de_leche,
                        c.cacao,
                        c.agua,
                    ),
                ),
            ),
            _ => None,
        }
    }
}

/// The orders that a text spells.
pub open spec fn ordenes_de(s: Seq<char>) -> Option<Seq<Order>> {
    leer_renglones(renglones(s))
}

fn espacio(c: char) -> (r: bool)
    ensures
        r == es_espacio(c),
{
    c == ' ' || ('\u{9}' <= c && c <= '\u{d}') || c == '\u{85}' || c == '\u{a0}' || c
        == '\u{1680}' || ('\u{2000}' <= c && c <= '\u{200a}') || c == '\u{2028}' || c
        == '\u{2029}' || c == '\u{202f}' || c == '\u{205f}' || c == '\u{3000}'
}

/// Splits a text into its lines.
pub fn separar_renglones(texto: &Vec<char>) -> (r: Vec<Vec<char>>)
    ensures
        r@.len() == renglones(texto@).len(),
        forall|k: int| 0 <= k < r@.len() ==> (#[trigger] r@[k])@ == renglones(texto@)[k],
{
    let mut hechos: Vec<Vec<char>> = Vec::new();
    let mut actual: Vec<char> = Vec::new();
    let mut i: usize = 0;
    assert(texto@.take(0) =~= Seq::<char>::empty());
    while i < texto.len()
        invariant
            i <= texto@.len(),
            partes(texto@.take(i as int)).len() == hechos@.len() + 1,
            forall|k: int|
                0 <= k < hechos@.len() ==> (#[trigger] hechos@[k])@ == partes(
                    texto@.take(i as int),
                )[k],
            actual@ == partes(texto@.take(i as int)).last(),
        decreases texto@.len() - i,
    {
        let c = texto[i];
        proof {
            let p = texto@.take(i as int + 1);
            assert(p.drop_last() =~= texto@.take(i as int));
            assert(p.last() == c);
        }
        if c == '\n' {
            hechos.push(actual);
            actual = Vec::new();
        } else {
            actual.push(c);
        }
        i = i + 1;
    }
    assert(texto@.take(i as int) =~= texto@);
    if actual.len() > 0 {
        hechos.push(actual);
    }
    hechos
}

/// Splits a line into its words.
pub fn separar_palabras(renglon: &Vec<char>) -> (r: Vec<Vec<char>>)
    ensures
        r@.len() == palabras(renglon@).len(),
        forall|k: int| 0 <= k < r@.len() ==> (#[trigger] r@[k])@ == palabras(renglon@)[k],
{
    let mut hechas: Vec<Vec<char>> = Vec::new();
    let mut abierta: Vec<char> = Vec::new();
    let mut i: usize = 0;
    assert(renglon@.take(0) =~= Seq::<char>::empty());
    while i < renglon.len()
        invariant
            i <= renglon@.len(),
            palabras_y_resto(renglon@.take(i as int)).0.len() == hechas@.len(),
            forall|k: int|
                0 <= k < hechas@.len() ==> (#[trigger] hechas@[k])@ == palabras_y_resto(
                    renglon@.take(i as int),
                ).0[k],
            abierta@ == palabras_y_resto(renglon@.take(i as int)).1,
        decreases renglon@.len() - i,
    {
        let c = renglon[i];
        proof {
            let p = renglon@.take(i as int + 1);
            assert(p.drop_last() =~= renglon@.take(i as int));
            assert(p.last() == c);
        }
        if espacio(c) {
            if abierta.len() > 0 {
                hechas.push(abierta);
                abierta = Vec::new();
            }
        } else {
            abierta.push(c);
        }
        i = i + 1;
    }
    assert(renglon@.take(i as int) =~= renglon@);
    if abierta.len() > 0 {
        hechas.push(abierta);
    }
    hechas
}

fn parse_word(word: &Vec<char>) -> (r: Option<u64>)
    requires
        word@.len() > 0,
    ensures
        r is Some <==> gramos(word@.subrange(1, word@.len() as int)) is Some,
        r is Some ==> r->0 == gramos(word@.subrange(1, word@.len() as int))->0,
{
    let mut resto: Vec<char> = Vec::new();
    let mut i: usize = 1;
    assert(resto@ =~= word@.subrange(1, 1));
    while i < word.len()
        invariant
            1 <= i <= word@.len(),
            resto@ == word@.subrange(1, i as int),
        decreases word@.len() - i,
    {
        resto.push(word[i]);
        assert(resto@ =~= word@.subrange(1, i as int + 1));
        i = i + 1;
    }
    parse_gramos(&resto)
}

/// Reads what the words of a line ask for.
pub fn parse_words(ws: &Vec<Vec<char>>) -> (r: Option<Cantidades>)
    ensures
        r == leer_palabras(Seq::new(ws@.len(), |k: int| ws@[k]@)),
{
    let ghost todas = Seq::new(ws@.len(), |k: int| ws@[k]@);
    let mut c = Cantidades { agua: 0, granos_molidos: 0, cacao: 0, espuma_de_leche: 0 };
    let mut i: usize = 0;
    assert(todas.take(0) =~= Seq::<Seq<char>>::empty());
    while i < ws.len()
        invariant
            i <= ws@.len(),
            todas == Seq::new(ws@.len(), |k: int| ws@[k]@),
            leer_palabras(todas.take(i as int)) == Some(c),
        decreases ws@.len() - i,
    {
        let w = &ws[i];
        proof {
            let p = todas.take(i as int + 1);
            assert(p.drop_last() =~= todas.take(i as int));
            assert(p.last() == w@);
        }
        let ghost antes = c;
        if w.len() > 0 {
            let letra = w[0];
            if letra == 'A' {
                match parse_word(w) {
                    Some(v) => {
                        c.agua = v;
                    },
                    None => {
                        proof {
                            lemma_leer_palabras_falla(todas, i as int + 1);
                        }
                        return None;
                    },
                }
            } else if letra == 'M' {
                match parse_word(w) {
                    Some(v) => {
                        c.granos_molidos = v;
                    },
                    None => {
                        proof {
                            lemma_leer_palabras_falla(todas, i as int + 1);
                        }
                        return None;
                    },
                }
            } else if letra == 'C' {
                match parse_word(w) {
                    Some(v) => {
                        c.cacao = v;
                    },
                    None => {
                        proof {
                            lemma_leer_palabras_falla(todas, i as int + 1);
                        }
                        return None;
                    },
                }
            } else if letra == 'E' {
                match parse_word(w) {
                    Some(v) => {
                        c.espuma_de_leche = v;
                    },
                    None => {
                        proof {
                            lemma_leer_palabras_falla(todas, i as int + 1);
                        }
                        return None;
                    },
                }
            }
        }
        i = i + 1;
    }
    assert(todas.take(i as int) =~= todas);
    Some(c)
}

/// Once the words read so far spell nothing, no further word helps.
pub proof fn lemma_leer_palabras_falla(ws: Seq<Seq<char>>, k: int)
    requires
        0 <= k <= ws.len(),
        leer_palabras(ws.take(k)) is None,
    ensures
        leer_palabras(ws) is None,
    decreases ws.len() - k,
{
    if k == ws.len() {
        assert(ws.take(k) =~= ws);
    } else {
        let p = ws.take(k + 1);
        assert(p.drop_last() =~= ws.take(k));
        lemma_leer_palabras_falla(ws, k + 1);
    }
}

/// Once the lines read so far spell no orders, no further line helps.
pub proof fn lemma_leer_renglones_falla(rs: Seq<Seq<char>>, k: int)
    requires
        0 <= k <= rs.len(),
        leer_renglones(rs.take(k)) is None,
    ensures
        leer_renglones(rs) is None,
    decreases rs.len() - k,
{
    if k == rs.len() {
        assert(rs.take(k) =~= rs);
    } else {
        let p = rs.take(k + 1);
        assert(p.drop_last() =~= rs.take(k));
        lemma_leer_renglones_falla(rs, k + 1);
    }
}

/// Reads the orders of a text. A word that is about an ingredient and
/// spells no amount makes the whole text unreadable.
pub fn read_orders(contents: &str) -> (r: Result<Vec<Order>, ErrorCafeteria>)
    ensures
        r is Ok <==> ordenes_de(contents@) is Some,
        r is Ok ==> r->Ok_0@ == ordenes_de(contents@)->0,
        r is Err ==> r->Err_0.type_error == ErrorType::IncorrectOrderFile,
{
    let texto = chars_de(contents);
    let lineas = separar_renglones(&texto);
    let ghost rs = renglones(contents@);
    assert(rs =~= Seq::new(lineas@.len(), |k: int| lineas@[k]@));
    let mut orders: Vec<Order> = Vec::new();
    let mut id: usize = 0;
    assert(rs.take(0) =~= Seq::<Seq<char>>::empty());
    while id < lineas.len()
        invariant
            id <= lineas@.len(),
            rs == renglones(contents@),
            rs.len() == lineas@.len(),
            forall|k: int| 0 <= k < lineas@.len() ==> (#[trigger] lineas@[k])@ == rs[k],
            leer_renglones(rs.take(id as int)) == Some(orders@),
        decreases lineas@.len() - id,
    {
        let ws = separar_palabras(&lineas[id]);
        proof {
            let p = rs.take(id as int + 1);
            assert(p.drop_last() =~= rs.take(id as int));
            assert(p.last() == rs[id as int]);
            assert(palabras(rs[id as int]) =~= Seq::new(ws@.len(), |k: int| ws@[k]@));
        }
        match parse_words(&ws) {
            Some(c) => {
                orders.push(
                    Order::new_with_id(
                        id,
                        c.granos_molidos,
                        c.espuma_de_leche,
                        c.cacao,
                        c.agua,
                    ),
                );
            },
            None => {
                proof {
                    lemma_leer_renglones_falla(rs, id as int + 1);
                }
                return Err(
                    ErrorCafeteria::new_of_type(
                        "Error parsing orders file",
                        ErrorType::IncorrectOrderFile,
                    ),
                );
            },
        }
        id = id + 1;
    }
    assert(rs.take(id as int) =~= rs);
    Ok(orders)
}

} // verus!
