//! Settings of a branch.

use vstd::prelude::*;

verus! {

/// Coffee machines per node.
pub const CANTIDAD_CAFETERAS: usize = 3;

/// Seconds a machine waits for an answer before it pings its node; each
/// retry waits one more multiple of it.
pub const TIMEOUT: u64 = 1000;

/// Seconds that preparing a drink takes.
pub const TIEMPO_DE_PREPARACION: u64 = 7;

/// Of every hundred drinks, how many fail while being prepared.
pub const PROBABILIDAD_ERROR_PORCIENTO: u64 = 0;

/// How the requests of a branch are dealt out to its machines: machine `i`
/// of `cafeteras` takes the requests from `inicio` up to `fin`; every
/// machine takes `total / cafeteras` of them, the last one also the rest.
pub open spec fn reparto(total: nat, cafeteras: nat, i: nat) -> (nat, nat) {
    let por_cafetera = total / cafeteras;
    (i * por_cafetera, if i + 1 == cafeteras {
        total
    } else {
        (i + 1) * por_cafetera
    })
}

/// Number of machines that serve `total` requests: all of them, or one per
/// request when there are fewer requests than machines.
pub fn cafeteras_para(total: usize) -> (r: usize)
    ensures
        r == if CANTIDAD_CAFETERAS > total { total } else { CANTIDAD_CAFETERAS },
{
    if CANTIDAD_CAFETERAS > total {
        total
    } else {
        CANTIDAD_CAFETERAS
    }
}

/// The range of requests of machine `i`.
pub fn rango_de_cafetera(total: usize, cafeteras: usize, i: usize) -> (r: (usize, usize))
    requires
        0 < cafeteras,
        i < cafeteras,
    ensures
        (r.0 as nat, r.1 as nat) == reparto(total as nat, cafeteras as nat, i as nat),
        r.0 <= r.1 <= total,
{
    let por_cafetera = total / cafeteras;
    assert((i + 1) * por_cafetera <= total && i * por_cafetera <= (i + 1) * por_cafetera) by (nonlinear_arith)
        requires
            por_cafetera == total / cafeteras,
            i < cafeteras,
            0 < cafeteras,
    ;
    let inicio = i * por_cafetera;
    let fin = if i == cafeteras - 1 {
        total
    } else {
        (i + 1) * por_cafetera
    };
    (inicio, fin)
}

} // verus!
