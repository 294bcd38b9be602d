use vstd::prelude::*;

verus! {

use crate::pedido::{
    decision_cancelar_pedido,
    pedido_tras_cancelar,
    pedidos_avanzan,
    ErrorCancelarPedido,
    Pedido,
};
use crate::tarifa_de;
use crate::AccountId;

//
// conservación de stock
//

/// Lo que una operación del mercado hace con la cantidad ofertada de una
/// publicación: una compra la reserva, una cancelación concretada la
/// devuelve, y el resto de las operaciones no la toca.
pub ghost enum MovimientoStock {
    Compra(u32),
    Devolucion(u32),
    Ninguno,
}

/// Cómo cambia la cantidad ofertada con un movimiento, tal como lo
/// garantizan los `ensures` de `comprar_producto` (resta la cantidad
/// comprada) y de `cancelar_pedido` (suma la cantidad devuelta cuando la
/// publicación sigue existiendo y la suma no desborda).
pub open spec fn aplica_movimiento(antes: u32, m: MovimientoStock, despues: u32) -> bool {
    match m {
        MovimientoStock::Compra(q) => q <= antes && despues == antes - q,
        MovimientoStock::Devolucion(q) => antes + q <= u32::MAX && despues == antes + q,
        MovimientoStock::Ninguno => despues == antes,
    }
}

/// El total de unidades que los movimientos de la lista compraron.
pub open spec fn total_comprado(ms: Seq<MovimientoStock>) -> int
    decreases ms.len(),
{
    if ms.len() == 0 {
        0
    } else {
        total_comprado(ms.drop_last()) + (match ms.last() {
            MovimientoStock::Compra(q) => q as int,
            _ => 0,
        })
    }
}

/// El total de unidades que los movimientos de la lista devolvieron.
pub open spec fn total_devuelto(ms: Seq<MovimientoStock>) -> int
    decreases ms.len(),
{
    if ms.len() == 0 {
        0
    } else {
        total_devuelto(ms.drop_last()) + (match ms.last() {
            MovimientoStock::Devolucion(q) => q as int,
            _ => 0,
        })
    }
}

/// Conservación de stock: para toda cadena de cantidades ofertadas de una
/// publicación en la que cada paso es el efecto de una operación del
/// mercado (una compra, una devolución por cancelación, o nada), la
/// cantidad final es la inicial menos todo lo comprado más todo lo
/// devuelto. Las compras que fallan y las cancelaciones sin publicación
/// viva son pasos `Ninguno`: no mueven stock.
pub proof fn ley_conservacion_stock(cantidades: Seq<u32>, movimientos: Seq<MovimientoStock>)
    requires
        cantidades.len() == movimientos.len() + 1,
        forall|i: int|
            0 <= i < movimientos.len() ==> #[trigger] aplica_movimiento(
                cantidades[i],
                movimientos[i],
                cantidades[i + 1],
            ),
    ensures
        cantidades.last() == cantidades.first() - total_comprado(movimientos) + total_devuelto(
            movimientos,
        ),
    decreases movimientos.len(),
{
    if movimientos.len() == 0 {
        assert(cantidades.last() == cantidades.first());
    } else {
        let n = movimientos.len() as int;
        ley_conservacion_stock(cantidades.drop_last(), movimientos.drop_last());
        assert(aplica_movimiento(cantidades[n - 1], movimientos[n - 1], cantidades[n]));
        assert(cantidades.drop_last().last() == cantidades[n - 1]);
        assert(cantidades.drop_last().first() == cantidades.first());
        assert(movimientos.drop_last() =~= movimientos.drop_last());
    }
}

//
// liquidación exactamente una vez, estados sólo hacia adelante,
// una sola disputa por pedido
//

/// Las tres leyes de avance de los pedidos componen sobre cualquier
/// cadena de estados del mercado: si cada paso las respeta (como lo
/// garantizan los `ensures` de todas las operaciones que tocan pedidos),
/// la cadena entera las respeta. En particular: un pedido liquidado nunca
/// vuelve a estar sin liquidar, un pedido recibido o cancelado nunca
/// cambia de estado, y el vínculo de un pedido con su disputa nunca se
/// borra, por muchas operaciones que se intenten después.
pub proof fn ley_avance_de_pedidos(cadena: Seq<Map<u128, Pedido>>)
    requires
        cadena.len() >= 1,
        forall|i: int|
            0 <= i < cadena.len() - 1 ==> #[trigger] pedidos_avanzan(cadena[i], cadena[i + 1]),
    ensures
        pedidos_avanzan(cadena.first(), cadena.last()),
    decreases cadena.len(),
{
    if cadena.len() == 1 {
        assert(pedidos_avanzan(cadena.first(), cadena.last()));
    } else {
        let n = cadena.len() as int;
        ley_avance_de_pedidos(cadena.drop_last());
        assert(cadena.drop_last().first() == cadena.first());
        assert(cadena.drop_last().last() == cadena[n - 2]);
        assert(pedidos_avanzan(cadena[n - 2], cadena[n - 2 + 1]));
        assert(pedidos_avanzan(cadena[n - 2], cadena[n - 1]));
        assert(pedidos_avanzan(cadena.first(), cadena[n - 2]));
        assert forall|id: u128|
            cadena.first().contains_key(id) && cadena.first()[id].fondos_fueron_transferidos
                implies (#[trigger] cadena.last().contains_key(id))
            && cadena.last()[id].fondos_fueron_transferidos by {
            assert(cadena[n - 2].contains_key(id));
        }
        assert forall|id: u128| cadena.first().contains_key(id) implies (
        #[trigger] cadena.last().contains_key(id)) && cadena.first()[id].estado.rango()
            <= cadena.last()[id].estado.rango() && (cadena.first()[id].estado.es_terminal()
            ==> cadena.last()[id].estado == cadena.first()[id].estado) by {
            assert(cadena[n - 2].contains_key(id));
        }
        assert forall|id: u128|
            cadena.first().contains_key(id) && cadena.first()[id].disputa is Some implies (
        #[trigger] cadena.last().contains_key(id)) && cadena.last()[id].disputa
            == cadena.first()[id].disputa by {
            assert(cadena[n - 2].contains_key(id));
        }
    }
}

//
// cancelación mutua
//

/// Cancelar exige dos voluntades distintas: la primera solicitud de un
/// participante sólo anota al solicitante y nunca cancela; si el mismo
/// participante vuelve a llamar, la decisión es el error de espera mutua
/// y el pedido no se cancela; si llama el otro participante, la segunda
/// solicitud siempre concreta la cancelación, con la devolución del valor
/// completo al comprador. `decision_cancelar_pedido` y
/// `pedido_tras_cancelar` son exactamente lo que los `ensures` de
/// `cancelar_pedido` garantizan de cada llamado con usuario y pedido
/// existentes.
pub proof fn ley_cancelacion_mutua(p0: Pedido, t1: u64, t2: u64, caller: AccountId, otro: AccountId)
    requires
        p0.participa(caller),
        p0.participa(otro),
        !(p0.estado is Recibido),
        !(p0.estado is Cancelado),
        p0.primer_solicitud_cancelacion is None,
    ensures
        decision_cancelar_pedido(p0, caller) == Ok::<Option<(AccountId, u128)>,
            ErrorCancelarPedido,
        >(None),
        !(pedido_tras_cancelar(p0, t1, caller).estado is Cancelado),
        decision_cancelar_pedido(pedido_tras_cancelar(p0, t1, caller), caller) == Err::<
            Option<(AccountId, u128)>,
            ErrorCancelarPedido,
        >(ErrorCancelarPedido::EsperandoConfirmacionMutua),
        otro != caller ==> decision_cancelar_pedido(pedido_tras_cancelar(p0, t1, caller), otro)
            == Ok::<Option<(AccountId, u128)>, ErrorCancelarPedido>(
            Some((p0.comprador, p0.valor_total)),
        ),
        otro != caller ==> pedido_tras_cancelar(
            pedido_tras_cancelar(p0, t1, caller),
            t2,
            otro,
        ).estado is Cancelado,
{
}

//
// tarifa de servicio
//

/// La tarifa nunca supera el valor sobre el que se calcula, siempre que
/// la tasa del mercado no pase de 1000 por mil; con una tasa mayor la
/// tarifa calculada puede exceder el valor (por ejemplo, valor 1000 y
/// tasa 2000 dan tarifa 2000) y el cobro degrada al valor completo.
pub proof fn ley_tarifa_acotada(tarifa: u128, valor: u128)
    requires
        tarifa <= 1000,
    ensures
        tarifa_de(tarifa, valor) <= valor,
{
    let v = valor as int;
    let t = tarifa as int;
    assert((v / 1000) * t <= (v / 1000) * 1000 <= v) by (nonlinear_arith)
        requires
            0 <= v,
            0 <= t <= 1000,
    ;
}

/// La tarifa de un valor nulo es nula.
pub proof fn ley_tarifa_de_cero(tarifa: u128)
    ensures
        tarifa_de(tarifa, 0) == 0,
{
    assert((0int / 1000) * (tarifa as int) == 0) by (nonlinear_arith);
}

} // verus!
