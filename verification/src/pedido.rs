use vstd::prelude::*;

use crate::AccountId;

verus! {

use crate::publicacion::Publicacion;

//
// estado pedido
//

/// El estado de un pedido, con el momento en que lo alcanzó.
#[derive(Debug, Clone, Copy, PartialEq, Eq, Structural)]
pub enum EstadoPedido {
    Pendiente(u64),
    Despachado(u64),
    Recibido(u64),
    Cancelado(u64),
}

impl EstadoPedido {
    /// Un pedido terminado (recibido o cancelado) no admite más transiciones.
    pub open spec fn es_terminal(self) -> bool {
        self is Recibido || self is Cancelado
    }
}

//
// pedido
//

/// El registro central de una compra en custodia: quién compró qué a quién,
/// por cuánto, en qué estado está y si los fondos ya se movieron.
#[derive(Debug, Clone, Copy, PartialEq, Eq)]
pub struct Pedido {
    pub id: u128,
    pub timestamp: u64,
    pub publicacion: u128,
    pub cantidad_comprada: u32,
    pub valor_total: u128,
    pub fondos_fueron_transferidos: bool,
    pub estado: EstadoPedido,
    pub comprador: AccountId,
    pub vendedor: AccountId,
    pub calificacion_comprador: Option<u8>,
    pub calificacion_vendedor: Option<u8>,
    pub disputa: Option<u128>,
    pub primer_solicitud_cancelacion: Option<AccountId>,
}

impl Pedido {
    pub fn new(
        id: u128,
        timestamp: u64,
        publicacion: u128,
        cantidad_comprada: u32,
        valor: u128,
        comprador: AccountId,
        vendedor: AccountId,
    ) -> (r: Self)
        ensures
            r == (Pedido {
                id,
                timestamp,
                publicacion,
                cantidad_comprada,
                valor_total: valor,
                fondos_fueron_transferidos: false,
                estado: EstadoPedido::Pendiente(timestamp),
                comprador,
                vendedor,
                calificacion_comprador: None,
                calificacion_vendedor: None,
                disputa: None,
                primer_solicitud_cancelacion: None,
            }),
    {
        Pedido {
            id,
            timestamp,
            publicacion,
            cantidad_comprada,
            valor_total: valor,
            fondos_fueron_transferidos: false,
            estado: EstadoPedido::Pendiente(timestamp),
            comprador,
            vendedor,
            calificacion_comprador: None,
            calificacion_vendedor: None,
            disputa: None,
            primer_solicitud_cancelacion: None,
        }
    }

    /// El usuario participa del pedido como comprador o vendedor.
    pub open spec fn participa(self, quien: AccountId) -> bool {
        self.comprador == quien || self.vendedor == quien
    }
}

/// Lo que una compra exitosa le informa al entorno: la ID de la nueva
/// transacción y el sobrante transferido de más, a devolver al comprador.
#[derive(Debug, Clone, Copy, PartialEq, Default, Hash)]
pub struct ResultadoComprarProducto {
    pub id_nueva_transaccion: u128,
    pub monto_transferido_sobrante: u128,
}

//
// errores
//

#[derive(Debug, Clone, PartialEq, Eq)]
pub enum ErrorComprarProducto {
    CantidadCero,
    UsuarioInexistente,
    UsuarioNoEsComprador,
    PublicacionInexistente,
    VendedorAutocomprandose,
    VendedorInexistente,
    StockInsuficiente,
    ValorTransferidoInsuficiente,
    Desconocido,
}

#[derive(Debug, Clone, PartialEq, Eq)]
pub enum ErrorProductoDespachado {
    UsuarioNoRegistrado,
    TransaccionInexistente,
    SoloVendedorPuede,
    PedidoYaDespachado,
    PedidoCancelado,
    EstadoNoPendiente,
}

#[derive(Debug, Clone, PartialEq, Eq)]
pub enum ErrorProductoRecibido {
    UsuarioNoRegistrado,
    PedidoInexistente,
    SoloCompradorPuede,
    PedidoYaRecibido,
    PedidoNoDespachado,
    PedidoCancelado,
    FondosYaTransferidos,
}

#[derive(Debug, Clone, PartialEq, Eq)]
pub enum ErrorCancelarPedido {
    UsuarioNoRegistrado,
    PedidoInexistente,
    UsuarioNoParticipa,
    PedidoYaRecibido,
    PedidoYaCancelado,
    EsperandoConfirmacionMutua,
}

#[derive(Debug, Clone, PartialEq, Eq)]
pub enum ErrorVerCompras {
    UsuarioNoRegistrado,
    NoEsComprador,
    NoTieneCompras,
}

#[derive(Debug, Clone, PartialEq, Eq)]
pub enum ErrorVerVentas {
    UsuarioNoRegistrado,
    NoEsVendedor,
    NoTieneVentas,
}

#[derive(Debug, Clone, PartialEq, Eq)]
pub enum ErrorReclamarFondos {
    UsuarioNoRegistrado,
    PedidoInexistente,
    SoloVendedorPuede,
    NoConvalidaPoliticaDeReclamo,
    FondosYaTransferidos,
    EstadoNoEsDespachado,
}

#[derive(Debug, Clone, PartialEq, Eq)]
pub enum ErrorCalificarPedido {
    CalificacionInvalida,
    UsuarioNoRegistrado,
    PedidoInexistente,
    PedidoNoRecibido,
    UsuarioNoParticipa,
    UsuarioYaCalifico,
    VendedorInexistente,
    CompradorInexistente,
}

impl EstadoPedido {
    /// Qué tan avanzado está el pedido en su ciclo de vida: los estados
    /// sólo pueden moverse hacia adelante sobre este rango.
    pub open spec fn rango(self) -> int {
        match self {
            EstadoPedido::Pendiente(_) => 0,
            EstadoPedido::Despachado(_) => 1,
            EstadoPedido::Recibido(_) => 2,
            EstadoPedido::Cancelado(_) => 2,
        }
    }
}

/// Liquidación exactamente una vez: en ningún pedido ya liquidado la
/// bandera de fondos vuelve atrás.
pub open spec fn fondos_monotonos(antes: Map<u128, Pedido>, despues: Map<u128, Pedido>) -> bool {
    forall|id: u128|
        antes.contains_key(id) && antes[id].fondos_fueron_transferidos ==> (
        #[trigger] despues.contains_key(id)) && despues[id].fondos_fueron_transferidos
}

/// Estado sólo hacia adelante: ningún pedido retrocede en el ciclo de
/// vida, y uno terminado (recibido o cancelado) ya no cambia de estado.
pub open spec fn estados_avanzan(antes: Map<u128, Pedido>, despues: Map<u128, Pedido>) -> bool {
    forall|id: u128|
        antes.contains_key(id) ==> (#[trigger] despues.contains_key(id))
            && antes[id].estado.rango() <= despues[id].estado.rango() && (
        antes[id].estado.es_terminal() ==> despues[id].estado == antes[id].estado)
}

/// Una sola disputa por pedido: el vínculo a la disputa, una vez puesto,
/// nunca se borra ni se reemplaza.
pub open spec fn disputas_persisten(antes: Map<u128, Pedido>, despues: Map<u128, Pedido>) -> bool {
    forall|id: u128|
        antes.contains_key(id) && antes[id].disputa is Some ==> (#[trigger] despues.contains_key(
            id,
        )) && despues[id].disputa == antes[id].disputa
}

/// Las tres leyes de avance juntas, para enunciarlas de una vez en cada
/// operación que toca pedidos.
pub open spec fn pedidos_avanzan(antes: Map<u128, Pedido>, despues: Map<u128, Pedido>) -> bool {
    &&& fondos_monotonos(antes, despues)
    &&& estados_avanzan(antes, despues)
    &&& disputas_persisten(antes, despues)
}

/// Cada pedido guardado lleva como campo `id` su propia clave del mapa.
pub open spec fn pedidos_coherentes(m: Map<u128, Pedido>) -> bool {
    forall|id: u128| #[trigger] m.contains_key(id) ==> m[id].id == id
}

/// La decisión de una solicitud de cancelación sobre un pedido dado,
/// cuando el usuario y el pedido existen: depende sólo del pedido y de
/// quién llama.
pub open spec fn decision_cancelar_pedido(p: Pedido, caller: AccountId) -> Result<
    Option<(AccountId, u128)>,
    ErrorCancelarPedido,
> {
    if !p.participa(caller) {
        Err(ErrorCancelarPedido::UsuarioNoParticipa)
    } else if p.estado is Recibido {
        Err(ErrorCancelarPedido::PedidoYaRecibido)
    } else if p.estado is Cancelado {
        Err(ErrorCancelarPedido::PedidoYaCancelado)
    } else if p.primer_solicitud_cancelacion is None {
        Ok(None)
    } else if p.primer_solicitud_cancelacion == Some(caller) {
        Err(ErrorCancelarPedido::EsperandoConfirmacionMutua)
    } else {
        Ok(Some((p.comprador, p.valor_total)))
    }
}

/// El pedido tras una solicitud de cancelación aceptada: la primera
/// anota al solicitante; la segunda, de la otra parte, cancela y
/// liquida los fondos a favor del comprador.
pub open spec fn pedido_tras_cancelar(p: Pedido, timestamp: u64, caller: AccountId) -> Pedido {
    if p.primer_solicitud_cancelacion is None {
        Pedido { primer_solicitud_cancelacion: Some(caller), ..p }
    } else {
        Pedido {
            estado: EstadoPedido::Cancelado(timestamp),
            fondos_fueron_transferidos: true,
            ..p
        }
    }
}

/// Una orden de pago hacia el primitivo de transferencia del anfitrión:
/// el núcleo sólo la señala; moverla es asunto de quien lo aloja.
#[derive(Debug, Clone, Copy, PartialEq, Eq)]
pub struct Pago {
    pub destinatario: AccountId,
    pub monto: u128,
}

/// Tiempo que debe pasar desde el despacho para que el vendedor pueda
/// reclamar los fondos sin confirmación del comprador: 60 días, en
/// milisegundos (1000 ms × 60 s × 60 m × 24 h × 60 d).
pub const PLAZO_RECLAMO_VENDEDOR_MS: u64 = 5_184_000_000;

//
// impl Pedido -> RustaceoLibre
//

impl crate::RustaceoLibre {
    /// Compra una cantidad de un producto publicado: reserva el stock de la
    /// publicación, crea el pedido en estado pendiente y lo anota en las
    /// listas del comprador y del vendedor. El sobrante transferido de más
    /// vuelve como dato, para que el anfitrión lo devuelva.
    ///
    /// Puede dar error si la cantidad es cero, el usuario no existe o no es
    /// comprador, la publicación no existe, el comprador es el vendedor,
    /// el vendedor no existe, el stock es insuficiente, el valor total
    /// desborda o el valor transferido no alcanza.
    pub fn comprar_producto(
        &mut self,
        timestamp: u64,
        caller: AccountId,
        id_publicacion: u128,
        cantidad: u32,
        valor_transferido: u128,
    ) -> (r: Result<ResultadoComprarProducto, ErrorComprarProducto>)
        requires
            old(self).bien_formado(),
        ensures
            final(self).bien_formado(),
            r is Err ==> *final(self) == *old(self),
            !old(self).pedidos@.contains_key(
                if old(self).pedidos_siguiente_id == u128::MAX {
                    0u128
                } else {
                    old(self).pedidos_siguiente_id
                },
            ) ==> pedidos_avanzan(old(self).pedidos@, final(self).pedidos@),
            ({
                let pubs = old(self).publicaciones@;
                let usrs = old(self).usuarios@;
                if cantidad == 0 {
                    r == Err::<ResultadoComprarProducto, ErrorComprarProducto>(
                        ErrorComprarProducto::CantidadCero,
                    )
                } else if !usrs.contains_key(caller) {
                    r == Err::<ResultadoComprarProducto, ErrorComprarProducto>(
                        ErrorComprarProducto::UsuarioInexistente,
                    )
                } else if !usrs[caller]@.rol.es_comprador() {
                    r == Err::<ResultadoComprarProducto, ErrorComprarProducto>(
                        ErrorComprarProducto::UsuarioNoEsComprador,
                    )
                } else if !pubs.contains_key(id_publicacion) {
                    r == Err::<ResultadoComprarProducto, ErrorComprarProducto>(
                        ErrorComprarProducto::PublicacionInexistente,
                    )
                } else {
                    let p = pubs[id_publicacion];
                    if caller == p.vendedor {
                        r == Err::<ResultadoComprarProducto, ErrorComprarProducto>(
                            ErrorComprarProducto::VendedorAutocomprandose,
                        )
                    } else if !usrs.contains_key(p.vendedor) {
                        r == Err::<ResultadoComprarProducto, ErrorComprarProducto>(
                            ErrorComprarProducto::VendedorInexistente,
                        )
                    } else if p.cantidad_ofertada < cantidad {
                        r == Err::<ResultadoComprarProducto, ErrorComprarProducto>(
                            ErrorComprarProducto::StockInsuficiente,
                        )
                    } else if p.precio_unitario * (cantidad as u128) > u128::MAX {
                        r == Err::<ResultadoComprarProducto, ErrorComprarProducto>(
                            ErrorComprarProducto::Desconocido,
                        )
                    } else if valor_transferido < p.precio_unitario * (cantidad as u128) {
                        r == Err::<ResultadoComprarProducto, ErrorComprarProducto>(
                            ErrorComprarProducto::ValorTransferidoInsuficiente,
                        )
                    } else {
                        let valor_total = (p.precio_unitario * (cantidad as u128)) as u128;
                        let uc = usrs[caller]@;
                        let uv = usrs[p.vendedor]@;
                        let id = if old(self).pedidos_siguiente_id == u128::MAX {
                            0u128
                        } else {
                            old(self).pedidos_siguiente_id
                        };
                        &&& r == Ok::<ResultadoComprarProducto, ErrorComprarProducto>(
                            (ResultadoComprarProducto {
                                id_nueva_transaccion: id,
                                monto_transferido_sobrante: (valor_transferido
                                    - valor_total) as u128,
                            }),
                        )
                        &&& *final(self) == (crate::RustaceoLibre {
                            publicaciones: final(self).publicaciones,
                            pedidos: final(self).pedidos,
                            usuarios: final(self).usuarios,
                            pedidos_siguiente_id: final(self).pedidos_siguiente_id,
                            ..*old(self)
                        })
                        &&& final(self).pedidos_siguiente_id == (if old(self).pedidos_siguiente_id
                            == u128::MAX {
                            1u128
                        } else {
                            (old(self).pedidos_siguiente_id + 1) as u128
                        })
                        &&& final(self).publicaciones@ == pubs.insert(
                            id_publicacion,
                            (Publicacion {
                                cantidad_ofertada: (p.cantidad_ofertada - cantidad) as u32,
                                ..p
                            }),
                        )
                        &&& final(self).pedidos@ == old(self).pedidos@.insert(
                            id,
                            (Pedido {
                                id,
                                timestamp,
                                publicacion: id_publicacion,
                                cantidad_comprada: cantidad,
                                valor_total,
                                fondos_fueron_transferidos: false,
                                estado: EstadoPedido::Pendiente(timestamp),
                                comprador: uc.id,
                                vendedor: p.vendedor,
                                calificacion_comprador: None,
                                calificacion_vendedor: None,
                                disputa: None,
                                primer_solicitud_cancelacion: None,
                            }),
                        )
                        &&& final(self).usuarios@ == usrs.insert(
                            uc.id,
                            final(self).usuarios@[uc.id],
                        ).insert(uv.id, final(self).usuarios@[uv.id])
                        &&& (uc.id != uv.id ==> final(self).usuarios@[uc.id]@ == (
                        crate::usuario::UsuarioV { id: uc.id, rol: uc.rol.con_compra(id) }))
                        &&& final(self).usuarios@[uv.id]@ == (if uv.rol.es_vendedor() {
                            crate::usuario::UsuarioV { id: uv.id, rol: uv.rol.con_venta(id) }
                        } else {
                            uv
                        })
                    }
                }
            }),
    {
        // validar cantidad
        if cantidad == 0 {
            return Err(ErrorComprarProducto::CantidadCero);
        }
        // validar usuario y rol
        let Some(comprador_ref) = self.usuarios.get(&caller) else {
            return Err(ErrorComprarProducto::UsuarioInexistente);
        };
        if !comprador_ref.es_comprador() {
            return Err(ErrorComprarProducto::UsuarioNoEsComprador);
        }
        let comprador0 = crate::usuario::clonar_usuario(comprador_ref);
        // validar publicación
        let Some(publicacion_ref) = self.publicaciones.get(&id_publicacion) else {
            return Err(ErrorComprarProducto::PublicacionInexistente);
        };
        let publicacion = *publicacion_ref;
        // validar que el vendedor no sea el comprador
        if caller == publicacion.vendedor {
            return Err(ErrorComprarProducto::VendedorAutocomprandose);
        }
        // validar vendedor
        let id_vendedor = publicacion.vendedor;
        let Some(vendedor_ref) = self.usuarios.get(&id_vendedor) else {
            return Err(ErrorComprarProducto::VendedorInexistente);
        };
        let vendedor0 = crate::usuario::clonar_usuario(vendedor_ref);
        // validar que la cantidad ofertada alcance para la cantidad comprada
        let Some(nuevo_stock_publicacion) = publicacion.cantidad_ofertada.checked_sub(cantidad)
        else {
            return Err(ErrorComprarProducto::StockInsuficiente);
        };
        // calcular el valor total de la compra
        let Some(valor_total_compra) = publicacion.precio_unitario.checked_mul(cantidad as u128)
        else {
            return Err(ErrorComprarProducto::Desconocido);
        };
        // asegurar que el valor transferido alcance
        if valor_transferido < valor_total_compra {
            return Err(ErrorComprarProducto::ValorTransferidoInsuficiente);
        }
        let monto_transferido_sobrante = valor_transferido - valor_total_compra;

        // reservar stock en la publicación
        let mut publicacion = publicacion;
        publicacion.cantidad_ofertada = nuevo_stock_publicacion;
        self.publicaciones.insert(id_publicacion, publicacion);

        // crear la transacción
        let id_transaccion = self.next_id_pedidos();
        let transaccion = Pedido::new(
            id_transaccion,
            timestamp,
            id_publicacion,
            cantidad,
            valor_total_compra,
            comprador0.id,
            id_vendedor,
        );
        self.pedidos.insert(id_transaccion, transaccion);

        // actualizar compras al comprador
        let mut comprador = comprador0;
        comprador.agregar_compra(id_transaccion);
        let ghost id_comprador = comprador.id;
        self.usuarios.insert(comprador.id, comprador);
        let ghost medio = *self;
        proof {
            old(self).lema_bien_formado_insertar(&medio, id_comprador);
        }

        // actualizar ventas al vendedor
        let mut vendedor = vendedor0;
        vendedor.agregar_venta(id_transaccion);
        let ghost id_vendedor_real = vendedor.id;
        self.usuarios.insert(vendedor.id, vendedor);
        let ghost fin = *self;
        proof {
            medio.lema_bien_formado_insertar(&fin, id_vendedor_real);
        }

        Ok(
            ResultadoComprarProducto {
                id_nueva_transaccion: id_transaccion,
                monto_transferido_sobrante,
            },
        )
    }

    /// Política de reclamo del vendedor: si despachó el pedido y el
    /// comprador no lo marcó como recibido después de 60 días, el vendedor
    /// puede reclamar los fondos; el pedido se marca como recibido sin
    /// consentimiento del comprador. Devuelve el valor bruto del pedido.
    ///
    /// Puede dar error si el usuario no está registrado, el pedido no
    /// existe, el usuario no es su vendedor, los fondos ya se movieron,
    /// el estado no es despachado o el plazo no se cumplió (también cuando
    /// el reloj quedó por detrás del despacho: la resta falla cerrada).
    pub fn reclamar_fondos(&mut self, timestamp: u64, caller: AccountId, id_compra: u128) -> (r:
        Result<u128, ErrorReclamarFondos>)
        requires
            old(self).bien_formado(),
        ensures
            final(self).bien_formado(),
            r is Err ==> *final(self) == *old(self),
            pedidos_avanzan(old(self).pedidos@, final(self).pedidos@),
            old(self).pedidos@.contains_key(id_compra) && old(self).pedidos@[id_compra].estado.es_terminal() ==> r is Err,
            ({
                let usrs = old(self).usuarios@;
                let peds = old(self).pedidos@;
                if !usrs.contains_key(caller) {
                    r == Err::<u128, ErrorReclamarFondos>(ErrorReclamarFondos::UsuarioNoRegistrado)
                } else if !peds.contains_key(id_compra) {
                    r == Err::<u128, ErrorReclamarFondos>(ErrorReclamarFondos::PedidoInexistente)
                } else {
                    let compra = peds[id_compra];
                    if caller != compra.vendedor {
                        r == Err::<u128, ErrorReclamarFondos>(ErrorReclamarFondos::SoloVendedorPuede)
                    } else if compra.fondos_fueron_transferidos {
                        r == Err::<u128, ErrorReclamarFondos>(
                            ErrorReclamarFondos::FondosYaTransferidos,
                        )
                    } else if !(compra.estado is Despachado) {
                        r == Err::<u128, ErrorReclamarFondos>(
                            ErrorReclamarFondos::EstadoNoEsDespachado,
                        )
                    } else if timestamp < compra.estado->Despachado_0 || timestamp
                        - compra.estado->Despachado_0 < PLAZO_RECLAMO_VENDEDOR_MS {
                        r == Err::<u128, ErrorReclamarFondos>(
                            ErrorReclamarFondos::NoConvalidaPoliticaDeReclamo,
                        )
                    } else {
                        &&& r == Ok::<u128, ErrorReclamarFondos>(compra.valor_total)
                        &&& *final(self) == (crate::RustaceoLibre {
                            pedidos: final(self).pedidos,
                            ..*old(self)
                        })
                        &&& final(self).pedidos@ == peds.insert(
                            id_compra,
                            (Pedido {
                                fondos_fueron_transferidos: true,
                                estado: EstadoPedido::Recibido(timestamp),
                                ..compra
                            }),
                        )
                    }
                }
            }),
    {
        // validar usuario
        if !self.usuarios.contains_key(&caller) {
            return Err(ErrorReclamarFondos::UsuarioNoRegistrado);
        }
        // validar compra
        let Some(compra_ref) = self.pedidos.get(&id_compra) else {
            return Err(ErrorReclamarFondos::PedidoInexistente);
        };
        let compra = *compra_ref;
        // validar que el usuario sea el vendedor
        if caller != compra.vendedor {
            return Err(ErrorReclamarFondos::SoloVendedorPuede);
        }
        // validar que los fondos no hayan sido ya transferidos
        if compra.fondos_fueron_transferidos {
            return Err(ErrorReclamarFondos::FondosYaTransferidos);
        }
        // validar política de reclamo: estado del pedido
        let EstadoPedido::Despachado(timestamp_despacho) = compra.estado else {
            return Err(ErrorReclamarFondos::EstadoNoEsDespachado);
        };
        // validar política de reclamo: tiempo desde el despacho
        let Some(elapsed_time) = timestamp.checked_sub(timestamp_despacho) else {
            return Err(ErrorReclamarFondos::NoConvalidaPoliticaDeReclamo);
        };
        if elapsed_time < PLAZO_RECLAMO_VENDEDOR_MS {
            return Err(ErrorReclamarFondos::NoConvalidaPoliticaDeReclamo);
        }

        let valor_compra = compra.valor_total;
        let mut compra = compra;
        compra.fondos_fueron_transferidos = true;
        compra.estado = EstadoPedido::Recibido(timestamp);
        self.pedidos.insert(id_compra, compra);

        Ok(valor_compra)
    }

    /// El vendedor retira los fondos de un pedido por la política de
    /// reclamo, y el mercado descuenta su tarifa de servicio: devuelve la
    /// orden de pago que el anfitrión debe ejecutar hacia el vendedor.
    ///
    /// Falla exactamente cuando falla la política de reclamo.
    pub fn retirar_fondos(&mut self, timestamp: u64, caller: AccountId, id_compra: u128) -> (r:
        Result<Pago, ErrorReclamarFondos>)
        requires
            old(self).bien_formado(),
        ensures
            final(self).bien_formado(),
            r is Err ==> *final(self) == *old(self),
            pedidos_avanzan(old(self).pedidos@, final(self).pedidos@),
            old(self).pedidos@.contains_key(id_compra) && old(self).pedidos@[id_compra].estado.es_terminal() ==> r is Err,
            ({
                let usrs = old(self).usuarios@;
                let peds = old(self).pedidos@;
                if !usrs.contains_key(caller) {
                    r == Err::<Pago, ErrorReclamarFondos>(ErrorReclamarFondos::UsuarioNoRegistrado)
                } else if !peds.contains_key(id_compra) {
                    r == Err::<Pago, ErrorReclamarFondos>(ErrorReclamarFondos::PedidoInexistente)
                } else {
                    let compra = peds[id_compra];
                    if caller != compra.vendedor {
                        r == Err::<Pago, ErrorReclamarFondos>(ErrorReclamarFondos::SoloVendedorPuede)
                    } else if compra.fondos_fueron_transferidos {
                        r == Err::<Pago, ErrorReclamarFondos>(
                            ErrorReclamarFondos::FondosYaTransferidos,
                        )
                    } else if !(compra.estado is Despachado) {
                        r == Err::<Pago, ErrorReclamarFondos>(
                            ErrorReclamarFondos::EstadoNoEsDespachado,
                        )
                    } else if timestamp < compra.estado->Despachado_0 || timestamp
                        - compra.estado->Despachado_0 < PLAZO_RECLAMO_VENDEDOR_MS {
                        r == Err::<Pago, ErrorReclamarFondos>(
                            ErrorReclamarFondos::NoConvalidaPoliticaDeReclamo,
                        )
                    } else {
                        let tarifa = crate::tarifa_de(
                            old(self).tarifa_de_servicio,
                            compra.valor_total,
                        );
                        let monto = if tarifa <= compra.valor_total {
                            (compra.valor_total - tarifa) as u128
                        } else {
                            compra.valor_total
                        };
                        &&& r == Ok::<Pago, ErrorReclamarFondos>(
                            (Pago { destinatario: caller, monto }),
                        )
                        &&& *final(self) == (crate::RustaceoLibre {
                            pedidos: final(self).pedidos,
                            ..*old(self)
                        })
                        &&& final(self).pedidos@ == peds.insert(
                            id_compra,
                            (Pedido {
                                fondos_fueron_transferidos: true,
                                estado: EstadoPedido::Recibido(timestamp),
                                ..compra
                            }),
                        )
                    }
                }
            }),
    {
        let valor = match self.reclamar_fondos(timestamp, caller, id_compra) {
            Ok(valor) => valor,
            Err(e) => { return Err(e) },
        };
        let monto = self.descontar_tarifa(valor);
        Ok(Pago { destinatario: caller, monto })
    }

    /// Si el pedido indicado está pendiente y el usuario es su vendedor,
    /// se establece como despachado.
    ///
    /// Puede dar error si el usuario no está registrado, el pedido no
    /// existe o no figura entre sus ventas, no es el vendedor quien intenta
    /// despacharlo, ya fue despachado o recibido, o fue cancelado.
    pub fn pedido_despachado(&mut self, timestamp: u64, caller: AccountId, id_venta: u128) -> (r:
        Result<(), ErrorProductoDespachado>)
        requires
            old(self).bien_formado(),
        ensures
            final(self).bien_formado(),
            r is Err ==> *final(self) == *old(self),
            pedidos_coherentes(old(self).pedidos@) ==> pedidos_avanzan(
                old(self).pedidos@,
                final(self).pedidos@,
            ),
            old(self).pedidos@.contains_key(id_venta) && old(self).pedidos@[id_venta].estado.es_terminal() ==> r is Err,
            ({
                let usrs = old(self).usuarios@;
                let peds = old(self).pedidos@;
                if !usrs.contains_key(caller) {
                    r == Err::<(), ErrorProductoDespachado>(
                        ErrorProductoDespachado::UsuarioNoRegistrado,
                    )
                } else if usrs[caller]@.rol.data_vendedor() is None
                    || !usrs[caller]@.rol.data_vendedor().unwrap().ventas.contains(id_venta)
                    || !peds.contains_key(id_venta) {
                    r == Err::<(), ErrorProductoDespachado>(
                        ErrorProductoDespachado::TransaccionInexistente,
                    )
                } else {
                    let venta = peds[id_venta];
                    if venta.vendedor != caller {
                        r == Err::<(), ErrorProductoDespachado>(
                            ErrorProductoDespachado::SoloVendedorPuede,
                        )
                    } else if venta.estado is Despachado {
                        r == Err::<(), ErrorProductoDespachado>(
                            ErrorProductoDespachado::PedidoYaDespachado,
                        )
                    } else if venta.estado is Cancelado {
                        r == Err::<(), ErrorProductoDespachado>(
                            ErrorProductoDespachado::PedidoCancelado,
                        )
                    } else if !(venta.estado is Pendiente) {
                        r == Err::<(), ErrorProductoDespachado>(
                            ErrorProductoDespachado::EstadoNoPendiente,
                        )
                    } else {
                        &&& r is Ok
                        &&& *final(self) == (crate::RustaceoLibre {
                            pedidos: final(self).pedidos,
                            ..*old(self)
                        })
                        &&& final(self).pedidos@ == peds.insert(
                            venta.id,
                            (Pedido { estado: EstadoPedido::Despachado(timestamp), ..venta }),
                        )
                    }
                }
            }),
    {
        // validar usuario
        let Some(usuario) = self.usuarios.get(&caller) else {
            return Err(ErrorProductoDespachado::UsuarioNoRegistrado);
        };
        // validar que la venta figure entre las del vendedor
        let Some(ventas) = usuario.obtener_ventas() else {
            return Err(ErrorProductoDespachado::TransaccionInexistente);
        };
        if !contiene_id(&ventas, id_venta) {
            return Err(ErrorProductoDespachado::TransaccionInexistente);
        }
        // validar que exista información de la venta
        let Some(venta_ref) = self.pedidos.get(&id_venta) else {
            return Err(ErrorProductoDespachado::TransaccionInexistente);
        };
        let venta = *venta_ref;
        // validar caller == vendedor
        if venta.vendedor != caller {
            return Err(ErrorProductoDespachado::SoloVendedorPuede);
        }
        // validar estado del pedido
        if matches!(venta.estado, EstadoPedido::Despachado(_)) {
            return Err(ErrorProductoDespachado::PedidoYaDespachado);
        }
        if matches!(venta.estado, EstadoPedido::Cancelado(_)) {
            return Err(ErrorProductoDespachado::PedidoCancelado);
        }
        if !matches!(venta.estado, EstadoPedido::Pendiente(_)) {
            return Err(ErrorProductoDespachado::EstadoNoPendiente);
        }

        let mut venta = venta;
        venta.estado = EstadoPedido::Despachado(timestamp);
        self.pedidos.insert(venta.id, venta);

        Ok(())
    }

    /// Si el pedido indicado fue despachado y el usuario es su comprador,
    /// se establece como recibido y los fondos quedan liquidados. Devuelve
    /// la ID del vendedor y el valor bruto que le corresponde: la señal de
    /// pago que el anfitrión ejecuta, menos la tarifa de servicio.
    ///
    /// Puede dar error si el usuario no está registrado, la compra no
    /// existe o no figura entre sus compras, no es el comprador quien
    /// intenta recibirla, no fue despachada, ya fue recibida, fue
    /// cancelada, o sus fondos ya se liquidaron por otra vía (el veredicto
    /// de una disputa): la liquidación ocurre exactamente una vez.
    pub fn pedido_recibido(&mut self, timestamp: u64, caller: AccountId, id_compra: u128) -> (r:
        Result<(AccountId, u128), ErrorProductoRecibido>)
        requires
            old(self).bien_formado(),
        ensures
            final(self).bien_formado(),
            r is Err ==> *final(self) == *old(self),
            pedidos_coherentes(old(self).pedidos@) ==> pedidos_avanzan(
                old(self).pedidos@,
                final(self).pedidos@,
            ),
            old(self).pedidos@.contains_key(id_compra) && old(self).pedidos@[id_compra].estado.es_terminal() ==> r is Err,
            old(self).pedidos@.contains_key(id_compra) && old(
                self,
            ).pedidos@[id_compra].fondos_fueron_transferidos ==> r is Err,
            ({
                let usrs = old(self).usuarios@;
                let peds = old(self).pedidos@;
                if !usrs.contains_key(caller) {
                    r == Err::<(AccountId, u128), ErrorProductoRecibido>(
                        ErrorProductoRecibido::UsuarioNoRegistrado,
                    )
                } else if usrs[caller]@.rol.data_comprador() is None
                    || !usrs[caller]@.rol.data_comprador().unwrap().compras.contains(id_compra)
                    || !peds.contains_key(id_compra) {
                    r == Err::<(AccountId, u128), ErrorProductoRecibido>(
                        ErrorProductoRecibido::PedidoInexistente,
                    )
                } else {
                    let pedido = peds[id_compra];
                    if pedido.comprador != caller {
                        r == Err::<(AccountId, u128), ErrorProductoRecibido>(
                            ErrorProductoRecibido::SoloCompradorPuede,
                        )
                    } else if pedido.estado is Pendiente {
                        r == Err::<(AccountId, u128), ErrorProductoRecibido>(
                            ErrorProductoRecibido::PedidoNoDespachado,
                        )
                    } else if pedido.estado is Recibido {
                        r == Err::<(AccountId, u128), ErrorProductoRecibido>(
                            ErrorProductoRecibido::PedidoYaRecibido,
                        )
                    } else if pedido.estado is Cancelado {
                        r == Err::<(AccountId, u128), ErrorProductoRecibido>(
                            ErrorProductoRecibido::PedidoCancelado,
                        )
                    } else if pedido.fondos_fueron_transferidos {
                        r == Err::<(AccountId, u128), ErrorProductoRecibido>(
                            ErrorProductoRecibido::FondosYaTransferidos,
                        )
                    } else {
                        &&& r == Ok::<(AccountId, u128), ErrorProductoRecibido>(
                            (pedido.vendedor, pedido.valor_total),
                        )
                        &&& *final(self) == (crate::RustaceoLibre {
                            pedidos: final(self).pedidos,
                            ..*old(self)
                        })
                        &&& final(self).pedidos@ == peds.insert(
                            pedido.id,
                            (Pedido {
                                estado: EstadoPedido::Recibido(timestamp),
                                fondos_fueron_transferidos: true,
                                ..pedido
                            }),
                        )
                    }
                }
            }),
    {
        // verificar usuario
        let Some(usuario) = self.usuarios.get(&caller) else {
            return Err(ErrorProductoRecibido::UsuarioNoRegistrado);
        };
        // verificar que el usuario tenga compras
        let Some(compras) = usuario.obtener_compras() else {
            return Err(ErrorProductoRecibido::PedidoInexistente);
        };
        // verificar que el pedido exista en sus compras
        if !contiene_id(&compras, id_compra) {
            return Err(ErrorProductoRecibido::PedidoInexistente);
        }
        // verificar que exista información del pedido
        let Some(pedido_ref) = self.pedidos.get(&id_compra) else {
            return Err(ErrorProductoRecibido::PedidoInexistente);
        };
        let pedido = *pedido_ref;
        // verificar que el usuario sea el comprador
        if pedido.comprador != caller {
            return Err(ErrorProductoRecibido::SoloCompradorPuede);
        }
        // verificar que el pedido haya sido despachado
        match pedido.estado {
            EstadoPedido::Pendiente(_) => {
                return Err(ErrorProductoRecibido::PedidoNoDespachado)
            },
            EstadoPedido::Despachado(_) => (),
            EstadoPedido::Recibido(_) => { return Err(ErrorProductoRecibido::PedidoYaRecibido) },
            EstadoPedido::Cancelado(_) => { return Err(ErrorProductoRecibido::PedidoCancelado) },
        }
        // último chequeo: los fondos se liquidan exactamente una vez; si ya
        // se movieron (por ejemplo, por el veredicto de una disputa), no
        // puede señalarse un segundo pago
        if pedido.fondos_fueron_transferidos {
            return Err(ErrorProductoRecibido::FondosYaTransferidos);
        }

        let vendedor = pedido.vendedor;
        let valor_compra = pedido.valor_total;

        let mut compra = pedido;
        compra.estado = EstadoPedido::Recibido(timestamp);
        compra.fondos_fueron_transferidos = true;
        self.pedidos.insert(compra.id, compra);

        Ok((vendedor, valor_compra))
    }
}

impl crate::RustaceoLibre {
    /// Dada una ID de pedido recibido y una calificación (1..=5), registra
    /// la calificación: si quien llama es el comprador califica al
    /// vendedor, y si es el vendedor califica al comprador. Cada parte
    /// puede calificar una sola vez.
    ///
    /// Devolverá error si la calificación no es válida, el usuario no está
    /// registrado o no participa, el pedido no existe o no fue recibido,
    /// el usuario ya calificó, o la contraparte ya no está registrada.
    pub fn calificar_pedido(&mut self, caller: AccountId, id_compra: u128, calificacion: u8) -> (r:
        Result<(), ErrorCalificarPedido>)
        requires
            old(self).bien_formado(),
        ensures
            final(self).bien_formado(),
            r is Err ==> *final(self) == *old(self),
            pedidos_coherentes(old(self).pedidos@) ==> pedidos_avanzan(
                old(self).pedidos@,
                final(self).pedidos@,
            ),
            ({
                let usrs = old(self).usuarios@;
                let peds = old(self).pedidos@;
                if calificacion < 1 || calificacion > 5 {
                    r == Err::<(), ErrorCalificarPedido>(ErrorCalificarPedido::CalificacionInvalida)
                } else if !usrs.contains_key(caller) {
                    r == Err::<(), ErrorCalificarPedido>(ErrorCalificarPedido::UsuarioNoRegistrado)
                } else if !peds.contains_key(id_compra) {
                    r == Err::<(), ErrorCalificarPedido>(ErrorCalificarPedido::PedidoInexistente)
                } else {
                    let compra = peds[id_compra];
                    if !(compra.estado is Recibido) {
                        r == Err::<(), ErrorCalificarPedido>(ErrorCalificarPedido::PedidoNoRecibido)
                    } else if compra.comprador == caller {
                        if compra.calificacion_comprador is Some {
                            r == Err::<(), ErrorCalificarPedido>(
                                ErrorCalificarPedido::UsuarioYaCalifico,
                            )
                        } else if !usrs.contains_key(compra.vendedor) {
                            r == Err::<(), ErrorCalificarPedido>(
                                ErrorCalificarPedido::VendedorInexistente,
                            )
                        } else {
                            let uv = usrs[compra.vendedor]@;
                            let exito = uv.rol.data_vendedor() is Some
                                && uv.rol.data_vendedor().unwrap().total_calificaciones
                                + calificacion <= u64::MAX && uv.rol.data_vendedor().unwrap().cant_calificaciones
                                + 1 <= u32::MAX;
                            &&& r is Ok
                            &&& *final(self) == (crate::RustaceoLibre {
                                usuarios: final(self).usuarios,
                                pedidos: final(self).pedidos,
                                ..*old(self)
                            })
                            &&& final(self).usuarios@ == usrs.insert(
                                uv.id,
                                final(self).usuarios@[uv.id],
                            )
                            &&& final(self).usuarios@[uv.id]@ == (if exito {
                                crate::usuario::UsuarioV {
                                    id: uv.id,
                                    rol: uv.rol.con_calificacion_vendedor(calificacion),
                                }
                            } else {
                                uv
                            })
                            &&& final(self).pedidos@ == peds.insert(
                                compra.id,
                                (Pedido { calificacion_comprador: Some(calificacion), ..compra }),
                            )
                        }
                    } else if compra.vendedor == caller {
                        if compra.calificacion_vendedor is Some {
                            r == Err::<(), ErrorCalificarPedido>(
                                ErrorCalificarPedido::UsuarioYaCalifico,
                            )
                        } else if !usrs.contains_key(compra.comprador) {
                            r == Err::<(), ErrorCalificarPedido>(
                                ErrorCalificarPedido::CompradorInexistente,
                            )
                        } else {
                            let uc = usrs[compra.comprador]@;
                            let exito = uc.rol.data_comprador() is Some
                                && uc.rol.data_comprador().unwrap().total_calificaciones
                                + calificacion <= u64::MAX && uc.rol.data_comprador().unwrap().cant_calificaciones
                                + 1 <= u32::MAX;
                            &&& r is Ok
                            &&& *final(self) == (crate::RustaceoLibre {
                                usuarios: final(self).usuarios,
                                pedidos: final(self).pedidos,
                                ..*old(self)
                            })
                            &&& final(self).usuarios@ == usrs.insert(
                                uc.id,
                                final(self).usuarios@[uc.id],
                            )
                            &&& final(self).usuarios@[uc.id]@ == (if exito {
                                crate::usuario::UsuarioV {
                                    id: uc.id,
                                    rol: uc.rol.con_calificacion_comprador(calificacion),
                                }
                            } else {
                                uc
                            })
                            &&& final(self).pedidos@ == peds.insert(
                                compra.id,
                                (Pedido { calificacion_vendedor: Some(calificacion), ..compra }),
                            )
                        }
                    } else {
                        r == Err::<(), ErrorCalificarPedido>(ErrorCalificarPedido::UsuarioNoParticipa)
                    }
                }
            }),
    {
        // verificar que la calificación esté en el rango permitido
        if calificacion < 1 || calificacion > 5 {
            return Err(ErrorCalificarPedido::CalificacionInvalida);
        }
        // verificar usuario registrado
        if !self.usuarios.contains_key(&caller) {
            return Err(ErrorCalificarPedido::UsuarioNoRegistrado);
        }
        // verificar compra existente
        let Some(compra_ref) = self.pedidos.get(&id_compra) else {
            return Err(ErrorCalificarPedido::PedidoInexistente);
        };
        let compra = *compra_ref;
        // verificar que haya sido recibida
        if !matches!(compra.estado, EstadoPedido::Recibido(_)) {
            return Err(ErrorCalificarPedido::PedidoNoRecibido);
        }

        // procesar calificación del comprador
        if compra.comprador == caller {
            if compra.calificacion_comprador.is_some() {
                return Err(ErrorCalificarPedido::UsuarioYaCalifico);
            }
            let Some(vendedor_ref) = self.usuarios.get(&compra.vendedor) else {
                return Err(ErrorCalificarPedido::VendedorInexistente);
            };
            let mut vendedor = crate::usuario::clonar_usuario(vendedor_ref);
            vendedor.calificar_como_vendedor(calificacion);
            let ghost id_vendedor = vendedor.id;
            self.usuarios.insert(vendedor.id, vendedor);
            let ghost medio = *self;
            proof {
                old(self).lema_bien_formado_insertar(&medio, id_vendedor);
            }

            let mut compra = compra;
            compra.calificacion_comprador = Some(calificacion);
            self.pedidos.insert(compra.id, compra);
            return Ok(());
        }

        // procesar calificación del vendedor
        if compra.vendedor == caller {
            if compra.calificacion_vendedor.is_some() {
                return Err(ErrorCalificarPedido::UsuarioYaCalifico);
            }
            let Some(comprador_ref) = self.usuarios.get(&compra.comprador) else {
                return Err(ErrorCalificarPedido::CompradorInexistente);
            };
            let mut comprador = crate::usuario::clonar_usuario(comprador_ref);
            comprador.calificar_como_comprador(calificacion);
            let ghost id_comprador = comprador.id;
            self.usuarios.insert(comprador.id, comprador);
            let ghost medio = *self;
            proof {
                old(self).lema_bien_formado_insertar(&medio, id_comprador);
            }

            let mut compra = compra;
            compra.calificacion_vendedor = Some(calificacion);
            self.pedidos.insert(compra.id, compra);
            return Ok(());
        }

        // caller no es ni el comprador ni el vendedor
        Err(ErrorCalificarPedido::UsuarioNoParticipa)
    }

    /// Cancela el pedido si ambos participantes lo piden: la primera
    /// solicitud queda anotada y la segunda, si viene de la otra parte,
    /// concreta la cancelación, devuelve el stock a la publicación si
    /// todavía existe (si no, se pierde) y señala la devolución del valor
    /// completo al comprador.
    ///
    /// Devuelve error si el usuario o el pedido no existen, si el usuario
    /// no participa, si el pedido ya fue recibido o cancelado, o si quien
    /// solicita ya lo había solicitado antes.
    pub fn cancelar_pedido(&mut self, timestamp: u64, caller: AccountId, id_pedido: u128) -> (r:
        Result<Option<(AccountId, u128)>, ErrorCancelarPedido>)
        requires
            old(self).bien_formado(),
        ensures
            final(self).bien_formado(),
            r is Err ==> *final(self) == *old(self),
            pedidos_coherentes(old(self).pedidos@) ==> pedidos_avanzan(
                old(self).pedidos@,
                final(self).pedidos@,
            ),
            old(self).pedidos@.contains_key(id_pedido) && old(self).pedidos@[id_pedido].estado.es_terminal() ==> r is Err,
            old(self).usuarios@.contains_key(caller) && old(self).pedidos@.contains_key(id_pedido)
                ==> r == decision_cancelar_pedido(old(self).pedidos@[id_pedido], caller),
            old(self).usuarios@.contains_key(caller) && old(self).pedidos@.contains_key(id_pedido)
                && decision_cancelar_pedido(old(self).pedidos@[id_pedido], caller) is Ok ==> final(self).pedidos@[old(self).pedidos@[id_pedido].id] == pedido_tras_cancelar(
                old(self).pedidos@[id_pedido],
                timestamp,
                caller,
            ),
            ({
                let usrs = old(self).usuarios@;
                let peds = old(self).pedidos@;
                let pubs = old(self).publicaciones@;
                if !usrs.contains_key(caller) {
                    r == Err::<Option<(AccountId, u128)>, ErrorCancelarPedido>(
                        ErrorCancelarPedido::UsuarioNoRegistrado,
                    )
                } else if !peds.contains_key(id_pedido) {
                    r == Err::<Option<(AccountId, u128)>, ErrorCancelarPedido>(
                        ErrorCancelarPedido::PedidoInexistente,
                    )
                } else {
                    let pedido = peds[id_pedido];
                    if !pedido.participa(caller) {
                        r == Err::<Option<(AccountId, u128)>, ErrorCancelarPedido>(
                            ErrorCancelarPedido::UsuarioNoParticipa,
                        )
                    } else if pedido.estado is Recibido {
                        r == Err::<Option<(AccountId, u128)>, ErrorCancelarPedido>(
                            ErrorCancelarPedido::PedidoYaRecibido,
                        )
                    } else if pedido.estado is Cancelado {
                        r == Err::<Option<(AccountId, u128)>, ErrorCancelarPedido>(
                            ErrorCancelarPedido::PedidoYaCancelado,
                        )
                    } else if pedido.primer_solicitud_cancelacion is None {
                        &&& r == Ok::<Option<(AccountId, u128)>, ErrorCancelarPedido>(None)
                        &&& *final(self) == (crate::RustaceoLibre {
                            pedidos: final(self).pedidos,
                            ..*old(self)
                        })
                        &&& final(self).pedidos@ == peds.insert(
                            pedido.id,
                            (Pedido { primer_solicitud_cancelacion: Some(caller), ..pedido }),
                        )
                    } else if pedido.primer_solicitud_cancelacion == Some(caller) {
                        r == Err::<Option<(AccountId, u128)>, ErrorCancelarPedido>(
                            ErrorCancelarPedido::EsperandoConfirmacionMutua,
                        )
                    } else {
                        let devuelve_stock = pubs.contains_key(pedido.publicacion)
                            && pubs[pedido.publicacion].cantidad_ofertada + pedido.cantidad_comprada
                            <= u32::MAX;
                        &&& r == Ok::<Option<(AccountId, u128)>, ErrorCancelarPedido>(
                            Some((pedido.comprador, pedido.valor_total)),
                        )
                        &&& *final(self) == (crate::RustaceoLibre {
                            pedidos: final(self).pedidos,
                            publicaciones: final(self).publicaciones,
                            ..*old(self)
                        })
                        &&& final(self).publicaciones@ == (if devuelve_stock {
                            pubs.insert(
                                pedido.publicacion,
                                (Publicacion {
                                    cantidad_ofertada: (pubs[pedido.publicacion].cantidad_ofertada
                                        + pedido.cantidad_comprada) as u32,
                                    ..pubs[pedido.publicacion]
                                }),
                            )
                        } else {
                            pubs
                        })
                        &&& final(self).pedidos@ == peds.insert(
                            pedido.id,
                            (Pedido {
                                estado: EstadoPedido::Cancelado(timestamp),
                                fondos_fueron_transferidos: true,
                                ..pedido
                            }),
                        )
                    }
                }
            }),
    {
        // validar usuario
        if !self.usuarios.contains_key(&caller) {
            return Err(ErrorCancelarPedido::UsuarioNoRegistrado);
        }
        // validar pedido
        let Some(pedido_ref) = self.pedidos.get(&id_pedido) else {
            return Err(ErrorCancelarPedido::PedidoInexistente);
        };
        let pedido = *pedido_ref;
        // validar que el usuario participe
        if pedido.comprador != caller && pedido.vendedor != caller {
            return Err(ErrorCancelarPedido::UsuarioNoParticipa);
        }
        // validar estado
        match pedido.estado {
            EstadoPedido::Pendiente(_) | EstadoPedido::Despachado(_) => (),
            EstadoPedido::Recibido(_) => { return Err(ErrorCancelarPedido::PedidoYaRecibido) },
            EstadoPedido::Cancelado(_) => { return Err(ErrorCancelarPedido::PedidoYaCancelado) },
        }

        // validar si ya existe una solicitud de cancelación
        let mut pedido = pedido;
        let Some(primer_solicitud_cancelacion) = pedido.primer_solicitud_cancelacion else {
            pedido.primer_solicitud_cancelacion = Some(caller);
            self.pedidos.insert(pedido.id, pedido);
            return Ok(None);
        };

        // asegurar que exista mutualidad
        if primer_solicitud_cancelacion == caller {
            return Err(ErrorCancelarPedido::EsperandoConfirmacionMutua);
        }

        let id_comprador = pedido.comprador;
        let valor_pedido = pedido.valor_total;

        // modificar publicación: devolver stock; si la publicación ya no
        // existe, el stock se pierde
        if let Some(publicacion_ref) = self.publicaciones.get(&pedido.publicacion) {
            let mut publicacion = *publicacion_ref;
            if let Some(nueva_cantidad_ofertada) = publicacion.cantidad_ofertada.checked_add(
                pedido.cantidad_comprada,
            ) {
                publicacion.cantidad_ofertada = nueva_cantidad_ofertada;
                self.publicaciones.insert(pedido.publicacion, publicacion);
            }
        }

        // modificar el pedido
        pedido.estado = EstadoPedido::Cancelado(timestamp);
        pedido.fondos_fueron_transferidos = true;
        self.pedidos.insert(pedido.id, pedido);

        // la devolución de fondos al comprador la señala el resultado
        Ok(Some((id_comprador, valor_pedido)))
    }
}

/// Busca una ID en un vector de IDs.
fn contiene_id(v: &Vec<u128>, id: u128) -> (r: bool)
    ensures
        r == v@.contains(id),
{
    let mut i: usize = 0;
    while i < v.len()
        invariant
            0 <= i <= v@.len(),
            forall|j: int| 0 <= j < i ==> v@[j] != id,
        decreases v@.len() - i,
    {
        if v[i] == id {
            return true;
        }
        i = i + 1;
    }
    false
}

/// Los pedidos que el mapa conoce de una lista de IDs, en el orden de la
/// lista y salteando los que ya no existen.
pub open spec fn pedidos_de(ids: Seq<u128>, m: Map<u128, Pedido>) -> Seq<Pedido>
    decreases ids.len(),
{
    if ids.len() == 0 {
        Seq::empty()
    } else {
        let resto = pedidos_de(ids.drop_last(), m);
        if m.contains_key(ids.last()) {
            resto.push(m[ids.last()])
        } else {
            resto
        }
    }
}

/// Los pedidos de la lista que están exactamente en el estado pedido,
/// marca de tiempo incluida.
pub open spec fn con_estado(s: Seq<Pedido>, estado: EstadoPedido) -> Seq<Pedido>
    decreases s.len(),
{
    if s.len() == 0 {
        Seq::empty()
    } else {
        let resto = con_estado(s.drop_last(), estado);
        if s.last().estado == estado {
            resto.push(s.last())
        } else {
            resto
        }
    }
}

/// El pedido refiere, a través de su publicación, a un producto de la
/// categoría dada.
pub open spec fn es_de_categoria(
    p: Pedido,
    pubs: Map<u128, Publicacion>,
    prods: Map<u128, crate::producto::Producto>,
    categoria: crate::producto::CategoriaProducto,
) -> bool {
    &&& pubs.contains_key(p.publicacion)
    &&& prods.contains_key(pubs[p.publicacion].producto)
    &&& prods[pubs[p.publicacion].producto]@.categoria == categoria
}

/// Los pedidos de la lista cuyo producto es de la categoría dada.
pub open spec fn de_categoria(
    s: Seq<Pedido>,
    pubs: Map<u128, Publicacion>,
    prods: Map<u128, crate::producto::Producto>,
    categoria: crate::producto::CategoriaProducto,
) -> Seq<Pedido>
    decreases s.len(),
{
    if s.len() == 0 {
        Seq::empty()
    } else {
        let resto = de_categoria(s.drop_last(), pubs, prods, categoria);
        if es_de_categoria(s.last(), pubs, prods, categoria) {
            resto.push(s.last())
        } else {
            resto
        }
    }
}

impl crate::RustaceoLibre {
    /// Devuelve las compras del usuario indicado.
    ///
    /// Dará error si el usuario no está registrado como comprador o no
    /// tiene compras vivas.
    pub fn ver_compras(&self, caller: AccountId) -> (r: Result<Vec<Pedido>, ErrorVerCompras>)
        ensures
            !self.usuarios@.contains_key(caller) ==> r == Err::<Vec<Pedido>, ErrorVerCompras>(
                ErrorVerCompras::UsuarioNoRegistrado,
            ),
            self.usuarios@.contains_key(caller) && !self.usuarios@[caller]@.rol.es_comprador()
                ==> r == Err::<Vec<Pedido>, ErrorVerCompras>(ErrorVerCompras::NoEsComprador),
            self.usuarios@.contains_key(caller) && self.usuarios@[caller]@.rol.es_comprador() ==> {
                let halladas = pedidos_de(
                    self.usuarios@[caller]@.rol.data_comprador().unwrap().compras,
                    self.pedidos@,
                );
                if halladas.len() == 0 {
                    r == Err::<Vec<Pedido>, ErrorVerCompras>(ErrorVerCompras::NoTieneCompras)
                } else {
                    r is Ok && r.unwrap()@ == halladas
                }
            },
    {
        let Some(usuario) = self.usuarios.get(&caller) else {
            return Err(ErrorVerCompras::UsuarioNoRegistrado);
        };
        if !usuario.es_comprador() {
            return Err(ErrorVerCompras::NoEsComprador);
        }
        let Some(compras) = usuario.obtener_compras() else {
            return Err(ErrorVerCompras::NoTieneCompras);
        };

        let mut halladas: Vec<Pedido> = Vec::new();
        let ghost ids = compras@;
        let mut i: usize = 0;
        while i < compras.len()
            invariant
                0 <= i <= ids.len(),
                compras@ == ids,
                halladas@ == pedidos_de(ids.subrange(0, i as int), self.pedidos@),
            decreases ids.len() - i,
        {
            proof {
                assert(ids.subrange(0, i + 1).drop_last() =~= ids.subrange(0, i as int));
                assert(ids.subrange(0, i + 1).last() == ids[i as int]);
            }
            if let Some(p) = self.pedidos.get(&compras[i]) {
                halladas.push(*p);
            }
            i = i + 1;
        }
        proof {
            assert(ids.subrange(0, ids.len() as int) =~= ids);
        }

        if halladas.is_empty() {
            return Err(ErrorVerCompras::NoTieneCompras);
        }
        Ok(halladas)
    }

    /// Devuelve las compras del usuario indicado que estén en el estado
    /// especificado, marca de tiempo incluida.
    ///
    /// Dará error si el usuario no está registrado como comprador o no
    /// tiene compras vivas.
    pub fn ver_compras_estado(&self, caller: AccountId, estado: EstadoPedido) -> (r: Result<
        Vec<Pedido>,
        ErrorVerCompras,
    >)
        ensures
            r is Err ==> self.ver_compras_falla(caller) && r == Err::<Vec<Pedido>, ErrorVerCompras>(
                self.error_ver_compras(caller),
            ),
            r is Ok ==> !self.ver_compras_falla(caller) && r.unwrap()@ == con_estado(
                pedidos_de(
                    self.usuarios@[caller]@.rol.data_comprador().unwrap().compras,
                    self.pedidos@,
                ),
                estado,
            ),
    {
        let compras = match self.ver_compras(caller) {
            Ok(compras) => compras,
            Err(e) => { return Err(e) },
        };
        let mut filtradas: Vec<Pedido> = Vec::new();
        let ghost todas = compras@;
        let mut i: usize = 0;
        while i < compras.len()
            invariant
                0 <= i <= todas.len(),
                compras@ == todas,
                filtradas@ == con_estado(todas.subrange(0, i as int), estado),
            decreases todas.len() - i,
        {
            proof {
                assert(todas.subrange(0, i + 1).drop_last() =~= todas.subrange(0, i as int));
                assert(todas.subrange(0, i + 1).last() == todas[i as int]);
            }
            if compras[i].estado == estado {
                filtradas.push(compras[i]);
            }
            i = i + 1;
        }
        proof {
            assert(todas.subrange(0, todas.len() as int) =~= todas);
        }
        Ok(filtradas)
    }

    /// Devuelve las compras del usuario indicado cuyo producto pertenece
    /// a la categoría especificada.
    ///
    /// Dará error si el usuario no está registrado como comprador o no
    /// tiene compras vivas.
    pub fn ver_compras_categoria(
        &self,
        caller: AccountId,
        categoria: crate::producto::CategoriaProducto,
    ) -> (r: Result<Vec<Pedido>, ErrorVerCompras>)
        ensures
            r is Err ==> self.ver_compras_falla(caller) && r == Err::<Vec<Pedido>, ErrorVerCompras>(
                self.error_ver_compras(caller),
            ),
            r is Ok ==> !self.ver_compras_falla(caller) && r.unwrap()@ == de_categoria(
                pedidos_de(
                    self.usuarios@[caller]@.rol.data_comprador().unwrap().compras,
                    self.pedidos@,
                ),
                self.publicaciones@,
                self.productos@,
                categoria,
            ),
    {
        let compras = match self.ver_compras(caller) {
            Ok(compras) => compras,
            Err(e) => { return Err(e) },
        };
        let mut filtradas: Vec<Pedido> = Vec::new();
        let ghost todas = compras@;
        let mut i: usize = 0;
        while i < compras.len()
            invariant
                0 <= i <= todas.len(),
                compras@ == todas,
                filtradas@ == de_categoria(
                    todas.subrange(0, i as int),
                    self.publicaciones@,
                    self.productos@,
                    categoria,
                ),
            decreases todas.len() - i,
        {
            proof {
                assert(todas.subrange(0, i + 1).drop_last() =~= todas.subrange(0, i as int));
                assert(todas.subrange(0, i + 1).last() == todas[i as int]);
            }
            if let Some(publicacion) = self.publicaciones.get(&compras[i].publicacion) {
                if let Some(producto) = self.productos.get(&publicacion.producto) {
                    if producto.categoria == categoria {
                        filtradas.push(compras[i]);
                    }
                }
            }
            i = i + 1;
        }
        proof {
            assert(todas.subrange(0, todas.len() as int) =~= todas);
        }
        Ok(filtradas)
    }

    /// Cuándo falla un listado de compras del usuario.
    pub open spec fn ver_compras_falla(&self, caller: AccountId) -> bool {
        ||| !self.usuarios@.contains_key(caller)
        ||| !self.usuarios@[caller]@.rol.es_comprador()
        ||| pedidos_de(
            self.usuarios@[caller]@.rol.data_comprador().unwrap().compras,
            self.pedidos@,
        ).len() == 0
    }

    /// Con qué error falla un listado de compras del usuario.
    pub open spec fn error_ver_compras(&self, caller: AccountId) -> ErrorVerCompras {
        if !self.usuarios@.contains_key(caller) {
            ErrorVerCompras::UsuarioNoRegistrado
        } else if !self.usuarios@[caller]@.rol.es_comprador() {
            ErrorVerCompras::NoEsComprador
        } else {
            ErrorVerCompras::NoTieneCompras
        }
    }

    /// Devuelve las ventas del usuario indicado.
    ///
    /// Dará error si el usuario no está registrado como vendedor o no
    /// tiene ventas vivas.
    pub fn ver_ventas(&self, caller: AccountId) -> (r: Result<Vec<Pedido>, ErrorVerVentas>)
        ensures
            !self.usuarios@.contains_key(caller) ==> r == Err::<Vec<Pedido>, ErrorVerVentas>(
                ErrorVerVentas::UsuarioNoRegistrado,
            ),
            self.usuarios@.contains_key(caller) && !self.usuarios@[caller]@.rol.es_vendedor() ==> r
                == Err::<Vec<Pedido>, ErrorVerVentas>(ErrorVerVentas::NoEsVendedor),
            self.usuarios@.contains_key(caller) && self.usuarios@[caller]@.rol.es_vendedor() ==> {
                let halladas = pedidos_de(
                    self.usuarios@[caller]@.rol.data_vendedor().unwrap().ventas,
                    self.pedidos@,
                );
                if halladas.len() == 0 {
                    r == Err::<Vec<Pedido>, ErrorVerVentas>(ErrorVerVentas::NoTieneVentas)
                } else {
                    r is Ok && r.unwrap()@ == halladas
                }
            },
    {
        let Some(usuario) = self.usuarios.get(&caller) else {
            return Err(ErrorVerVentas::UsuarioNoRegistrado);
        };
        if !usuario.es_vendedor() {
            return Err(ErrorVerVentas::NoEsVendedor);
        }
        let Some(ventas) = usuario.obtener_ventas() else {
            return Err(ErrorVerVentas::NoTieneVentas);
        };

        let mut halladas: Vec<Pedido> = Vec::new();
        let ghost ids = ventas@;
        let mut i: usize = 0;
        while i < ventas.len()
            invariant
                0 <= i <= ids.len(),
                ventas@ == ids,
                halladas@ == pedidos_de(ids.subrange(0, i as int), self.pedidos@),
            decreases ids.len() - i,
        {
            proof {
                assert(ids.subrange(0, i + 1).drop_last() =~= ids.subrange(0, i as int));
                assert(ids.subrange(0, i + 1).last() == ids[i as int]);
            }
            if let Some(p) = self.pedidos.get(&ventas[i]) {
                halladas.push(*p);
            }
            i = i + 1;
        }
        proof {
            assert(ids.subrange(0, ids.len() as int) =~= ids);
        }

        if halladas.is_empty() {
            return Err(ErrorVerVentas::NoTieneVentas);
        }
        Ok(halladas)
    }

    /// Devuelve las ventas del usuario indicado que estén en el estado
    /// especificado, marca de tiempo incluida.
    ///
    /// Dará error si el usuario no está registrado como vendedor o no
    /// tiene ventas vivas.
    pub fn ver_ventas_estado(&self, caller: AccountId, estado: EstadoPedido) -> (r: Result<
        Vec<Pedido>,
        ErrorVerVentas,
    >)
        ensures
            r is Err ==> self.ver_ventas_falla(caller) && r == Err::<Vec<Pedido>, ErrorVerVentas>(
                self.error_ver_ventas(caller),
            ),
            r is Ok ==> !self.ver_ventas_falla(caller) && r.unwrap()@ == con_estado(
                pedidos_de(
                    self.usuarios@[caller]@.rol.data_vendedor().unwrap().ventas,
                    self.pedidos@,
                ),
                estado,
            ),
    {
        let ventas = match self.ver_ventas(caller) {
            Ok(ventas) => ventas,
            Err(e) => { return Err(e) },
        };
        let mut filtradas: Vec<Pedido> = Vec::new();
        let ghost todas = ventas@;
        let mut i: usize = 0;
        while i < ventas.len()
            invariant
                0 <= i <= todas.len(),
                ventas@ == todas,
                filtradas@ == con_estado(todas.subrange(0, i as int), estado),
            decreases todas.len() - i,
        {
            proof {
                assert(todas.subrange(0, i + 1).drop_last() =~= todas.subrange(0, i as int));
                assert(todas.subrange(0, i + 1).last() == todas[i as int]);
            }
            if ventas[i].estado == estado {
                filtradas.push(ventas[i]);
            }
            i = i + 1;
        }
        proof {
            assert(todas.subrange(0, todas.len() as int) =~= todas);
        }
        Ok(filtradas)
    }

    /// Devuelve las ventas del usuario indicado cuyo producto pertenece
    /// a la categoría especificada.
    ///
    /// Dará error si el usuario no está registrado como vendedor o no
    /// tiene ventas vivas.
    pub fn ver_ventas_categoria(
        &self,
        caller: AccountId,
        categoria: crate::producto::CategoriaProducto,
    ) -> (r: Result<Vec<Pedido>, ErrorVerVentas>)
        ensures
            r is Err ==> self.ver_ventas_falla(caller) && r == Err::<Vec<Pedido>, ErrorVerVentas>(
                self.error_ver_ventas(caller),
            ),
            r is Ok ==> !self.ver_ventas_falla(caller) && r.unwrap()@ == de_categoria(
                pedidos_de(
                    self.usuarios@[caller]@.rol.data_vendedor().unwrap().ventas,
                    self.pedidos@,
                ),
                self.publicaciones@,
                self.productos@,
                categoria,
            ),
    {
        let ventas = match self.ver_ventas(caller) {
            Ok(ventas) => ventas,
            Err(e) => { return Err(e) },
        };
        let mut filtradas: Vec<Pedido> = Vec::new();
        let ghost todas = ventas@;
        let mut i: usize = 0;
        while i < ventas.len()
            invariant
                0 <= i <= todas.len(),
                ventas@ == todas,
                filtradas@ == de_categoria(
                    todas.subrange(0, i as int),
                    self.publicaciones@,
                    self.productos@,
                    categoria,
                ),
            decreases todas.len() - i,
        {
            proof {
                assert(todas.subrange(0, i + 1).drop_last() =~= todas.subrange(0, i as int));
                assert(todas.subrange(0, i + 1).last() == todas[i as int]);
            }
            if let Some(publicacion) = self.publicaciones.get(&ventas[i].publicacion) {
                if let Some(producto) = self.productos.get(&publicacion.producto) {
                    if producto.categoria == categoria {
                        filtradas.push(ventas[i]);
                    }
                }
            }
            i = i + 1;
        }
        proof {
            assert(todas.subrange(0, todas.len() as int) =~= todas);
        }
        Ok(filtradas)
    }

    /// Cuándo falla un listado de ventas del usuario.
    pub open spec fn ver_ventas_falla(&self, caller: AccountId) -> bool {
        ||| !self.usuarios@.contains_key(caller)
        ||| !self.usuarios@[caller]@.rol.es_vendedor()
        ||| pedidos_de(
            self.usuarios@[caller]@.rol.data_vendedor().unwrap().ventas,
            self.pedidos@,
        ).len() == 0
    }

    /// Con qué error falla un listado de ventas del usuario.
    pub open spec fn error_ver_ventas(&self, caller: AccountId) -> ErrorVerVentas {
        if !self.usuarios@.contains_key(caller) {
            ErrorVerVentas::UsuarioNoRegistrado
        } else if !self.usuarios@[caller]@.rol.es_vendedor() {
            ErrorVerVentas::NoEsVendedor
        } else {
            ErrorVerVentas::NoTieneVentas
        }
    }
}

} // verus!
