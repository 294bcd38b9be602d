use vstd::prelude::*;

use crate::AccountId;

verus! {

/// Sub-estado de una disputa que todavía espera resolución.
#[derive(Debug, Clone, Copy, PartialEq, Eq, Structural)]
pub enum DisputaEnCurso {
    PendienteContraargumentacion,
    PendienteDefinicion,
}

pub ghost enum DisputaResueltaV {
    FavorComprador { argumento_interventor: Seq<char> },
    FavorVendedor { argumento_interventor: Seq<char> },
}

/// El veredicto del interventor, con su justificación.
#[derive(Debug, Clone, PartialEq, Eq)]
pub enum DisputaResuelta {
    FavorComprador { argumento_interventor: String },
    FavorVendedor { argumento_interventor: String },
}

impl View for DisputaResuelta {
    type V = DisputaResueltaV;

    open spec fn view(&self) -> DisputaResueltaV {
        match self {
            DisputaResuelta::FavorComprador { argumento_interventor } => {
                DisputaResueltaV::FavorComprador { argumento_interventor: argumento_interventor@ }
            },
            DisputaResuelta::FavorVendedor { argumento_interventor } => {
                DisputaResueltaV::FavorVendedor { argumento_interventor: argumento_interventor@ }
            },
        }
    }
}

pub ghost enum EstadoDisputaV {
    EnCurso(DisputaEnCurso),
    Resuelta(DisputaResueltaV),
}

/// El estado de una disputa: en curso (esperando contraargumento o
/// definición) o resuelta con veredicto.
#[derive(Debug, Clone, PartialEq, Eq)]
pub enum EstadoDisputa {
    EnCurso(DisputaEnCurso),
    Resuelta(DisputaResuelta),
}

impl View for EstadoDisputa {
    type V = EstadoDisputaV;

    open spec fn view(&self) -> EstadoDisputaV {
        match self {
            EstadoDisputa::EnCurso(c) => EstadoDisputaV::EnCurso(*c),
            EstadoDisputa::Resuelta(r) => EstadoDisputaV::Resuelta(r@),
        }
    }
}

pub ghost struct DisputaV {
    pub id: u128,
    pub timestamp: u64,
    pub pedido: u128,
    pub estado: EstadoDisputaV,
    pub argumento_comprador: Seq<char>,
    pub argumento_vendedor: Option<Seq<char>>,
    pub interventor: Option<AccountId>,
}

/// Una disputa sobre un pedido, con los argumentos de ambas partes
/// y, una vez resuelta, el interventor que la definió.
#[derive(Debug, Clone, PartialEq, Eq)]
pub struct Disputa {
    pub id: u128,
    pub timestamp: u64,
    pub pedido: u128,
    pub estado: EstadoDisputa,
    pub argumento_comprador: String,
    pub argumento_vendedor: Option<String>,
    pub interventor: Option<AccountId>,
}

impl View for Disputa {
    type V = DisputaV;

    open spec fn view(&self) -> DisputaV {
        DisputaV {
            id: self.id,
            timestamp: self.timestamp,
            pedido: self.pedido,
            estado: self.estado@,
            argumento_comprador: self.argumento_comprador@,
            argumento_vendedor: match self.argumento_vendedor {
                Some(a) => Some(a@),
                None => None,
            },
            interventor: self.interventor,
        }
    }
}

impl Disputa {
    pub fn en_curso(&self) -> (r: bool)
        ensures
            r == (self@.estado is EnCurso),
    {
        let EstadoDisputa::EnCurso(_) = &self.estado else { return false };
        true
    }

    pub fn en_curso_pendiente_contraargumentacion(&self) -> (r: bool)
        ensures
            r == (self@.estado == EstadoDisputaV::EnCurso(
                DisputaEnCurso::PendienteContraargumentacion,
            )),
    {
        let EstadoDisputa::EnCurso(curso) = &self.estado else { return false };
        matches!(curso, DisputaEnCurso::PendienteContraargumentacion)
    }

    pub fn en_curso_pendiente_definicion(&self) -> (r: bool)
        ensures
            r == (self@.estado == EstadoDisputaV::EnCurso(DisputaEnCurso::PendienteDefinicion)),
    {
        let EstadoDisputa::EnCurso(curso) = &self.estado else { return false };
        matches!(curso, DisputaEnCurso::PendienteDefinicion)
    }

    pub fn resuelta(&self) -> (r: bool)
        ensures
            r == (self@.estado is Resuelta),
    {
        let EstadoDisputa::Resuelta(_) = &self.estado else { return false };
        true
    }

    pub fn resuelta_favor_comprador(&self) -> (r: bool)
        ensures
            r == (self@.estado is Resuelta && self@.estado->Resuelta_0 is FavorComprador),
    {
        let EstadoDisputa::Resuelta(favor) = &self.estado else { return false };
        matches!(favor, DisputaResuelta::FavorComprador { argumento_interventor: _ })
    }

    pub fn resuelta_favor_vendedor(&self) -> (r: bool)
        ensures
            r == (self@.estado is Resuelta && self@.estado->Resuelta_0 is FavorVendedor),
    {
        let EstadoDisputa::Resuelta(favor) = &self.estado else { return false };
        matches!(favor, DisputaResuelta::FavorVendedor { argumento_interventor: _ })
    }
}

//
// errores
//

#[derive(Debug, Clone, PartialEq, Eq)]
pub enum ErrorDisputarPedido {
    UsuarioNoRegistrado,
    PedidoInexistente,
    UsuarioNoParticipa,
    DisputaEnCurso,
    DisputaFinalizada,
    PlazoDeDisputaExpirado,
    DisputaPendienteResolucion,
    SoloCompradorPuedeDisputar,
    SoloVendedorPuedeContraargumentar,
}

#[derive(Debug, Clone, PartialEq, Eq)]
pub enum ErrorResolverDisputa {
    UsuarioNoStaff,
    PedidoInexistente,
    DisputaNoEnCurso,
    DisputaFinalizada,
}

use crate::usuario::RolV;

/// El rol tras anotar una disputa abierta del lado comprador, si el rol
/// tiene ese lado; si no, queda como estaba.
pub open spec fn abre_disputa_comprador(rol: RolV, id_disputa: u128) -> RolV {
    if rol.es_comprador() {
        rol.con_disputa_comprador(id_disputa)
    } else {
        rol
    }
}

/// El rol tras anotar una disputa abierta del lado vendedor, si el rol
/// tiene ese lado; si no, queda como estaba.
pub open spec fn abre_disputa_vendedor(rol: RolV, id_disputa: u128) -> RolV {
    if rol.es_vendedor() {
        rol.con_disputa_vendedor(id_disputa)
    } else {
        rol
    }
}

/// El rol tras quitar una disputa del índice del lado comprador, si el rol
/// tiene ese lado; si no, queda como estaba.
pub open spec fn cierra_disputa_comprador(rol: RolV, id_disputa: u128) -> RolV {
    if rol.es_comprador() {
        rol.sin_disputa_comprador(id_disputa)
    } else {
        rol
    }
}

/// El rol tras quitar una disputa del índice del lado vendedor, si el rol
/// tiene ese lado; si no, queda como estaba.
pub open spec fn cierra_disputa_vendedor(rol: RolV, id_disputa: u128) -> RolV {
    if rol.es_vendedor() {
        rol.sin_disputa_vendedor(id_disputa)
    } else {
        rol
    }
}

//
// impl Disputa -> RustaceoLibre
//

impl crate::RustaceoLibre {
    /// Un comprador, mientras los fondos de su pedido no se hayan
    /// liquidado, puede disputarlo aclarando su argumento. Sólo el
    /// comprador puede abrir la disputa, y el vendedor tiene la
    /// posibilidad de, con esta misma función, contraargumentar en su
    /// favor; cada pedido admite una sola disputa.
    ///
    /// Devolverá error si el usuario no existe, el pedido no existe, no
    /// participa, quien reabre es el comprador, el vendedor ya
    /// contraargumentó, la disputa ya concluyó o los fondos ya se movieron.
    pub fn disputar_pedido(
        &mut self,
        timestamp: u64,
        caller: AccountId,
        id_pedido: u128,
        argumento: String,
    ) -> (r: Result<(), ErrorDisputarPedido>)
        requires
            old(self).bien_formado(),
        ensures
            final(self).bien_formado(),
            r is Err ==> *final(self) == *old(self),
            crate::pedido::pedidos_coherentes(old(self).pedidos@) ==> crate::pedido::pedidos_avanzan(
                old(self).pedidos@,
                final(self).pedidos@,
            ),
            ({
                let usrs = old(self).usuarios@;
                let peds = old(self).pedidos@;
                let encurso = old(self).disputas_en_curso@;
                if !usrs.contains_key(caller) {
                    r == Err::<(), ErrorDisputarPedido>(ErrorDisputarPedido::UsuarioNoRegistrado)
                } else if !peds.contains_key(id_pedido) {
                    r == Err::<(), ErrorDisputarPedido>(ErrorDisputarPedido::PedidoInexistente)
                } else {
                    let pedido = peds[id_pedido];
                    if !pedido.participa(caller) {
                        r == Err::<(), ErrorDisputarPedido>(ErrorDisputarPedido::UsuarioNoParticipa)
                    } else if pedido.disputa is Some {
                        let id_disputa = pedido.disputa.unwrap();
                        if caller == pedido.comprador {
                            r == Err::<(), ErrorDisputarPedido>(
                                ErrorDisputarPedido::SoloVendedorPuedeContraargumentar,
                            )
                        } else if !encurso.contains_key(id_disputa) {
                            r == Err::<(), ErrorDisputarPedido>(
                                ErrorDisputarPedido::DisputaFinalizada,
                            )
                        } else if encurso[id_disputa]@.estado == EstadoDisputaV::EnCurso(
                            DisputaEnCurso::PendienteDefinicion,
                        ) {
                            r == Err::<(), ErrorDisputarPedido>(
                                ErrorDisputarPedido::DisputaPendienteResolucion,
                            )
                        } else {
                            &&& r is Ok
                            &&& *final(self) == (crate::RustaceoLibre {
                                disputas_en_curso: final(self).disputas_en_curso,
                                ..*old(self)
                            })
                            &&& final(self).disputas_en_curso@ == encurso.insert(
                                id_disputa,
                                final(self).disputas_en_curso@[id_disputa],
                            )
                            &&& final(self).disputas_en_curso@[id_disputa]@ == (DisputaV {
                                argumento_vendedor: Some(argumento@),
                                estado: EstadoDisputaV::EnCurso(
                                    DisputaEnCurso::PendienteDefinicion,
                                ),
                                ..encurso[id_disputa]@
                            })
                        }
                    } else {
                        if caller != pedido.comprador {
                            r == Err::<(), ErrorDisputarPedido>(
                                ErrorDisputarPedido::SoloCompradorPuedeDisputar,
                            )
                        } else if pedido.fondos_fueron_transferidos {
                            r == Err::<(), ErrorDisputarPedido>(
                                ErrorDisputarPedido::PlazoDeDisputaExpirado,
                            )
                        } else {
                            let id = if old(self).disputas_siguiente_id == u128::MAX {
                                0u128
                            } else {
                                old(self).disputas_siguiente_id
                            };
                            &&& r is Ok
                            &&& *final(self) == (crate::RustaceoLibre {
                                disputas_en_curso: final(self).disputas_en_curso,
                                usuarios: final(self).usuarios,
                                pedidos: final(self).pedidos,
                                disputas_siguiente_id: final(self).disputas_siguiente_id,
                                ..*old(self)
                            })
                            &&& final(self).disputas_siguiente_id == (if old(self).disputas_siguiente_id == u128::MAX {
                                1u128
                            } else {
                                (old(self).disputas_siguiente_id + 1) as u128
                            })
                            &&& final(self).disputas_en_curso@ == encurso.insert(
                                id,
                                final(self).disputas_en_curso@[id],
                            )
                            &&& final(self).disputas_en_curso@[id]@ == (DisputaV {
                                id,
                                timestamp,
                                pedido: id_pedido,
                                estado: EstadoDisputaV::EnCurso(
                                    DisputaEnCurso::PendienteContraargumentacion,
                                ),
                                argumento_comprador: argumento@,
                                argumento_vendedor: None,
                                interventor: None,
                            })
                            &&& final(self).pedidos@ == peds.insert(
                                pedido.id,
                                (crate::pedido::Pedido { disputa: Some(id), ..pedido }),
                            )
                            &&& final(self).usuarios@ == (if pedido.vendedor != caller
                                && usrs.contains_key(pedido.vendedor) {
                                usrs.insert(caller, final(self).usuarios@[caller]).insert(
                                    pedido.vendedor,
                                    final(self).usuarios@[pedido.vendedor],
                                )
                            } else {
                                usrs.insert(caller, final(self).usuarios@[caller])
                            })
                            &&& final(self).usuarios@[caller]@ == (crate::usuario::UsuarioV {
                                id: caller,
                                rol: ({
                                    let tras_comprador = abre_disputa_comprador(
                                        usrs[caller]@.rol,
                                        id,
                                    );
                                    if pedido.vendedor == caller {
                                        abre_disputa_vendedor(tras_comprador, id)
                                    } else {
                                        tras_comprador
                                    }
                                }),
                            })
                            &&& (pedido.vendedor != caller && usrs.contains_key(pedido.vendedor))
                                ==> final(self).usuarios@[pedido.vendedor]@ == (
                            crate::usuario::UsuarioV {
                                id: pedido.vendedor,
                                rol: abre_disputa_vendedor(usrs[pedido.vendedor]@.rol, id),
                            })
                        }
                    }
                }
            }),
    {
        // validar usuario
        if !self.usuarios.contains_key(&caller) {
            return Err(ErrorDisputarPedido::UsuarioNoRegistrado);
        }
        // validar pedido
        let Some(pedido_ref) = self.pedidos.get(&id_pedido) else {
            return Err(ErrorDisputarPedido::PedidoInexistente);
        };
        let pedido = *pedido_ref;
        // validar que el usuario participe del pedido
        if pedido.comprador != caller && pedido.vendedor != caller {
            return Err(ErrorDisputarPedido::UsuarioNoParticipa);
        }

        // validar disputa existente
        if let Some(id_disputa) = pedido.disputa {
            // la disputa existe: si caller es el comprador, está queriendo
            // volver a crear una disputa
            if caller == pedido.comprador {
                return Err(ErrorDisputarPedido::SoloVendedorPuedeContraargumentar);
            }
            // caller es el vendedor: ¿puede contraargumentar o ya lo hizo?
            let Some(disputa_ref) = self.disputas_en_curso.get(&id_disputa) else {
                return Err(ErrorDisputarPedido::DisputaFinalizada);
            };
            if disputa_ref.en_curso_pendiente_definicion() {
                return Err(ErrorDisputarPedido::DisputaPendienteResolucion);
            }

            // contraargumentar la disputa existente
            let mut disputa = clonar_disputa(disputa_ref);
            disputa.argumento_vendedor = Some(argumento);
            disputa.estado = EstadoDisputa::EnCurso(DisputaEnCurso::PendienteDefinicion);
            self.disputas_en_curso.insert(id_disputa, disputa);
            return Ok(());
        }

        // no existe disputa asociada al pedido:
        // validar que quien la inicia sea el comprador
        if caller != pedido.comprador {
            return Err(ErrorDisputarPedido::SoloCompradorPuedeDisputar);
        }
        // si los fondos ya fueron transferidos no hay disputa posible
        if pedido.fondos_fueron_transferidos {
            return Err(ErrorDisputarPedido::PlazoDeDisputaExpirado);
        }

        let mut pedido = pedido;

        // crear la nueva disputa
        let id_nueva_disputa = self.next_id_disputas();
        let nueva_disputa = Disputa {
            id: id_nueva_disputa,
            timestamp,
            pedido: id_pedido,
            estado: EstadoDisputa::EnCurso(DisputaEnCurso::PendienteContraargumentacion),
            argumento_comprador: argumento,
            argumento_vendedor: None,
            interventor: None,
        };
        self.disputas_en_curso.insert(id_nueva_disputa, nueva_disputa);

        // actualizar disputas en curso del comprador
        if let Some(comprador_ref) = self.usuarios.get(&pedido.comprador) {
            let mut comprador = crate::usuario::clonar_usuario(comprador_ref);
            comprador.agregar_disputa_comprador(id_nueva_disputa);
            let ghost id_comprador = comprador.id;
            self.usuarios.insert(comprador.id, comprador);
            let ghost medio = *self;
            proof {
                old(self).lema_bien_formado_insertar(&medio, id_comprador);
            }
        }
        let ghost tras_comprador = *self;

        // actualizar disputas en curso del vendedor
        if let Some(vendedor_ref) = self.usuarios.get(&pedido.vendedor) {
            let mut vendedor = crate::usuario::clonar_usuario(vendedor_ref);
            vendedor.agregar_disputa_vendedor(id_nueva_disputa);
            let ghost id_vendedor = vendedor.id;
            self.usuarios.insert(vendedor.id, vendedor);
            let ghost medio2 = *self;
            proof {
                tras_comprador.lema_bien_formado_insertar(&medio2, id_vendedor);
            }
        }

        // actualizar y guardar el pedido para reflejar la disputa
        pedido.disputa = Some(id_nueva_disputa);
        self.pedidos.insert(pedido.id, pedido);

        Ok(())
    }
}

impl crate::RustaceoLibre {
    /// Da una disputa por resuelta según el veredicto que brinda el
    /// miembro del staff: la mueve de la colección en curso a la de
    /// resueltas, la quita de los índices de ambas partes, marca los
    /// fondos del pedido como liquidados y devuelve a quién y cuánto
    /// debe pagarse.
    ///
    /// Devolverá error si el usuario no es staff ni dueño, la disputa no
    /// está en curso, o el pedido vinculado ya no existe; en este último
    /// caso la disputa rota se purga de la colección en curso.
    pub fn staff_resolver_disputa(
        &mut self,
        caller: AccountId,
        id_disputa: u128,
        resultado: DisputaResuelta,
    ) -> (r: Result<(AccountId, u128), ErrorResolverDisputa>)
        requires
            old(self).bien_formado(),
        ensures
            final(self).bien_formado(),
            crate::pedido::pedidos_avanzan(old(self).pedidos@, final(self).pedidos@),
            ({
                let usrs = old(self).usuarios@;
                let peds = old(self).pedidos@;
                let encurso = old(self).disputas_en_curso@;
                if !old(self).es_staff(caller) {
                    r == Err::<(AccountId, u128), ErrorResolverDisputa>(
                        ErrorResolverDisputa::UsuarioNoStaff,
                    ) && *final(self) == *old(self)
                } else if !encurso.contains_key(id_disputa) {
                    r == Err::<(AccountId, u128), ErrorResolverDisputa>(
                        ErrorResolverDisputa::DisputaNoEnCurso,
                    ) && *final(self) == *old(self)
                } else {
                    let disputa = encurso[id_disputa];
                    if !peds.contains_key(disputa.pedido) {
                        // el pedido no existe: la disputa rota se purga
                        &&& r == Err::<(AccountId, u128), ErrorResolverDisputa>(
                            ErrorResolverDisputa::PedidoInexistente,
                        )
                        &&& *final(self) == (crate::RustaceoLibre {
                            disputas_en_curso: final(self).disputas_en_curso,
                            ..*old(self)
                        })
                        &&& final(self).disputas_en_curso@ == encurso.remove(id_disputa)
                    } else {
                        let pedido = peds[disputa.pedido];
                        let ganador = if resultado@ is FavorComprador {
                            pedido.comprador
                        } else {
                            pedido.vendedor
                        };
                        &&& r == Ok::<(AccountId, u128), ErrorResolverDisputa>(
                            (ganador, pedido.valor_total),
                        )
                        &&& *final(self) == (crate::RustaceoLibre {
                            usuarios: final(self).usuarios,
                            pedidos: final(self).pedidos,
                            disputas_en_curso: final(self).disputas_en_curso,
                            disputas_resueltas: final(self).disputas_resueltas,
                            ..*old(self)
                        })
                        &&& final(self).disputas_en_curso@ == encurso.remove(id_disputa)
                        &&& final(self).disputas_resueltas@ == old(self).disputas_resueltas@.insert(
                            id_disputa,
                            final(self).disputas_resueltas@[id_disputa],
                        )
                        &&& final(self).disputas_resueltas@[id_disputa]@ == (DisputaV {
                            estado: EstadoDisputaV::Resuelta(resultado@),
                            interventor: Some(caller),
                            ..disputa@
                        })
                        &&& final(self).pedidos@ == peds.insert(
                            disputa.pedido,
                            (crate::pedido::Pedido {
                                fondos_fueron_transferidos: true,
                                ..pedido
                            }),
                        )
                        &&& final(self).usuarios@ == (if usrs.contains_key(pedido.comprador) {
                            if pedido.vendedor != pedido.comprador && usrs.contains_key(
                                pedido.vendedor,
                            ) {
                                usrs.insert(
                                    pedido.comprador,
                                    final(self).usuarios@[pedido.comprador],
                                ).insert(pedido.vendedor, final(self).usuarios@[pedido.vendedor])
                            } else {
                                usrs.insert(
                                    pedido.comprador,
                                    final(self).usuarios@[pedido.comprador],
                                )
                            }
                        } else if usrs.contains_key(pedido.vendedor) {
                            usrs.insert(pedido.vendedor, final(self).usuarios@[pedido.vendedor])
                        } else {
                            usrs
                        })
                        &&& usrs.contains_key(pedido.comprador) ==> final(self).usuarios@[pedido.comprador]@ == (crate::usuario::UsuarioV {
                            id: pedido.comprador,
                            rol: ({
                                let tras_comprador = cierra_disputa_comprador(
                                    usrs[pedido.comprador]@.rol,
                                    id_disputa,
                                );
                                if pedido.vendedor == pedido.comprador {
                                    cierra_disputa_vendedor(tras_comprador, id_disputa)
                                } else {
                                    tras_comprador
                                }
                            }),
                        })
                        &&& (pedido.vendedor != pedido.comprador && usrs.contains_key(
                            pedido.vendedor,
                        )) ==> final(self).usuarios@[pedido.vendedor]@ == (
                        crate::usuario::UsuarioV {
                            id: pedido.vendedor,
                            rol: cierra_disputa_vendedor(usrs[pedido.vendedor]@.rol, id_disputa),
                        })
                    }
                }
            }),
    {
        // validar que caller sea staff o el dueño
        if !self.staff_contiene(caller) && caller != self.owner {
            return Err(ErrorResolverDisputa::UsuarioNoStaff);
        }
        // validar que la disputa esté en curso; si lo está, sale de la
        // colección en curso
        if !self.disputas_en_curso.contains_key(&id_disputa) {
            return Err(ErrorResolverDisputa::DisputaNoEnCurso);
        }
        let Some(mut disputa) = self.disputas_en_curso.remove(&id_disputa) else {
            proof {
                assert(false);
            }
            return Err(ErrorResolverDisputa::DisputaNoEnCurso);
        };
        // validar que el pedido vinculado exista; si no, la disputa queda
        // purgada de la colección en curso
        let Some(pedido_ref) = self.pedidos.get(&disputa.pedido) else {
            return Err(ErrorResolverDisputa::PedidoInexistente);
        };
        let mut pedido = *pedido_ref;
        let id_pedido = disputa.pedido;

        let ghost tras_remove = *self;

        // quitar la disputa del índice del comprador
        if let Some(comprador_ref) = self.usuarios.get(&pedido.comprador) {
            let mut comprador = crate::usuario::clonar_usuario(comprador_ref);
            comprador.eliminar_disputa_comprador(id_disputa);
            let ghost id_comprador = comprador.id;
            self.usuarios.insert(comprador.id, comprador);
            let ghost medio = *self;
            proof {
                tras_remove.lema_bien_formado_insertar(&medio, id_comprador);
            }
        }
        let ghost tras_comprador = *self;

        // quitar la disputa del índice del vendedor
        if let Some(vendedor_ref) = self.usuarios.get(&pedido.vendedor) {
            let mut vendedor = crate::usuario::clonar_usuario(vendedor_ref);
            vendedor.eliminar_disputa_vendedor(id_disputa);
            let ghost id_vendedor = vendedor.id;
            self.usuarios.insert(vendedor.id, vendedor);
            let ghost medio2 = *self;
            proof {
                tras_comprador.lema_bien_formado_insertar(&medio2, id_vendedor);
            }
        }

        // decidir el ganador según el veredicto
        let favor_comprador = match &resultado {
            DisputaResuelta::FavorComprador { argumento_interventor: _ } => true,
            DisputaResuelta::FavorVendedor { argumento_interventor: _ } => false,
        };

        // actualizar la disputa y moverla a la colección de resueltas
        disputa.estado = EstadoDisputa::Resuelta(resultado);
        disputa.interventor = Some(caller);
        self.disputas_resueltas.insert(id_disputa, disputa);

        // marcar los fondos del pedido como liquidados
        pedido.fondos_fueron_transferidos = true;
        let id_comprador_pedido = pedido.comprador;
        let id_vendedor_pedido = pedido.vendedor;
        let valor_total = pedido.valor_total;
        self.pedidos.insert(id_pedido, pedido);

        let id_ganador: AccountId = if favor_comprador {
            id_comprador_pedido
        } else {
            id_vendedor_pedido
        };
        Ok((id_ganador, valor_total))
    }

}

impl crate::RustaceoLibre {
    /// Devolverá los datos de la disputa, buscándola primero entre las
    /// disputas en curso y luego entre las resueltas.
    ///
    /// Devolverá None si la disputa no existe o si el usuario no es parte
    /// del staff ni participa del pedido disputado.
    pub fn consultar_disputa(&self, caller: AccountId, disputa: u128) -> (r: Option<Disputa>)
        ensures
            ({
                let hallada = if self.disputas_en_curso@.contains_key(disputa) {
                    Some(self.disputas_en_curso@[disputa])
                } else if self.disputas_resueltas@.contains_key(disputa) {
                    Some(self.disputas_resueltas@[disputa])
                } else {
                    None
                };
                match hallada {
                    Option::None => r is None,
                    Option::Some(d) => {
                        let autorizado = self.es_staff(caller) || (self.pedidos@.contains_key(
                            d.pedido,
                        ) && self.pedidos@[d.pedido].participa(caller));
                        if autorizado {
                            r is Some && r.unwrap()@ == d@
                        } else {
                            r is None
                        }
                    },
                }
            }),
    {
        let hallada = if let Some(d) = self.disputas_en_curso.get(&disputa) {
            d
        } else if let Some(d) = self.disputas_resueltas.get(&disputa) {
            d
        } else {
            return None;
        };
        if self.staff_contiene(caller) || caller == self.owner {
            return Some(clonar_disputa(hallada));
        }
        let Some(pedido) = self.pedidos.get(&hallada.pedido) else { return None };
        if pedido.comprador == caller || pedido.vendedor == caller {
            return Some(clonar_disputa(hallada));
        }
        None
    }

    /// Devolverá la lista de IDs de las disputas sin veredicto.
    ///
    /// Devolverá None si el usuario no es parte del staff ni el dueño.
    pub fn staff_ver_disputas_en_curso(&self, caller: AccountId) -> (r: Option<Vec<u128>>)
        ensures
            !self.es_staff(caller) ==> r is None,
            self.es_staff(caller) ==> r is Some && r.unwrap()@.to_set()
                == self.disputas_en_curso@.dom() && r.unwrap()@.no_duplicates() && (forall|
                i: int,
                j: int,
            | 0 <= i < j < r.unwrap()@.len() ==> r.unwrap()@[i] < r.unwrap()@[j]),
    {
        if !self.staff_contiene(caller) && caller != self.owner {
            return None;
        }
        Some(crate::claves_de_disputas(&self.disputas_en_curso))
    }

    /// Devolverá la lista de IDs de las disputas con veredicto.
    ///
    /// Devolverá None si el usuario no es parte del staff ni el dueño.
    pub fn staff_ver_disputas_resueltas(&self, caller: AccountId) -> (r: Option<Vec<u128>>)
        ensures
            !self.es_staff(caller) ==> r is None,
            self.es_staff(caller) ==> r is Some && r.unwrap()@.to_set()
                == self.disputas_resueltas@.dom() && r.unwrap()@.no_duplicates() && (forall|
                i: int,
                j: int,
            | 0 <= i < j < r.unwrap()@.len() ==> r.unwrap()@[i] < r.unwrap()@[j]),
    {
        if !self.staff_contiene(caller) && caller != self.owner {
            return None;
        }
        Some(crate::claves_de_disputas(&self.disputas_resueltas))
    }
}

/// Copia una disputa, campo por campo.
fn clonar_disputa(d: &Disputa) -> (r: Disputa)
    ensures
        r@ == d@,
{
    Disputa {
        id: d.id,
        timestamp: d.timestamp,
        pedido: d.pedido,
        estado: clonar_estado_disputa(&d.estado),
        argumento_comprador: d.argumento_comprador.clone(),
        argumento_vendedor: match &d.argumento_vendedor {
            Some(a) => Some(a.clone()),
            None => None,
        },
        interventor: d.interventor,
    }
}

/// Copia el estado de una disputa.
fn clonar_estado_disputa(e: &EstadoDisputa) -> (r: EstadoDisputa)
    ensures
        r@ == e@,
{
    match e {
        EstadoDisputa::EnCurso(c) => EstadoDisputa::EnCurso(*c),
        EstadoDisputa::Resuelta(DisputaResuelta::FavorComprador { argumento_interventor }) => {
            EstadoDisputa::Resuelta(
                DisputaResuelta::FavorComprador { argumento_interventor: argumento_interventor.clone() },
            )
        },
        EstadoDisputa::Resuelta(DisputaResuelta::FavorVendedor { argumento_interventor }) => {
            EstadoDisputa::Resuelta(
                DisputaResuelta::FavorVendedor { argumento_interventor: argumento_interventor.clone() },
            )
        },
    }
}

} // verus!
