use vstd::prelude::*;

use crate::AccountId;

verus! {

//
// publicacion
//

/// Una oferta viva de un vendedor: cierta cantidad de un producto
/// a un precio unitario.
#[derive(Debug, Clone, Copy, PartialEq, Eq)]
pub struct Publicacion {
    pub vendedor: AccountId,
    pub producto: u128,
    pub cantidad_ofertada: u32,
    pub precio_unitario: u128,
}

impl Publicacion {
    pub fn new(vendedor: AccountId, producto: u128, cantidad_ofertada: u32, precio: u128) -> (r:
        Self)
        ensures
            r == (Publicacion { vendedor, producto, cantidad_ofertada, precio_unitario: precio }),
    {
        Publicacion { vendedor, producto, cantidad_ofertada, precio_unitario: precio }
    }
}

//
// errores
//

#[derive(Debug, Clone, PartialEq, Eq)]
pub enum ErrorRealizarPublicacion {
    UsuarioNoRegistrado,
    ProductoInexistente,
    NoEsVendedor,
    StockInsuficiente,
    PrecioCero,
}

#[derive(Debug, Clone, PartialEq, Eq)]
pub enum ErrorPausarReanudarPublicacion {
    UsuarioNoRegistrado,
    PublicacionInexistente,
    NoEsElVendedor,
}

#[derive(Debug, Clone, PartialEq, Eq)]
pub enum ErrorVerPublicacionesVendedor {
    UsuarioNoRegistrado,
    NoEsVendedor,
    NoTienePublicaciones,
}

#[derive(Debug, Clone, PartialEq, Eq)]
pub enum ErrorModificarCantidadOfertada {
    UsuarioInexistente,
    NoEsVendedor,
    PublicacionInexistente,
    NoEsElVendedor,
    SinCambios,
    Desconocido,
    StockVendedorInsuficiente,
}

/// Las publicaciones que el mapa conoce de una lista de IDs, en el orden
/// de la lista y salteando las que ya no existen.
pub open spec fn publicaciones_de(ids: Seq<u128>, m: Map<u128, Publicacion>) -> Seq<Publicacion>
    decreases ids.len(),
{
    if ids.len() == 0 {
        Seq::empty()
    } else {
        let resto = publicaciones_de(ids.drop_last(), m);
        if m.contains_key(ids.last()) {
            resto.push(m[ids.last()])
        } else {
            resto
        }
    }
}

//
// impl Publicacion -> RustaceoLibre
//

impl crate::RustaceoLibre {
    /// Realiza una publicación con producto, precio y cantidad, y descuenta
    /// la cantidad ofertada del stock en posesión del vendedor.
    ///
    /// Devuelve error si el precio o la cantidad son 0, si `caller` no
    /// existe o no es vendedor, si su stock no alcanza o si el producto
    /// no existe.
    pub fn realizar_publicacion(
        &mut self,
        caller: crate::AccountId,
        id_producto: u128,
        cantidad_ofertada: u32,
        precio: u128,
    ) -> (r: Result<u128, ErrorRealizarPublicacion>)
        requires
            old(self).bien_formado(),
        ensures
            final(self).bien_formado(),
            r is Err ==> *final(self) == *old(self),
            precio == 0 ==> r == Err::<u128, ErrorRealizarPublicacion>(
                ErrorRealizarPublicacion::PrecioCero,
            ),
            precio > 0 && cantidad_ofertada == 0 ==> r == Err::<u128,
                ErrorRealizarPublicacion,
            >(ErrorRealizarPublicacion::StockInsuficiente),
            precio > 0 && cantidad_ofertada > 0 && !old(self).usuarios@.contains_key(caller) ==> r
                == Err::<u128, ErrorRealizarPublicacion>(
                ErrorRealizarPublicacion::UsuarioNoRegistrado,
            ),
            precio > 0 && cantidad_ofertada > 0 && old(self).usuarios@.contains_key(caller) && !old(
                self,
            ).usuarios@[caller]@.rol.es_vendedor() ==> r == Err::<u128,
                ErrorRealizarPublicacion,
            >(ErrorRealizarPublicacion::NoEsVendedor),
            precio > 0 && cantidad_ofertada > 0 && old(self).usuarios@.contains_key(caller) && old(
                self,
            ).usuarios@[caller]@.rol.es_vendedor() ==> {
                let d = old(self).usuarios@[caller]@.rol.data_vendedor().unwrap();
                if !d.stock_productos.contains_key(id_producto) || d.stock_productos[id_producto]
                    < cantidad_ofertada {
                    r == Err::<u128, ErrorRealizarPublicacion>(
                        ErrorRealizarPublicacion::StockInsuficiente,
                    )
                } else if !old(self).productos@.contains_key(id_producto) {
                    r == Err::<u128, ErrorRealizarPublicacion>(
                        ErrorRealizarPublicacion::ProductoInexistente,
                    )
                } else {
                    let id = if old(self).publicaciones_siguiente_id == u128::MAX {
                        0u128
                    } else {
                        old(self).publicaciones_siguiente_id
                    };
                    let nuevo_stock = (d.stock_productos[id_producto] - cantidad_ofertada) as u32;
                    &&& r == Ok::<u128, ErrorRealizarPublicacion>(id)
                    &&& *final(self) == (crate::RustaceoLibre {
                        publicaciones: final(self).publicaciones,
                        usuarios: final(self).usuarios,
                        publicaciones_siguiente_id: final(self).publicaciones_siguiente_id,
                        ..*old(self)
                    })
                    &&& final(self).publicaciones_siguiente_id == (if old(
                        self,
                    ).publicaciones_siguiente_id == u128::MAX {
                        1u128
                    } else {
                        (old(self).publicaciones_siguiente_id + 1) as u128
                    })
                    &&& final(self).publicaciones@ == old(self).publicaciones@.insert(
                        id,
                        (Publicacion {
                            vendedor: caller,
                            producto: id_producto,
                            cantidad_ofertada,
                            precio_unitario: precio,
                        }),
                    )
                    &&& final(self).usuarios@ == old(self).usuarios@.insert(
                        caller,
                        final(self).usuarios@[caller],
                    )
                    &&& final(self).usuarios@[caller]@ == (crate::usuario::UsuarioV {
                        id: old(self).usuarios@[caller]@.id,
                        rol: old(self).usuarios@[caller]@.rol.con_stock(
                            id_producto,
                            nuevo_stock,
                        ).con_publicacion(id),
                    })
                }
            },
    {
        if precio == 0 {
            return Err(ErrorRealizarPublicacion::PrecioCero);
        }
        if cantidad_ofertada == 0 {
            return Err(ErrorRealizarPublicacion::StockInsuficiente);
        }
        let Some(usuario_ref) = self.usuarios.get(&caller) else {
            return Err(ErrorRealizarPublicacion::UsuarioNoRegistrado);
        };
        if !usuario_ref.es_vendedor() {
            return Err(ErrorRealizarPublicacion::NoEsVendedor);
        }
        let Some(stock_vendedor) = usuario_ref.obtener_stock_producto(&id_producto) else {
            return Err(ErrorRealizarPublicacion::StockInsuficiente);
        };
        if stock_vendedor < cantidad_ofertada {
            return Err(ErrorRealizarPublicacion::StockInsuficiente);
        }
        if self.productos.get(&id_producto).is_none() {
            return Err(ErrorRealizarPublicacion::ProductoInexistente);
        }
        let mut usuario = crate::usuario::clonar_usuario(usuario_ref);

        // sustraer la cantidad ofertada del stock del vendedor: pasará a
        // formar parte de la oferta de la publicación
        let Some(nuevo_stock_vendedor) = stock_vendedor.checked_sub(cantidad_ofertada) else {
            return Err(ErrorRealizarPublicacion::StockInsuficiente);
        };
        usuario.establecer_stock_producto(&id_producto, &nuevo_stock_vendedor);

        let id_publicacion = self.next_id_publicaciones();
        let publicacion = Publicacion::new(caller, id_producto, cantidad_ofertada, precio);
        self.publicaciones.insert(id_publicacion, publicacion);

        usuario.agregar_publicacion(id_publicacion);
        self.usuarios.insert(caller, usuario);
        proof {
            old(self).lema_bien_formado_insertar(final(self), caller);
        }
        Ok(id_publicacion)
    }

    /// Modifica la cantidad ofertada en una publicación, moviendo la
    /// diferencia desde o hacia el stock del vendedor.
    ///
    /// Devuelve error si el usuario no está registrado o no es vendedor,
    /// la publicación no existe o no es suya, no hay cambio alguno, o la
    /// operación es imposible por falta de stock o desborde.
    pub fn modificar_cantidad_ofertada(
        &mut self,
        caller: crate::AccountId,
        id_publicacion: u128,
        nueva_cantidad_ofertada: u32,
    ) -> (r: Result<(), ErrorModificarCantidadOfertada>)
        requires
            old(self).bien_formado(),
        ensures
            final(self).bien_formado(),
            r is Err ==> *final(self) == *old(self),
            !old(self).usuarios@.contains_key(caller) ==> r == Err::<(),
                ErrorModificarCantidadOfertada,
            >(ErrorModificarCantidadOfertada::UsuarioInexistente),
            old(self).usuarios@.contains_key(caller) && !old(
                self,
            ).usuarios@[caller]@.rol.es_vendedor() ==> r == Err::<(),
                ErrorModificarCantidadOfertada,
            >(ErrorModificarCantidadOfertada::NoEsVendedor),
            old(self).usuarios@.contains_key(caller) && old(
                self,
            ).usuarios@[caller]@.rol.es_vendedor() && !old(self).publicaciones@.contains_key(
                id_publicacion,
            ) ==> r == Err::<(), ErrorModificarCantidadOfertada>(
                ErrorModificarCantidadOfertada::PublicacionInexistente,
            ),
            old(self).usuarios@.contains_key(caller) && old(
                self,
            ).usuarios@[caller]@.rol.es_vendedor() && old(self).publicaciones@.contains_key(
                id_publicacion,
            ) ==> {
                let d = old(self).usuarios@[caller]@.rol.data_vendedor().unwrap();
                let publicacion = old(self).publicaciones@[id_publicacion];
                if publicacion.vendedor != caller {
                    r == Err::<(), ErrorModificarCantidadOfertada>(
                        ErrorModificarCantidadOfertada::NoEsElVendedor,
                    )
                } else if nueva_cantidad_ofertada == publicacion.cantidad_ofertada {
                    r == Err::<(), ErrorModificarCantidadOfertada>(
                        ErrorModificarCantidadOfertada::SinCambios,
                    )
                } else if !d.stock_productos.contains_key(publicacion.producto) {
                    r == Err::<(), ErrorModificarCantidadOfertada>(
                        ErrorModificarCantidadOfertada::StockVendedorInsuficiente,
                    )
                } else {
                    let stock = d.stock_productos[publicacion.producto];
                    let imposible = nueva_cantidad_ofertada > publicacion.cantidad_ofertada && stock
                        < nueva_cantidad_ofertada - publicacion.cantidad_ofertada;
                    let desborde = nueva_cantidad_ofertada < publicacion.cantidad_ofertada && stock
                        + (publicacion.cantidad_ofertada - nueva_cantidad_ofertada) > u32::MAX;
                    let nuevo_stock = (stock + publicacion.cantidad_ofertada
                        - nueva_cantidad_ofertada) as u32;
                    if imposible {
                        r == Err::<(), ErrorModificarCantidadOfertada>(
                            ErrorModificarCantidadOfertada::StockVendedorInsuficiente,
                        )
                    } else if desborde {
                        r == Err::<(), ErrorModificarCantidadOfertada>(
                            ErrorModificarCantidadOfertada::Desconocido,
                        )
                    } else {
                        &&& r is Ok
                        &&& *final(self) == (crate::RustaceoLibre {
                            publicaciones: final(self).publicaciones,
                            usuarios: final(self).usuarios,
                            ..*old(self)
                        })
                        &&& final(self).publicaciones@ == old(self).publicaciones@.insert(
                            id_publicacion,
                            (Publicacion {
                                cantidad_ofertada: nueva_cantidad_ofertada,
                                ..publicacion
                            }),
                        )
                        &&& final(self).usuarios@ == old(self).usuarios@.insert(
                            caller,
                            final(self).usuarios@[caller],
                        )
                        &&& final(self).usuarios@[caller]@ == (crate::usuario::UsuarioV {
                            id: old(self).usuarios@[caller]@.id,
                            rol: old(self).usuarios@[caller]@.rol.con_stock(
                                publicacion.producto,
                                nuevo_stock,
                            ),
                        })
                    }
                }
            },
    {
        let Some(usuario_ref) = self.usuarios.get(&caller) else {
            return Err(ErrorModificarCantidadOfertada::UsuarioInexistente);
        };
        if !usuario_ref.es_vendedor() {
            return Err(ErrorModificarCantidadOfertada::NoEsVendedor);
        }
        let Some(publicacion_ref) = self.publicaciones.get(&id_publicacion) else {
            return Err(ErrorModificarCantidadOfertada::PublicacionInexistente);
        };
        let publicacion = *publicacion_ref;
        if publicacion.vendedor != caller {
            return Err(ErrorModificarCantidadOfertada::NoEsElVendedor);
        }
        if nueva_cantidad_ofertada == publicacion.cantidad_ofertada {
            return Err(ErrorModificarCantidadOfertada::SinCambios);
        }
        let Some(stock_vendedor) = usuario_ref.obtener_stock_producto(&publicacion.producto)
        else {
            return Err(ErrorModificarCantidadOfertada::StockVendedorInsuficiente);
        };

        let nuevo_stock_vendedor: u32;
        if nueva_cantidad_ofertada > publicacion.cantidad_ofertada {
            // el stock se transfiere del vendedor a la publicación
            let Some(diff) = nueva_cantidad_ofertada.checked_sub(publicacion.cantidad_ofertada)
            else {
                return Err(ErrorModificarCantidadOfertada::Desconocido);
            };
            let Some(nuevo) = stock_vendedor.checked_sub(diff) else {
                return Err(ErrorModificarCantidadOfertada::StockVendedorInsuficiente);
            };
            nuevo_stock_vendedor = nuevo;
        } else {
            // el stock se transfiere de la publicación al vendedor
            let Some(diff) = publicacion.cantidad_ofertada.checked_sub(nueva_cantidad_ofertada)
            else {
                return Err(ErrorModificarCantidadOfertada::Desconocido);
            };
            let Some(nuevo) = stock_vendedor.checked_add(diff) else {
                return Err(ErrorModificarCantidadOfertada::Desconocido);
            };
            nuevo_stock_vendedor = nuevo;
        }

        let mut usuario = crate::usuario::clonar_usuario(usuario_ref);
        let nueva_publicacion = Publicacion {
            cantidad_ofertada: nueva_cantidad_ofertada,
            ..publicacion
        };
        usuario.establecer_stock_producto(&publicacion.producto, &nuevo_stock_vendedor);
        self.publicaciones.insert(id_publicacion, nueva_publicacion);
        self.usuarios.insert(caller, usuario);
        proof {
            old(self).lema_bien_formado_insertar(final(self), caller);
        }
        Ok(())
    }

    /// Dada una ID, devuelve la publicación.
    ///
    /// Devolverá None si la publicación no existe o el usuario no está
    /// registrado.
    pub fn ver_publicacion(&self, caller: crate::AccountId, id_publicacion: u128) -> (r: Option<
        Publicacion,
    >)
        ensures
            r == (if self.usuarios@.contains_key(caller) && self.publicaciones@.contains_key(
                id_publicacion,
            ) {
                Some(self.publicaciones@[id_publicacion])
            } else {
                None::<Publicacion>
            }),
    {
        if !self.usuarios.contains_key(&caller) {
            return None;
        }
        let Some(p) = self.publicaciones.get(&id_publicacion) else { return None };
        Some(*p)
    }

    /// Devuelve todas las publicaciones que correspondan al vendedor que
    /// ejecute esta función.
    ///
    /// Dará error si el usuario no existe, no está registrado como vendedor
    /// o no tiene publicaciones vivas.
    pub fn ver_publicaciones_vendedor(&self, caller: crate::AccountId) -> (r: Result<
        Vec<Publicacion>,
        ErrorVerPublicacionesVendedor,
    >)
        ensures
            !self.usuarios@.contains_key(caller) ==> r == Err::<Vec<Publicacion>,
                ErrorVerPublicacionesVendedor,
            >(ErrorVerPublicacionesVendedor::UsuarioNoRegistrado),
            self.usuarios@.contains_key(caller) && !self.usuarios@[caller]@.rol.es_vendedor() ==> r
                == Err::<Vec<Publicacion>, ErrorVerPublicacionesVendedor>(
                ErrorVerPublicacionesVendedor::NoEsVendedor,
            ),
            self.usuarios@.contains_key(caller) && self.usuarios@[caller]@.rol.es_vendedor() ==> {
                let halladas = publicaciones_de(
                    self.usuarios@[caller]@.rol.data_vendedor().unwrap().publicaciones,
                    self.publicaciones@,
                );
                if halladas.len() == 0 {
                    r == Err::<Vec<Publicacion>, ErrorVerPublicacionesVendedor>(
                        ErrorVerPublicacionesVendedor::NoTienePublicaciones,
                    )
                } else {
                    r is Ok && r.unwrap()@ == halladas
                }
            },
    {
        let Some(usuario) = self.usuarios.get(&caller) else {
            return Err(ErrorVerPublicacionesVendedor::UsuarioNoRegistrado);
        };
        if !usuario.es_vendedor() {
            return Err(ErrorVerPublicacionesVendedor::NoEsVendedor);
        }
        let Some(publicaciones) = usuario.obtener_publicaciones() else {
            return Err(ErrorVerPublicacionesVendedor::NoTienePublicaciones);
        };

        let mut vec_publicaciones: Vec<Publicacion> = Vec::new();
        let ghost ids = publicaciones@;
        let mut i: usize = 0;
        while i < publicaciones.len()
            invariant
                0 <= i <= ids.len(),
                publicaciones@ == ids,
                vec_publicaciones@ == publicaciones_de(
                    ids.subrange(0, i as int),
                    self.publicaciones@,
                ),
            decreases ids.len() - i,
        {
            proof {
                assert(ids.subrange(0, i + 1).drop_last() =~= ids.subrange(0, i as int));
                assert(ids.subrange(0, i + 1).last() == ids[i as int]);
            }
            if let Some(p) = self.publicaciones.get(&publicaciones[i]) {
                vec_publicaciones.push(*p);
            }
            i = i + 1;
        }
        proof {
            assert(ids.subrange(0, ids.len() as int) =~= ids);
        }

        if vec_publicaciones.is_empty() {
            Err(ErrorVerPublicacionesVendedor::NoTienePublicaciones)
        } else {
            Ok(vec_publicaciones)
        }
    }
}

} // verus!
