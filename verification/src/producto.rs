use vstd::prelude::*;

verus! {

use crate::usuario::StockProductos;

//
// categoria
//

/// La categoría de un producto del catálogo.
#[derive(Debug, Clone, PartialEq, Eq, Structural)]
pub enum CategoriaProducto {
    Ninguna,
    Hogar,
    Tecnologia,
    Indumentaria,
    Ferreteria,
}

impl Default for CategoriaProducto {
    /// Un producto sin categoría asignada.
    fn default() -> (r: Self)
        ensures
            r == CategoriaProducto::Ninguna,
    {
        CategoriaProducto::Ninguna
    }
}

//
// producto
//

pub ghost struct ProductoV {
    pub nombre: Seq<char>,
    pub descripcion: Seq<char>,
    pub categoria: CategoriaProducto,
    pub ventas: u128,
}

/// Un producto del catálogo, con el recuento de ventas que tuvo.
#[derive(Debug, Clone, PartialEq, Eq)]
pub struct Producto {
    pub nombre: String,
    pub descripcion: String,
    pub categoria: CategoriaProducto,
    pub ventas: u128,
}

impl View for Producto {
    type V = ProductoV;

    open spec fn view(&self) -> ProductoV {
        ProductoV {
            nombre: self.nombre@,
            descripcion: self.descripcion@,
            categoria: self.categoria,
            ventas: self.ventas,
        }
    }
}

impl Producto {
    pub fn new(nombre: String, descripcion: String, categoria: CategoriaProducto) -> (r: Self)
        ensures
            r@ == (ProductoV { nombre: nombre@, descripcion: descripcion@, categoria, ventas: 0 }),
    {
        Producto { nombre, descripcion, categoria, ventas: 0 }
    }
}

//
// errores
//

#[derive(Debug, Clone, PartialEq, Eq)]
pub enum ErrorRegistrarProducto {
    UsuarioNoRegistrado,
    NoEsVendedor,
}

#[derive(Debug, Clone, PartialEq, Eq)]
pub enum ErrorIngresarStockProducto {
    CantidadInvalida,
    UsuarioNoRegistrado,
    NoEsVendedor,
    ProductoInexistente,
}

#[derive(Debug, Clone, PartialEq, Eq)]
pub enum ErrorRetirarStockProducto {
    CantidadInvalida,
    UsuarioNoRegistrado,
    NoEsVendedor,
    StockInsuficiente,
    ProductoInexistente,
}

#[derive(Debug, Clone, PartialEq, Eq)]
pub enum ErrorVerStockPropio {
    UsuarioNoRegistrado,
    NoEsVendedor,
    NoPoseeStockAlguno,
}

/// Copia un producto, campo por campo.
fn clonar_producto(p: &Producto) -> (r: Producto)
    ensures
        r@ == p@,
{
    Producto {
        nombre: p.nombre.clone(),
        descripcion: p.descripcion.clone(),
        categoria: clonar_categoria(&p.categoria),
        ventas: p.ventas,
    }
}

/// Copia una categoría.
fn clonar_categoria(c: &CategoriaProducto) -> (r: CategoriaProducto)
    ensures
        r == *c,
{
    match c {
        CategoriaProducto::Ninguna => CategoriaProducto::Ninguna,
        CategoriaProducto::Hogar => CategoriaProducto::Hogar,
        CategoriaProducto::Tecnologia => CategoriaProducto::Tecnologia,
        CategoriaProducto::Indumentaria => CategoriaProducto::Indumentaria,
        CategoriaProducto::Ferreteria => CategoriaProducto::Ferreteria,
    }
}

/// El stock que un vendedor tiene anotado de un producto, o cero si
/// nunca lo anotó.
pub open spec fn stock_o_cero(d: crate::usuario::DataVendedorV, id_producto: u128) -> u32 {
    if d.stock_productos.contains_key(id_producto) {
        d.stock_productos[id_producto]
    } else {
        0
    }
}

//
// impl Producto -> RustaceoLibre
//

impl crate::RustaceoLibre {
    /// Registra un producto en la lista de productos para su posterior uso
    /// en publicaciones, y anota el stock inicial en posesión del vendedor.
    ///
    /// Devuelve error si el usuario no está registrado o no es vendedor.
    pub fn registrar_producto(
        &mut self,
        caller: crate::AccountId,
        nombre: String,
        descripcion: String,
        categoria: CategoriaProducto,
        stock_inicial: u32,
    ) -> (r: Result<u128, ErrorRegistrarProducto>)
        requires
            old(self).bien_formado(),
        ensures
            final(self).bien_formado(),
            !old(self).usuarios@.contains_key(caller) ==> r == Err::<u128,
                ErrorRegistrarProducto,
            >(ErrorRegistrarProducto::UsuarioNoRegistrado) && *final(self) == *old(self),
            old(self).usuarios@.contains_key(caller) && !old(
                self,
            ).usuarios@[caller]@.rol.es_vendedor() ==> r == Err::<u128,
                ErrorRegistrarProducto,
            >(ErrorRegistrarProducto::NoEsVendedor) && *final(self) == *old(self),
            old(self).usuarios@.contains_key(caller) && old(
                self,
            ).usuarios@[caller]@.rol.es_vendedor() ==> {
                let id = if old(self).productos_siguiente_id == u128::MAX {
                    0u128
                } else {
                    old(self).productos_siguiente_id
                };
                &&& r == Ok::<u128, ErrorRegistrarProducto>(id)
                &&& *final(self) == (crate::RustaceoLibre {
                    productos: final(self).productos,
                    usuarios: final(self).usuarios,
                    productos_siguiente_id: final(self).productos_siguiente_id,
                    ..*old(self)
                })
                &&& final(self).productos_siguiente_id == (if old(self).productos_siguiente_id
                    == u128::MAX {
                    1u128
                } else {
                    (old(self).productos_siguiente_id + 1) as u128
                })
                &&& final(self).productos@ == old(self).productos@.insert(
                    id,
                    final(self).productos@[id],
                )
                &&& final(self).productos@[id]@ == (ProductoV {
                    nombre: nombre@,
                    descripcion: descripcion@,
                    categoria,
                    ventas: 0,
                })
                &&& final(self).usuarios@ == old(self).usuarios@.insert(
                    caller,
                    final(self).usuarios@[caller],
                )
                &&& final(self).usuarios@[caller]@ == (crate::usuario::UsuarioV {
                    id: old(self).usuarios@[caller]@.id,
                    rol: old(self).usuarios@[caller]@.rol.con_stock(id, stock_inicial),
                })
            },
    {
        let Some(usuario_ref) = self.usuarios.get(&caller) else {
            return Err(ErrorRegistrarProducto::UsuarioNoRegistrado);
        };
        if !usuario_ref.es_vendedor() {
            return Err(ErrorRegistrarProducto::NoEsVendedor);
        }
        let mut usuario = crate::usuario::clonar_usuario(usuario_ref);

        let id_producto = self.next_id_productos();
        let producto = Producto::new(nombre, descripcion, categoria);
        self.productos.insert(id_producto, producto);

        usuario.establecer_stock_producto(&id_producto, &stock_inicial);
        self.usuarios.insert(caller, usuario);
        proof {
            old(self).lema_bien_formado_insertar(final(self), caller);
        }
        Ok(id_producto)
    }

    /// Dada la ID de un producto y un stock, incrementa la posesión en stock
    /// de ese producto del vendedor.
    ///
    /// Devolverá la nueva cantidad de stock disponible de ese producto para
    /// el vendedor. Devolverá error si la cantidad ingresada es cero, el
    /// usuario no está registrado, no es vendedor, el producto no existe o
    /// la suma desbordaría el stock.
    pub fn ingresar_stock_producto(
        &mut self,
        caller: crate::AccountId,
        id_producto: u128,
        cantidad_ingresada: u32,
    ) -> (r: Result<u32, ErrorIngresarStockProducto>)
        requires
            old(self).bien_formado(),
        ensures
            final(self).bien_formado(),
            r is Err ==> *final(self) == *old(self),
            cantidad_ingresada < 1 ==> r == Err::<u32,
                ErrorIngresarStockProducto,
            >(ErrorIngresarStockProducto::CantidadInvalida),
            cantidad_ingresada >= 1 && !old(self).usuarios@.contains_key(caller) ==> r == Err::<
                u32,
                ErrorIngresarStockProducto,
            >(ErrorIngresarStockProducto::UsuarioNoRegistrado),
            cantidad_ingresada >= 1 && old(self).usuarios@.contains_key(caller) && !old(
                self,
            ).usuarios@[caller]@.rol.es_vendedor() ==> r == Err::<u32,
                ErrorIngresarStockProducto,
            >(ErrorIngresarStockProducto::NoEsVendedor),
            cantidad_ingresada >= 1 && old(self).usuarios@.contains_key(caller) && old(
                self,
            ).usuarios@[caller]@.rol.es_vendedor() && !old(self).productos@.contains_key(
                id_producto,
            ) ==> r == Err::<u32, ErrorIngresarStockProducto>(
                ErrorIngresarStockProducto::ProductoInexistente,
            ),
            cantidad_ingresada >= 1 && old(self).usuarios@.contains_key(caller) && old(
                self,
            ).usuarios@[caller]@.rol.es_vendedor() && old(self).productos@.contains_key(
                id_producto,
            ) ==> {
                let d = old(self).usuarios@[caller]@.rol.data_vendedor().unwrap();
                let actual = stock_o_cero(d, id_producto);
                if actual + cantidad_ingresada > u32::MAX {
                    r == Err::<u32, ErrorIngresarStockProducto>(
                        ErrorIngresarStockProducto::CantidadInvalida,
                    )
                } else {
                    &&& r == Ok::<u32, ErrorIngresarStockProducto>(
                        (actual + cantidad_ingresada) as u32,
                    )
                    &&& *final(self) == (crate::RustaceoLibre {
                        usuarios: final(self).usuarios,
                        ..*old(self)
                    })
                    &&& final(self).usuarios@ == old(self).usuarios@.insert(
                        caller,
                        final(self).usuarios@[caller],
                    )
                    &&& final(self).usuarios@[caller]@ == (crate::usuario::UsuarioV {
                        id: old(self).usuarios@[caller]@.id,
                        rol: old(self).usuarios@[caller]@.rol.con_stock(
                            id_producto,
                            (actual + cantidad_ingresada) as u32,
                        ),
                    })
                }
            },
    {
        if cantidad_ingresada < 1 {
            return Err(ErrorIngresarStockProducto::CantidadInvalida);
        }
        let Some(usuario_ref) = self.usuarios.get(&caller) else {
            return Err(ErrorIngresarStockProducto::UsuarioNoRegistrado);
        };
        if !usuario_ref.es_vendedor() {
            return Err(ErrorIngresarStockProducto::NoEsVendedor);
        }
        if !self.productos.contains_key(&id_producto) {
            return Err(ErrorIngresarStockProducto::ProductoInexistente);
        }
        let mut usuario = crate::usuario::clonar_usuario(usuario_ref);
        let stock_actual = match usuario.obtener_stock_producto(&id_producto) {
            Some(stock) => stock,
            None => 0,
        };
        let Some(nuevo_stock_actual) = stock_actual.checked_add(cantidad_ingresada) else {
            return Err(ErrorIngresarStockProducto::CantidadInvalida);
        };
        usuario.establecer_stock_producto(&id_producto, &nuevo_stock_actual);
        self.usuarios.insert(caller, usuario);
        proof {
            old(self).lema_bien_formado_insertar(final(self), caller);
        }
        Ok(nuevo_stock_actual)
    }

    /// Dada la ID de un producto y un stock, decrementa la posesión en stock
    /// de ese producto del vendedor.
    ///
    /// Devolverá la nueva cantidad de stock disponible de ese producto para
    /// el vendedor. Devolverá error si la cantidad retirada es cero, el
    /// usuario no está registrado, no es vendedor o el stock no alcanza.
    pub fn retirar_stock_producto(
        &mut self,
        caller: crate::AccountId,
        id_producto: u128,
        cantidad_retirada: u32,
    ) -> (r: Result<u32, ErrorRetirarStockProducto>)
        requires
            old(self).bien_formado(),
        ensures
            final(self).bien_formado(),
            r is Err ==> *final(self) == *old(self),
            cantidad_retirada < 1 ==> r == Err::<u32,
                ErrorRetirarStockProducto,
            >(ErrorRetirarStockProducto::CantidadInvalida),
            cantidad_retirada >= 1 && !old(self).usuarios@.contains_key(caller) ==> r == Err::<
                u32,
                ErrorRetirarStockProducto,
            >(ErrorRetirarStockProducto::UsuarioNoRegistrado),
            cantidad_retirada >= 1 && old(self).usuarios@.contains_key(caller) && !old(
                self,
            ).usuarios@[caller]@.rol.es_vendedor() ==> r == Err::<u32,
                ErrorRetirarStockProducto,
            >(ErrorRetirarStockProducto::NoEsVendedor),
            cantidad_retirada >= 1 && old(self).usuarios@.contains_key(caller) && old(
                self,
            ).usuarios@[caller]@.rol.es_vendedor() ==> {
                let d = old(self).usuarios@[caller]@.rol.data_vendedor().unwrap();
                let actual = stock_o_cero(d, id_producto);
                if actual < cantidad_retirada {
                    r == Err::<u32, ErrorRetirarStockProducto>(
                        ErrorRetirarStockProducto::StockInsuficiente,
                    )
                } else {
                    &&& r == Ok::<u32, ErrorRetirarStockProducto>(
                        (actual - cantidad_retirada) as u32,
                    )
                    &&& *final(self) == (crate::RustaceoLibre {
                        usuarios: final(self).usuarios,
                        ..*old(self)
                    })
                    &&& final(self).usuarios@ == old(self).usuarios@.insert(
                        caller,
                        final(self).usuarios@[caller],
                    )
                    &&& final(self).usuarios@[caller]@ == (crate::usuario::UsuarioV {
                        id: old(self).usuarios@[caller]@.id,
                        rol: old(self).usuarios@[caller]@.rol.con_stock(
                            id_producto,
                            (actual - cantidad_retirada) as u32,
                        ),
                    })
                }
            },
    {
        if cantidad_retirada < 1 {
            return Err(ErrorRetirarStockProducto::CantidadInvalida);
        }
        let Some(usuario_ref) = self.usuarios.get(&caller) else {
            return Err(ErrorRetirarStockProducto::UsuarioNoRegistrado);
        };
        if !usuario_ref.es_vendedor() {
            return Err(ErrorRetirarStockProducto::NoEsVendedor);
        }
        let mut usuario = crate::usuario::clonar_usuario(usuario_ref);
        let stock_actual = match usuario.obtener_stock_producto(&id_producto) {
            Some(stock) => stock,
            None => 0,
        };
        if stock_actual < cantidad_retirada {
            return Err(ErrorRetirarStockProducto::StockInsuficiente);
        }
        let Some(nuevo_stock_actual) = stock_actual.checked_sub(cantidad_retirada) else {
            return Err(ErrorRetirarStockProducto::CantidadInvalida);
        };
        usuario.establecer_stock_producto(&id_producto, &nuevo_stock_actual);
        self.usuarios.insert(caller, usuario);
        proof {
            old(self).lema_bien_formado_insertar(final(self), caller);
        }
        Ok(nuevo_stock_actual)
    }

    /// Dada una ID, devuelve el producto correspondiente si es posible.
    ///
    /// Devolverá None si el producto no existe.
    pub fn ver_producto(&self, id_producto: u128) -> (r: Option<Producto>)
        ensures
            match r {
                Some(p) => self.productos@.contains_key(id_producto) && p@
                    == self.productos@[id_producto]@,
                None => !self.productos@.contains_key(id_producto),
            },
    {
        let Some(p) = self.productos.get(&id_producto) else { return None };
        Some(clonar_producto(p))
    }

    /// Devuelve el listado de stock del vendedor que llame la función.
    ///
    /// Dará error si el usuario no está registrado o no es vendedor.
    pub fn ver_stock_propio(&self, caller: crate::AccountId) -> (r: Result<
        StockProductos,
        ErrorVerStockPropio,
    >)
        requires
            self.bien_formado(),
        ensures
            !self.usuarios@.contains_key(caller) ==> r == Err::<StockProductos,
                ErrorVerStockPropio,
            >(ErrorVerStockPropio::UsuarioNoRegistrado),
            self.usuarios@.contains_key(caller) && !self.usuarios@[caller]@.rol.es_vendedor() ==> r
                == Err::<StockProductos, ErrorVerStockPropio>(ErrorVerStockPropio::NoEsVendedor),
            self.usuarios@.contains_key(caller) && self.usuarios@[caller]@.rol.es_vendedor() ==> r
                is Ok && r.unwrap()@ == self.usuarios@[caller]@.rol.data_vendedor().unwrap().stock_productos
                && r.unwrap().bien_formado(),
    {
        let Some(usuario) = self.usuarios.get(&caller) else {
            return Err(ErrorVerStockPropio::UsuarioNoRegistrado);
        };
        if !usuario.es_vendedor() {
            return Err(ErrorVerStockPropio::NoEsVendedor);
        }
        let Some(stock_productos) = usuario.obtener_stock_productos() else {
            return Err(ErrorVerStockPropio::NoPoseeStockAlguno);
        };
        Ok(stock_productos)
    }

    /// Devuelve la cantidad de ventas que ese producto haya tenido.
    pub fn ver_ventas_producto(&self, id: u128) -> (r: Option<u128>)
        ensures
            r == (if self.productos@.contains_key(id) {
                Some(self.productos@[id]@.ventas)
            } else {
                None::<u128>
            }),
    {
        let Some(producto) = self.productos.get(&id) else { return None };
        Some(producto.ventas)
    }
}

} // verus!
