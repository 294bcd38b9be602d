use vstd::prelude::*;

verus! {

/// Registro paralelo de stock por producto: `productos` guarda las IDs en
/// orden estrictamente creciente y `stock` la cantidad en la misma posición.
#[derive(Debug, Clone, PartialEq, Eq)]
pub struct StockProductos {
    pub productos: Vec<u128>,
    pub stock: Vec<u32>,
}

impl StockProductos {
    /// Ambos vectores van a la par y las IDs quedan ordenadas sin repetirse.
    pub open spec fn bien_formado(&self) -> bool {
        &&& self.productos@.len() == self.stock@.len()
        &&& forall|i: int, j: int|
            0 <= i < j < self.productos@.len() ==> self.productos@[i] < self.productos@[j]
    }

    pub open spec fn contiene(&self, id_producto: u128) -> bool {
        self.productos@.contains(id_producto)
    }

    pub open spec fn indice_de(&self, id_producto: u128) -> int {
        self.productos@.index_of(id_producto)
    }

    pub open spec fn stock_de(&self, id_producto: u128) -> u32 {
        self.stock@[self.indice_de(id_producto)]
    }

    /// En un vector ordenado estrictamente, la posición de una ID es única.
    proof fn lema_indice_unico(&self, id_producto: u128, i: int)
        requires
            self.bien_formado(),
            0 <= i < self.productos@.len(),
            self.productos@[i] == id_producto,
        ensures
            self.indice_de(id_producto) == i,
    {
        assert(self.contiene(id_producto));
        let j = self.indice_de(id_producto);
        assert(self.productos@[j] == id_producto);
        if i < j {
            assert(self.productos@[i] < self.productos@[j]);
        } else if j < i {
            assert(self.productos@[j] < self.productos@[i]);
        }
    }

    /// Devuelve el stock asociado a la ID del producto brindada
    pub fn get(&self, id_producto: &u128) -> (r: Option<u32>)
        requires
            self.bien_formado(),
        ensures
            self.contiene(*id_producto) ==> r == Some(self.stock_de(*id_producto)),
            !self.contiene(*id_producto) ==> r is None,
    {
        let mut i: usize = 0;
        while i < self.productos.len()
            invariant
                self.bien_formado(),
                0 <= i <= self.productos@.len(),
                forall|k: int| 0 <= k < i ==> self.productos@[k] != *id_producto,
            decreases self.productos@.len() - i,
        {
            if self.productos[i] == *id_producto {
                proof {
                    self.lema_indice_unico(*id_producto, i as int);
                }
                return Some(self.stock[i]);
            }
            i = i + 1;
        }
        assert(!self.contiene(*id_producto));
        None
    }

    /// Inserta el producto en el vector doble. Si ya existe un producto con
    /// ese valor, sobreescribe su stock; si no existe, lo inserta en la
    /// posición que mantiene el orden.
    pub fn insert(&mut self, id_producto: u128, stock: u32)
        requires
            old(self).bien_formado(),
        ensures
            final(self).bien_formado(),
            final(self).contiene(id_producto),
            final(self).stock_de(id_producto) == stock,
            forall|otro: u128|
                otro != id_producto ==> (final(self).contiene(otro) <==> old(self).contiene(otro)),
            forall|otro: u128|
                otro != id_producto && old(self).contiene(otro) ==> final(self).stock_de(otro)
                    == old(self).stock_de(otro),
    {
        let ghost viejo = *self;
        let mut i: usize = 0;
        while i < self.productos.len() && self.productos[i] < id_producto
            invariant
                *self == viejo,
                self.bien_formado(),
                0 <= i <= self.productos@.len(),
                forall|k: int| 0 <= k < i ==> self.productos@[k] < id_producto,
            decreases self.productos@.len() - i,
        {
            i = i + 1;
        }
        if i < self.productos.len() && self.productos[i] == id_producto {
            // Producto ya existe: actualizar el stock
            self.stock[i] = stock;
            proof {
                assert(final(self).productos@ == viejo.productos@);
                final(self).lema_indice_unico(id_producto, i as int);
                assert forall|otro: u128|
                    otro != id_producto && viejo.contiene(otro) implies final(self).stock_de(otro)
                    == viejo.stock_de(otro) by {
                    let k = viejo.indice_de(otro);
                    assert(viejo.productos@[k] == otro);
                    final(self).lema_indice_unico(otro, k);
                }
            }
        } else {
            // Producto no existe: insertar en posición ordenada
            proof {
                assert(i < viejo.productos@.len() ==> viejo.productos@[i as int] > id_producto);
            }
            self.productos.insert(i, id_producto);
            self.stock.insert(i, stock);
            proof {
                assert forall|a: int, b: int|
                    0 <= a < b < final(self).productos@.len() implies final(self).productos@[a]
                    < final(self).productos@[b] by {
                    if b < i {
                    } else if a < i && b == i {
                    } else if a < i && b > i {
                        assert(final(self).productos@[a] == viejo.productos@[a]);
                        assert(final(self).productos@[b] == viejo.productos@[b - 1]);
                        assert(viejo.productos@[b - 1] >= viejo.productos@[i as int]);
                    } else if a == i {
                        assert(final(self).productos@[b] == viejo.productos@[b - 1]);
                        assert(viejo.productos@[b - 1] >= viejo.productos@[i as int]);
                    } else {
                        assert(final(self).productos@[a] == viejo.productos@[a - 1]);
                        assert(final(self).productos@[b] == viejo.productos@[b - 1]);
                    }
                }
                assert(final(self).productos@[i as int] == id_producto);
                final(self).lema_indice_unico(id_producto, i as int);
                assert forall|otro: u128|
                    otro != id_producto implies (final(self).contiene(otro) <==> viejo.contiene(
                    otro,
                )) by {
                    if final(self).contiene(otro) {
                        let k = final(self).productos@.index_of(otro);
                        assert(final(self).productos@[k] == otro);
                        if k < i {
                            assert(viejo.productos@[k] == otro);
                            assert(viejo.productos@.contains(otro));
                        } else {
                            assert(k > i);
                            assert(viejo.productos@[k - 1] == otro);
                            assert(viejo.productos@.contains(otro));
                        }
                    }
                    if viejo.contiene(otro) {
                        let k = viejo.indice_de(otro);
                        assert(viejo.productos@[k] == otro);
                        if k < i {
                            assert(final(self).productos@[k] == otro);
                        } else {
                            assert(final(self).productos@[k + 1] == otro);
                        }
                        assert(final(self).productos@.contains(otro));
                    }
                }
                assert forall|otro: u128|
                    otro != id_producto && viejo.contiene(otro) implies final(self).stock_de(otro)
                    == viejo.stock_de(otro) by {
                    let k = viejo.indice_de(otro);
                    assert(viejo.productos@[k] == otro);
                    if k < i {
                        assert(final(self).productos@[k] == otro);
                        final(self).lema_indice_unico(otro, k);
                        assert(final(self).stock@[k] == viejo.stock@[k]);
                    } else {
                        assert(final(self).productos@[k + 1] == otro);
                        final(self).lema_indice_unico(otro, k + 1);
                        assert(final(self).stock@[k + 1] == viejo.stock@[k]);
                    }
                    viejo.lema_indice_unico(otro, k);
                }
            }
        }
    }
}

impl Default for StockProductos {
    /// Un registro vacío: sin productos y sin stock.
    fn default() -> (r: Self)
        ensures
            r.productos@.len() == 0,
            r.stock@.len() == 0,
            r.bien_formado(),
            r@ == Map::<u128, u32>::empty(),
    {
        let r = StockProductos { productos: Vec::new(), stock: Vec::new() };
        proof {
            assert(r@ =~= Map::<u128, u32>::empty());
        }
        r
    }
}

impl View for StockProductos {
    type V = Map<u128, u32>;

    /// El registro, visto como el mapa de ID de producto a stock.
    open spec fn view(&self) -> Map<u128, u32> {
        Map::new(|id: u128| self.contiene(id), |id: u128| self.stock_de(id))
    }
}

/// Copia un vector de valores copiables, elemento por elemento.
pub(crate) fn copiar_vec<T: Copy>(v: &Vec<T>) -> (r: Vec<T>)
    ensures
        r@ == v@,
{
    let mut r: Vec<T> = Vec::new();
    let mut i: usize = 0;
    while i < v.len()
        invariant
            0 <= i <= v@.len(),
            r@ == v@.subrange(0, i as int),
        decreases v@.len() - i,
    {
        r.push(v[i]);
        proof {
            assert(r@ =~= v@.subrange(0, i + 1));
        }
        i = i + 1;
    }
    proof {
        assert(r@ =~= v@);
    }
    r
}

//
// data comprador
//

pub ghost struct DataCompradorV {
    pub compras: Seq<u128>,
    pub disputas: Seq<u128>,
    pub total_calificaciones: u64,
    pub cant_calificaciones: u32,
}

/// Registro del rol comprador: compras hechas, disputas abiertas
/// y calificaciones recibidas como comprador.
#[derive(Debug, Clone, PartialEq, Eq)]
pub struct DataComprador {
    pub compras: Vec<u128>,
    pub disputas: Vec<u128>,
    pub total_calificaciones: u64,
    pub cant_calificaciones: u32,
}

impl View for DataComprador {
    type V = DataCompradorV;

    open spec fn view(&self) -> DataCompradorV {
        DataCompradorV {
            compras: self.compras@,
            disputas: self.disputas@,
            total_calificaciones: self.total_calificaciones,
            cant_calificaciones: self.cant_calificaciones,
        }
    }
}

impl Default for DataComprador {
    /// Un comprador recién registrado: sin compras, disputas ni calificaciones.
    fn default() -> (r: Self)
        ensures
            r@ == (DataCompradorV {
                compras: Seq::empty(),
                disputas: Seq::empty(),
                total_calificaciones: 0,
                cant_calificaciones: 0,
            }),
    {
        DataComprador {
            compras: Vec::new(),
            disputas: Vec::new(),
            total_calificaciones: 0,
            cant_calificaciones: 0,
        }
    }
}

//
// data vendedor
//

pub ghost struct DataVendedorV {
    pub ventas: Seq<u128>,
    pub publicaciones: Seq<u128>,
    pub stock_productos: Map<u128, u32>,
    pub disputas: Seq<u128>,
    pub total_calificaciones: u64,
    pub cant_calificaciones: u32,
}

/// Registro del rol vendedor: ventas, publicaciones, stock en posesión,
/// disputas abiertas y calificaciones recibidas como vendedor.
#[derive(Debug, Clone, PartialEq, Eq)]
pub struct DataVendedor {
    pub ventas: Vec<u128>,
    pub publicaciones: Vec<u128>,
    pub stock_productos: StockProductos,
    pub disputas: Vec<u128>,
    pub total_calificaciones: u64,
    pub cant_calificaciones: u32,
}

impl View for DataVendedor {
    type V = DataVendedorV;

    open spec fn view(&self) -> DataVendedorV {
        DataVendedorV {
            ventas: self.ventas@,
            publicaciones: self.publicaciones@,
            stock_productos: self.stock_productos@,
            disputas: self.disputas@,
            total_calificaciones: self.total_calificaciones,
            cant_calificaciones: self.cant_calificaciones,
        }
    }
}

impl Default for DataVendedor {
    /// Un vendedor recién registrado: sin ventas, publicaciones, stock,
    /// disputas ni calificaciones.
    fn default() -> (r: Self)
        ensures
            r@ == (DataVendedorV {
                ventas: Seq::empty(),
                publicaciones: Seq::empty(),
                stock_productos: Map::empty(),
                disputas: Seq::empty(),
                total_calificaciones: 0,
                cant_calificaciones: 0,
            }),
            r.stock_productos.bien_formado(),
    {
        let r = DataVendedor {
            ventas: Vec::new(),
            publicaciones: Vec::new(),
            stock_productos: StockProductos::default(),
            disputas: Vec::new(),
            total_calificaciones: 0,
            cant_calificaciones: 0,
        };
        r
    }
}

//
// rol
//

/// El rol que un usuario elige al registrarse.
#[derive(Debug, Clone, PartialEq, Eq)]
pub enum RolDeSeleccion {
    Comprador,
    Vendedor,
    Ambos,
}

pub ghost enum RolV {
    Comprador(DataCompradorV),
    Vendedor(DataVendedorV),
    Ambos(DataCompradorV, DataVendedorV),
}

/// El rol asignado de un usuario, con los datos que sólo existen en ese rol.
#[derive(Debug, Clone, PartialEq, Eq)]
pub enum Rol {
    Comprador(DataComprador),
    Vendedor(DataVendedor),
    Ambos(DataComprador, DataVendedor),
}

impl View for Rol {
    type V = RolV;

    open spec fn view(&self) -> RolV {
        match self {
            Rol::Comprador(c) => RolV::Comprador(c@),
            Rol::Vendedor(v) => RolV::Vendedor(v@),
            Rol::Ambos(c, v) => RolV::Ambos(c@, v@),
        }
    }
}

impl RolV {
    pub open spec fn es_comprador(self) -> bool {
        !(self is Vendedor)
    }

    pub open spec fn es_vendedor(self) -> bool {
        !(self is Comprador)
    }

    /// Los datos del rol comprador, si el rol los tiene.
    pub open spec fn data_comprador(self) -> Option<DataCompradorV> {
        match self {
            RolV::Comprador(c) => Some(c),
            RolV::Vendedor(_) => None,
            RolV::Ambos(c, _) => Some(c),
        }
    }

    /// Los datos del rol vendedor, si el rol los tiene.
    pub open spec fn data_vendedor(self) -> Option<DataVendedorV> {
        match self {
            RolV::Comprador(_) => None,
            RolV::Vendedor(v) => Some(v),
            RolV::Ambos(_, v) => Some(v),
        }
    }

    /// El mismo rol con los datos de comprador reemplazados.
    pub open spec fn con_data_comprador(self, c: DataCompradorV) -> RolV {
        match self {
            RolV::Comprador(_) => RolV::Comprador(c),
            RolV::Vendedor(v) => RolV::Vendedor(v),
            RolV::Ambos(_, v) => RolV::Ambos(c, v),
        }
    }

    /// El mismo rol con los datos de vendedor reemplazados.
    pub open spec fn con_data_vendedor(self, v: DataVendedorV) -> RolV {
        match self {
            RolV::Comprador(c) => RolV::Comprador(c),
            RolV::Vendedor(_) => RolV::Vendedor(v),
            RolV::Ambos(c, _) => RolV::Ambos(c, v),
        }
    }

    /// El rol tras registrar una compra más.
    pub open spec fn con_compra(self, id_compra: u128) -> RolV {
        let c = self.data_comprador().unwrap();
        self.con_data_comprador(DataCompradorV { compras: c.compras.push(id_compra), ..c })
    }

    /// El rol tras registrar una venta más.
    pub open spec fn con_venta(self, id_venta: u128) -> RolV {
        let v = self.data_vendedor().unwrap();
        self.con_data_vendedor(DataVendedorV { ventas: v.ventas.push(id_venta), ..v })
    }

    /// El rol tras registrar una publicación más.
    pub open spec fn con_publicacion(self, id_publicacion: u128) -> RolV {
        let v = self.data_vendedor().unwrap();
        self.con_data_vendedor(
            DataVendedorV { publicaciones: v.publicaciones.push(id_publicacion), ..v },
        )
    }

    /// El rol tras fijar el stock de un producto.
    pub open spec fn con_stock(self, id_producto: u128, stock: u32) -> RolV {
        let v = self.data_vendedor().unwrap();
        self.con_data_vendedor(
            DataVendedorV { stock_productos: v.stock_productos.insert(id_producto, stock), ..v },
        )
    }

    /// El rol tras recibir una calificación como comprador.
    pub open spec fn con_calificacion_comprador(self, calificacion: u8) -> RolV {
        let c = self.data_comprador().unwrap();
        self.con_data_comprador(
            DataCompradorV {
                total_calificaciones: (c.total_calificaciones + calificacion) as u64,
                cant_calificaciones: (c.cant_calificaciones + 1) as u32,
                ..c
            },
        )
    }

    /// El rol tras recibir una calificación como vendedor.
    pub open spec fn con_calificacion_vendedor(self, calificacion: u8) -> RolV {
        let v = self.data_vendedor().unwrap();
        self.con_data_vendedor(
            DataVendedorV {
                total_calificaciones: (v.total_calificaciones + calificacion) as u64,
                cant_calificaciones: (v.cant_calificaciones + 1) as u32,
                ..v
            },
        )
    }

    /// El rol tras anotar una disputa abierta del lado comprador.
    pub open spec fn con_disputa_comprador(self, id_disputa: u128) -> RolV {
        let c = self.data_comprador().unwrap();
        self.con_data_comprador(DataCompradorV { disputas: c.disputas.push(id_disputa), ..c })
    }

    /// El rol tras anotar una disputa abierta del lado vendedor.
    pub open spec fn con_disputa_vendedor(self, id_disputa: u128) -> RolV {
        let v = self.data_vendedor().unwrap();
        self.con_data_vendedor(DataVendedorV { disputas: v.disputas.push(id_disputa), ..v })
    }

    /// El rol tras quitar una disputa del índice del lado comprador.
    pub open spec fn sin_disputa_comprador(self, id_disputa: u128) -> RolV {
        let c = self.data_comprador().unwrap();
        self.con_data_comprador(DataCompradorV { disputas: sin_id(c.disputas, id_disputa), ..c })
    }

    /// El rol tras quitar una disputa del índice del lado vendedor.
    pub open spec fn sin_disputa_vendedor(self, id_disputa: u128) -> RolV {
        let v = self.data_vendedor().unwrap();
        self.con_data_vendedor(DataVendedorV { disputas: sin_id(v.disputas, id_disputa), ..v })
    }
}

/// La secuencia sin todas las apariciones de una ID, conservando el orden.
pub open spec fn sin_id(s: Seq<u128>, id: u128) -> Seq<u128>
    decreases s.len(),
{
    if s.len() == 0 {
        Seq::empty()
    } else if s.last() == id {
        sin_id(s.drop_last(), id)
    } else {
        sin_id(s.drop_last(), id).push(s.last())
    }
}

/// Quita de un vector todas las apariciones de una ID.
fn quitar_id(v: &Vec<u128>, id: u128) -> (r: Vec<u128>)
    ensures
        r@ == sin_id(v@, id),
{
    let mut r: Vec<u128> = Vec::new();
    let mut i: usize = 0;
    while i < v.len()
        invariant
            0 <= i <= v@.len(),
            r@ == sin_id(v@.subrange(0, i as int), id),
        decreases v@.len() - i,
    {
        proof {
            assert(v@.subrange(0, i + 1).drop_last() =~= v@.subrange(0, i as int));
            assert(v@.subrange(0, i + 1).last() == v@[i as int]);
        }
        if v[i] != id {
            r.push(v[i]);
        }
        i = i + 1;
    }
    proof {
        assert(v@.subrange(0, v@.len() as int) =~= v@);
    }
    r
}

//
// usuario
//

pub ghost struct UsuarioV {
    pub id: crate::AccountId,
    pub rol: RolV,
}

/// Un usuario registrado, identificado por su cuenta y con su rol.
#[derive(Debug, Clone, PartialEq, Eq)]
pub struct Usuario {
    pub id: crate::AccountId,
    pub rol: Rol,
}

impl View for Usuario {
    type V = UsuarioV;

    open spec fn view(&self) -> UsuarioV {
        UsuarioV { id: self.id, rol: self.rol@ }
    }
}

impl Rol {
    /// El stock del rol, si es vendedor, está bien formado.
    pub open spec fn bien_formado(&self) -> bool {
        match self {
            Rol::Comprador(_) => true,
            Rol::Vendedor(v) => v.stock_productos.bien_formado(),
            Rol::Ambos(_, v) => v.stock_productos.bien_formado(),
        }
    }
}

impl Usuario {
    /// El stock del usuario, si es vendedor, está bien formado.
    pub open spec fn bien_formado(&self) -> bool {
        self.rol.bien_formado()
    }

    /// Inicializa una nueva instancia de Usuario
    pub fn new(id: crate::AccountId, rol: Rol) -> (r: Self)
        ensures
            r.id == id,
            r.rol == rol,
    {
        Usuario { id, rol }
    }

    /// Devuelve true si el rol del usuario es Comprador o Ambos
    pub fn es_comprador(&self) -> (r: bool)
        ensures
            r == self@.rol.es_comprador(),
    {
        match &self.rol {
            Rol::Vendedor(_) => false,
            _ => true,
        }
    }

    /// Devuelve true si el rol del usuario es Vendedor o Ambos
    pub fn es_vendedor(&self) -> (r: bool)
        ensures
            r == self@.rol.es_vendedor(),
    {
        match &self.rol {
            Rol::Comprador(_) => false,
            _ => true,
        }
    }

    /// Devuelve una copia de los datos de comprador del usuario.
    /// Devolverá None si no es comprador.
    pub fn obtener_data_comprador(&self) -> (r: Option<DataComprador>)
        ensures
            match r {
                Some(d) => self@.rol.data_comprador() == Some(d@),
                None => self@.rol.data_comprador() is None,
            },
    {
        match &self.rol {
            Rol::Comprador(c) => Some(copiar_data_comprador(c)),
            Rol::Vendedor(_) => None,
            Rol::Ambos(c, _) => Some(copiar_data_comprador(c)),
        }
    }

    /// Devuelve las compras que haya realizado el usuario.
    /// Devolverá None si no es comprador.
    pub fn obtener_compras(&self) -> (r: Option<Vec<u128>>)
        ensures
            match r {
                Some(c) => self@.rol.data_comprador() is Some && c@
                    == self@.rol.data_comprador().unwrap().compras,
                None => self@.rol.data_comprador() is None,
            },
    {
        match &self.rol {
            Rol::Comprador(c) => Some(copiar_vec(&c.compras)),
            Rol::Vendedor(_) => None,
            Rol::Ambos(c, _) => Some(copiar_vec(&c.compras)),
        }
    }

    /// Devuelve una copia de los datos de vendedor del usuario.
    /// Devolverá None si no es vendedor.
    pub fn obtener_data_vendedor(&self) -> (r: Option<DataVendedor>)
        ensures
            match r {
                Some(d) => self@.rol.data_vendedor() == Some(d@) && (self.bien_formado()
                    ==> d.stock_productos.bien_formado()),
                None => self@.rol.data_vendedor() is None,
            },
    {
        match &self.rol {
            Rol::Comprador(_) => None,
            Rol::Vendedor(v) => Some(copiar_data_vendedor(v)),
            Rol::Ambos(_, v) => Some(copiar_data_vendedor(v)),
        }
    }

    /// Devuelve las ventas que haya realizado el usuario.
    /// Devolverá None si no es vendedor.
    pub fn obtener_ventas(&self) -> (r: Option<Vec<u128>>)
        ensures
            match r {
                Some(v) => self@.rol.data_vendedor() is Some && v@
                    == self@.rol.data_vendedor().unwrap().ventas,
                None => self@.rol.data_vendedor() is None,
            },
    {
        match &self.rol {
            Rol::Comprador(_) => None,
            Rol::Vendedor(v) => Some(copiar_vec(&v.ventas)),
            Rol::Ambos(_, v) => Some(copiar_vec(&v.ventas)),
        }
    }

    /// Devuelve las publicaciones que haya realizado el usuario.
    /// Devolverá None si no es vendedor.
    pub fn obtener_publicaciones(&self) -> (r: Option<Vec<u128>>)
        ensures
            match r {
                Some(p) => self@.rol.data_vendedor() is Some && p@
                    == self@.rol.data_vendedor().unwrap().publicaciones,
                None => self@.rol.data_vendedor() is None,
            },
    {
        match &self.rol {
            Rol::Comprador(_) => None,
            Rol::Vendedor(v) => Some(copiar_vec(&v.publicaciones)),
            Rol::Ambos(_, v) => Some(copiar_vec(&v.publicaciones)),
        }
    }

    /// Devuelve el stock de todos los productos que tenga el usuario.
    /// Devolverá None si no es vendedor.
    pub fn obtener_stock_productos(&self) -> (r: Option<StockProductos>)
        requires
            self.bien_formado(),
        ensures
            match r {
                Some(s) => self@.rol.data_vendedor() is Some && s@
                    == self@.rol.data_vendedor().unwrap().stock_productos && s.bien_formado(),
                None => self@.rol.data_vendedor() is None,
            },
    {
        match &self.rol {
            Rol::Comprador(_) => None,
            Rol::Vendedor(v) => Some(copiar_stock(&v.stock_productos)),
            Rol::Ambos(_, v) => Some(copiar_stock(&v.stock_productos)),
        }
    }

    /// Devuelve el stock de un producto que tenga el usuario.
    ///
    /// Devolverá None si no es vendedor o si el mismo no tiene registro
    /// de stock del producto.
    pub fn obtener_stock_producto(&self, id_producto: &u128) -> (r: Option<u32>)
        requires
            self.bien_formado(),
        ensures
            r == (match self@.rol.data_vendedor() {
                Some(d) => if d.stock_productos.contains_key(*id_producto) {
                    Some(d.stock_productos[*id_producto])
                } else {
                    None
                },
                None => None,
            }),
    {
        match &self.rol {
            Rol::Comprador(_) => None,
            Rol::Vendedor(v) => v.stock_productos.get(id_producto),
            Rol::Ambos(_, v) => v.stock_productos.get(id_producto),
        }
    }
}

/// Copia un registro de datos de comprador, campo por campo.
fn copiar_data_comprador(c: &DataComprador) -> (r: DataComprador)
    ensures
        r@ == c@,
{
    DataComprador {
        compras: copiar_vec(&c.compras),
        disputas: copiar_vec(&c.disputas),
        total_calificaciones: c.total_calificaciones,
        cant_calificaciones: c.cant_calificaciones,
    }
}

/// Copia un registro de stock, campo por campo.
fn copiar_stock(s: &StockProductos) -> (r: StockProductos)
    ensures
        r@ == s@,
        s.bien_formado() ==> r.bien_formado(),
        r.productos@ == s.productos@,
        r.stock@ == s.stock@,
{
    StockProductos { productos: copiar_vec(&s.productos), stock: copiar_vec(&s.stock) }
}

/// Copia un registro de datos de vendedor, campo por campo.
fn copiar_data_vendedor(v: &DataVendedor) -> (r: DataVendedor)
    ensures
        r@ == v@,
        v.stock_productos.bien_formado() ==> r.stock_productos.bien_formado(),
{
    DataVendedor {
        ventas: copiar_vec(&v.ventas),
        publicaciones: copiar_vec(&v.publicaciones),
        stock_productos: copiar_stock(&v.stock_productos),
        disputas: copiar_vec(&v.disputas),
        total_calificaciones: v.total_calificaciones,
        cant_calificaciones: v.cant_calificaciones,
    }
}

impl Usuario {
    /// Arma el usuario de vuelta con nuevos datos de comprador,
    /// conservando los de vendedor si los hay.
    fn con_nueva_data_comprador(&mut self, data: DataComprador)
        requires
            old(self)@.rol.data_comprador() is Some,
        ensures
            final(self).id == old(self).id,
            final(self)@.rol == old(self)@.rol.con_data_comprador(data@),
            old(self).bien_formado() ==> final(self).bien_formado(),
    {
        let nuevo_rol = match &self.rol {
            Rol::Comprador(_) => Rol::Comprador(data),
            Rol::Vendedor(_) => {
                proof {
                    assert(false);
                }
                Rol::Comprador(data)
            },
            Rol::Ambos(_, v) => Rol::Ambos(data, copiar_data_vendedor(v)),
        };
        self.rol = nuevo_rol;
    }

    /// Arma el usuario de vuelta con nuevos datos de vendedor,
    /// conservando los de comprador si los hay.
    fn con_nueva_data_vendedor(&mut self, data: DataVendedor)
        requires
            old(self)@.rol.data_vendedor() is Some,
        ensures
            final(self).id == old(self).id,
            final(self)@.rol == old(self)@.rol.con_data_vendedor(data@),
            data.stock_productos.bien_formado() ==> final(self).bien_formado(),
    {
        let nuevo_rol = match &self.rol {
            Rol::Comprador(c) => {
                proof {
                    assert(false);
                }
                Rol::Comprador(copiar_data_comprador(c))
            },
            Rol::Vendedor(_) => Rol::Vendedor(data),
            Rol::Ambos(c, _) => Rol::Ambos(copiar_data_comprador(c), data),
        };
        self.rol = nuevo_rol;
    }

    /// Añade una compra al vector de compras del rol del usuario.
    ///
    /// Devuelve true si la compra pudo agregarse.
    /// Devolverá false si el usuario no es comprador.
    /// No verifica que la compra exista.
    pub fn agregar_compra(&mut self, id_compra: u128) -> (r: bool)
        ensures
            r == old(self)@.rol.es_comprador(),
            r ==> final(self).id == old(self).id && final(self)@.rol == old(self)@.rol.con_compra(
                id_compra,
            ),
            !r ==> *final(self) == *old(self),
            old(self).bien_formado() ==> final(self).bien_formado(),
    {
        let Some(mut data) = self.obtener_data_comprador() else { return false };
        data.compras.push(id_compra);
        self.con_nueva_data_comprador(data);
        true
    }

    /// Añade una venta al vector de ventas del rol del usuario.
    ///
    /// Devuelve true si la venta pudo agregarse.
    /// Devolverá false si el usuario no es vendedor.
    /// No verifica que la venta exista.
    pub fn agregar_venta(&mut self, id_venta: u128) -> (r: bool)
        ensures
            r == old(self)@.rol.es_vendedor(),
            r ==> final(self).id == old(self).id && final(self)@.rol == old(self)@.rol.con_venta(
                id_venta,
            ),
            !r ==> *final(self) == *old(self),
            old(self).bien_formado() ==> final(self).bien_formado(),
    {
        let Some(mut data) = self.obtener_data_vendedor() else { return false };
        data.ventas.push(id_venta);
        self.con_nueva_data_vendedor(data);
        true
    }

    /// Añade una publicación al vector de publicaciones del rol del usuario.
    ///
    /// Devuelve true si la publicación pudo agregarse.
    /// Devolverá false si el usuario no es vendedor.
    /// No verifica que la publicación exista.
    pub fn agregar_publicacion(&mut self, id_publicacion: u128) -> (r: bool)
        ensures
            r == old(self)@.rol.es_vendedor(),
            r ==> final(self).id == old(self).id && final(self)@.rol == old(self)@.rol.con_publicacion(id_publicacion),
            !r ==> *final(self) == *old(self),
            old(self).bien_formado() ==> final(self).bien_formado(),
    {
        let Some(mut data) = self.obtener_data_vendedor() else { return false };
        data.publicaciones.push(id_publicacion);
        self.con_nueva_data_vendedor(data);
        true
    }

    /// Modifica el stock de un producto en el registro del rol del usuario.
    ///
    /// Devuelve true si el stock pudo modificarse.
    /// Devolverá false si el usuario no es vendedor.
    /// No verifica que el producto exista.
    pub fn establecer_stock_producto(&mut self, id_producto: &u128, stock: &u32) -> (r: bool)
        requires
            old(self).bien_formado(),
        ensures
            r == old(self)@.rol.es_vendedor(),
            r ==> final(self).id == old(self).id && final(self)@.rol == old(self)@.rol.con_stock(
                *id_producto,
                *stock,
            ),
            !r ==> *final(self) == *old(self),
            final(self).bien_formado(),
    {
        let Some(mut data) = self.obtener_data_vendedor() else { return false };
        data.stock_productos.insert(*id_producto, *stock);
        proof {
            assert(data.stock_productos@ =~= old(self)@.rol.data_vendedor().unwrap().stock_productos.insert(*id_producto, *stock));
        }
        self.con_nueva_data_vendedor(data);
        true
    }

    /// Califica al usuario como comprador.
    ///
    /// Devolverá true si la operación fue exitosa o false en caso contrario:
    /// calificación fuera de 1..=5, usuario sin rol comprador, o suma que
    /// desbordaría los acumuladores.
    pub fn calificar_como_comprador(&mut self, calificacion: u8) -> (r: bool)
        ensures
            r == ({
                let d = old(self)@.rol.data_comprador();
                &&& 1 <= calificacion <= 5
                &&& d is Some
                &&& d.unwrap().total_calificaciones + calificacion <= u64::MAX
                &&& d.unwrap().cant_calificaciones + 1 <= u32::MAX
            }),
            r ==> final(self).id == old(self).id && final(self)@.rol == old(self)@.rol.con_calificacion_comprador(calificacion),
            !r ==> *final(self) == *old(self),
            old(self).bien_formado() ==> final(self).bien_formado(),
    {
        if calificacion < 1 || calificacion > 5 {
            return false;
        }
        let Some(mut data) = self.obtener_data_comprador() else { return false };
        let Some(nuevo_total) = data.total_calificaciones.checked_add(calificacion as u64) else {
            return false
        };
        let Some(nueva_cant) = data.cant_calificaciones.checked_add(1) else { return false };
        data.total_calificaciones = nuevo_total;
        data.cant_calificaciones = nueva_cant;
        self.con_nueva_data_comprador(data);
        true
    }

    /// Califica al usuario como vendedor.
    ///
    /// Devolverá true si la operación fue exitosa o false en caso contrario:
    /// calificación fuera de 1..=5, usuario sin rol vendedor, o suma que
    /// desbordaría los acumuladores.
    pub fn calificar_como_vendedor(&mut self, calificacion: u8) -> (r: bool)
        ensures
            r == ({
                let d = old(self)@.rol.data_vendedor();
                &&& 1 <= calificacion <= 5
                &&& d is Some
                &&& d.unwrap().total_calificaciones + calificacion <= u64::MAX
                &&& d.unwrap().cant_calificaciones + 1 <= u32::MAX
            }),
            r ==> final(self).id == old(self).id && final(self)@.rol == old(self)@.rol.con_calificacion_vendedor(calificacion),
            !r ==> *final(self) == *old(self),
            old(self).bien_formado() ==> final(self).bien_formado(),
    {
        if calificacion < 1 || calificacion > 5 {
            return false;
        }
        let Some(mut data) = self.obtener_data_vendedor() else { return false };
        let Some(nuevo_total) = data.total_calificaciones.checked_add(calificacion as u64) else {
            return false
        };
        let Some(nueva_cant) = data.cant_calificaciones.checked_add(1) else { return false };
        data.total_calificaciones = nuevo_total;
        data.cant_calificaciones = nueva_cant;
        self.con_nueva_data_vendedor(data);
        true
    }

    /// Anota una disputa abierta en el índice del lado comprador.
    pub fn agregar_disputa_comprador(&mut self, id_disputa: u128) -> (r: bool)
        ensures
            r == old(self)@.rol.es_comprador(),
            r ==> final(self).id == old(self).id && final(self)@.rol == old(self)@.rol.con_disputa_comprador(id_disputa),
            !r ==> *final(self) == *old(self),
            old(self).bien_formado() ==> final(self).bien_formado(),
    {
        let Some(mut data) = self.obtener_data_comprador() else { return false };
        data.disputas.push(id_disputa);
        self.con_nueva_data_comprador(data);
        true
    }

    /// Anota una disputa abierta en el índice del lado vendedor.
    pub fn agregar_disputa_vendedor(&mut self, id_disputa: u128) -> (r: bool)
        ensures
            r == old(self)@.rol.es_vendedor(),
            r ==> final(self).id == old(self).id && final(self)@.rol == old(self)@.rol.con_disputa_vendedor(id_disputa),
            !r ==> *final(self) == *old(self),
            old(self).bien_formado() ==> final(self).bien_formado(),
    {
        let Some(mut data) = self.obtener_data_vendedor() else { return false };
        data.disputas.push(id_disputa);
        self.con_nueva_data_vendedor(data);
        true
    }

    /// Quita una disputa del índice del lado comprador.
    pub fn eliminar_disputa_comprador(&mut self, id_disputa: u128) -> (r: bool)
        ensures
            r == old(self)@.rol.es_comprador(),
            r ==> final(self).id == old(self).id && final(self)@.rol == old(self)@.rol.sin_disputa_comprador(id_disputa),
            !r ==> *final(self) == *old(self),
            old(self).bien_formado() ==> final(self).bien_formado(),
    {
        let Some(mut data) = self.obtener_data_comprador() else { return false };
        data.disputas = quitar_id(&data.disputas, id_disputa);
        self.con_nueva_data_comprador(data);
        true
    }

    /// Quita una disputa del índice del lado vendedor.
    pub fn eliminar_disputa_vendedor(&mut self, id_disputa: u128) -> (r: bool)
        ensures
            r == old(self)@.rol.es_vendedor(),
            r ==> final(self).id == old(self).id && final(self)@.rol == old(self)@.rol.sin_disputa_vendedor(id_disputa),
            !r ==> *final(self) == *old(self),
            old(self).bien_formado() ==> final(self).bien_formado(),
    {
        let Some(mut data) = self.obtener_data_vendedor() else { return false };
        data.disputas = quitar_id(&data.disputas, id_disputa);
        self.con_nueva_data_vendedor(data);
        true
    }
}

/// Copia un rol, campo por campo.
fn copiar_rol(rol: &Rol) -> (r: Rol)
    ensures
        r@ == rol@,
        rol.bien_formado() ==> r.bien_formado(),
{
    match rol {
        Rol::Comprador(c) => Rol::Comprador(copiar_data_comprador(c)),
        Rol::Vendedor(v) => Rol::Vendedor(copiar_data_vendedor(v)),
        Rol::Ambos(c, v) => Rol::Ambos(copiar_data_comprador(c), copiar_data_vendedor(v)),
    }
}

/// Copia un usuario, campo por campo.
pub(crate) fn clonar_usuario(u: &Usuario) -> (r: Usuario)
    ensures
        r@ == u@,
        r.id == u.id,
        u.bien_formado() ==> r.bien_formado(),
{
    Usuario { id: u.id, rol: copiar_rol(&u.rol) }
}

//
// errores
//

#[derive(Debug, Clone, PartialEq, Eq)]
pub enum ErrorRegistrarUsuario {
    UsuarioYaExiste,
}

#[derive(Debug, Clone, PartialEq, Eq)]
pub enum ErrorAscenderRolUsuario {
    UsuarioInexistente,
    MaximoRolAsignado,
}

//
// impl Usuario -> RustaceoLibre
//

/// El rol con que nace un usuario según su selección: datos vacíos.
pub open spec fn rol_inicial(rol: RolDeSeleccion) -> RolV {
    let c = DataCompradorV {
        compras: Seq::empty(),
        disputas: Seq::empty(),
        total_calificaciones: 0,
        cant_calificaciones: 0,
    };
    let v = DataVendedorV {
        ventas: Seq::empty(),
        publicaciones: Seq::empty(),
        stock_productos: Map::empty(),
        disputas: Seq::empty(),
        total_calificaciones: 0,
        cant_calificaciones: 0,
    };
    match rol {
        RolDeSeleccion::Comprador => RolV::Comprador(c),
        RolDeSeleccion::Vendedor => RolV::Vendedor(v),
        RolDeSeleccion::Ambos => RolV::Ambos(c, v),
    }
}

/// El rol ascendido a Ambos sin perder información; sólo tiene sentido
/// para un rol que no sea ya Ambos.
pub open spec fn rol_ascendido(rol: RolV) -> RolV {
    let c = DataCompradorV {
        compras: Seq::empty(),
        disputas: Seq::empty(),
        total_calificaciones: 0,
        cant_calificaciones: 0,
    };
    let v = DataVendedorV {
        ventas: Seq::empty(),
        publicaciones: Seq::empty(),
        stock_productos: Map::empty(),
        disputas: Seq::empty(),
        total_calificaciones: 0,
        cant_calificaciones: 0,
    };
    match rol {
        RolV::Comprador(datos) => RolV::Ambos(datos, v),
        RolV::Vendedor(datos) => RolV::Ambos(c, datos),
        RolV::Ambos(dc, dv) => RolV::Ambos(dc, dv),
    }
}

impl crate::RustaceoLibre {
    /// Registra un usuario en el mapa de usuarios con el rol que eligió.
    ///
    /// Devuelve error si el usuario ya existe.
    pub fn registrar_usuario(&mut self, caller: crate::AccountId, rol: RolDeSeleccion) -> (r:
        Result<(), ErrorRegistrarUsuario>)
        ensures
            old(self).usuarios@.contains_key(caller) ==> r == Err::<(),
                ErrorRegistrarUsuario,
            >(ErrorRegistrarUsuario::UsuarioYaExiste) && *final(self) == *old(self),
            !old(self).usuarios@.contains_key(caller) ==> r is Ok && *final(self) == (
            crate::RustaceoLibre { usuarios: final(self).usuarios, ..*old(self) }) && final(self).usuarios@ == old(self).usuarios@.insert(caller, final(self).usuarios@[caller])
                && final(self).usuarios@[caller]@ == (UsuarioV {
                id: caller,
                rol: rol_inicial(rol),
            }),
            old(self).bien_formado() ==> final(self).bien_formado(),
    {
        if self.usuarios.contains_key(&caller) {
            return Err(ErrorRegistrarUsuario::UsuarioYaExiste);
        }
        let rol = match rol {
            RolDeSeleccion::Comprador => Rol::Comprador(DataComprador::default()),
            RolDeSeleccion::Vendedor => Rol::Vendedor(DataVendedor::default()),
            RolDeSeleccion::Ambos => Rol::Ambos(DataComprador::default(), DataVendedor::default()),
        };
        let usuario = Usuario::new(caller, rol);
        self.usuarios.insert(caller, usuario);
        proof {
            assert forall|quien: crate::AccountId|
                final(self).usuarios@.contains_key(quien) && old(self).bien_formado() implies (
            #[trigger] final(self).usuarios@[quien]).bien_formado() by {
                if quien != caller {
                    assert(old(self).usuarios@.contains_key(quien));
                    assert(old(self).usuarios@[quien].bien_formado());
                }
            }
        }
        Ok(())
    }

    /// Si el usuario es Vendedor o Comprador, cambia su rol a Ambos
    /// sin perder información.
    ///
    /// Devuelve error si el usuario no existe o ya posee el rol Ambos.
    pub fn ascender_rol_usuario(&mut self, caller: crate::AccountId) -> (r: Result<(),
        ErrorAscenderRolUsuario>)
        ensures
            !old(self).usuarios@.contains_key(caller) ==> r == Err::<(),
                ErrorAscenderRolUsuario,
            >(ErrorAscenderRolUsuario::UsuarioInexistente) && *final(self) == *old(self),
            old(self).usuarios@.contains_key(caller) && old(self).usuarios@[caller]@.rol is Ambos
                ==> r == Err::<(), ErrorAscenderRolUsuario>(
                ErrorAscenderRolUsuario::MaximoRolAsignado,
            ) && *final(self) == *old(self),
            old(self).usuarios@.contains_key(caller) && !(old(self).usuarios@[caller]@.rol
                is Ambos) ==> r is Ok && *final(self) == (crate::RustaceoLibre {
                usuarios: final(self).usuarios,
                ..*old(self)
            }) && final(self).usuarios@ == old(self).usuarios@.insert(
                caller,
                final(self).usuarios@[caller],
            ) && final(self).usuarios@[caller]@ == (UsuarioV {
                id: old(self).usuarios@[caller]@.id,
                rol: rol_ascendido(old(self).usuarios@[caller]@.rol),
            }),
            old(self).bien_formado() ==> final(self).bien_formado(),
    {
        let Some(usuario) = self.usuarios.get(&caller) else {
            return Err(ErrorAscenderRolUsuario::UsuarioInexistente);
        };
        let id = usuario.id;
        let nuevo_rol = match &usuario.rol {
            Rol::Comprador(compras) => Rol::Ambos(
                copiar_data_comprador(compras),
                DataVendedor::default(),
            ),
            Rol::Vendedor(data_vendedor) => Rol::Ambos(
                DataComprador::default(),
                copiar_data_vendedor(data_vendedor),
            ),
            _ => { return Err(ErrorAscenderRolUsuario::MaximoRolAsignado) },
        };
        let nuevo = Usuario::new(id, nuevo_rol);
        self.usuarios.insert(caller, nuevo);
        proof {
            assert forall|quien: crate::AccountId|
                final(self).usuarios@.contains_key(quien) && old(self).bien_formado() implies (
            #[trigger] final(self).usuarios@[quien]).bien_formado() by {
                if quien != caller {
                    assert(old(self).usuarios@.contains_key(quien));
                    assert(old(self).usuarios@[quien].bien_formado());
                }
            }
        }
        Ok(())
    }

    /// Ver la calificación histórica promedio del usuario como comprador,
    /// tal como el mercado la publica: el primer byte en orden big-endian
    /// del promedio entero.
    ///
    /// Devolverá None si no es comprador o no tiene calificaciones.
    pub fn ver_calificacion_comprador(&self, caller: crate::AccountId) -> (r: Option<u8>)
        ensures
            r == ({
                if !self.usuarios@.contains_key(caller) {
                    None::<u8>
                } else {
                    match self.usuarios@[caller]@.rol.data_comprador() {
                        Option::None => None::<u8>,
                        Option::Some(d) => if d.cant_calificaciones == 0 {
                            None::<u8>
                        } else {
                            Some(
                                (((d.total_calificaciones as u64) / (d.cant_calificaciones as u64))
                                    >> 56u64) as u8,
                            )
                        },
                    }
                }
            }),
    {
        let Some(usuario) = self.usuarios.get(&caller) else { return None };
        let (total, cant) = match &usuario.rol {
            Rol::Comprador(d) => (d.total_calificaciones, d.cant_calificaciones),
            Rol::Vendedor(_) => { return None },
            Rol::Ambos(d, _) => (d.total_calificaciones, d.cant_calificaciones),
        };
        if cant == 0 {
            return None;
        }
        let promedio = total / (cant as u64);
        Some((promedio >> 56u64) as u8)
    }

    /// Ver la calificación histórica promedio del usuario como vendedor,
    /// tal como el mercado la publica: el primer byte en orden big-endian
    /// del promedio entero.
    ///
    /// Devolverá None si no es vendedor o no tiene calificaciones.
    pub fn ver_calificacion_vendedor(&self, caller: crate::AccountId) -> (r: Option<u8>)
        ensures
            r == ({
                if !self.usuarios@.contains_key(caller) {
                    None::<u8>
                } else {
                    match self.usuarios@[caller]@.rol.data_vendedor() {
                        Option::None => None::<u8>,
                        Option::Some(d) => if d.cant_calificaciones == 0 {
                            None::<u8>
                        } else {
                            Some(
                                (((d.total_calificaciones as u64) / (d.cant_calificaciones as u64))
                                    >> 56u64) as u8,
                            )
                        },
                    }
                }
            }),
    {
        let Some(usuario) = self.usuarios.get(&caller) else { return None };
        let (total, cant) = match &usuario.rol {
            Rol::Comprador(_) => { return None },
            Rol::Vendedor(d) => (d.total_calificaciones, d.cant_calificaciones),
            Rol::Ambos(_, d) => (d.total_calificaciones, d.cant_calificaciones),
        };
        if cant == 0 {
            return None;
        }
        let promedio = total / (cant as u64);
        Some((promedio >> 56u64) as u8)
    }
}

} // verus!
