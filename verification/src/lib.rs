//! Un mercado entre pares con custodia de fondos: las compras crean
//! pedidos cuyo valor queda retenido por la plataforma hasta que el
//! comprador confirma la recepción, el vendedor lo reclama por plazo
//! vencido, ambos cancelan de común acuerdo, o el staff arbitra una
//! disputa. El núcleo es una máquina de estados pura: recibe la
//! identidad del llamador, la marca de tiempo y el valor transferido
//! como argumentos, y devuelve las órdenes de pago como datos; leer el
//! entorno y mover fondos es asunto del anfitrión que la aloja.
//!
//! Cada operación declara en su contrato exactamente cuándo acepta,
//! con qué error rechaza y cómo queda el estado; las leyes del módulo
//! `leyes` enuncian y prueban las propiedades que atraviesan varias
//! operaciones: conservación de stock, liquidación exactamente una
//! vez, estados sólo hacia adelante, cancelación por mutuo acuerdo,
//! una sola disputa por pedido y la cota de la tarifa.

use vstd::prelude::*;

pub mod disputa;
pub mod leyes;
pub mod pedido;
pub mod producto;
pub mod publicacion;
pub mod usuario;

verus! {

use std::collections::BTreeMap;
use vstd::std_specs::iter::IteratorSpec;
use vstd::std_specs::cmp::OrdSpec;

use crate::disputa::Disputa;
use crate::pedido::Pedido;
use crate::producto::Producto;
use crate::publicacion::Publicacion;
use crate::usuario::Usuario;

/// La identidad de una cuenta, tal como la entrega el entorno anfitrión:
/// el núcleo nunca autentica, sólo compara identidades.
pub type AccountId = u128;

//
// RustaceoLibre: estado del mercado
//

/// El estado completo del mercado: usuarios, pedidos, disputas, productos,
/// publicaciones, los contadores de ID y la administración (dueño y staff).
///
/// Toda operación lo recibe por referencia; el tiempo, la identidad del
/// llamador y el valor transferido entran como argumentos, y toda orden de
/// pago sale como valor de retorno: mover fondos es asunto del anfitrión.
#[derive(Debug)]
pub struct RustaceoLibre {
    /// <ID del usuario, Usuario>
    pub usuarios: BTreeMap<AccountId, Usuario>,
    /// <ID, Pedido>
    pub pedidos: BTreeMap<u128, Pedido>,
    /// <ID, Disputa>
    pub disputas_en_curso: BTreeMap<u128, Disputa>,
    pub disputas_resueltas: BTreeMap<u128, Disputa>,
    /// <ID, Producto>
    pub productos: BTreeMap<u128, Producto>,
    /// <ID, Publicacion>
    pub publicaciones: BTreeMap<u128, Publicacion>,
    /// Lleva un recuento de la próxima ID disponible para los pedidos.
    pub pedidos_siguiente_id: u128,
    /// Lleva un recuento de la próxima ID disponible para las disputas.
    pub disputas_siguiente_id: u128,
    /// Lleva un recuento de la próxima ID disponible para los productos.
    pub productos_siguiente_id: u128,
    /// Lleva un recuento de la próxima ID disponible para las publicaciones.
    pub publicaciones_siguiente_id: u128,
    /// total de la tarifa: total_compra * tarifa_de_servicio / 1_000
    pub tarifa_de_servicio: u128,
    /// ID del dueño del mercado
    pub owner: AccountId,
    /// Staff declarado por el dueño.
    pub staff: Vec<AccountId>,
}

/// La tarifa que la plataforma descuenta de un monto `valor`, con la
/// regla del mercado: `(valor / 1000) * tarifa`, truncando la división
/// antes de multiplicar; si la multiplicación desbordara, la tarifa
/// degrada a cero en lugar de frustrar la liquidación.
pub open spec fn tarifa_de(tarifa: u128, valor: u128) -> u128 {
    if (valor as int / 1000) * (tarifa as int) > u128::MAX {
        0
    } else {
        ((valor as int / 1000) * (tarifa as int)) as u128
    }
}

impl RustaceoLibre {
    /// Cada usuario registrado está guardado bajo su propia ID y, si es
    /// vendedor, su stock está bien formado.
    pub open spec fn bien_formado(&self) -> bool {
        forall|quien: AccountId|
            self.usuarios@.contains_key(quien) ==> (#[trigger] self.usuarios@[quien]).bien_formado()
                && self.usuarios@[quien].id == quien
    }

    /// El usuario es parte del personal del mercado: está en la lista de
    /// staff o es el dueño.
    pub open spec fn es_staff(&self, quien: AccountId) -> bool {
        self.staff@.contains(quien) || quien == self.owner
    }

    /// Reemplazar o agregar un solo usuario bien formado conserva la buena
    /// forma de todo el mercado.
    pub proof fn lema_bien_formado_insertar(&self, despues: &RustaceoLibre, quien: AccountId)
        requires
            self.bien_formado(),
            despues.usuarios@ == self.usuarios@.insert(quien, despues.usuarios@[quien]),
            despues.usuarios@[quien].bien_formado(),
            despues.usuarios@[quien].id == quien,
        ensures
            despues.bien_formado(),
    {
        assert forall|a: AccountId| despues.usuarios@.contains_key(a) implies (
        #[trigger] despues.usuarios@[a]).bien_formado() && despues.usuarios@[a].id == a by {
            if a != quien {
                assert(self.usuarios@.contains_key(a));
                assert(self.usuarios@[a].bien_formado());
            }
        }
    }

    /// Crea una nueva instancia de RustaceoLibre, con el llamador
    /// que la despliega como dueño.
    pub fn new(tarifa_de_servicio: u128, owner: AccountId) -> (r: Self)
        ensures
            r.usuarios@ == Map::<AccountId, Usuario>::empty(),
            r.pedidos@ == Map::<u128, Pedido>::empty(),
            r.disputas_en_curso@ == Map::<u128, Disputa>::empty(),
            r.disputas_resueltas@ == Map::<u128, Disputa>::empty(),
            r.productos@ == Map::<u128, Producto>::empty(),
            r.publicaciones@ == Map::<u128, Publicacion>::empty(),
            r.pedidos_siguiente_id == 0,
            r.disputas_siguiente_id == 0,
            r.productos_siguiente_id == 0,
            r.publicaciones_siguiente_id == 0,
            r.tarifa_de_servicio == tarifa_de_servicio,
            r.owner == owner,
            r.staff@ == Seq::<AccountId>::empty(),
            r.bien_formado(),
    {
        RustaceoLibre {
            usuarios: BTreeMap::new(),
            pedidos: BTreeMap::new(),
            disputas_en_curso: BTreeMap::new(),
            disputas_resueltas: BTreeMap::new(),
            productos: BTreeMap::new(),
            publicaciones: BTreeMap::new(),
            pedidos_siguiente_id: 0,
            disputas_siguiente_id: 0,
            productos_siguiente_id: 0,
            publicaciones_siguiente_id: 0,
            tarifa_de_servicio,
            owner,
            staff: Vec::new(),
        }
    }

    /// Constructor por defecto (ídem `new`): la tarifa de servicio es 0.
    pub fn default(owner: AccountId) -> (r: Self)
        ensures
            r.usuarios@ == Map::<AccountId, Usuario>::empty(),
            r.pedidos@ == Map::<u128, Pedido>::empty(),
            r.disputas_en_curso@ == Map::<u128, Disputa>::empty(),
            r.disputas_resueltas@ == Map::<u128, Disputa>::empty(),
            r.productos@ == Map::<u128, Producto>::empty(),
            r.publicaciones@ == Map::<u128, Publicacion>::empty(),
            r.pedidos_siguiente_id == 0,
            r.disputas_siguiente_id == 0,
            r.productos_siguiente_id == 0,
            r.publicaciones_siguiente_id == 0,
            r.tarifa_de_servicio == 0,
            r.owner == owner,
            r.staff@ == Seq::<AccountId>::empty(),
            r.bien_formado(),
    {
        Self::new(0, owner)
    }

    //
    // tarifa de servicio
    //

    /// Calcula la tarifa de servicio que corresponde a un valor de compra.
    pub fn calcular_tarifa_de_servicio(&self, valor_compra: u128) -> (r: u128)
        ensures
            r == tarifa_de(self.tarifa_de_servicio, valor_compra),
    {
        let Some(tarifa_servicio) = valor_compra.checked_div(1000) else { return 0 };
        let Some(tarifa_servicio) = tarifa_servicio.checked_mul(self.tarifa_de_servicio) else {
            return 0
        };
        tarifa_servicio
    }

    /// El monto que se le gira a quien cobra un valor: el valor menos la
    /// tarifa de servicio; si la tarifa superara el valor, se gira el valor
    /// completo sin descuento.
    pub fn descontar_tarifa(&self, valor: u128) -> (r: u128)
        ensures
            tarifa_de(self.tarifa_de_servicio, valor) <= valor ==> r == valor - tarifa_de(
                self.tarifa_de_servicio,
                valor,
            ),
            tarifa_de(self.tarifa_de_servicio, valor) > valor ==> r == valor,
    {
        let tarifa_servicio = self.calcular_tarifa_de_servicio(valor);
        let Some(valor_final) = valor.checked_sub(tarifa_servicio) else { return valor };
        valor_final
    }

    //
    // OWNER / STAFF
    //

    /// Sólo ejecutable por el dueño.
    /// Incluye a la ID designada como miembro del staff, otorgándole permisos.
    ///
    /// Devolverá true si la operación fue exitosa.
    /// Devolverá false si `caller` no es el dueño o la ID que se quiere
    /// incluir es un usuario registrado o ya es staff: un miembro del staff
    /// no puede nunca actuar como usuario.
    pub fn agregar_staff(&mut self, caller: AccountId, id_staff: AccountId) -> (r: bool)
        ensures
            r == (caller == old(self).owner && !old(self).usuarios@.contains_key(id_staff)
                && !old(self).staff@.contains(id_staff)),
            r ==> *final(self) == (RustaceoLibre { staff: final(self).staff, ..*old(self) })
                && final(self).staff@ == old(self).staff@.push(id_staff),
            !r ==> *final(self) == *old(self),
    {
        if caller != self.owner {
            return false;
        }
        if self.usuarios.contains_key(&id_staff) {
            return false;
        }
        if self.staff_contiene(id_staff) {
            return false;
        }
        self.staff.push(id_staff);
        true
    }

    /// Sólo ejecutable por el dueño.
    /// Elimina a la ID designada de la lista de miembros del staff,
    /// quitándole permisos.
    ///
    /// Devolverá true si la operación fue exitosa.
    /// Devolverá false si `caller` no es el dueño o la ID no está en la lista.
    pub fn eliminar_staff(&mut self, caller: AccountId, id_staff: AccountId) -> (r: bool)
        ensures
            r == (caller == old(self).owner && old(self).staff@.contains(id_staff)),
            r ==> *final(self) == (RustaceoLibre { staff: final(self).staff, ..*old(self) }),
            r ==> exists|i: int|
                0 <= i < old(self).staff@.len() && old(self).staff@[i] == id_staff && (forall|
                    j: int,
                |
                    0 <= j < i ==> old(self).staff@[j] != id_staff) && final(self).staff@ == old(self).staff@.remove(i),
            !r ==> *final(self) == *old(self),
    {
        if caller != self.owner {
            return false;
        }
        let mut i: usize = 0;
        while i < self.staff.len()
            invariant
                *self == *old(self),
                caller == old(self).owner,
                0 <= i <= self.staff@.len(),
                forall|j: int| 0 <= j < i ==> self.staff@[j] != id_staff,
            decreases self.staff@.len() - i,
        {
            if self.staff[i] == id_staff {
                self.staff.remove(i);
                proof {
                    let k = i as int;
                    assert(0 <= k < old(self).staff@.len() && old(self).staff@[k] == id_staff && (
                    forall|j: int| 0 <= j < k ==> old(self).staff@[j] != id_staff) && self.staff@
                        == old(self).staff@.remove(k));
                    assert(old(self).staff@.contains(id_staff));
                }
                return true;
            }
            i = i + 1;
        }
        false
    }

    /// Busca una ID en la lista de staff.
    pub(crate) fn staff_contiene(&self, id_staff: AccountId) -> (r: bool)
        ensures
            r == self.staff@.contains(id_staff),
    {
        let mut i: usize = 0;
        while i < self.staff.len()
            invariant
                0 <= i <= self.staff@.len(),
                forall|j: int| 0 <= j < i ==> self.staff@[j] != id_staff,
            decreases self.staff@.len() - i,
        {
            if self.staff[i] == id_staff {
                return true;
            }
            i = i + 1;
        }
        false
    }

    //
    // listados de IDs
    //

    /// Devuelve un vector con la ID de la totalidad de los pedidos
    /// realizados, en orden creciente.
    pub fn ver_id_pedidos(&self) -> (r: Vec<u128>)
        ensures
            r@.to_set() == self.pedidos@.dom(),
            r@.no_duplicates(),
            r@.len() == self.pedidos@.dom().len(),
            forall|i: int, j: int| 0 <= i < j < r@.len() ==> r@[i] < r@[j],
    {
        claves(&self.pedidos)
    }

    /// Devuelve un vector con la ID de la totalidad de los productos
    /// registrados, en orden creciente.
    pub fn ver_id_productos(&self) -> (r: Vec<u128>)
        ensures
            r@.to_set() == self.productos@.dom(),
            r@.no_duplicates(),
            r@.len() == self.productos@.dom().len(),
            forall|i: int, j: int| 0 <= i < j < r@.len() ==> r@[i] < r@[j],
    {
        claves(&self.productos)
    }

    /// Devuelve un vector con la ID de la totalidad de las publicaciones
    /// realizadas, en orden creciente.
    pub fn ver_id_publicaciones(&self) -> (r: Vec<u128>)
        ensures
            r@.to_set() == self.publicaciones@.dom(),
            r@.no_duplicates(),
            r@.len() == self.publicaciones@.dom().len(),
            forall|i: int, j: int| 0 <= i < j < r@.len() ==> r@[i] < r@[j],
    {
        claves(&self.publicaciones)
    }

    /// Devuelve un listado, sin repetidos, con las IDs de todos los
    /// usuarios registrados como compradores (rol Comprador o Ambos).
    pub fn ver_usuarios_compradores(&self) -> (r: Vec<AccountId>)
        ensures
            r@.no_duplicates(),
            forall|a: AccountId| #[trigger]
                r@.contains(a) <==> (self.usuarios@.contains_key(a)
                    && self.usuarios@[a]@.rol.es_comprador()),
    {
        self.ver_usuarios_con_rol(false)
    }

    /// Devuelve un listado, sin repetidos, con las IDs de todos los
    /// usuarios registrados como vendedores (rol Vendedor o Ambos).
    pub fn ver_usuarios_vendedores(&self) -> (r: Vec<AccountId>)
        ensures
            r@.no_duplicates(),
            forall|a: AccountId| #[trigger]
                r@.contains(a) <==> (self.usuarios@.contains_key(a)
                    && self.usuarios@[a]@.rol.es_vendedor()),
    {
        self.ver_usuarios_con_rol(true)
    }

    /// Recorre los usuarios y devuelve las IDs de quienes tienen el lado
    /// pedido del rol: el vendedor si `vendedor`, el comprador si no.
    fn ver_usuarios_con_rol(&self, vendedor: bool) -> (r: Vec<AccountId>)
        ensures
            r@.no_duplicates(),
            forall|a: AccountId| #[trigger]
                r@.contains(a) <==> (self.usuarios@.contains_key(a) && (if vendedor {
                    self.usuarios@[a]@.rol.es_vendedor()
                } else {
                    self.usuarios@[a]@.rol.es_comprador()
                })),
    {
        let ids = claves(&self.usuarios);
        let mut r: Vec<AccountId> = Vec::new();
        let ghost todas = ids@;
        let mut i: usize = 0;
        while i < ids.len()
            invariant
                todas == ids@,
                todas.to_set() == self.usuarios@.dom(),
                todas.no_duplicates(),
                0 <= i <= todas.len(),
                r@ == ids_con_rol(todas.subrange(0, i as int), self.usuarios@, vendedor),
            decreases todas.len() - i,
        {
            proof {
                assert(todas.subrange(0, i + 1).drop_last() =~= todas.subrange(0, i as int));
                assert(todas.subrange(0, i + 1).last() == todas[i as int]);
            }
            if let Some(u) = self.usuarios.get(&ids[i]) {
                let con_rol = if vendedor {
                    u.es_vendedor()
                } else {
                    u.es_comprador()
                };
                if con_rol {
                    r.push(ids[i]);
                }
            }
            i = i + 1;
        }
        proof {
            assert(todas.subrange(0, todas.len() as int) =~= todas);
            lema_ids_con_rol(todas, self.usuarios@, vendedor);
            assert forall|a: AccountId| #[trigger]
                r@.contains(a) <==> (self.usuarios@.contains_key(a) && (if vendedor {
                    self.usuarios@[a]@.rol.es_vendedor()
                } else {
                    self.usuarios@[a]@.rol.es_comprador()
                })) by {
                if self.usuarios@.contains_key(a) {
                    assert(todas.to_set().contains(a));
                }
            }
        }
        r
    }

    /// Devuelve la cantidad de compras que el usuario realizó.
    ///
    /// Devolverá None si el usuario no existe o no es comprador.
    pub fn ver_cantidad_compras(&self, user: AccountId) -> (r: Option<u128>)
        ensures
            r == (if self.usuarios@.contains_key(user) && self.usuarios@[user]@.rol.data_comprador()
                is Some {
                Some(self.usuarios@[user]@.rol.data_comprador().unwrap().compras.len() as u128)
            } else {
                None::<u128>
            }),
    {
        let Some(usuario) = self.usuarios.get(&user) else { return None };
        match &usuario.rol {
            usuario::Rol::Comprador(c) => Some(c.compras.len() as u128),
            usuario::Rol::Vendedor(_) => None,
            usuario::Rol::Ambos(c, _) => Some(c.compras.len() as u128),
        }
    }

    /// Devuelve la calificación que el comprador dejó en un pedido.
    ///
    /// Devolverá None si el pedido no existe o aún no fue calificado.
    pub fn ver_calificacion_comprador_pedido(&self, id_pedido: u128) -> (r: Option<u8>)
        ensures
            r == (if self.pedidos@.contains_key(id_pedido) {
                self.pedidos@[id_pedido].calificacion_comprador
            } else {
                None::<u8>
            }),
    {
        let Some(pedido) = self.pedidos.get(&id_pedido) else { return None };
        pedido.calificacion_comprador
    }

    //
    // IDs siguientes
    //

    /// Devuelve la siguiente ID disponible para pedidos.
    ///
    /// Si la próxima ID causaría desborde, devuelve 0 y reinicia la cuenta.
    pub fn next_id_pedidos(&mut self) -> (r: u128)
        ensures
            *final(self) == (RustaceoLibre {
                pedidos_siguiente_id: final(self).pedidos_siguiente_id,
                ..*old(self)
            }),
            old(self).pedidos_siguiente_id == u128::MAX ==> r == 0
                && final(self).pedidos_siguiente_id == 1,
            old(self).pedidos_siguiente_id < u128::MAX ==> r == old(self).pedidos_siguiente_id
                && final(self).pedidos_siguiente_id == old(self).pedidos_siguiente_id + 1,
    {
        let id = self.pedidos_siguiente_id;
        let Some(add_res) = self.pedidos_siguiente_id.checked_add(1) else {
            self.pedidos_siguiente_id = 1;
            return 0;
        };
        self.pedidos_siguiente_id = add_res;
        id
    }

    /// Devuelve la siguiente ID disponible para disputas.
    ///
    /// Si la próxima ID causaría desborde, devuelve 0 y reinicia la cuenta.
    pub fn next_id_disputas(&mut self) -> (r: u128)
        ensures
            *final(self) == (RustaceoLibre {
                disputas_siguiente_id: final(self).disputas_siguiente_id,
                ..*old(self)
            }),
            old(self).disputas_siguiente_id == u128::MAX ==> r == 0
                && final(self).disputas_siguiente_id == 1,
            old(self).disputas_siguiente_id < u128::MAX ==> r == old(self).disputas_siguiente_id
                && final(self).disputas_siguiente_id == old(self).disputas_siguiente_id + 1,
    {
        let id = self.disputas_siguiente_id;
        let Some(add_res) = self.disputas_siguiente_id.checked_add(1) else {
            self.disputas_siguiente_id = 1;
            return 0;
        };
        self.disputas_siguiente_id = add_res;
        id
    }

    /// Devuelve la siguiente ID disponible para productos.
    ///
    /// Si la próxima ID causaría desborde, devuelve 0 y reinicia la cuenta.
    pub fn next_id_productos(&mut self) -> (r: u128)
        ensures
            *final(self) == (RustaceoLibre {
                productos_siguiente_id: final(self).productos_siguiente_id,
                ..*old(self)
            }),
            old(self).productos_siguiente_id == u128::MAX ==> r == 0
                && final(self).productos_siguiente_id == 1,
            old(self).productos_siguiente_id < u128::MAX ==> r == old(self).productos_siguiente_id
                && final(self).productos_siguiente_id == old(self).productos_siguiente_id + 1,
    {
        let id = self.productos_siguiente_id;
        let Some(add_res) = self.productos_siguiente_id.checked_add(1) else {
            self.productos_siguiente_id = 1;
            return 0;
        };
        self.productos_siguiente_id = add_res;
        id
    }

    /// Devuelve la siguiente ID disponible para publicaciones.
    ///
    /// Si la próxima ID causaría desborde, devuelve 0 y reinicia la cuenta.
    pub fn next_id_publicaciones(&mut self) -> (r: u128)
        ensures
            *final(self) == (RustaceoLibre {
                publicaciones_siguiente_id: final(self).publicaciones_siguiente_id,
                ..*old(self)
            }),
            old(self).publicaciones_siguiente_id == u128::MAX ==> r == 0
                && final(self).publicaciones_siguiente_id == 1,
            old(self).publicaciones_siguiente_id < u128::MAX ==> r == old(self).publicaciones_siguiente_id
                && final(self).publicaciones_siguiente_id == old(self).publicaciones_siguiente_id + 1,
    {
        let id = self.publicaciones_siguiente_id;
        let Some(add_res) = self.publicaciones_siguiente_id.checked_add(1) else {
            self.publicaciones_siguiente_id = 1;
            return 0;
        };
        self.publicaciones_siguiente_id = add_res;
        id
    }
}

/// Las IDs de la lista cuyos usuarios existen y tienen el lado pedido
/// del rol: el vendedor si `vendedor`, el comprador si no.
pub open spec fn ids_con_rol(
    ids: Seq<AccountId>,
    m: Map<AccountId, Usuario>,
    vendedor: bool,
) -> Seq<AccountId>
    decreases ids.len(),
{
    if ids.len() == 0 {
        Seq::empty()
    } else {
        let resto = ids_con_rol(ids.drop_last(), m, vendedor);
        let a = ids.last();
        if m.contains_key(a) && (if vendedor {
            m[a]@.rol.es_vendedor()
        } else {
            m[a]@.rol.es_comprador()
        }) {
            resto.push(a)
        } else {
            resto
        }
    }
}

/// Qué contiene el filtrado por rol: exactamente las IDs de la lista cuyo
/// usuario existe y tiene ese lado del rol, sin ganar repetidos.
proof fn lema_ids_con_rol(ids: Seq<AccountId>, m: Map<AccountId, Usuario>, vendedor: bool)
    ensures
        forall|a: AccountId| #[trigger]
            ids_con_rol(ids, m, vendedor).contains(a) <==> (ids.contains(a) && m.contains_key(a)
                && (if vendedor {
                m[a]@.rol.es_vendedor()
            } else {
                m[a]@.rol.es_comprador()
            })),
        ids.no_duplicates() ==> ids_con_rol(ids, m, vendedor).no_duplicates(),
    decreases ids.len(),
{
    if ids.len() == 0 {
        assert forall|a: AccountId| #[trigger]
            ids_con_rol(ids, m, vendedor).contains(a) <==> (ids.contains(a) && m.contains_key(a)
                && (if vendedor {
                m[a]@.rol.es_vendedor()
            } else {
                m[a]@.rol.es_comprador()
            })) by {
            if ids.contains(a) {
                let j = choose|j: int| 0 <= j < ids.len() && ids[j] == a;
            }
        }
    } else {
        let previas = ids.drop_last();
        lema_ids_con_rol(previas, m, vendedor);
        let resto = ids_con_rol(previas, m, vendedor);
        let ultima = ids.last();
        assert forall|a: AccountId| #[trigger]
            ids_con_rol(ids, m, vendedor).contains(a) <==> (ids.contains(a) && m.contains_key(a)
                && (if vendedor {
                m[a]@.rol.es_vendedor()
            } else {
                m[a]@.rol.es_comprador()
            })) by {
            let s2 = ids_con_rol(ids, m, vendedor);
            let cond_ultima = m.contains_key(ultima) && (if vendedor {
                m[ultima]@.rol.es_vendedor()
            } else {
                m[ultima]@.rol.es_comprador()
            });
            if cond_ultima {
                assert(s2 == resto.push(ultima));
                assert(s2[s2.len() - 1] == ultima);
                assert(s2.contains(ultima));
            } else {
                assert(s2 == resto);
            }
            assert(ids[ids.len() - 1] == ultima);
            assert(ids.contains(ultima));
            if ids.contains(a) && a != ultima {
                let j = choose|j: int| 0 <= j < ids.len() && ids[j] == a;
                assert(previas[j] == a);
                assert(previas.contains(a));
            }
            if previas.contains(a) {
                let j = choose|j: int| 0 <= j < previas.len() && previas[j] == a;
                assert(ids[j] == a);
                assert(ids.contains(a));
            }
            if s2.contains(a) {
                let j = choose|j: int| 0 <= j < s2.len() && s2[j] == a;
                if j < resto.len() {
                    assert(resto[j] == a);
                    assert(resto.contains(a));
                }
            }
            if resto.contains(a) {
                let j = choose|j: int| 0 <= j < resto.len() && resto[j] == a;
                assert(s2[j] == a);
                assert(s2.contains(a));
            }
        }
        if ids.no_duplicates() {
            assert(previas.no_duplicates());
            if m.contains_key(ultima) && (if vendedor {
                m[ultima]@.rol.es_vendedor()
            } else {
                m[ultima]@.rol.es_comprador()
            }) {
                assert(!previas.contains(ultima)) by {
                    if previas.contains(ultima) {
                        let j = choose|j: int| 0 <= j < previas.len() && previas[j] == ultima;
                        assert(ids[j] == ids[ids.len() - 1]);
                    }
                }
                assert(!resto.contains(ultima));
                assert forall|x: int, y: int|
                    0 <= x < ids_con_rol(ids, m, vendedor).len() && 0 <= y < ids_con_rol(
                        ids,
                        m,
                        vendedor,
                    ).len() && x != y implies ids_con_rol(ids, m, vendedor)[x] != ids_con_rol(
                    ids,
                    m,
                    vendedor,
                )[y] by {
                    let s2 = ids_con_rol(ids, m, vendedor);
                    if x < resto.len() && y < resto.len() {
                    } else if x < resto.len() {
                        assert(s2[y] == ultima);
                        assert(resto[x] == s2[x]);
                        assert(resto.contains(s2[x]));
                    } else {
                        assert(s2[x] == ultima);
                        assert(resto[y] == s2[y]);
                        assert(resto.contains(s2[y]));
                    }
                }
            }
        }
    }
}

/// Las claves del mapa de disputas, como vector creciente y sin repetidos.
pub(crate) fn claves_de_disputas(m: &BTreeMap<u128, Disputa>) -> (r: Vec<u128>)
    ensures
        r@.to_set() == m@.dom(),
        r@.no_duplicates(),
        r@.len() == m@.dom().len(),
        forall|i: int, j: int| 0 <= i < j < r@.len() ==> r@[i] < r@[j],
{
    claves(m)
}

/// Las claves de un mapa, como vector creciente y sin repetidos:
/// exactamente el dominio del mapa, en orden.
fn claves<V>(m: &BTreeMap<u128, V>) -> (r: Vec<u128>)
    ensures
        r@.to_set() == m@.dom(),
        r@.no_duplicates(),
        r@.len() == m@.dom().len(),
        forall|i: int, j: int| 0 <= i < j < r@.len() ==> r@[i] < r@[j],
{
    let ghost s = vstd::std_specs::btree::spec_keys_iter(m).remaining();
    let mut r: Vec<u128> = Vec::new();
    for k in it: m.keys()
        invariant
            it.seq() == s,
            r@.len() == it.index(),
            forall|j: int| 0 <= j < r@.len() ==> r@[j] == *s[j],
    {
        r.push(*k);
    }
    proof {
        vstd::std_specs::btree::axiom_spec_keys_iter(m);
        assert(r@.len() == s.len());
        assert(r@ =~= s.unref());
        assert(r@.to_set() == m@.dom());
        assert(r@.no_duplicates()) by {
            assert(s.no_duplicates());
            assert forall|i: int, j: int|
                0 <= i < r@.len() && 0 <= j < r@.len() && i != j implies r@[i] != r@[j] by {
                assert(s[i] != s[j]);
            }
        }
        assert(vstd::laws_cmp::obeys_cmp::<u128>());
        assert(vstd::laws_cmp::obeys_cmp::<&u128>());
        vstd::std_specs::btree::axiom_increasing_seq_meaning::<&u128>(s);
        assert forall|i: int, j: int| 0 <= i < j < r@.len() implies r@[i] < r@[j] by {
            assert(<&u128 as OrdSpec>::cmp_spec(&s[i], &s[j]) is Less);
        }
    }
    r
}

} // verus!
