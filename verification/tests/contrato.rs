use rustaceo_libre::usuario::RolDeSeleccion;
use rustaceo_libre::RustaceoLibre;

const DUENIO: u128 = 999;

#[test]
fn new_works() {
    let rustaceo_libre = RustaceoLibre::new(1000, DUENIO);
    assert_eq!(rustaceo_libre.pedidos_siguiente_id, 0);
    assert_eq!(rustaceo_libre.calcular_tarifa_de_servicio(1000), 1000);
}

#[test]
fn default_works() {
    let rustaceo_libre = RustaceoLibre::default(DUENIO);
    assert_eq!(rustaceo_libre.pedidos_siguiente_id, 0);
}

#[test]
fn next_id_works() {
    let mut rustaceo_libre = RustaceoLibre::default(DUENIO);

    assert_eq!(rustaceo_libre.next_id_pedidos(), 0);
    assert_eq!(rustaceo_libre.next_id_pedidos(), 1);
    assert_eq!(rustaceo_libre.next_id_productos(), 0);
    assert_eq!(rustaceo_libre.next_id_productos(), 1);
    assert_eq!(rustaceo_libre.next_id_publicaciones(), 0);
    assert_eq!(rustaceo_libre.next_id_publicaciones(), 1);

    rustaceo_libre.pedidos_siguiente_id = u128::MAX;
    rustaceo_libre.productos_siguiente_id = u128::MAX;
    rustaceo_libre.publicaciones_siguiente_id = u128::MAX;

    assert_eq!(rustaceo_libre.next_id_pedidos(), 0);
    assert_eq!(rustaceo_libre.next_id_productos(), 0);
    assert_eq!(rustaceo_libre.next_id_publicaciones(), 0);
}

#[test]
fn test_ver_usuarios_compradores_vendedores() {
    let mut rustaceo_libre = RustaceoLibre::default(DUENIO);

    let cuenta_c = 0x1;
    assert!(rustaceo_libre
        .registrar_usuario(cuenta_c, RolDeSeleccion::Comprador)
        .is_ok());

    let cuenta_v = 0x2;
    assert!(rustaceo_libre
        .registrar_usuario(cuenta_v, RolDeSeleccion::Vendedor)
        .is_ok());

    let cuenta_a = 0x3;
    assert!(rustaceo_libre
        .registrar_usuario(cuenta_a, RolDeSeleccion::Ambos)
        .is_ok());

    assert_eq!(rustaceo_libre.ver_usuarios_compradores().len(), 2);
    assert_eq!(rustaceo_libre.ver_usuarios_vendedores().len(), 2);
}

#[test]
fn next_id_disputas_works() {
    let mut rustaceo_libre = RustaceoLibre::default(DUENIO);

    assert_eq!(rustaceo_libre.next_id_disputas(), 0);
    assert_eq!(rustaceo_libre.next_id_disputas(), 1);

    rustaceo_libre.disputas_siguiente_id = u128::MAX;
    assert_eq!(rustaceo_libre.next_id_disputas(), 0);
    assert_eq!(rustaceo_libre.disputas_siguiente_id, 1);
}

#[test]
fn agregar_y_eliminar_staff_funcionan() {
    let mut contrato = RustaceoLibre::default(DUENIO);
    let staff = 7;
    let usuario_comun = 8;

    contrato
        .registrar_usuario(usuario_comun, RolDeSeleccion::Comprador)
        .unwrap();

    // sólo el dueño puede agregar
    assert!(!contrato.agregar_staff(usuario_comun, staff));
    // un usuario registrado no puede ser staff
    assert!(!contrato.agregar_staff(DUENIO, usuario_comun));
    // agregado exitoso
    assert!(contrato.agregar_staff(DUENIO, staff));
    // no se agrega dos veces
    assert!(!contrato.agregar_staff(DUENIO, staff));

    // sólo el dueño puede eliminar
    assert!(!contrato.eliminar_staff(usuario_comun, staff));
    // eliminado exitoso
    assert!(contrato.eliminar_staff(DUENIO, staff));
    // ya no está en la lista
    assert!(!contrato.eliminar_staff(DUENIO, staff));
}

#[test]
fn ver_id_listados_reflejan_los_mapas() {
    let mut contrato = RustaceoLibre::default(DUENIO);
    let vendedor = 1;

    contrato
        .registrar_usuario(vendedor, RolDeSeleccion::Vendedor)
        .unwrap();

    assert_eq!(contrato.ver_id_productos().len(), 0);
    assert_eq!(contrato.ver_id_publicaciones().len(), 0);
    assert_eq!(contrato.ver_id_pedidos().len(), 0);

    let id_producto = contrato
        .registrar_producto(
            vendedor,
            "Pala".into(),
            "De acero".into(),
            rustaceo_libre::producto::CategoriaProducto::Ferreteria,
            4,
        )
        .unwrap();
    let id_publicacion = contrato
        .realizar_publicacion(vendedor, id_producto, 2, 50)
        .unwrap();

    assert_eq!(contrato.ver_id_productos(), vec![id_producto]);
    assert_eq!(contrato.ver_id_publicaciones(), vec![id_publicacion]);
}

#[test]
fn ver_cantidad_compras_cuenta_las_compras() {
    let mut contrato = RustaceoLibre::default(DUENIO);
    let comprador = 1;
    let vendedor = 2;

    assert_eq!(contrato.ver_cantidad_compras(comprador), None);

    contrato
        .registrar_usuario(comprador, RolDeSeleccion::Comprador)
        .unwrap();
    contrato
        .registrar_usuario(vendedor, RolDeSeleccion::Vendedor)
        .unwrap();

    assert_eq!(contrato.ver_cantidad_compras(comprador), Some(0));
    assert_eq!(contrato.ver_cantidad_compras(vendedor), None);

    let id_producto = contrato
        .registrar_producto(
            vendedor,
            "Taza".into(),
            "De loza".into(),
            rustaceo_libre::producto::CategoriaProducto::Hogar,
            3,
        )
        .unwrap();
    let id_publicacion = contrato
        .realizar_publicacion(vendedor, id_producto, 3, 10)
        .unwrap();
    contrato
        .comprar_producto(0, comprador, id_publicacion, 1, 10)
        .unwrap();

    assert_eq!(contrato.ver_cantidad_compras(comprador), Some(1));
}

#[test]
fn ver_calificacion_comprador_pedido_funciona() {
    let mut contrato = RustaceoLibre::default(DUENIO);
    let comprador = 1;
    let vendedor = 2;

    assert_eq!(contrato.ver_calificacion_comprador_pedido(0), None);

    contrato
        .registrar_usuario(comprador, RolDeSeleccion::Comprador)
        .unwrap();
    contrato
        .registrar_usuario(vendedor, RolDeSeleccion::Vendedor)
        .unwrap();

    contrato.pedidos.insert(
        0,
        rustaceo_libre::pedido::Pedido {
            id: 0,
            timestamp: 0,
            publicacion: 0,
            cantidad_comprada: 1,
            valor_total: 100,
            fondos_fueron_transferidos: true,
            estado: rustaceo_libre::pedido::EstadoPedido::Recibido(10),
            comprador,
            vendedor,
            calificacion_comprador: None,
            calificacion_vendedor: None,
            disputa: None,
            primer_solicitud_cancelacion: None,
        },
    );

    assert_eq!(contrato.ver_calificacion_comprador_pedido(0), None);

    contrato.calificar_pedido(comprador, 0, 5).unwrap();
    assert_eq!(contrato.ver_calificacion_comprador_pedido(0), Some(5));
}
