use rustaceo_libre::usuario::{
    DataComprador, DataVendedor, ErrorAscenderRolUsuario, ErrorRegistrarUsuario, Rol,
    RolDeSeleccion, StockProductos, Usuario,
};
use rustaceo_libre::RustaceoLibre;

const DUENIO: u128 = 999;

fn ctam(b: u8) -> u128 {
    b as u128
}

#[test]
fn registrar_usuario_funciona_correctamente() {
    let mut contrato = RustaceoLibre::default(DUENIO);

    let cuenta = ctam(0x1);

    // registro exitoso
    let resultado = contrato.registrar_usuario(cuenta, RolDeSeleccion::Comprador);
    assert_eq!(resultado, Ok(()));

    // fallo por registrar el mismo usuario
    let resultado_repetido = contrato.registrar_usuario(cuenta, RolDeSeleccion::Vendedor);
    assert_eq!(
        resultado_repetido,
        Err(ErrorRegistrarUsuario::UsuarioYaExiste)
    );
}

#[test]
fn ascender_rol_usuario_funciona_correctamente() {
    let mut contrato = RustaceoLibre::default(DUENIO);
    let cuenta = ctam(0x2);

    // ascender sin registrar al usuario: error
    let resultado_inexistente = contrato.ascender_rol_usuario(cuenta);
    assert_eq!(
        resultado_inexistente,
        Err(ErrorAscenderRolUsuario::UsuarioInexistente)
    );

    let _ = contrato.registrar_usuario(cuenta, RolDeSeleccion::Comprador);

    // asciende correctamente a Ambos
    let resultado_ascenso = contrato.ascender_rol_usuario(cuenta);
    assert_eq!(resultado_ascenso, Ok(()));

    // ascender nuevamente: error por ya tener rol Ambos
    let resultado_reintento = contrato.ascender_rol_usuario(cuenta);
    assert_eq!(
        resultado_reintento,
        Err(ErrorAscenderRolUsuario::MaximoRolAsignado)
    );
}

#[test]
fn ascender_rol_usuario_falla_si_ya_es_ambos() {
    let mut contrato = RustaceoLibre::default(DUENIO);
    let cuenta = ctam(0x7);

    assert!(contrato
        .registrar_usuario(cuenta, RolDeSeleccion::Comprador)
        .is_ok());

    assert!(contrato.ascender_rol_usuario(cuenta).is_ok());

    assert_eq!(
        contrato.ascender_rol_usuario(cuenta),
        Err(ErrorAscenderRolUsuario::MaximoRolAsignado)
    );
}

#[test]
fn ascender_rol_usuario_falla_usuario_inexistente() {
    let mut contrato = RustaceoLibre::default(DUENIO);
    let cuenta_inexistente = ctam(0x8);

    assert_eq!(
        contrato.ascender_rol_usuario(cuenta_inexistente),
        Err(ErrorAscenderRolUsuario::UsuarioInexistente)
    );
}

#[test]
fn registrar_usuario_falla_si_ya_existe() {
    let mut contrato = RustaceoLibre::default(DUENIO);
    let cuenta = ctam(0x9);

    assert_eq!(
        contrato.registrar_usuario(cuenta, RolDeSeleccion::Comprador),
        Ok(())
    );

    assert_eq!(
        contrato.registrar_usuario(cuenta, RolDeSeleccion::Comprador),
        Err(ErrorRegistrarUsuario::UsuarioYaExiste)
    );
}

#[test]
fn agregar_compra_funciona_correctamente() {
    let mut contrato = RustaceoLibre::default(DUENIO);
    let cuenta = ctam(0x10);

    assert!(contrato
        .registrar_usuario(cuenta, RolDeSeleccion::Comprador)
        .is_ok());

    if let Some(usuario) = contrato.usuarios.get(&cuenta) {
        let mut usuario = usuario.clone();
        assert!(usuario.agregar_compra(1001));
        contrato.usuarios.insert(cuenta, usuario);
    }

    if let Some(usuario) = contrato.usuarios.get(&cuenta) {
        assert_eq!(usuario.obtener_compras(), Some(vec![1001]));
    }
}

#[test]
fn agregar_venta_funciona_correctamente() {
    let mut contrato = RustaceoLibre::default(DUENIO);
    let cuenta = ctam(0x11);

    assert!(contrato
        .registrar_usuario(cuenta, RolDeSeleccion::Vendedor)
        .is_ok());

    if let Some(usuario) = contrato.usuarios.get(&cuenta) {
        let mut usuario = usuario.clone();
        assert!(usuario.agregar_venta(2001));
        contrato.usuarios.insert(cuenta, usuario);
    }

    if let Some(usuario) = contrato.usuarios.get(&cuenta) {
        assert_eq!(usuario.obtener_ventas(), Some(vec![2001]));
    }
}

#[test]
fn agregar_publicacion_funciona_correctamente() {
    let mut contrato = RustaceoLibre::default(DUENIO);
    let cuenta = ctam(0x12);

    assert!(contrato
        .registrar_usuario(cuenta, RolDeSeleccion::Vendedor)
        .is_ok());

    if let Some(usuario) = contrato.usuarios.get(&cuenta) {
        let mut usuario = usuario.clone();
        assert!(usuario.agregar_publicacion(3001));
        contrato.usuarios.insert(cuenta, usuario);
    }

    if let Some(usuario) = contrato.usuarios.get(&cuenta) {
        assert_eq!(usuario.obtener_publicaciones(), Some(vec![3001]));
    }
}

#[test]
fn establecer_stock_producto_funciona_correctamente() {
    let mut contrato = RustaceoLibre::default(DUENIO);
    let cuenta = ctam(0x13);

    assert!(contrato
        .registrar_usuario(cuenta, RolDeSeleccion::Vendedor)
        .is_ok());

    if let Some(usuario) = contrato.usuarios.get(&cuenta) {
        let mut usuario = usuario.clone();
        let id_producto = 4001u128;
        let stock = 50u32;
        assert!(usuario.establecer_stock_producto(&id_producto, &stock));
        contrato.usuarios.insert(cuenta, usuario);
    }

    if let Some(usuario) = contrato.usuarios.get(&cuenta) {
        assert_eq!(usuario.obtener_stock_producto(&4001u128), Some(50));
    }
}

#[test]
fn calificar_como_comprador_funciona_correctamente() {
    let mut contrato = RustaceoLibre::default(DUENIO);
    let cuenta = ctam(0x14);

    assert!(contrato
        .registrar_usuario(cuenta, RolDeSeleccion::Comprador)
        .is_ok());

    if let Some(usuario) = contrato.usuarios.get(&cuenta) {
        let mut usuario = usuario.clone();
        assert!(usuario.calificar_como_comprador(5));
        contrato.usuarios.insert(cuenta, usuario);
    }

    if let Some(usuario) = contrato.usuarios.get(&cuenta) {
        let data = usuario.obtener_data_comprador().unwrap();
        assert_eq!(data.total_calificaciones, 5);
        assert_eq!(data.cant_calificaciones, 1);
    }
}

#[test]
fn calificar_como_comprador_falla_con_calificacion_invalida() {
    let mut contrato = RustaceoLibre::default(DUENIO);
    let cuenta = ctam(0x15);

    assert!(contrato
        .registrar_usuario(cuenta, RolDeSeleccion::Comprador)
        .is_ok());

    if let Some(usuario) = contrato.usuarios.get(&cuenta) {
        let mut usuario = usuario.clone();
        assert_eq!(usuario.calificar_como_comprador(0), false);
        assert_eq!(usuario.calificar_como_comprador(6), false);
    }
}

#[test]
fn calificar_como_vendedor_funciona_correctamente() {
    let mut contrato = RustaceoLibre::default(DUENIO);
    let cuenta = ctam(0x16);

    assert!(contrato
        .registrar_usuario(cuenta, RolDeSeleccion::Vendedor)
        .is_ok());

    if let Some(usuario) = contrato.usuarios.get(&cuenta) {
        let mut usuario = usuario.clone();
        assert!(usuario.calificar_como_vendedor(4));
        contrato.usuarios.insert(cuenta, usuario);
    }

    if let Some(usuario) = contrato.usuarios.get(&cuenta) {
        let data = usuario.obtener_data_vendedor().unwrap();
        assert_eq!(data.total_calificaciones, 4);
        assert_eq!(data.cant_calificaciones, 1);
    }
}

#[test]
fn calificar_como_vendedor_falla_con_calificacion_invalida() {
    let mut contrato = RustaceoLibre::default(DUENIO);
    let cuenta = ctam(0x17);

    assert!(contrato
        .registrar_usuario(cuenta, RolDeSeleccion::Vendedor)
        .is_ok());

    if let Some(usuario) = contrato.usuarios.get(&cuenta) {
        let mut usuario = usuario.clone();
        assert_eq!(usuario.calificar_como_vendedor(0), false);
        assert_eq!(usuario.calificar_como_vendedor(6), false);
    }
}

#[test]
fn ver_calificacion_comprador_devuelve_none_si_no_es_comprador() {
    let mut contrato = RustaceoLibre::default(DUENIO);
    let cuenta = ctam(0x18);

    assert!(contrato
        .registrar_usuario(cuenta, RolDeSeleccion::Vendedor)
        .is_ok());

    assert_eq!(contrato.ver_calificacion_comprador(cuenta), None);
}

#[test]
fn ver_calificacion_vendedor_devuelve_none_si_no_es_vendedor() {
    let mut contrato = RustaceoLibre::default(DUENIO);
    let cuenta = ctam(0x19);

    assert!(contrato
        .registrar_usuario(cuenta, RolDeSeleccion::Comprador)
        .is_ok());

    assert_eq!(contrato.ver_calificacion_vendedor(cuenta), None);
}

#[test]
fn es_comprador_y_es_vendedor_funcionan_correctamente() {
    let comprador = Usuario::new(ctam(0x20), Rol::Comprador(DataComprador::default()));
    assert!(comprador.es_comprador());
    assert!(!comprador.es_vendedor());

    let vendedor = Usuario::new(ctam(0x21), Rol::Vendedor(DataVendedor::default()));
    assert!(!vendedor.es_comprador());
    assert!(vendedor.es_vendedor());

    let ambos = Usuario::new(
        ctam(0x22),
        Rol::Ambos(DataComprador::default(), DataVendedor::default()),
    );
    assert!(ambos.es_comprador());
    assert!(ambos.es_vendedor());
}

#[test]
fn obtener_stock_productos_y_obtener_stock_producto_funcionan() {
    let mut vendedor = Usuario::new(ctam(0x23), Rol::Vendedor(DataVendedor::default()));

    assert_eq!(
        vendedor.obtener_stock_productos().unwrap().productos.len(),
        0
    );
    assert_eq!(vendedor.obtener_stock_producto(&123u128), None);

    assert!(vendedor.establecer_stock_producto(&123u128, &10));
    assert_eq!(vendedor.obtener_stock_producto(&123u128), Some(10));

    assert_eq!(vendedor.obtener_stock_producto(&999u128), None);
}

#[test]
fn agregar_compra_falla_si_usuario_no_es_comprador() {
    let mut vendedor = Usuario::new(ctam(0x24), Rol::Vendedor(DataVendedor::default()));
    assert!(!vendedor.agregar_compra(5001));
}

#[test]
fn agregar_venta_falla_si_usuario_no_es_vendedor() {
    let mut comprador = Usuario::new(ctam(0x25), Rol::Comprador(DataComprador::default()));
    assert!(!comprador.agregar_venta(6001));
}

#[test]
fn agregar_publicacion_falla_si_usuario_no_es_vendedor() {
    let mut comprador = Usuario::new(ctam(0x26), Rol::Comprador(DataComprador::default()));
    assert!(!comprador.agregar_publicacion(7001));
}

#[test]
fn establecer_stock_producto_falla_si_usuario_no_es_vendedor() {
    let mut comprador = Usuario::new(ctam(0x27), Rol::Comprador(DataComprador::default()));
    let stock = 10u32;
    assert!(!comprador.establecer_stock_producto(&123u128, &stock));
}

#[test]
fn stock_productos_insert_y_get_funcionan_correctamente() {
    let mut stock = StockProductos::default();

    // insertar producto nuevo
    stock.insert(1u128, 10);
    assert_eq!(stock.get(&1u128), Some(10));

    // insertar producto en orden correcto (menor)
    stock.insert(0u128, 5);
    assert_eq!(stock.get(&0u128), Some(5));

    // insertar producto en orden correcto (mayor)
    stock.insert(2u128, 20);
    assert_eq!(stock.get(&2u128), Some(20));

    // actualizar producto existente
    stock.insert(1u128, 15);
    assert_eq!(stock.get(&1u128), Some(15));

    // buscar producto inexistente
    assert_eq!(stock.get(&99u128), None);
}

#[test]
fn calificar_como_comprador_acepta_valores_limite() {
    let mut usuario = Usuario::new(ctam(0x9), Rol::Comprador(DataComprador::default()));

    assert!(usuario.calificar_como_comprador(1));
    assert!(usuario.calificar_como_comprador(5));
}

#[test]
fn calificar_como_vendedor_acepta_valores_limite() {
    let mut usuario = Usuario::new(ctam(0x10), Rol::Vendedor(DataVendedor::default()));

    assert!(usuario.calificar_como_vendedor(1));
    assert!(usuario.calificar_como_vendedor(5));
}

#[test]
fn agregar_compra_no_duplica_compras() {
    let mut usuario = Usuario::new(ctam(0x20), Rol::Comprador(DataComprador::default()));
    assert!(usuario.agregar_compra(123));
    // agregar la misma compra otra vez
    assert!(usuario.agregar_compra(123));
    // efectivamente hay dos: la lógica no impide duplicados
    assert_eq!(usuario.obtener_compras().unwrap().len(), 2);
}

#[test]
fn agregar_venta_no_duplica_ventas() {
    let mut usuario = Usuario::new(ctam(0x21), Rol::Vendedor(DataVendedor::default()));
    assert!(usuario.agregar_venta(456));
    assert!(usuario.agregar_venta(456));
    assert_eq!(usuario.obtener_ventas().unwrap().len(), 2);
}

#[test]
fn calificar_como_comprador_no_modifica_si_usuario_no_comprador() {
    let mut usuario = Usuario::new(ctam(0x22), Rol::Vendedor(DataVendedor::default()));
    assert_eq!(usuario.calificar_como_comprador(3), false);
}

#[test]
fn calificar_como_vendedor_no_modifica_si_usuario_no_vendedor() {
    let mut usuario = Usuario::new(ctam(0x23), Rol::Comprador(DataComprador::default()));
    assert_eq!(usuario.calificar_como_vendedor(3), false);
}

#[test]
fn obtener_stock_producto_no_panico_con_usuario_sin_stock() {
    let usuario = Usuario::new(ctam(0x24), Rol::Vendedor(DataVendedor::default()));
    // no tiene productos
    assert_eq!(usuario.obtener_stock_producto(&999u128), None);
}

#[test]
fn establecer_stock_producto_modifica_correctamente_stock_existente() {
    let mut usuario = Usuario::new(ctam(0x25), Rol::Vendedor(DataVendedor::default()));
    assert!(usuario.establecer_stock_producto(&1u128, &10));
    assert_eq!(usuario.obtener_stock_producto(&1u128), Some(10));
    // cambiar el stock del mismo producto
    assert!(usuario.establecer_stock_producto(&1u128, &20));
    assert_eq!(usuario.obtener_stock_producto(&1u128), Some(20));
}

#[test]
fn calificaciones_promedio_comprador_y_vendedor_sin_calificaciones_devuelven_none() {
    let mut usuario = Usuario::new(
        ctam(0x26),
        Rol::Ambos(DataComprador::default(), DataVendedor::default()),
    );
    // sin calificaciones aún
    assert_eq!(usuario.calificar_como_comprador(0), false);
    assert_eq!(usuario.calificar_como_vendedor(0), false);

    let contrato = RustaceoLibre::default(DUENIO);
    assert_eq!(contrato.ver_calificacion_comprador(usuario.id), None);
    assert_eq!(contrato.ver_calificacion_vendedor(usuario.id), None);
}

#[test]
fn rol_es_comprador_y_es_vendedor_para_casos_ambos() {
    let usuario = Usuario::new(
        ctam(0x27),
        Rol::Ambos(DataComprador::default(), DataVendedor::default()),
    );
    assert!(usuario.es_comprador());
    assert!(usuario.es_vendedor());
}

#[test]
fn rol_es_comprador_y_es_vendedor_para_casos_unicos() {
    let usuario_c = Usuario::new(ctam(0x28), Rol::Comprador(DataComprador::default()));
    assert!(usuario_c.es_comprador());
    assert!(!usuario_c.es_vendedor());

    let usuario_v = Usuario::new(ctam(0x29), Rol::Vendedor(DataVendedor::default()));
    assert!(!usuario_v.es_comprador());
    assert!(usuario_v.es_vendedor());
}

#[test]
fn insertar_stock_productos_ordenado() {
    let mut stock = StockProductos::default();
    stock.insert(10, 100);
    stock.insert(5, 50);
    stock.insert(7, 70);
    stock.insert(3, 30);
    stock.insert(10, 110); // actualizar

    assert_eq!(stock.productos, vec![3, 5, 7, 10]);
    assert_eq!(stock.get(&3), Some(30));
    assert_eq!(stock.get(&5), Some(50));
    assert_eq!(stock.get(&7), Some(70));
    assert_eq!(stock.get(&10), Some(110));
}

#[test]
fn insertar_stock_productos_con_producto_no_existente() {
    let stock = StockProductos::default();
    assert_eq!(stock.get(&999), None);
}

#[test]
fn ver_calificacion_comprador_devuelve_none_si_no_tiene_calificaciones() {
    let mut contrato = RustaceoLibre::default(DUENIO);
    let cuenta = ctam(0x30);

    let comprador = Usuario::new(cuenta, Rol::Comprador(DataComprador::default()));
    contrato.usuarios.insert(cuenta, comprador);

    assert_eq!(contrato.ver_calificacion_comprador(cuenta), None);
}

#[test]
fn ver_calificacion_vendedor_devuelve_none_si_no_tiene_calificaciones() {
    let mut contrato = RustaceoLibre::default(DUENIO);
    let cuenta = ctam(0x31);

    let vendedor = Usuario::new(cuenta, Rol::Vendedor(DataVendedor::default()));
    contrato.usuarios.insert(cuenta, vendedor);

    assert_eq!(contrato.ver_calificacion_vendedor(cuenta), None);
}

#[test]
fn establecer_stock_producto_actualiza_sin_duplicar() {
    let mut contrato = RustaceoLibre::default(DUENIO);
    let cuenta = ctam(0x34);

    assert!(contrato
        .registrar_usuario(cuenta, RolDeSeleccion::Vendedor)
        .is_ok());

    if let Some(usuario) = contrato.usuarios.get(&cuenta) {
        let mut usuario = usuario.clone();
        usuario.establecer_stock_producto(&123, &10);
        usuario.establecer_stock_producto(&123, &20);
        contrato.usuarios.insert(cuenta, usuario);
    }

    if let Some(usuario) = contrato.usuarios.get(&cuenta) {
        assert_eq!(usuario.obtener_stock_producto(&123), Some(20));
        let stock = usuario.obtener_stock_productos().unwrap();
        assert_eq!(stock.productos.len(), 1); // no se duplicó
    }
}

#[test]
fn ascender_rol_usuario_funciona_para_vendedor() {
    let mut contrato = RustaceoLibre::default(DUENIO);
    let cuenta = ctam(0x35);

    assert!(contrato
        .registrar_usuario(cuenta, RolDeSeleccion::Vendedor)
        .is_ok());

    let resultado = contrato.ascender_rol_usuario(cuenta);
    assert_eq!(resultado, Ok(()));

    if let Some(usuario) = contrato.usuarios.get(&cuenta) {
        assert!(usuario.es_comprador());
        assert!(usuario.es_vendedor());
    }
}

#[test]
fn ascender_rol_usuario_de_vendedor_a_ambos_funciona_correctamente() {
    let mut contrato = RustaceoLibre::default(DUENIO);
    let cuenta = ctam(0x32);

    assert!(contrato
        .registrar_usuario(cuenta, RolDeSeleccion::Vendedor)
        .is_ok());

    let resultado = contrato.ascender_rol_usuario(cuenta);
    assert_eq!(resultado, Ok(()));
}

#[test]
fn stock_productos_insert_en_medio_funciona_correctamente() {
    let mut stock = StockProductos::default();
    stock.insert(10, 100);
    stock.insert(30, 300);
    stock.insert(20, 200); // va al medio

    assert_eq!(stock.productos, vec![10, 20, 30]);
    assert_eq!(stock.stock, vec![100, 200, 300]);
}

#[test]
fn stock_productos_insert_mantiene_orden_correcto() {
    let mut stock = StockProductos::default();
    stock.insert(5, 50);
    stock.insert(3, 30);
    stock.insert(7, 70);
    stock.insert(1, 10); // al principio
    stock.insert(9, 90); // al final

    assert_eq!(stock.productos, vec![1, 3, 5, 7, 9]);
    assert_eq!(stock.stock, vec![10, 30, 50, 70, 90]);
}

#[test]
fn calificar_como_comprador_rechaza_valores_invalidos() {
    let mut usuario = Usuario::new(ctam(0x50), Rol::Comprador(DataComprador::default()));
    assert_eq!(usuario.calificar_como_comprador(0), false);
    assert_eq!(usuario.calificar_como_comprador(6), false);
}

#[test]
fn calificar_como_vendedor_rechaza_valores_invalidos() {
    let mut usuario = Usuario::new(ctam(0x51), Rol::Vendedor(DataVendedor::default()));
    assert_eq!(usuario.calificar_como_vendedor(0), false);
    assert_eq!(usuario.calificar_como_vendedor(6), false);
}

#[test]
fn calificar_como_comprador_rechaza_usuario_sin_rol_comprador() {
    let mut usuario = Usuario::new(ctam(0x52), Rol::Vendedor(DataVendedor::default()));
    assert_eq!(usuario.calificar_como_comprador(4), false);
}

#[test]
fn calificar_como_vendedor_rechaza_usuario_sin_rol_vendedor() {
    let mut usuario = Usuario::new(ctam(0x53), Rol::Comprador(DataComprador::default()));
    assert_eq!(usuario.calificar_como_vendedor(4), false);
}

#[test]
fn obtener_stock_producto_no_existe_devuelve_none() {
    let usuario = Usuario::new(ctam(0x55), Rol::Vendedor(DataVendedor::default()));
    assert_eq!(usuario.obtener_stock_producto(&99999), None);
}

#[test]
fn establecer_y_modificar_stock_producto() {
    let mut usuario = Usuario::new(ctam(0x56), Rol::Vendedor(DataVendedor::default()));
    assert!(usuario.establecer_stock_producto(&42, &15));
    assert_eq!(usuario.obtener_stock_producto(&42), Some(15));

    // modificar
    assert!(usuario.establecer_stock_producto(&42, &30));
    assert_eq!(usuario.obtener_stock_producto(&42), Some(30));
}

#[test]
fn insertar_varios_productos_y_verificar_orden() {
    let mut stock = StockProductos::default();
    stock.insert(20, 200);
    stock.insert(10, 100);
    stock.insert(15, 150);
    stock.insert(10, 110); // actualiza el existente

    assert_eq!(stock.productos, vec![10, 15, 20]);
    assert_eq!(stock.get(&10), Some(110));
    assert_eq!(stock.get(&15), Some(150));
    assert_eq!(stock.get(&20), Some(200));
}

#[test]
fn ver_calificacion_vendedor_sin_calificaciones_devuelve_none() {
    let mut contrato = RustaceoLibre::default(DUENIO);
    let cuenta = ctam(0x58);

    let vendedor = Usuario::new(cuenta, Rol::Vendedor(DataVendedor::default()));
    contrato.usuarios.insert(cuenta, vendedor);

    assert_eq!(contrato.ver_calificacion_vendedor(cuenta), None);
}

#[test]
fn ver_calificacion_comprador_usuario_no_existente_devuelve_none() {
    let contrato = RustaceoLibre::default(DUENIO);
    let cuenta_inexistente = ctam(0x99);

    assert_eq!(contrato.ver_calificacion_comprador(cuenta_inexistente), None);
}

#[test]
fn establecer_stock_producto_en_usuario_no_vendedor_falla() {
    let mut usuario = Usuario::new(ctam(0x60), Rol::Comprador(DataComprador::default()));
    assert_eq!(usuario.establecer_stock_producto(&1, &10), false);
}

#[test]
fn calificar_comprador_y_vendedor_en_usuario_ambos_funciona() {
    let mut usuario = Usuario::new(
        ctam(0x61),
        Rol::Ambos(DataComprador::default(), DataVendedor::default()),
    );

    assert!(usuario.calificar_como_comprador(5));
    assert!(usuario.calificar_como_vendedor(4));
}

#[test]
fn obtener_compras_falla_si_usuario_no_es_comprador() {
    let usuario = Usuario::new(ctam(0x62), Rol::Vendedor(DataVendedor::default()));
    assert_eq!(usuario.obtener_compras(), None);
}

#[test]
fn obtener_ventas_falla_si_usuario_no_es_vendedor() {
    let usuario = Usuario::new(ctam(0x63), Rol::Comprador(DataComprador::default()));
    assert_eq!(usuario.obtener_ventas(), None);
}

#[test]
fn stock_productos_insert_actualiza_sin_duplicar() {
    let mut stock = StockProductos::default();
    stock.insert(1, 10);
    stock.insert(1, 25); // actualiza
    assert_eq!(stock.productos, vec![1]);
    assert_eq!(stock.stock, vec![25]);
}

#[test]
fn obtener_stock_productos_devuelve_none_si_no_es_vendedor() {
    let usuario = Usuario::new(ctam(0x71), Rol::Comprador(DataComprador::default()));
    assert_eq!(usuario.obtener_stock_productos(), None);
}

#[test]
fn obtener_compras_y_ventas_vacias_devuelve_vector_vacio() {
    let comprador = Usuario::new(ctam(0x72), Rol::Comprador(DataComprador::default()));
    assert_eq!(comprador.obtener_compras().unwrap().len(), 0);

    let vendedor = Usuario::new(ctam(0x73), Rol::Vendedor(DataVendedor::default()));
    assert_eq!(vendedor.obtener_ventas().unwrap().len(), 0);
}

#[test]
fn establecer_varios_stock_productos_funciona() {
    let mut usuario = Usuario::new(ctam(0x74), Rol::Vendedor(DataVendedor::default()));

    assert!(usuario.establecer_stock_producto(&100, &10));
    assert!(usuario.establecer_stock_producto(&200, &20));
    assert!(usuario.establecer_stock_producto(&150, &15));

    let stock = usuario.obtener_stock_productos().unwrap();
    assert_eq!(stock.productos, vec![100, 150, 200]);
}

#[test]
fn insertar_mismo_producto_variadas_veces_no_duplica() {
    let mut stock = StockProductos::default();

    stock.insert(1, 10);
    stock.insert(1, 20);
    stock.insert(1, 30);

    assert_eq!(stock.productos.len(), 1);
    assert_eq!(stock.get(&1), Some(30));
}

#[test]
fn insertar_producto_con_clave_negativa_funciona() {
    let mut stock = StockProductos::default();
    stock.insert(-1i128 as u128, 99);
    assert_eq!(stock.get(&(-1i128 as u128)), Some(99));
}

#[test]
fn obtener_compras_en_usuario_no_comprador_devuelve_none() {
    let usuario = Usuario::new(ctam(0x76), Rol::Vendedor(DataVendedor::default()));
    assert_eq!(usuario.obtener_compras(), None);
}

#[test]
fn obtener_ventas_en_usuario_no_vendedor_devuelve_none() {
    let usuario = Usuario::new(ctam(0x77), Rol::Comprador(DataComprador::default()));
    assert_eq!(usuario.obtener_ventas(), None);
}

#[test]
fn insertar_producto_con_id_y_stock_grande_funciona() {
    let mut stock = StockProductos::default();
    let producto_id = u128::MAX;
    let cantidad = u32::MAX;

    stock.insert(producto_id, cantidad);
    assert_eq!(stock.get(&producto_id), Some(cantidad));
}

#[test]
fn insertar_stock_en_orden_descendente_se_ordena() {
    let mut stock = StockProductos::default();

    stock.insert(30, 300);
    stock.insert(20, 200);
    stock.insert(10, 100);

    assert_eq!(stock.productos, vec![10, 20, 30]);
}

#[test]
fn establecer_stock_producto_con_cero_no_elimina() {
    let mut usuario = Usuario::new(ctam(0x92), Rol::Vendedor(DataVendedor::default()));

    assert!(usuario.establecer_stock_producto(&100, &10));
    assert_eq!(usuario.obtener_stock_producto(&100), Some(10));

    // establecer stock 0
    assert!(usuario.establecer_stock_producto(&100, &0));
    assert_eq!(usuario.obtener_stock_producto(&100), Some(0));
}

#[test]
fn insertar_y_actualizar_varios_productos_varias_veces() {
    let mut stock = StockProductos::default();

    stock.insert(1, 10);
    stock.insert(2, 20);
    stock.insert(1, 15); // actualizar
    stock.insert(3, 30);
    stock.insert(2, 25); // actualizar

    assert_eq!(stock.get(&1), Some(15));
    assert_eq!(stock.get(&2), Some(25));
    assert_eq!(stock.get(&3), Some(30));
}

#[test]
fn agregar_muchas_compras_y_ventas() {
    let mut usuario = Usuario::new(
        ctam(0x93),
        Rol::Ambos(DataComprador::default(), DataVendedor::default()),
    );

    for i in 0..100 {
        assert!(usuario.agregar_compra(i));
        assert!(usuario.agregar_venta(i + 1000));
    }

    let compras = usuario.obtener_compras().unwrap();
    let ventas = usuario.obtener_ventas().unwrap();

    assert_eq!(compras.len(), 100);
    assert_eq!(ventas.len(), 100);
    assert_eq!(compras[0], 0);
    assert_eq!(compras[99], 99);
    assert_eq!(ventas[0], 1000);
    assert_eq!(ventas[99], 1099);
}

#[test]
fn obtener_stock_productos_usuario_no_vendedor_devuelve_none() {
    let usuario = Usuario::new(ctam(0x94), Rol::Comprador(DataComprador::default()));
    assert_eq!(usuario.obtener_stock_productos(), None);
}

#[test]
fn registrar_usuario_cuenta_duplicada_falla() {
    let mut contrato = RustaceoLibre::default(DUENIO);
    let cuenta = ctam(0x95);

    assert!(contrato
        .registrar_usuario(cuenta, RolDeSeleccion::Comprador)
        .is_ok());
    let resultado = contrato.registrar_usuario(cuenta, RolDeSeleccion::Vendedor);
    assert!(resultado.is_err());
}

#[test]
fn ver_calificacion_usuario_no_registrado_devuelve_none() {
    let contrato = RustaceoLibre::default(DUENIO);
    let cuenta = ctam(0x96);

    assert_eq!(contrato.ver_calificacion_comprador(cuenta), None);
    assert_eq!(contrato.ver_calificacion_vendedor(cuenta), None);
}

#[test]
fn establecer_stock_usuario_sin_rol_vendedor_falla_pero_ambos_funciona() {
    let mut usuario_sin_rol_vendedor =
        Usuario::new(ctam(0x97), Rol::Comprador(DataComprador::default()));
    assert_eq!(
        usuario_sin_rol_vendedor.establecer_stock_producto(&1, &10),
        false
    );

    let mut usuario_ambos = Usuario::new(
        ctam(0x98),
        Rol::Ambos(DataComprador::default(), DataVendedor::default()),
    );
    assert!(usuario_ambos.establecer_stock_producto(&1, &10));
}
