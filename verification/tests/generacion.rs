use servidor_rust_simple::aleatorio::{
    contrasena_desde_semilla, generar_contrasena_aleatoria, generar_server_seed,
};

#[test]
fn contrasena_desde_cero() {
    assert_eq!(
        generar_contrasena_aleatoria(0, 0),
        "D8~2RS9Q~.P4ti9a909y_01CXAL.tSlI"
    );
}

#[test]
fn contrasena_desde_reloj_y_proceso() {
    assert_eq!(
        generar_contrasena_aleatoria(1_700_000_000_000, 4242),
        "BKXaB.p8R-3W3m_mrafqXyjW3YHCjoJk"
    );
}

#[test]
fn contrasena_con_semilla_maxima() {
    assert_eq!(
        contrasena_desde_semilla(u64::MAX),
        "WBGLibKNc1wRyX-74r0haxs96rqXcXQN"
    );
}

#[test]
fn contrasena_larga_de_letras_cifras_y_simbolos() {
    for semilla in [0u64, 1, 7, 123_456_789, u64::MAX / 3, u64::MAX] {
        let c = contrasena_desde_semilla(semilla);
        assert_eq!(c.chars().count(), 32);
        assert!(c.chars().all(|x| x.is_ascii_alphanumeric() || "-_.~".contains(x)));
    }
}

#[test]
fn misma_semilla_misma_contrasena() {
    assert_eq!(
        generar_contrasena_aleatoria(1_700_000_000_000, 10),
        generar_contrasena_aleatoria(1_700_000_000_005, 5)
    );
}

#[test]
fn semilla_de_mapa_exacta() {
    assert_eq!(generar_server_seed(0, 0), 12345);
    assert_eq!(generar_server_seed(1_700_000_000_000, 4242), 1_113_391_715);
}

#[test]
fn semilla_de_mapa_con_desbordamiento() {
    // the clock reading and the process id are added with wraparound
    assert_eq!(generar_server_seed(u64::MAX, 5), 119_106_029);
}

#[test]
fn semilla_de_mapa_en_rango() {
    for (ms, pid) in [(0u64, 0u32), (1, 1), (u64::MAX, u32::MAX), (1_700_000_123_456, 77)] {
        let s = generar_server_seed(ms, pid);
        assert!(s >= 0);
    }
}

#[test]
fn contrasena_usa_simbolos() {
    // over many seeds the symbols of the table do come out
    let mut vistos = String::new();
    for semilla in 0u64..200 {
        vistos.push_str(&contrasena_desde_semilla(semilla));
    }
    for simbolo in ['-', '_', '.', '~'] {
        assert!(vistos.contains(simbolo));
    }
}
