use servidor_rust_simple::webrcon::{
    clasificar_error_conexion, mensaje_quit, preparar_url_webrcon, resultado_url,
};

#[test]
fn mensaje_quit_exacto() {
    assert_eq!(
        mensaje_quit(),
        r#"{"Identifier":1,"Message":"quit","Name":"WebRcon"}"#
    );
}

#[test]
fn url_valida() {
    assert_eq!(
        preparar_url_webrcon("127.0.0.1:28016", "Abc123"),
        Ok("ws://127.0.0.1:28016/Abc123".to_string())
    );
}

#[test]
fn url_normalizada_por_el_analizador() {
    // the parser lowercases the host and percent-encodes spaces
    assert_eq!(
        preparar_url_webrcon("LOCALHOST:28016", "a b"),
        Ok("ws://localhost:28016/a%20b".to_string())
    );
}

#[test]
fn url_invalida() {
    assert_eq!(
        preparar_url_webrcon("127.0.0.1:99999", "x"),
        Err("URL inválida: invalid port number".to_string())
    );
}

#[test]
fn resultado_url_directo() {
    assert_eq!(resultado_url(Ok("ws://h/p".to_string())), Ok("ws://h/p".to_string()));
    assert_eq!(
        resultado_url(Err("empty host".to_string())),
        Err("URL inválida: empty host".to_string())
    );
}

#[test]
fn conexion_rechazada_es_servidor_apagado() {
    assert_eq!(
        clasificar_error_conexion("IO error: No connection could be made (os error 10061)"),
        "SERVIDOR_YA_APAGADO"
    );
    assert_eq!(
        clasificar_error_conexion("IO error: connection refused"),
        "SERVIDOR_YA_APAGADO"
    );
}

#[test]
fn otro_error_de_conexion() {
    assert_eq!(
        clasificar_error_conexion("HTTP error: 401 Unauthorized"),
        "Error conectando WebRCON: HTTP error: 401 Unauthorized"
    );
    assert_eq!(clasificar_error_conexion(""), "Error conectando WebRCON: ");
}
