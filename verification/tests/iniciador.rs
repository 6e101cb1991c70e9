use servidor_rust_simple::iniciador::contenido_script_iniciador;
use servidor_rust_simple::rcon::extraer_rcon_password;
use servidor_rust_simple::aleatorio::contrasena_desde_semilla;

const ESPERADO: &str = r#"@echo off
RustDedicated.exe -batchmode -nographics ^
+server.hostname "Servidor Rust Simple SCR98" ^
+server.description "Servidor creado con Instalador" ^
+server.headerimage "" ^
+server.url "" ^
+server.ip 0.0.0.0 ^
+server.port 28015 ^
+server.maxplayers 100 ^
+rcon.ip 0.0.0.0 ^
+rcon.port 28016 ^
+rcon.password "Abc123" ^
+server.identity "default" ^
+server.level "Procedural Map" ^
+server.seed 42 +server.worldsize 4000 ^
+server.radiation "True" ^
+bradley.enabled "True" ^
+bradley.respawndelayminutes "60" ^
+bradley.respawndelayvariance "1" ^
+heli.lifetimeminutes "15" ^
+server.stability "True" ^
+decay.upkeep "True" ^
+decay.upkeep_heal_scale "1" ^
+decay.upkeep_inside_decay_scale "0.1" ^
+decay.upkeep_period_minutes "1440" ^
+rcon.web "True" ^
-logfile "servidor-rust-simple-logfile.log" ^"#;

#[test]
fn contenido_exacto() {
    assert_eq!(contenido_script_iniciador("Abc123", 42), ESPERADO);
}

#[test]
fn semillas_extremas_en_decimal() {
    let c = contenido_script_iniciador("x", 0);
    assert!(c.contains("+server.seed 0 +server.worldsize"));
    let c = contenido_script_iniciador("x", i32::MAX);
    assert!(c.contains("+server.seed 2147483647 +server.worldsize"));
    let c = contenido_script_iniciador("x", -5);
    assert!(c.contains("+server.seed -5 +server.worldsize"));
    let c = contenido_script_iniciador("x", i32::MIN);
    assert!(c.contains("+server.seed -2147483648 +server.worldsize"));
}

#[test]
fn se_lee_la_contrasena_escrita() {
    let c = contenido_script_iniciador("Abc123", 42);
    assert_eq!(extraer_rcon_password(&c), Ok("Abc123".to_string()));
}

#[test]
fn se_lee_una_contrasena_generada() {
    let p = contrasena_desde_semilla(987_654_321);
    let c = contenido_script_iniciador(&p, 1_113_391_715);
    assert_eq!(extraer_rcon_password(&c), Ok(p));
}

#[test]
fn contrasena_vacia() {
    let c = contenido_script_iniciador("", 7);
    assert_eq!(extraer_rcon_password(&c), Ok(String::new()));
}

#[test]
fn sin_contrasena_es_error() {
    assert_eq!(
        extraer_rcon_password("@echo off\n+rcon.port 28016 ^\n"),
        Err("No se encontró contraseña RCON en el .bat".to_string())
    );
    assert_eq!(
        extraer_rcon_password(""),
        Err("No se encontró contraseña RCON en el .bat".to_string())
    );
}

#[test]
fn linea_sin_comillas_se_salta() {
    let t = "+rcon.password sin_comillas\n+rcon.password \"buena\" ^\n";
    assert_eq!(extraer_rcon_password(t), Ok("buena".to_string()));
    let t = "+rcon.password \"abierta\n+rcon.password \"segunda\"";
    assert_eq!(extraer_rcon_password(t), Ok("segunda".to_string()));
}

#[test]
fn primera_linea_que_vale() {
    let t = "x \"a\" rcon.password \"b\"\n+rcon.password \"c\"";
    assert_eq!(extraer_rcon_password(t), Ok("a".to_string()));
}

#[test]
fn finales_de_linea_windows() {
    let t = "@echo off\r\n+rcon.password \"clave\" ^\r\n+server.seed 1\r\n";
    assert_eq!(extraer_rcon_password(t), Ok("clave".to_string()));
}

#[test]
fn texto_no_ascii() {
    let t = "ñandú\n+rcon.password \"contraseña€\" ^";
    assert_eq!(extraer_rcon_password(t), Ok("contraseña€".to_string()));
}
