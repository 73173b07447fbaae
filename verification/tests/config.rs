//! Tests of the plain configuration data and the configuration-path rule.

use neko::cfg::{path_or_default, Api, Cat, Config, Db};

#[test]
fn config_path_prefers_the_environment_value() {
    let r = path_or_default(Some("/tmp/neko.yaml".to_string()));
    assert_eq!(r, "/tmp/neko.yaml");
}

#[test]
fn config_path_falls_back_to_the_default() {
    let r = path_or_default(None);
    assert_eq!(r, "/etc/neko/config.yaml");
}

#[test]
fn config_carries_plain_values() {
    let config = Config {
        message: "hello".to_string(),
        cat: Cat { colour: "black".to_string() },
        api: Api { ip: [127, 0, 0, 1], port: 3000 },
        db: Db { db_str: "mongodb://localhost".to_string() },
    };
    assert_eq!(config.cat.colour, "black");
    assert_eq!(config.api.ip, [127, 0, 0, 1]);
    assert_eq!(config.api.port, 3000);
    assert_eq!(config.db.db_str, "mongodb://localhost");
    assert_eq!(config.message, "hello");
}
