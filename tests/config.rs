use habitat_sup::cfg::{env_var_name, environment_layer, plan_writes, Cfg, CfgError, Export, Table};
use habitat_sup::toml_value::{ordered_for_output, toml_merge, MergeError, TomlValue};

fn text(s: &str) -> TomlValue {
    TomlValue::Text(s.to_string())
}

fn entry(k: &str, v: TomlValue) -> (String, TomlValue) {
    (k.to_string(), v)
}

/// Two tables hold the same keys with the same values, in any order.
fn same_table(a: &Table, b: &Table) -> bool {
    a.len() == b.len()
        && a.iter().all(|(k, v)| {
            b.iter().any(|(k2, v2)| k == k2 && same_value(v, v2))
        })
}

fn same_value(a: &TomlValue, b: &TomlValue) -> bool {
    match (a, b) {
        (TomlValue::Table(x), TomlValue::Table(y)) => same_table(x, y),
        _ => a == b,
    }
}

/// A table nesting `keys` one in another, with `leaf` innermost.
fn nested(keys: &[&str], leaf: Table) -> Table {
    let mut t = leaf;
    for k in keys.iter().rev() {
        t = vec![entry(k, TomlValue::Table(t))];
    }
    t
}

fn alphabet(n: usize) -> Vec<String> {
    let names = [
        "a", "b", "c", "d", "e", "f", "g", "h", "i", "j", "k", "l", "m", "n", "o", "p", "q", "r",
        "s", "t", "u", "v", "w", "x", "y", "z", "aa", "ab", "ac", "ad", "ae", "af",
    ];
    names[..n].iter().map(|s| s.to_string()).collect()
}

fn deep(n: usize, leaf: Table) -> Table {
    let names = alphabet(n);
    let keys: Vec<&str> = names.iter().map(|s| s.as_str()).collect();
    nested(&keys, leaf)
}

fn clone_table(t: &Table) -> Table {
    t.iter().map(|(k, v)| (k.clone(), clone_value(v))).collect()
}

fn clone_value(v: &TomlValue) -> TomlValue {
    match v {
        TomlValue::Text(s) => TomlValue::Text(s.clone()),
        TomlValue::Integer(i) => TomlValue::Integer(*i),
        TomlValue::Boolean(b) => TomlValue::Boolean(*b),
        TomlValue::Raw(s) => TomlValue::Raw(s.clone()),
        TomlValue::Array(a) => TomlValue::Array(a.iter().map(clone_value).collect()),
        TomlValue::Table(t) => TomlValue::Table(clone_table(t)),
    }
}

fn toml_from_str(content: &str) -> Table {
    let t: toml::value::Table = toml::from_str(content)
        .unwrap_or_else(|_| panic!("Content should parse as TOML: {}", content));
    t.iter().map(|(k, v)| (k.clone(), from_toml(v))).collect()
}

fn from_toml(v: &toml::Value) -> TomlValue {
    match v {
        toml::Value::String(s) => TomlValue::Text(s.clone()),
        toml::Value::Integer(i) => TomlValue::Integer(*i),
        toml::Value::Boolean(b) => TomlValue::Boolean(*b),
        toml::Value::Float(f) => TomlValue::Raw(f.to_string()),
        toml::Value::Datetime(d) => TomlValue::Raw(d.to_string()),
        toml::Value::Array(a) => TomlValue::Array(a.iter().map(from_toml).collect()),
        toml::Value::Table(t) => {
            TomlValue::Table(t.iter().map(|(k, v)| (k.clone(), from_toml(v))).collect())
        }
    }
}

#[test]
fn merge_with_empty_me_table() {
    let mut me = toml_from_str("");
    let other = toml_from_str(
        r#"
        fruit = "apple"
        veggie = "carrot"
        "#,
    );
    let expected = clone_table(&other);
    toml_merge(&mut me, &other).unwrap();

    assert!(same_table(&me, &expected));
}

#[test]
fn merge_with_empty_other_table() {
    let mut me = toml_from_str(
        r#"
        fruit = "apple"
        veggie = "carrot"
        "#,
    );
    let other = toml_from_str("");
    let expected = clone_table(&me);
    toml_merge(&mut me, &other).unwrap();

    assert!(same_table(&me, &expected));
}

#[test]
fn merge_with_shallow_tables() {
    let mut me = toml_from_str(
        r#"
        fruit = "apple"
        veggie = "carrot"
        awesomeness = 10
        "#,
    );
    let other = toml_from_str(
        r#"
        fruit = "orange"
        awesomeness = 99
        "#,
    );
    let expected = toml_from_str(
        r#"
        fruit = "orange"
        veggie = "carrot"
        awesomeness = 99
        "#,
    );
    toml_merge(&mut me, &other).unwrap();

    assert!(same_table(&me, &expected));
}

#[test]
fn merge_with_differing_value_types() {
    let mut me = toml_from_str(
        r#"
        fruit = "apple"
        veggie = "carrot"
        awesome_things = ["carrots", "kitties", "unicorns"]
        heat = 42
        "#,
    );
    let other = toml_from_str(
        r#"
        heat = "hothothot"
        awesome_things = "habitat"
        "#,
    );
    let expected = toml_from_str(
        r#"
        heat = "hothothot"
        fruit = "apple"
        veggie = "carrot"
        awesome_things = "habitat"
        "#,
    );
    toml_merge(&mut me, &other).unwrap();

    assert!(same_table(&me, &expected));
}

#[test]
fn merge_with_table_values() {
    let mut me = toml_from_str(
        r#"
        frubnub = "foobar"

        [server]
        some-details = "initial"
        port = 1000
        "#,
    );
    let other = toml_from_str(
        r#"
        [server]
        port = 5000
        more-details = "yep"
        "#,
    );
    let expected = toml_from_str(
        r#"
        frubnub = "foobar"

        [server]
        port = 5000
        some-details = "initial"
        more-details = "yep"
        "#,
    );
    toml_merge(&mut me, &other).unwrap();

    assert!(same_table(&me, &expected));
}

#[test]
fn merge_with_deep_table_values() {
    let mut me = toml_from_str(
        r#"
        [a.b.c.d.e.f.g.h.i.j.k.l.m.n.o.p.q.r.s.t.u.v.w.x.y.z.aa.ab.ac.ad]
        stew = "carrot"
        [a.b.c.d.e.f.foxtrot]
        fancy = "fork"
        "#,
    );
    let other = toml_from_str(
        r#"
        [a.b.c.d.e.f.g.h.i.j.k.l.m.n.o.p.q.r.s.t.u.v.w.x.y.z.aa.ab.ac.ad]
        stew = "beef"
        [a.b.c.d.e.f.foxtrot]
        fancy = "feast"
        funny = "farm"
        "#,
    );
    let expected = toml_from_str(
        r#"
        [a.b.c.d.e.f.foxtrot]
        funny = "farm"
        fancy = "feast"
        [a.b.c.d.e.f.g.h.i.j.k.l.m.n.o.p.q.r.s.t.u.v.w.x.y.z.aa.ab.ac.ad]
        stew = "beef"
        "#,
    );
    toml_merge(&mut me, &other).unwrap();

    assert!(same_table(&me, &expected));
}

#[test]
fn merge_with_dangerously_deep_table_values() {
    let mut me = toml_from_str(
        r#"
        [a.b.c.d.e.f.g.h.i.j.k.l.m.n.o.p.q.r.s.t.u.v.w.x.y.z.aa.ab.ac.ad.ae.af]
        stew = "carrot"
        "#,
    );
    let other = toml_from_str(
        r#"
        [a.b.c.d.e.f.g.h.i.j.k.l.m.n.o.p.q.r.s.t.u.v.w.x.y.z.aa.ab.ac.ad.ae.af]
        stew = "beef"
        "#,
    );
    let before = clone_table(&me);

    match toml_merge(&mut me, &other) {
        Err(e) => match e {
            MergeError::TooDeep => assert!(true),
        },
        Ok(_) => panic!("Should not complete successfully"),
    }
    assert!(same_table(&me, &before));
}

#[test]
fn merge_of_built_tables_at_the_depth_limit() {
    let mut me = deep(30, vec![entry("stew", text("carrot"))]);
    let other = deep(30, vec![entry("stew", text("beef"))]);
    toml_merge(&mut me, &other).unwrap();
    assert!(same_table(&me, &deep(30, vec![entry("stew", text("beef"))])));
    let mut me = deep(31, vec![entry("stew", text("carrot"))]);
    let other = deep(31, vec![entry("stew", text("beef"))]);
    assert_eq!(toml_merge(&mut me, &other), Err(MergeError::TooDeep));
}

#[test]
fn floats_and_dates_merge_as_scalars() {
    let mut me = toml_from_str("ratio = 0.5\nwhen = 1979-05-27T07:32:00Z\n");
    let other = toml_from_str("ratio = 1.5\n");
    toml_merge(&mut me, &other).unwrap();
    let expected = vec![
        entry("ratio", TomlValue::Raw("1.5".to_string())),
        entry("when", TomlValue::Raw("1979-05-27T07:32:00Z".to_string())),
    ];
    assert!(same_table(&me, &expected));
}

#[test]
fn merge_is_idempotent_on_example() {
    let a = vec![
        entry("port", TomlValue::Integer(80)),
        entry("db", TomlValue::Table(vec![entry("user", text("hab"))])),
    ];
    let b = vec![
        entry("db", TomlValue::Table(vec![entry("password", text("x"))])),
        entry("tls", TomlValue::Boolean(true)),
    ];
    let mut ab = clone_table(&a);
    toml_merge(&mut ab, &b).unwrap();
    let mut again = clone_table(&a);
    toml_merge(&mut again, &ab).unwrap();
    assert_eq!(again, ab);
}

#[test]
fn output_order_puts_scalars_then_arrays_then_tables() {
    let t = vec![
        entry(
            "datastore",
            TomlValue::Table(vec![
                entry("database", text("builder_originsrv")),
                entry("password", text("")),
                entry("user", text("hab")),
            ]),
        ),
        entry("shards", TomlValue::Array(vec![])),
        entry("name", text("svc")),
    ];
    let out = ordered_for_output(&t);
    let keys: Vec<&str> = out.iter().map(|(k, _)| k.as_str()).collect();
    assert_eq!(keys, vec!["name", "shards", "datastore"]);
}

#[test]
fn layered_config_precedence() {
    let default = vec![entry("port", TomlValue::Integer(80)), entry("tls", TomlValue::Boolean(false))];
    let environment = vec![entry("port", TomlValue::Integer(6379))];
    let user = vec![entry("tls", TomlValue::Boolean(true))];
    let mut cfg = Cfg::new(Some(default), Some(environment), Some(user));
    assert!(cfg.update(3, vec![entry("port", TomlValue::Integer(26379))]));
    let view = cfg.merged();
    assert_eq!(
        view,
        vec![entry("port", TomlValue::Integer(26379)), entry("tls", TomlValue::Boolean(true))]
    );
    assert!(!cfg.update(2, vec![entry("port", TomlValue::Integer(1))]));
    assert_eq!(cfg.gossip_incarnation, 3);
    assert_eq!(cfg.merged(), view);
}

#[test]
fn gossip_update_needs_higher_incarnation() {
    let mut cfg = Cfg::new(None, None, None);
    assert!(cfg.update(1, vec![entry("a", TomlValue::Integer(1))]));
    assert!(!cfg.update(1, vec![entry("a", TomlValue::Integer(2))]));
    assert_eq!(cfg.merged(), vec![entry("a", TomlValue::Integer(1))]);
}

#[test]
fn unchanged_render_writes_nothing() {
    let compiled = vec!["abc".to_string(), "def".to_string()];
    let on_disk = vec!["abc".to_string(), "def".to_string()];
    let (writes, changed) = plan_writes(&compiled, &on_disk);
    assert_eq!(writes, vec![false, false]);
    assert!(!changed);
}

#[test]
fn render_writes_missing_and_changed_files() {
    let compiled = vec!["abc".to_string(), "def".to_string(), "ghi".to_string()];
    let on_disk = vec!["".to_string(), "def".to_string(), "xyz".to_string()];
    let (writes, changed) = plan_writes(&compiled, &on_disk);
    assert_eq!(writes, vec![true, false, true]);
    assert!(changed);
}

#[test]
fn exports_resolve_paths() {
    let default = vec![
        entry("port", TomlValue::Integer(6379)),
        entry("tls", TomlValue::Table(vec![entry("enabled", TomlValue::Boolean(true))])),
    ];
    let cfg = Cfg::new(Some(default), None, None);
    let exports = vec![
        Export { key: "port".to_string(), path: vec!["port".to_string()] },
        Export { key: "secure".to_string(), path: vec!["tls".to_string(), "enabled".to_string()] },
        Export { key: "missing".to_string(), path: vec!["tls".to_string(), "cert".to_string()] },
        Export { key: "through_scalar".to_string(), path: vec!["port".to_string(), "x".to_string()] },
    ];
    assert_eq!(
        cfg.to_exported(&exports),
        vec![entry("port", TomlValue::Integer(6379)), entry("secure", TomlValue::Boolean(true))]
    );
}

#[test]
fn environment_variable_name() {
    assert_eq!(env_var_name("redis"), "HAB_REDIS");
    assert_eq!(env_var_name("my-app2"), "HAB_MY_APP2");
}

#[test]
fn environment_layer_prefers_toml_then_json() {
    let t = vec![entry("port", TomlValue::Integer(1))];
    let j = vec![entry("port", TomlValue::Integer(2))];
    assert_eq!(
        environment_layer("HAB_X".to_string(), Some(t), None),
        Ok(vec![entry("port", TomlValue::Integer(1))])
    );
    assert_eq!(
        environment_layer("HAB_X".to_string(), None, Some(j)),
        Ok(vec![entry("port", TomlValue::Integer(2))])
    );
    assert_eq!(
        environment_layer("HAB_X".to_string(), None, None),
        Err(CfgError::BadEnvConfig("HAB_X".to_string()))
    );
}
