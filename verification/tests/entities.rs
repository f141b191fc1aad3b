use stockton_bsp::lumps::entities::{EntitiesLump, Entity};
use stockton_bsp::types::Error;

fn entity(pairs: &[(&str, &str)]) -> Entity {
    let mut entity = Entity::new();
    for (key, value) in pairs {
        entity.insert(key.to_string(), value.to_string());
    }
    entity
}

#[test]
fn entities_valid() {
    let valid_string = r#"
        {
            "classname" "weapon_rocketlauncher"
            "origin" "1 2 3"
            "angle" "90"
        }
        {
            "classname" "worldspawn"
            "message" "Hello, World!"
        }
    "#;

    let valid = EntitiesLump::from_lump(valid_string.as_bytes()).unwrap();

    assert_eq!(
        valid.entities,
        vec![
            entity(&[
                ("classname", "weapon_rocketlauncher"),
                ("origin", "1 2 3"),
                ("angle", "90"),
            ]),
            entity(&[("classname", "worldspawn"), ("message", "Hello, World!")]),
        ]
    );
    assert_eq!(valid.entities[0].get("origin"), Some(&"1 2 3".to_string()));
    assert_eq!(valid.entities[1].get("message"), Some(&"Hello, World!".to_string()));
    assert_eq!(valid.entities[1].get("origin"), None);
}

#[test]
fn entities_of_an_empty_lump() {
    assert_eq!(EntitiesLump::from_lump(b"").unwrap().entities, vec![]);
    assert_eq!(EntitiesLump::from_lump(b" \n\0 ").unwrap().entities, vec![]);
}

#[test]
fn entities_may_be_empty() {
    let lump = EntitiesLump::from_lump(b"{}{ }").unwrap();
    assert_eq!(lump.entities, vec![Entity::new(), Entity::new()]);
    assert_eq!(lump.entities[0].attributes.len(), 0);
}

#[test]
fn entities_unmatched_open_brace() {
    // an entity that is never closed is an error, not a partial entity
    assert_eq!(EntitiesLump::from_lump(b"{").unwrap_err(), Error::BadFormat);
    assert_eq!(
        EntitiesLump::from_lump(b"{ \"classname\" \"worldspawn\" ").unwrap_err(),
        Error::BadFormat
    );
    assert_eq!(
        EntitiesLump::from_lump(b"{ \"a\" \"b\" } { \"c\" \"d\"").unwrap_err(),
        Error::BadFormat
    );
}

#[test]
fn entities_reject_what_is_out_of_place() {
    // a closing brace outside an entity
    assert_eq!(EntitiesLump::from_lump(b"}").unwrap_err(), Error::BadFormat);
    assert_eq!(EntitiesLump::from_lump(b"{}}").unwrap_err(), Error::BadFormat);
    // an opening brace inside an entity
    assert_eq!(EntitiesLump::from_lump(b"{{}}").unwrap_err(), Error::BadFormat);
    // a quote outside an entity
    assert_eq!(EntitiesLump::from_lump(b"\"a\" \"b\"").unwrap_err(), Error::BadFormat);
    // a brace in a name, after a name, in a value
    assert_eq!(EntitiesLump::from_lump(b"{ \"a{\" \"b\" }").unwrap_err(), Error::BadFormat);
    assert_eq!(EntitiesLump::from_lump(b"{ \"a}\" \"b\" }").unwrap_err(), Error::BadFormat);
    assert_eq!(EntitiesLump::from_lump(b"{ \"a\" } \"b\" }").unwrap_err(), Error::BadFormat);
    assert_eq!(EntitiesLump::from_lump(b"{ \"a\" { \"b\" }").unwrap_err(), Error::BadFormat);
    assert_eq!(EntitiesLump::from_lump(b"{ \"a\" \"b}\" }").unwrap_err(), Error::BadFormat);
    assert_eq!(EntitiesLump::from_lump(b"{ \"a\" \"b{\" }").unwrap_err(), Error::BadFormat);
    // a name without a value, a value that does not end
    assert_eq!(EntitiesLump::from_lump(b"{ \"a\" }").unwrap_err(), Error::BadFormat);
    assert_eq!(EntitiesLump::from_lump(b"{ \"a\" \"b }").unwrap_err(), Error::BadFormat);
    assert_eq!(EntitiesLump::from_lump(b"{ \"a }").unwrap_err(), Error::BadFormat);
}

#[test]
fn entities_reject_what_is_not_text() {
    assert_eq!(EntitiesLump::from_lump(&[0xff]).unwrap_err(), Error::BadFormat);
    assert_eq!(
        EntitiesLump::from_lump(&[b'{', b'"', b'a', 0xc3, b'"', b'"', b'b', b'"', b'}']).unwrap_err(),
        Error::BadFormat
    );
    // also outside the entities
    assert_eq!(EntitiesLump::from_lump(&[b'{', b'}', 0x80]).unwrap_err(), Error::BadFormat);
}

#[test]
fn entities_pass_over_what_stands_between() {
    let lump = EntitiesLump::from_lump(b"junk {x \"k\" = \"v\" ;} more").unwrap();
    assert_eq!(lump.entities, vec![entity(&[("k", "v")])]);
}

#[test]
fn entities_keep_names_and_values_as_they_are() {
    let text = "{ \"\" \"\" \"na me\" \" v \n\" \"caf\u{e9}\" \"\u{1f600}\u{20ac}\" }";
    let lump = EntitiesLump::from_lump(text.as_bytes()).unwrap();
    assert_eq!(lump.entities.len(), 1);
    assert_eq!(
        lump.entities[0].attributes,
        vec![
            ("".to_string(), "".to_string()),
            ("na me".to_string(), " v \n".to_string()),
            ("caf\u{e9}".to_string(), "\u{1f600}\u{20ac}".to_string()),
        ]
    );
    assert_eq!(lump.entities[0].get(""), Some(&"".to_string()));
    assert_eq!(lump.entities[0].get("caf\u{e9}"), Some(&"\u{1f600}\u{20ac}".to_string()));
    assert_eq!(lump.entities[0].get("cafe"), None);
}

#[test]
fn entities_last_value_of_a_name_stays() {
    let lump =
        EntitiesLump::from_lump(b"{ \"a\" \"1\" \"b\" \"2\" \"a\" \"3\" } { \"a\" \"4\" }").unwrap();
    assert_eq!(lump.entities.len(), 2);
    // the name keeps its place, the value is the last one
    assert_eq!(
        lump.entities[0].attributes,
        vec![("a".to_string(), "3".to_string()), ("b".to_string(), "2".to_string())]
    );
    assert_eq!(lump.entities[0].get("a"), Some(&"3".to_string()));
    assert_eq!(lump.entities[1].get("a"), Some(&"4".to_string()));
    assert_eq!(lump.entities[1].get("b"), None);
}

#[test]
fn entity_insert_and_get() {
    let mut e = Entity::new();
    assert_eq!(e.get("x"), None);
    e.insert("x".to_string(), "1".to_string());
    e.insert("y".to_string(), "2".to_string());
    e.insert("xy".to_string(), "3".to_string());
    assert_eq!(e.get("x"), Some(&"1".to_string()));
    assert_eq!(e.get("xy"), Some(&"3".to_string()));
    e.insert("x".to_string(), "4".to_string());
    assert_eq!(e.attributes.len(), 3);
    assert_eq!(e.attributes[0], ("x".to_string(), "4".to_string()));
    assert_eq!(e.get("x"), Some(&"4".to_string()));
    assert_eq!(e.get("y"), Some(&"2".to_string()));
    assert_eq!(e.get("X"), None);
    assert_eq!(e.get(""), None);
}

#[test]
fn entities_are_equal_as_maps() {
    let a = entity(&[("x", "1"), ("y", "2")]);
    let b = entity(&[("y", "2"), ("x", "1")]);
    assert_eq!(a, b);
    assert_eq!(b, a);
    assert_ne!(a, entity(&[("x", "1")]));
    assert_ne!(entity(&[("x", "1")]), a);
    assert_ne!(a, entity(&[("x", "1"), ("y", "3")]));
    assert_ne!(a, entity(&[("x", "1"), ("z", "2")]));
    assert_ne!(a, Entity::new());
    assert_eq!(Entity::new(), Entity::new());
    // where a name stands twice, its first value counts
    let twice = Entity {
        attributes: vec![
            ("x".to_string(), "1".to_string()),
            ("x".to_string(), "9".to_string()),
            ("y".to_string(), "2".to_string()),
        ],
    };
    assert_eq!(twice.get("x"), Some(&"1".to_string()));
    assert_eq!(twice, a);
    assert_eq!(a, twice);
}
