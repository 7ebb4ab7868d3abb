use taigikeyboard::factory::{Factory, ENGINE_NAME, ENGINE_PATH_PREFIX, FACTORY_PATH};

#[test]
fn engines_are_numbered_from_one_in_creation_order() {
    let mut factory = Factory::new();
    assert_eq!(
        factory.create_engine(ENGINE_NAME),
        Ok("/org/freedesktop/IBus/Engine/1".to_owned())
    );
    assert_eq!(
        factory.create_engine("taigikeyboard"),
        Ok(format!("{ENGINE_PATH_PREFIX}2"))
    );
    assert_eq!(FACTORY_PATH, "/org/freedesktop/IBus/Factory");
}

#[test]
fn an_unknown_engine_name_is_refused_and_counts_nothing() {
    let mut factory = Factory::new();
    assert_eq!(
        factory.create_engine("pinyin"),
        Err("Cannot find engine pinyin".to_owned())
    );
    assert_eq!(
        factory.create_engine(ENGINE_NAME),
        Ok("/org/freedesktop/IBus/Engine/1".to_owned())
    );
}

#[test]
fn the_tenth_engine_has_two_digits() {
    let mut factory = Factory::new();
    for _ in 0..9 {
        factory.create_engine(ENGINE_NAME).unwrap();
    }
    assert_eq!(
        factory.create_engine(ENGINE_NAME),
        Ok("/org/freedesktop/IBus/Engine/10".to_owned())
    );
}
