use cargo_bundler::BundleSettings;

fn named(name: &str) -> BundleSettings {
    let mut s = BundleSettings::default();
    s.name = name.to_string();
    s
}

fn layer_with_everything() -> BundleSettings {
    let mut x = named("Everything");
    x.identifier = Some("com.example.all".to_string());
    x.icon = vec!["icon.png".to_string()];
    x.version = Some("2.0.0".to_string());
    x.resources_mapping = vec![("data".to_string(), "foo/bar".to_string())];
    x.copyright = Some("(c) Someone".to_string());
    x.category = Some("Puzzle Game".to_string());
    x.linux_use_terminal = Some(true);
    x.osx_plugins = Some(vec!["plug".to_string()]);
    x.bin = vec![("tool".to_string(), named("Tool"))];
    x
}

#[test]
fn merge_with_empty_keeps_layer() {
    let merged = layer_with_everything().merge(BundleSettings::default());
    assert_eq!(merged.name, "Everything");
    assert_eq!(merged.identifier, Some("com.example.all".to_string()));
    assert_eq!(merged.icon, vec!["icon.png".to_string()]);
    assert_eq!(merged.version, Some("2.0.0".to_string()));
    assert_eq!(merged.resources_mapping, vec![("data".to_string(), "foo/bar".to_string())]);
    assert_eq!(merged.copyright, Some("(c) Someone".to_string()));
    assert_eq!(merged.category, Some("Puzzle Game".to_string()));
    assert_eq!(merged.linux_use_terminal, Some(true));
    assert_eq!(merged.osx_plugins, Some(vec!["plug".to_string()]));
    assert_eq!(merged.bin.len(), 1);
    assert_eq!(merged.bin[0].1.name, "Tool");
}

#[test]
fn empty_merged_over_layer_keeps_layer() {
    let merged = BundleSettings::default().merge(layer_with_everything());
    assert_eq!(merged.name, "Everything");
    assert_eq!(merged.identifier, Some("com.example.all".to_string()));
    assert_eq!(merged.icon, vec!["icon.png".to_string()]);
    assert_eq!(merged.resources_mapping, vec![("data".to_string(), "foo/bar".to_string())]);
    assert_eq!(merged.linux_use_terminal, Some(true));
    assert_eq!(merged.bin.len(), 1);
}

#[test]
fn higher_layer_wins_scalars() {
    let mut a = named("High");
    a.version = Some("1.0".to_string());
    let mut b = named("Low");
    b.version = Some("0.1".to_string());
    b.copyright = Some("low copyright".to_string());
    let merged = a.merge(b);
    assert_eq!(merged.name, "High");
    assert_eq!(merged.version, Some("1.0".to_string()));
    assert_eq!(merged.copyright, Some("low copyright".to_string()));
}

#[test]
fn unset_name_falls_back_to_lower_layer() {
    let merged = BundleSettings::default().merge(named("Low"));
    assert_eq!(merged.name, "Low");
}

#[test]
fn lists_override_not_append() {
    let mut a = BundleSettings::default();
    a.resources_mapping = vec![("a".to_string(), "x".to_string())];
    a.icon = vec!["a.png".to_string()];
    let mut b = BundleSettings::default();
    b.resources_mapping = vec![
        ("b".to_string(), "y".to_string()),
        ("c".to_string(), "z".to_string()),
    ];
    b.icon = vec!["b.png".to_string()];
    b.deb_depends = vec!["libc6".to_string()];
    let merged = a.merge(b);
    assert_eq!(merged.resources_mapping, vec![("a".to_string(), "x".to_string())]);
    assert_eq!(merged.icon, vec!["a.png".to_string()]);
    assert_eq!(merged.deb_depends, vec!["libc6".to_string()]);
}

#[test]
fn override_tables_are_united() {
    let mut a = BundleSettings::default();
    a.bin = vec![("foo".to_string(), named("Foo from A"))];
    let mut b = BundleSettings::default();
    b.bin = vec![("bar".to_string(), named("Bar from B"))];
    let merged = a.merge(b);
    let foo = cargo_bundler::find_entry(&merged.bin, "foo").unwrap();
    let bar = cargo_bundler::find_entry(&merged.bin, "bar").unwrap();
    assert_eq!(merged.bin[foo].1.name, "Foo from A");
    assert_eq!(merged.bin[bar].1.name, "Bar from B");
}

#[test]
fn override_tables_keep_higher_entry_on_shared_key() {
    let mut a = BundleSettings::default();
    a.bin = vec![("foo".to_string(), named("Foo from A"))];
    a.targets = vec![("deb".to_string(), named("Deb from A"))];
    let mut b = BundleSettings::default();
    b.bin = vec![("foo".to_string(), named("Foo from B"))];
    b.targets = vec![("deb".to_string(), named("Deb from B"))];
    let merged = a.merge(b);
    let foo = cargo_bundler::find_entry(&merged.bin, "foo").unwrap();
    assert_eq!(merged.bin[foo].1.name, "Foo from A");
    let deb = cargo_bundler::find_entry(&merged.targets, "deb").unwrap();
    assert_eq!(merged.targets[deb].1.name, "Deb from A");
    assert!(cargo_bundler::find_entry(&merged.bin, "baz").is_none());
}

#[test]
fn duplicate_copies_fields_and_tables() {
    let x = layer_with_everything();
    let y = x.duplicate();
    assert_eq!(y.name, "Everything");
    assert_eq!(y.resources_mapping, x.resources_mapping);
    assert_eq!(y.bin.len(), 1);
    assert_eq!(y.bin[0].0, "tool");
    assert_eq!(y.bin[0].1.name, "Tool");
}
