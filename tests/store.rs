use atomic_lib::values::SubResource;
use atomic_lib::{urls, Resource, Store, Storelike, Value};
use ontology_codegen::generator::{Config, OntologyGenerator};
use ontology_codegen::layout::artifact_plan;
use ontology_codegen::model::{Field, GenError, ResourceData};

fn add(store: &Store, subject: &str, vals: Vec<(&str, Value)>) {
    let mut r = Resource::new(subject.to_string());
    for (prop, val) in vals {
        r.set_unsafe(prop.to_string(), val);
    }
    store.add_resource_opts(&r, false, false, true).unwrap();
}

fn list(subjects: &[&str]) -> Value {
    Value::ResourceArray(subjects.iter().map(|s| SubResource::Subject(s.to_string())).collect())
}

fn text(s: &str) -> Value {
    Value::String(s.to_string())
}

fn url(s: &str) -> Value {
    Value::AtomicUrl(s.to_string())
}

fn pet_store() -> Store {
    let store = Store::init().unwrap();
    add(&store, "https://ex.com/name", vec![(urls::SHORTNAME, text("Name")), (urls::DATATYPE_PROP, url(urls::STRING))]);
    add(&store, "https://ex.com/age", vec![(urls::SHORTNAME, text("Age")), (urls::DATATYPE_PROP, url(urls::INTEGER))]);
    add(&store, "https://ex.com/dog", vec![(urls::SHORTNAME, text("Dog")), (urls::REQUIRES, list(&["https://ex.com/name"]))]);
    add(
        &store,
        "https://ex.com/pet",
        vec![
            (urls::SHORTNAME, text("Pet")),
            (urls::CLASSES, list(&["https://ex.com/dog"])),
            (urls::PROPERTIES, list(&["https://ex.com/age"])),
        ],
    );
    store
}

fn generator(store: Store, ontologies: &[&str]) -> OntologyGenerator {
    let config = Config {
        ontologies: ontologies.iter().map(|s| s.to_string()).collect(),
        output_folder: "out".to_string(),
    };
    OntologyGenerator::new(store, config)
}

#[test]
fn empty_config_is_a_config_error() {
    let g = generator(Store::init().unwrap(), &[]);
    assert_eq!(g.generate_crate_data(), Err(GenError::Config));
}

#[test]
fn pet_scenario() {
    let g = generator(pet_store(), &["https://ex.com/pet"]);
    let c = g.generate_crate_data().unwrap();
    assert_eq!(c.name, "atomic_ontology_pet");
    assert_eq!(c.ontologies.len(), 1);
    let pet = &c.ontologies[0];
    assert_eq!(pet.module_name, "pet");
    assert_eq!(pet.classes.len(), 1);
    let dog = &pet.classes[0];
    assert_eq!(dog.name, "Dog");
    assert_eq!(dog.properties.len(), 1);
    assert_eq!(dog.properties[0].name, "name");
    assert_eq!(dog.properties[0].rust_type, "String");
    assert!(dog.properties[0].required);
    assert_eq!(pet.properties.len(), 1);
    assert_eq!(pet.properties[0].name, "age");
    assert_eq!(pet.properties[0].rust_type, "i64");
    assert!(!pet.properties[0].required);
    let paths: Vec<String> = artifact_plan(&c).into_iter().map(|a| a.path).collect();
    assert_eq!(paths, vec!["Cargo.toml", "README.md", "src/lib.rs", "src/pet.rs", "src/mod.rs"]);
}

#[test]
fn class_order_follows_the_list() {
    let store = Store::init().unwrap();
    for s in ["B", "A", "C"] {
        add(&store, &format!("https://ex.com/{}", s), vec![(urls::SHORTNAME, text(s))]);
    }
    add(
        &store,
        "https://ex.com/o",
        vec![
            (urls::SHORTNAME, text("o")),
            (urls::CLASSES, list(&["https://ex.com/B", "https://ex.com/A", "https://ex.com/C"])),
        ],
    );
    let c = generator(store, &["https://ex.com/o"]).generate_crate_data().unwrap();
    let names: Vec<&str> = c.ontologies[0].classes.iter().map(|c| c.name.as_str()).collect();
    assert_eq!(names, vec!["B", "A", "C"]);
}

#[test]
fn same_property_in_two_places() {
    let store = pet_store();
    add(
        &store,
        "https://ex.com/farm",
        vec![
            (urls::SHORTNAME, text("farm")),
            (urls::CLASSES, list(&["https://ex.com/dog"])),
            (urls::PROPERTIES, list(&["https://ex.com/name"])),
        ],
    );
    let c = generator(store, &["https://ex.com/farm"]).generate_crate_data().unwrap();
    let o = &c.ontologies[0];
    assert!(o.classes[0].properties[0].required);
    assert!(!o.properties[0].required);
    assert_eq!(o.classes[0].properties[0].subject, o.properties[0].subject);
}

#[test]
fn class_without_shortname_fails_the_run() {
    let store = pet_store();
    add(&store, "https://ex.com/anon", vec![(urls::DESCRIPTION, text("no name"))]);
    add(
        &store,
        "https://ex.com/bad",
        vec![(urls::SHORTNAME, text("bad")), (urls::CLASSES, list(&["https://ex.com/anon"]))],
    );
    let g = generator(store, &["https://ex.com/pet", "https://ex.com/bad"]);
    assert_eq!(
        g.generate_crate_data(),
        Err(GenError::MissingField("https://ex.com/anon".to_string(), Field::Shortname))
    );
}

#[test]
fn property_without_datatype_fails_the_run() {
    let store = pet_store();
    add(&store, "https://ex.com/untyped", vec![(urls::SHORTNAME, text("untyped"))]);
    add(
        &store,
        "https://ex.com/bad",
        vec![(urls::SHORTNAME, text("bad")), (urls::PROPERTIES, list(&["https://ex.com/untyped"]))],
    );
    let g = generator(store, &["https://ex.com/bad"]);
    assert_eq!(
        g.generate_crate_data(),
        Err(GenError::MissingField("https://ex.com/untyped".to_string(), Field::Datatype))
    );
}

#[test]
fn unresolved_subject_is_not_found() {
    let g = generator(pet_store(), &["not a subject"]);
    assert_eq!(g.generate_crate_data(), Err(GenError::NotFound("not a subject".to_string())));
}

#[test]
fn generation_is_repeatable() {
    let g = generator(pet_store(), &["https://ex.com/pet"]);
    let first = g.generate_crate_data().unwrap();
    let second = g.generate_crate_data().unwrap();
    assert_eq!(first, second);
    assert_eq!(artifact_plan(&first), artifact_plan(&second));
}

fn bare(subject: &str, shortname: Option<&str>) -> ResourceData {
    ResourceData {
        subject: subject.to_string(),
        shortname: shortname.map(|s| s.to_string()),
        description: None,
        classes: None,
        properties: None,
        requires: None,
        datatype: None,
    }
}

#[test]
fn empty_ontology_builds_without_lookups() {
    let g = generator(Store::init().unwrap(), &[]);
    let o = g.generate_ontology_data(&bare("https://ex.com/empty", None)).unwrap();
    assert_eq!(o.name, "unknown");
    assert_eq!(o.module_name, "unknown");
    assert_eq!(o.description, "");
    assert!(o.classes.is_empty());
    assert!(o.properties.is_empty());
}

#[test]
fn class_without_required_list_builds() {
    let g = generator(Store::init().unwrap(), &[]);
    let c = g.generate_class_data(&bare("https://ex.com/c", Some("my-class"))).unwrap();
    assert_eq!(c.shortname, "my-class");
    assert_eq!(c.name, "MyClass");
    assert!(c.properties.is_empty());
}

#[test]
fn crate_name_is_clean() {
    let store = Store::init().unwrap();
    add(&store, "https://ex.com/ps", vec![(urls::SHORTNAME, text("Pet-Store"))]);
    let c = generator(store, &["https://ex.com/ps"]).generate_crate_data().unwrap();
    assert_eq!(c.name, "atomic_ontology_pet_store");
    assert!(!c.name.contains('-'));
    assert_eq!(c.name, c.name.to_lowercase());
    assert_eq!(c.description, "Generated Atomic Data types for Pet-Store");
}

#[test]
fn property_lookup_failure_names_the_subject() {
    let g = generator(Store::init().unwrap(), &[]);
    assert_eq!(g.generate_property_data("nowhere"), Err(GenError::NotFound("nowhere".to_string())));
}
