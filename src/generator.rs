//! Resolving an ontology from the store into the generated crate's description.
use crate::builder::{
    class_built, class_from, crate_description_for, crate_from, listed, listed_subjects, marked_required,
    ontology_built, ontology_from, property_from,
};
use crate::datatype::is_known_rust_type;
use crate::ident::{lemma_sanitize_fixed_point, lowered, cased, hyphen_free, sanitized, CaseStyle};
use crate::model::{ClassData, CrateData, Field, GenError, OntologyData, PropertyData, ResourceData};
use atomic_lib::{urls, Store, Storelike};
use vstd::prelude::*;

verus! {

/// atomic_lib's in-memory store, the source of every resource. Opaque here.
#[verifier::external_type_specification]
#[verifier::external_body]
pub struct ExStore(atomic_lib::Store);

/// Relies on atomic_lib's `Storelike::get_resource`, and on `Value`'s
/// `Display`, which joins a resource array with commas. What the store holds
/// is not known here, so nothing is stated of a resource that was found; a
/// subject that does not resolve is reported.
#[verifier::external_body]
fn fetch_resource(store: &Store, subject: &str) -> (r: Result<ResourceData, GenError>)
    ensures
        r matches Err(e) ==> e is NotFound && e->NotFound_0@ == subject@,
{
    let res = store.get_resource(subject).map_err(|_| GenError::NotFound(subject.to_string()))?;
    let vals = res.get_propvals();
    let text = |url: &str| vals.get(url).map(|v| v.to_string());
    Ok(ResourceData {
        subject: res.get_subject().clone(),
        shortname: text(urls::SHORTNAME),
        description: text(urls::DESCRIPTION),
        classes: text(urls::CLASSES),
        properties: text(urls::PROPERTIES),
        requires: text(urls::REQUIRES),
        datatype: text(urls::DATATYPE_PROP),
    })
}

/// What to generate: the ontologies' subjects, in order, and where the
/// generated crate goes.
#[derive(Debug, Clone)]
pub struct Config {
    pub ontologies: Vec<String>,
    pub output_folder: String,
}

/// A property as generation makes it, whatever its resource held.
pub open spec fn property_ok(p: PropertyData, required: bool) -> bool {
    &&& p.name@ == cased(sanitized(p.shortname@), CaseStyle::Snake)
    &&& is_known_rust_type(p.rust_type@)
    &&& p.required == required
}

/// A class as generation makes it: all of its properties are required.
pub open spec fn class_ok(c: ClassData) -> bool {
    &&& c.name@ == cased(sanitized(c.shortname@), CaseStyle::Pascal)
    &&& forall|i: int| 0 <= i < c.properties.len() ==> property_ok(#[trigger] c.properties[i], true)
}

/// An ontology as generation makes it: its module name is a clean identifier
/// derived from its name, its classes are well made, and its own properties
/// are not required.
pub open spec fn ontology_ok(o: OntologyData) -> bool {
    &&& o.module_name@ == cased(sanitized(o.name@), CaseStyle::Snake)
    &&& hyphen_free(o.module_name@)
    &&& forall|i: int| 0 <= i < o.classes.len() ==> class_ok(#[trigger] o.classes[i])
    &&& forall|i: int| 0 <= i < o.properties.len() ==> property_ok(#[trigger] o.properties[i], false)
}

/// A crate as generation makes it: every ontology is well made.
pub open spec fn crate_ok(c: CrateData) -> bool {
    forall|i: int| 0 <= i < c.ontologies.len() ==> ontology_ok(#[trigger] c.ontologies[i])
}

/// An ontology's module name depends on its name alone: two generated
/// ontologies with the same name have the same module name. It holds no
/// hyphen, so sanitising it again leaves it as it is.
pub proof fn lemma_module_name_from_name(a: OntologyData, b: OntologyData)
    requires
        ontology_ok(a),
        ontology_ok(b),
        a.name@ == b.name@,
    ensures
        a.module_name@ == b.module_name@,
        hyphen_free(a.module_name@),
        sanitized(a.module_name@) == a.module_name@,
{
    lemma_sanitize_fixed_point(a.module_name@);
}

/// In a generated crate, every property listed under a class is required,
/// and every property an ontology declares itself is not.
pub proof fn lemma_required_flags(c: CrateData)
    requires
        crate_ok(c),
    ensures
        forall|i: int, j: int, k: int|
            0 <= i < c.ontologies.len() && 0 <= j < c.ontologies[i].classes.len()
                && 0 <= k < c.ontologies[i].classes[j].properties.len()
                ==> (#[trigger] c.ontologies[i].classes[j].properties[k]).required,
        forall|i: int, k: int|
            0 <= i < c.ontologies.len() && 0 <= k < c.ontologies[i].properties.len()
                ==> !(#[trigger] c.ontologies[i].properties[k]).required,
{
    assert forall|i: int, j: int, k: int|
        0 <= i < c.ontologies.len() && 0 <= j < c.ontologies[i].classes.len()
            && 0 <= k < c.ontologies[i].classes[j].properties.len()
            implies (#[trigger] c.ontologies[i].classes[j].properties[k]).required by {
        assert(ontology_ok(c.ontologies[i]));
        assert(class_ok(c.ontologies[i].classes[j]));
        assert(property_ok(c.ontologies[i].classes[j].properties[k], true));
    }
    assert forall|i: int, k: int|
        0 <= i < c.ontologies.len() && 0 <= k < c.ontologies[i].properties.len()
            implies !(#[trigger] c.ontologies[i].properties[k]).required by {
        assert(ontology_ok(c.ontologies[i]));
        assert(property_ok(c.ontologies[i].properties[k], false));
    }
}

/// Generates the description of a crate from the ontologies in a store.
pub struct OntologyGenerator {
    pub store: Store,
    pub config: Config,
}

impl OntologyGenerator {
    pub fn new(store: Store, config: Config) -> (r: Self)
        ensures
            r.store == store,
            r.config == config,
    {
        OntologyGenerator { store, config }
    }

    /// Resolves a property and builds it, not required.
    pub fn generate_property_data(&self, subject: &str) -> (r: Result<PropertyData, GenError>)
        ensures
            r matches Ok(p) ==> property_ok(p, false),
            r matches Err(e) ==> e is NotFound || e is MissingField,
            r matches Err(GenError::NotFound(s)) ==> s@ == subject@,
    {
        let res = fetch_resource(&self.store, subject)?;
        property_from(&res, false)
    }

    /// Builds a class from its resource, resolving its required properties in
    /// the order in which the class lists them. A class without a shortname
    /// fails before any of them is resolved.
    pub fn generate_class_data(&self, res: &ResourceData) -> (r: Result<ClassData, GenError>)
        ensures
            res.shortname is None ==> r == Err::<ClassData, GenError>(GenError::MissingField(res.subject, Field::Shortname)),
            res.shortname is Some && listed(res.requires).len() == 0 ==> r is Ok,
            r matches Ok(c) ==> {
                &&& class_built(c, *res)
                &&& class_ok(c)
                &&& c.properties.len() == listed(res.requires).len()
            },
            r matches Err(e) ==> e is NotFound || e is MissingField,
    {
        match &res.shortname {
            None => return class_from(res, Vec::new()),
            Some(_) => {},
        }
        let subjects = listed_subjects(&res.requires);
        assert(subjects@.len() == listed(res.requires).len());
        let mut properties: Vec<PropertyData> = Vec::new();
        let mut i: usize = 0;
        while i < subjects.len()
            invariant
                res.shortname is Some,
                subjects@.len() == listed(res.requires).len(),
                i <= subjects.len(),
                properties.len() == i,
                forall|j: int| 0 <= j < i ==> property_ok(#[trigger] properties[j], false),
            decreases subjects.len() - i,
        {
            let p = self.generate_property_data(subjects[i].as_str())?;
            properties.push(p);
            i = i + 1;
        }
        assert(subjects@.len() == listed(res.requires).len());
        let r = class_from(res, properties);
        if let Ok(c) = &r {
            assert forall|j: int| 0 <= j < c.properties.len() implies property_ok(#[trigger] c.properties[j], true) by {
                assert(marked_required(c.properties[j], properties[j]));
            }
        }
        r
    }

    /// Builds an ontology from its resource: its classes, then its own
    /// properties, each in the order in which the ontology lists them.
    pub fn generate_ontology_data(&self, res: &ResourceData) -> (r: Result<OntologyData, GenError>)
        ensures
            listed(res.classes).len() == 0 && listed(res.properties).len() == 0 ==> r is Ok,
            r matches Ok(o) ==> {
                &&& ontology_built(o, *res)
                &&& ontology_ok(o)
                &&& o.classes.len() == listed(res.classes).len()
                &&& o.properties.len() == listed(res.properties).len()
            },
            r matches Err(e) ==> e is NotFound || e is MissingField,
    {
        let class_subjects = listed_subjects(&res.classes);
        assert(class_subjects@.len() == listed(res.classes).len());
        let mut classes: Vec<ClassData> = Vec::new();
        let mut i: usize = 0;
        while i < class_subjects.len()
            invariant
                class_subjects@.len() == listed(res.classes).len(),
                i <= class_subjects.len(),
                classes.len() == i,
                forall|j: int| 0 <= j < i ==> class_ok(#[trigger] classes[j]),
            decreases class_subjects.len() - i,
        {
            let class_res = fetch_resource(&self.store, class_subjects[i].as_str())?;
            let c = self.generate_class_data(&class_res)?;
            classes.push(c);
            i = i + 1;
        }
        let prop_subjects = listed_subjects(&res.properties);
        assert(prop_subjects@.len() == listed(res.properties).len());
        let mut properties: Vec<PropertyData> = Vec::new();
        let mut k: usize = 0;
        while k < prop_subjects.len()
            invariant
                prop_subjects@.len() == listed(res.properties).len(),
                k <= prop_subjects.len(),
                properties.len() == k,
                forall|j: int| 0 <= j < k ==> property_ok(#[trigger] properties[j], false),
            decreases prop_subjects.len() - k,
        {
            let p = self.generate_property_data(prop_subjects[k].as_str())?;
            properties.push(p);
            k = k + 1;
        }
        assert(class_subjects@.len() == listed(res.classes).len());
        assert(prop_subjects@.len() == listed(res.properties).len());
        Ok(ontology_from(res, classes, properties))
    }

    /// Resolves every configured ontology, in order, into the crate's
    /// description, named after the first of them. With no ontology
    /// configured it fails before resolving anything.
    pub fn generate_crate_data(&self) -> (r: Result<CrateData, GenError>)
        ensures
            self.config.ontologies.len() == 0 <==> r == Err::<CrateData, GenError>(GenError::Config),
            r matches Ok(c) ==> {
                &&& c.ontologies.len() > 0
                &&& c.name@ == "atomic_ontology_"@ + lowered(sanitized(c.ontologies[0].name@))
                &&& hyphen_free(c.name@)
                &&& c.version@ == "0.1.0"@
                &&& c.description@ == crate_description_for(c.ontologies@)
                &&& c.ontologies.len() == self.config.ontologies.len()
                &&& crate_ok(c)
            },
            self.config.ontologies.len() > 0 ==> (r matches Err(e) ==> e is NotFound || e is MissingField),
    {
        let n = self.config.ontologies.len();
        if n == 0 {
            return Err(GenError::Config);
        }
        let first = fetch_resource(&self.store, self.config.ontologies[0].as_str())?;
        let lead = self.generate_ontology_data(&first)?;
        let mut ontologies: Vec<OntologyData> = Vec::new();
        ontologies.push(lead);
        let mut i: usize = 1;
        while i < n
            invariant
                n == self.config.ontologies.len(),
                1 <= i <= n,
                ontologies.len() == i,
                ontology_built(ontologies[0], first),
                forall|j: int| 0 <= j < i ==> ontology_ok(#[trigger] ontologies[j]),
            decreases n - i,
        {
            let res = fetch_resource(&self.store, self.config.ontologies[i].as_str())?;
            let o = self.generate_ontology_data(&res)?;
            ontologies.push(o);
            i = i + 1;
        }
        Ok(crate_from(&first, ontologies))
    }
}

} // verus!
