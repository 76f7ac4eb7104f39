//! Building the generated crate's description from resolved resources.
use crate::datatype::{is_known_rust_type, map_type, rust_type_for};
use crate::ident::{hyphen_free, lemma_sanitize_fixed_point, cased, lower_identifier, lowered, pascal_identifier, sanitized, snake_identifier, CaseStyle};
use crate::model::{ClassData, CrateData, Field, GenError, OntologyData, PropertyData, ResourceData};
use vstd::prelude::*;
use vstd::string::StringExecFns;

verus! {

/// Where the segment that is open at position `i` of a comma list starts.
pub open spec fn segment_start(s: Seq<char>, i: int) -> int
    decreases i,
{
    if i <= 0 {
        0
    } else if s[i - 1] == ',' {
        i
    } else {
        segment_start(s, i - 1)
    }
}

/// The non-empty segments of `s` closed by a comma before position `i`.
pub open spec fn closed_items(s: Seq<char>, i: int) -> Seq<Seq<char>>
    decreases i,
{
    if i <= 0 {
        seq![]
    } else if s[i - 1] == ',' && segment_start(s, i - 1) < i - 1 {
        closed_items(s, i - 1).push(s.subrange(segment_start(s, i - 1), i - 1))
    } else {
        closed_items(s, i - 1)
    }
}

/// The subjects of a comma-joined list: its segments in order, empty ones
/// left out.
pub open spec fn list_items(s: Seq<char>) -> Seq<Seq<char>> {
    let st = segment_start(s, s.len() as int);
    if st < s.len() {
        closed_items(s, s.len() as int).push(s.subrange(st, s.len() as int))
    } else {
        closed_items(s, s.len() as int)
    }
}

/// The subjects listed under an optional list attribute.
pub open spec fn listed(o: Option<String>) -> Seq<Seq<char>> {
    match o {
        Some(s) => list_items(s@),
        None => seq![],
    }
}

/// The text of an optional attribute, or the default.
pub open spec fn text_or(o: Option<String>, default: Seq<char>) -> Seq<char> {
    match o {
        Some(s) => s@,
        None => default,
    }
}

/// The views of a vector of strings.
pub open spec fn texts(v: Seq<String>) -> Seq<Seq<char>> {
    v.map_values(|s: String| s@)
}

/// The field that makes a property resource unusable, if any.
pub open spec fn property_gap(res: ResourceData) -> Option<Field> {
    if res.shortname is None {
        Some(Field::Shortname)
    } else if res.datatype is None {
        Some(Field::Datatype)
    } else {
        None
    }
}

/// `p` is the property built from `res`, with the given `required` flag.
pub open spec fn property_built(p: PropertyData, res: ResourceData, required: bool) -> bool {
    &&& res.shortname is Some
    &&& res.datatype is Some
    &&& p.shortname@ == res.shortname->0@
    &&& p.name@ == cased(sanitized(p.shortname@), CaseStyle::Snake)
    &&& p.description@ == text_or(res.description, seq![])
    &&& p.rust_type@ == rust_type_for(res.datatype->0@)
    &&& p.subject@ == res.subject@
    &&& p.required == required
}

/// `c` is the class built from `res`, its properties aside.
pub open spec fn class_built(c: ClassData, res: ResourceData) -> bool {
    &&& res.shortname is Some
    &&& c.shortname@ == res.shortname->0@
    &&& c.name@ == cased(sanitized(c.shortname@), CaseStyle::Pascal)
    &&& c.description@ == text_or(res.description, seq![])
    &&& c.subject@ == res.subject@
}

/// `o` is the ontology built from `res`, its classes and properties aside.
pub open spec fn ontology_built(o: OntologyData, res: ResourceData) -> bool {
    &&& o.name@ == text_or(res.shortname, "unknown"@)
    &&& o.module_name@ == cased(sanitized(o.name@), CaseStyle::Snake)
    &&& o.description@ == text_or(res.description, seq![])
}

/// `q` is `p` marked as required.
pub open spec fn marked_required(q: PropertyData, p: PropertyData) -> bool {
    q == PropertyData { required: true, ..p }
}

/// Splits a comma-joined list into its subjects, in order, skipping empty
/// segments.
pub fn split_subjects(list: &str) -> (r: Vec<String>)
    ensures
        texts(r@) == list_items(list@),
{
    let n = list.unicode_len();
    let mut out: Vec<String> = Vec::new();
    let mut start: usize = 0;
    let mut i: usize = 0;
    while i < n
        invariant
            n == list@.len(),
            start <= i <= n,
            start == segment_start(list@, i as int),
            texts(out@) == closed_items(list@, i as int),
        decreases n - i,
    {
        if list.get_char(i) == ',' {
            if start < i {
                let item = list.substring_char(start, i).to_owned();
                out.push(item);
                assert(texts(out@) =~= closed_items(list@, i + 1));
            }
            start = i + 1;
        }
        i = i + 1;
    }
    if start < n {
        let item = list.substring_char(start, n).to_owned();
        out.push(item);
        assert(texts(out@) =~= list_items(list@));
    }
    out
}

/// The subjects under an optional list attribute; none when it is absent.
pub fn listed_subjects(o: &Option<String>) -> (r: Vec<String>)
    ensures
        texts(r@) == listed(*o),
{
    match o {
        Some(s) => split_subjects(s.as_str()),
        None => {
            let r: Vec<String> = Vec::new();
            assert(texts(r@) =~= seq![]);
            r
        },
    }
}

/// The text of an optional attribute, or the default.
pub fn text_or_default(o: &Option<String>, default: &str) -> (r: String)
    ensures
        r@ == text_or(*o, default@),
{
    match o {
        Some(s) => s.clone(),
        None => default.to_owned(),
    }
}

/// The text of an optional attribute, or the empty text.
pub fn text_or_empty(o: &Option<String>) -> (r: String)
    ensures
        r@ == text_or(*o, seq![]),
{
    match o {
        Some(s) => s.clone(),
        None => String::new(),
    }
}

/// Builds a property from its resource. It needs a shortname and a datatype,
/// and reports the first of them that is missing.
pub fn property_from(res: &ResourceData, required: bool) -> (r: Result<PropertyData, GenError>)
    ensures
        r is Ok <==> property_gap(*res) is None,
        r matches Ok(p) ==> property_built(p, *res, required),
        r matches Ok(p) ==> is_known_rust_type(p.rust_type@),
        r matches Err(e) ==> e == GenError::MissingField(res.subject, property_gap(*res)->0),
{
    let shortname = match &res.shortname {
        Some(s) => s.clone(),
        None => return Err(GenError::MissingField(res.subject.clone(), Field::Shortname)),
    };
    let datatype = match &res.datatype {
        Some(d) => d,
        None => return Err(GenError::MissingField(res.subject.clone(), Field::Datatype)),
    };
    let name = snake_identifier(shortname.as_str());
    let description = text_or_empty(&res.description);
    let rust_type = map_type(datatype.as_str());
    Ok(PropertyData {
        name,
        shortname,
        description,
        rust_type,
        subject: res.subject.clone(),
        required,
    })
}

/// Builds a class from its resource and its required properties, each of
/// which is marked as required. It needs a shortname.
pub fn class_from(res: &ResourceData, properties: Vec<PropertyData>) -> (r: Result<ClassData, GenError>)
    ensures
        r is Ok <==> res.shortname is Some,
        r matches Ok(c) ==> {
            &&& class_built(c, *res)
            &&& c.properties.len() == properties.len()
            &&& forall|i: int| 0 <= i < properties.len() ==> marked_required(#[trigger] c.properties[i], properties[i])
        },
        r matches Err(e) ==> e == GenError::MissingField(res.subject, Field::Shortname),
{
    let shortname = match &res.shortname {
        Some(s) => s.clone(),
        None => return Err(GenError::MissingField(res.subject.clone(), Field::Shortname)),
    };
    let name = pascal_identifier(shortname.as_str());
    let description = text_or_empty(&res.description);
    let mut marked: Vec<PropertyData> = Vec::new();
    let mut i: usize = 0;
    while i < properties.len()
        invariant
            i <= properties.len(),
            marked.len() == i,
            forall|j: int| 0 <= j < i ==> marked_required(#[trigger] marked[j], properties[j]),
        decreases properties.len() - i,
    {
        let p = &properties[i];
        marked.push(PropertyData {
            name: p.name.clone(),
            shortname: p.shortname.clone(),
            description: p.description.clone(),
            rust_type: p.rust_type.clone(),
            subject: p.subject.clone(),
            required: true,
        });
        i = i + 1;
    }
    Ok(ClassData { name, description, shortname, subject: res.subject.clone(), properties: marked })
}

/// Builds an ontology from its resource, its classes and its own properties.
/// A missing shortname reads as "unknown", a missing description as empty.
pub fn ontology_from(
    res: &ResourceData,
    classes: Vec<ClassData>,
    properties: Vec<PropertyData>,
) -> (r: OntologyData)
    ensures
        ontology_built(r, *res),
        hyphen_free(r.module_name@),
        sanitized(r.module_name@) == r.module_name@,
        r.classes == classes,
        r.properties == properties,
{
    let name = text_or_default(&res.shortname, "unknown");
    let module_name = snake_identifier(name.as_str());
    proof {
        lemma_sanitize_fixed_point(module_name@);
    }
    let description = text_or_empty(&res.description);
    OntologyData { name, module_name, description, classes, properties }
}

/// The crate's name: derived from the shortname of the first ontology.
pub open spec fn crate_name_for(first: ResourceData) -> Seq<char> {
    "atomic_ontology_"@ + lowered(sanitized(text_or(first.shortname, "unknown"@)))
}

/// The crate's description: derived from the name of the first ontology.
pub open spec fn crate_description_for(ontologies: Seq<OntologyData>) -> Seq<char> {
    "Generated Atomic Data types for "@ + if ontologies.len() > 0 {
        ontologies[0].name@
    } else {
        "unknown"@
    }
}

/// Assembles the crate from the first ontology's resource and the ontologies
/// built in order.
pub fn crate_from(first: &ResourceData, ontologies: Vec<OntologyData>) -> (r: CrateData)
    ensures
        r.name@ == crate_name_for(*first),
        hyphen_free(r.name@),
        r.version@ == "0.1.0"@,
        r.description@ == crate_description_for(ontologies@),
        r.ontologies == ontologies,
{
    let first_name = text_or_default(&first.shortname, "unknown");
    let name = "atomic_ontology_".to_owned().concat(lower_identifier(first_name.as_str()).as_str());
    let lead = if ontologies.len() > 0 {
        ontologies[0].name.clone()
    } else {
        "unknown".to_owned()
    };
    let description = "Generated Atomic Data types for ".to_owned().concat(lead.as_str());
    proof {
        reveal_strlit("atomic_ontology_");
    }
    CrateData { name, version: "0.1.0".to_owned(), description, ontologies }
}

} // verus!
