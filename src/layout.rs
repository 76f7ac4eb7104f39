//! The fixed set of files a generation run writes, and where each goes.
use crate::model::{CrateData, OntologyData};
use vstd::prelude::*;
use vstd::string::StringExecFns;

verus! {

/// The kinds of generated file. A module file is rendered from the
/// ontology at the given index, every other file from the whole crate.
#[derive(Debug, Clone, Copy, PartialEq, Eq, Structural)]
pub enum ArtifactKind {
    Manifest,
    Summary,
    Entry,
    Module(usize),
    Index,
}

/// One file to render: its kind, the template it is rendered with, and its
/// path relative to the output folder.
#[derive(Debug, Clone, PartialEq, Eq)]
pub struct Artifact {
    pub kind: ArtifactKind,
    pub template: String,
    pub path: String,
}

/// The kind of the file in slot `k` of a plan for `n` ontologies: manifest,
/// summary and entry point first, then one module per ontology in order, the
/// index last.
pub open spec fn slot_kind(n: nat, k: int) -> ArtifactKind {
    if k == 0 {
        ArtifactKind::Manifest
    } else if k == 1 {
        ArtifactKind::Summary
    } else if k == 2 {
        ArtifactKind::Entry
    } else if k < 3 + n {
        ArtifactKind::Module((k - 3) as usize)
    } else {
        ArtifactKind::Index
    }
}

/// The template a kind of file is rendered with.
pub open spec fn template_of(kind: ArtifactKind) -> Seq<char> {
    match kind {
        ArtifactKind::Manifest => "Cargo.toml"@,
        ArtifactKind::Summary => "README.md"@,
        ArtifactKind::Entry => "lib.rs"@,
        ArtifactKind::Module(_) => "ontology.rs"@,
        ArtifactKind::Index => "mod.rs"@,
    }
}

/// Where a kind of file goes, given the crate's ontologies.
pub open spec fn path_of(kind: ArtifactKind, ontologies: Seq<OntologyData>) -> Seq<char> {
    match kind {
        ArtifactKind::Manifest => "Cargo.toml"@,
        ArtifactKind::Summary => "README.md"@,
        ArtifactKind::Entry => "src/lib.rs"@,
        ArtifactKind::Module(i) => "src/"@ + ontologies[i as int].module_name@ + ".rs"@,
        ArtifactKind::Index => "src/mod.rs"@,
    }
}

/// `a` is the file planned for slot `k`.
pub open spec fn planned_at(a: Artifact, ontologies: Seq<OntologyData>, k: int) -> bool {
    &&& a.kind == slot_kind(ontologies.len(), k)
    &&& a.template@ == template_of(a.kind)
    &&& a.path@ == path_of(a.kind, ontologies)
}

/// Every ontology gets exactly one module file, and the plan holds four
/// files besides: the manifest, the summary, the entry point and the index.
pub proof fn lemma_one_module_per_ontology(n: nat)
    requires
        n + 4 <= usize::MAX,
    ensures
        forall|i: int| 0 <= i < n ==> #[trigger] slot_kind(n, i + 3) == ArtifactKind::Module(i as usize),
        forall|k: int| 0 <= k < n + 4 ==> ((#[trigger] slot_kind(n, k) is Module) <==> 3 <= k < n + 3),
        forall|k: int, l: int|
            0 <= k < n + 4 && 0 <= l < n + 4 && k != l ==> #[trigger] slot_kind(n, k) != #[trigger] slot_kind(n, l),
{
}

/// The files planned for a crate depend only on its ontologies' module
/// names: two crates whose ontologies have the same module names get the
/// same kinds, templates and paths, slot by slot.
pub proof fn lemma_plan_determined(
    a: Seq<Artifact>,
    oa: Seq<OntologyData>,
    b: Seq<Artifact>,
    ob: Seq<OntologyData>,
)
    requires
        oa.len() == ob.len(),
        forall|i: int| 0 <= i < oa.len() ==> (#[trigger] oa[i]).module_name@ == ob[i].module_name@,
        a.len() == oa.len() + 4,
        b.len() == ob.len() + 4,
        forall|k: int| 0 <= k < a.len() ==> planned_at(#[trigger] a[k], oa, k),
        forall|k: int| 0 <= k < b.len() ==> planned_at(#[trigger] b[k], ob, k),
    ensures
        forall|k: int|
            0 <= k < a.len() ==> {
                &&& (#[trigger] a[k]).kind == b[k].kind
                &&& a[k].template@ == b[k].template@
                &&& a[k].path@ == b[k].path@
            },
{
    assert forall|k: int| 0 <= k < a.len() implies {
        &&& (#[trigger] a[k]).kind == b[k].kind
        &&& a[k].template@ == b[k].template@
        &&& a[k].path@ == b[k].path@
    } by {
        assert(planned_at(a[k], oa, k));
        assert(planned_at(b[k], ob, k));
        if let ArtifactKind::Module(i) = a[k].kind {
            assert(oa[i as int].module_name@ == ob[i as int].module_name@);
        }
    }
}

fn artifact(kind: ArtifactKind, template: &str, path: String) -> (r: Artifact)
    ensures
        r.kind == kind,
        r.template@ == template@,
        r.path@ == path@,
{
    Artifact { kind, template: template.to_owned(), path }
}

/// The files to write for a crate, in the order in which they are written.
pub fn artifact_plan(data: &CrateData) -> (r: Vec<Artifact>)
    ensures
        r.len() == data.ontologies.len() + 4,
        forall|k: int| 0 <= k < r.len() ==> planned_at(#[trigger] r[k], data.ontologies@, k),
{
    let ghost os = data.ontologies@;
    let n = data.ontologies.len();
    let mut r: Vec<Artifact> = Vec::new();
    r.push(artifact(ArtifactKind::Manifest, "Cargo.toml", "Cargo.toml".to_owned()));
    r.push(artifact(ArtifactKind::Summary, "README.md", "README.md".to_owned()));
    r.push(artifact(ArtifactKind::Entry, "lib.rs", "src/lib.rs".to_owned()));
    let mut i: usize = 0;
    while i < n
        invariant
            n == os.len(),
            os == data.ontologies@,
            i <= n,
            r.len() == i + 3,
            forall|k: int| 0 <= k < r.len() ==> planned_at(#[trigger] r[k], os, k),
        decreases n - i,
    {
        let path = "src/".to_owned().concat(data.ontologies[i].module_name.as_str()).concat(".rs");
        r.push(artifact(ArtifactKind::Module(i), "ontology.rs", path));
        i = i + 1;
    }
    r.push(artifact(ArtifactKind::Index, "mod.rs", "src/mod.rs".to_owned()));
    r
}

} // verus!
