//! The table from schema datatypes to Rust types.
use vstd::prelude::*;

verus! {

pub const STRING_DATATYPE: &'static str = "https://atomicdata.dev/datatypes/string";
pub const INTEGER_DATATYPE: &'static str = "https://atomicdata.dev/datatypes/integer";
pub const BOOLEAN_DATATYPE: &'static str = "https://atomicdata.dev/datatypes/boolean";
pub const RESOURCE_ARRAY_DATATYPE: &'static str = "https://atomicdata.dev/datatypes/resourceArray";
pub const ATOMIC_URL_DATATYPE: &'static str = "https://atomicdata.dev/datatypes/atomicURL";

/// The Rust type generated for a datatype. Strings and URLs become `String`,
/// and so does every datatype outside the table.
pub open spec fn rust_type_for(datatype: Seq<char>) -> Seq<char> {
    if datatype == INTEGER_DATATYPE@ {
        "i64"@
    } else if datatype == BOOLEAN_DATATYPE@ {
        "bool"@
    } else if datatype == RESOURCE_ARRAY_DATATYPE@ {
        "Vec<String>"@
    } else {
        "String"@
    }
}

/// The Rust types that generated fields can have.
pub open spec fn is_known_rust_type(t: Seq<char>) -> bool {
    t == "String"@ || t == "i64"@ || t == "bool"@ || t == "Vec<String>"@
}

/// Whether two texts hold the same characters.
pub fn same_text(a: &str, b: &str) -> (r: bool)
    ensures
        r == (a@ == b@),
{
    let n = a.unicode_len();
    if n != b.unicode_len() {
        return false;
    }
    let mut i: usize = 0;
    while i < n
        invariant
            n == a@.len(),
            n == b@.len(),
            i <= n,
            forall|j: int| 0 <= j < i ==> a@[j] == b@[j],
        decreases n - i,
    {
        if a.get_char(i) != b.get_char(i) {
            return false;
        }
        i = i + 1;
    }
    assert(a@ =~= b@);
    true
}

/// Maps a datatype identifier to the Rust type of a field of that datatype.
pub fn map_type(datatype: &str) -> (r: String)
    ensures
        r@ == rust_type_for(datatype@),
        is_known_rust_type(r@),
        r@.len() > 0,
{
    proof {
        reveal_strlit("i64");
        reveal_strlit("bool");
        reveal_strlit("Vec<String>");
        reveal_strlit("String");
    }
    if same_text(datatype, INTEGER_DATATYPE) {
        "i64".to_owned()
    } else if same_text(datatype, BOOLEAN_DATATYPE) {
        "bool".to_owned()
    } else if same_text(datatype, RESOURCE_ARRAY_DATATYPE) {
        "Vec<String>".to_owned()
    } else {
        "String".to_owned()
    }
}

} // verus!
