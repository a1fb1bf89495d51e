//! The values that scripts hand to the functions the game registers, as far
//! as the game reads them: the kind of each value, the text of strings and the
//! entries of maps.
use vstd::prelude::*;

verus! {

/// A value passed from a script into a registered game function.
pub enum ScriptArg {
    Unit,
    Bool,
    Integer,
    Float,
    String(String),
    List,
    Table(Vec<(String, ScriptArg)>),
    Reference,
    FunctionMut,
    Function,
    Error,
}

/// The name of a value's kind, as the scripting layer spells it in messages.
pub open spec fn spec_kind_name(arg: ScriptArg) -> Seq<char> {
    match arg {
        ScriptArg::Unit => "Unit"@,
        ScriptArg::Bool => "Bool"@,
        ScriptArg::Integer => "Integer"@,
        ScriptArg::Float => "Float"@,
        ScriptArg::String(_) => "String"@,
        ScriptArg::List => "List"@,
        ScriptArg::Table(_) => "Map"@,
        ScriptArg::Reference => "Reference"@,
        ScriptArg::FunctionMut => "FunctionMut"@,
        ScriptArg::Function => "Function"@,
        ScriptArg::Error => "Error"@,
    }
}

/// The entry of a map stored under `key`, if any (the first one, should a
/// key occur twice).
pub open spec fn map_entry(entries: Seq<(String, ScriptArg)>, key: Seq<char>) -> Option<ScriptArg>
    decreases entries.len(),
{
    if entries.len() == 0 {
        None
    } else if entries[0].0@ == key {
        Some(entries[0].1)
    } else {
        map_entry(entries.drop_first(), key)
    }
}

/// A map's entry is found wherever it stands: when the entry at position `k`
/// has the key and no entry before it does, the lookup gives that entry's
/// value; when no entry has the key, the lookup finds nothing.
pub proof fn lemma_map_entry_at(entries: Seq<(String, ScriptArg)>, key: Seq<char>, k: int)
    requires
        0 <= k < entries.len(),
        entries[k].0@ == key,
        forall|j: int| 0 <= j < k ==> entries[j].0@ != key,
    ensures
        map_entry(entries, key) == Some(entries[k].1),
    decreases k,
{
    if k > 0 {
        let rest = entries.drop_first();
        assert forall|j: int| 0 <= j < k - 1 implies rest[j].0@ != key by {
            assert(rest[j] == entries[j + 1]);
        }
        lemma_map_entry_at(rest, key, k - 1);
        assert(rest[k - 1] == entries[k]);
    }
}

/// A key that no entry has is not found.
pub proof fn lemma_map_entry_absent(entries: Seq<(String, ScriptArg)>, key: Seq<char>)
    requires
        forall|j: int| 0 <= j < entries.len() ==> entries[j].0@ != key,
    ensures
        map_entry(entries, key) is None,
    decreases entries.len(),
{
    if entries.len() > 0 {
        let rest = entries.drop_first();
        assert forall|j: int| 0 <= j < rest.len() implies rest[j].0@ != key by {
            assert(rest[j] == entries[j + 1]);
        }
        lemma_map_entry_absent(rest, key);
    }
}

impl ScriptArg {
    /// The name of this value's kind.
    pub fn kind_name(&self) -> (name: String)
        ensures
            name@ == spec_kind_name(*self),
    {
        let name = match self {
            ScriptArg::Unit => "Unit",
            ScriptArg::Bool => "Bool",
            ScriptArg::Integer => "Integer",
            ScriptArg::Float => "Float",
            ScriptArg::String(_) => "String",
            ScriptArg::List => "List",
            ScriptArg::Table(_) => "Map",
            ScriptArg::Reference => "Reference",
            ScriptArg::FunctionMut => "FunctionMut",
            ScriptArg::Function => "Function",
            ScriptArg::Error => "Error",
        };
        String::from_str(name)
    }
}

/// Looks up `key` among the entries of a script map.
pub fn find_entry<'a>(entries: &'a Vec<(String, ScriptArg)>, key: &str) -> (found: Option<&'a ScriptArg>)
    ensures
        match map_entry(entries@, key@) {
            None => found is None,
            Some(v) => found == Some(&v),
        },
{
    let mut i: usize = 0;
    assert(entries@.skip(0) =~= entries@);
    while i < entries.len()
        invariant
            i <= entries@.len(),
            map_entry(entries@, key@) == map_entry(entries@.skip(i as int), key@),
        decreases entries@.len() - i,
    {
        proof {
            assert(entries@.skip(i as int).drop_first() =~= entries@.skip(i + 1));
            assert(entries@.skip(i as int)[0] == entries@[i as int]);
        }
        if str_eq(entries[i].0.as_str(), key) {
            return Some(&entries[i].1);
        }
        i = i + 1;
    }
    None
}

/// Character-wise equality of two strings.
pub fn str_eq(a: &str, b: &str) -> (same: bool)
    ensures
        same == (a@ == b@),
{
    let n = a.unicode_len();
    let m = b.unicode_len();
    if n != m {
        return false;
    }
    let mut i: usize = 0;
    while i < n
        invariant
            n == a@.len(),
            m == b@.len(),
            n == m,
            i <= n,
            forall|j: int| 0 <= j < i ==> a@[j] == b@[j],
        decreases n - i,
    {
        if a.get_char(i) != b.get_char(i) {
            return false;
        }
        i = i + 1;
    }
    assert(a@ =~= b@);
    true
}

} // verus!
