use vstd::prelude::*;

verus! {

/// The scope that a collection path without a dot names.
pub open spec fn default_scope() -> Seq<char> {
    "_default"@
}

/// `i` is the position of the first `.` in `s`.
pub open spec fn is_first_dot(s: Seq<char>, i: int) -> bool {
    &&& 0 <= i < s.len()
    &&& s[i] == '.'
    &&& forall|j: int| 0 <= j < i ==> s[j] != '.'
}

/// `s` holds at least one `.`.
pub open spec fn has_dot(s: Seq<char>) -> bool {
    exists|i: int| 0 <= i < s.len() && s[i] == '.'
}

/// A collection path `"scope.collection"` read as the pair (scope, collection):
/// split at the first dot, or the default scope when there is none.
pub open spec fn collection_path(s: Seq<char>) -> (Seq<char>, Seq<char>) {
    if has_dot(s) {
        let i = choose|i: int| is_first_dot(s, i);
        (s.subrange(0, i), s.subrange(i + 1, s.len() as int))
    } else {
        (default_scope(), s)
    }
}

/// Two first dots of one string are one position.
pub proof fn lemma_first_dot_unique(s: Seq<char>, i: int, k: int)
    requires
        is_first_dot(s, i),
        is_first_dot(s, k),
    ensures
        i == k,
{
    if i < k {
        assert(s[i] != '.');
    } else if k < i {
        assert(s[k] != '.');
    }
}

/// The path of a string whose first dot stands at `i`.
pub proof fn lemma_collection_path_at(s: Seq<char>, i: int)
    requires
        is_first_dot(s, i),
    ensures
        collection_path(s) == (s.subrange(0, i), s.subrange(i + 1, s.len() as int)),
{
    assert(has_dot(s));
    let k = choose|k: int| is_first_dot(s, k);
    lemma_first_dot_unique(s, i, k);
}

/// A string with a dot at `w` has a first dot.
pub proof fn lemma_first_dot_exists(s: Seq<char>, w: int)
    requires
        0 <= w < s.len(),
        s[w] == '.',
    ensures
        exists|i: int| is_first_dot(s, i),
    decreases w,
{
    if exists|j: int| 0 <= j < w && s[j] == '.' {
        let j = choose|j: int| 0 <= j < w && s[j] == '.';
        lemma_first_dot_exists(s, j);
    } else {
        assert(is_first_dot(s, w));
    }
}

/// A collection path with a dot is its scope, a dot and its collection name,
/// and the scope holds no dot; a path without a dot is the collection name
/// itself, in the default scope.
pub proof fn law_collection_path_rejoins(s: Seq<char>)
    ensures
        has_dot(s) ==> {
            let (scope, name) = collection_path(s);
            &&& s == scope + seq!['.'] + name
            &&& !has_dot(scope)
        },
        !has_dot(s) ==> collection_path(s) == (default_scope(), s),
{
    if has_dot(s) {
        let w = choose|w: int| 0 <= w < s.len() && s[w] == '.';
        lemma_first_dot_exists(s, w);
        let i = choose|i: int| is_first_dot(s, i);
        lemma_collection_path_at(s, i);
        let (scope, name) = collection_path(s);
        assert(s =~= scope + seq!['.'] + name);
        assert(!has_dot(scope)) by {
            if has_dot(scope) {
                let k = choose|k: int| 0 <= k < scope.len() && scope[k] == '.';
                assert(s[k] == '.');
            }
        }
    }
}

/// Splits a collection path into its scope and collection names.
///
/// `"inventory.items"` names the collection `items` in the scope `inventory`;
/// only the first dot separates, so `"a.b.c"` is the collection `b.c` in the
/// scope `a`. A path without a dot names a collection in the `_default` scope.
pub fn parse_collection(s: &str) -> (r: (&str, &str))
    ensures
        (r.0@, r.1@) == collection_path(s@),
{
    let n = s.unicode_len();
    let mut i: usize = 0;
    while i < n
        invariant
            n == s@.len(),
            i <= n,
            forall|j: int| 0 <= j < i ==> s@[j] != '.',
        decreases n - i,
    {
        if s.get_char(i) == '.' {
            proof {
                lemma_collection_path_at(s@, i as int);
            }
            return (s.substring_char(0, i), s.substring_char(i + 1, n));
        }
        i = i + 1;
    }
    assert(!has_dot(s@));
    ("_default", s)
}


/// A collection named by its scope and its own name.
#[derive(Debug)]
pub struct CollectionName {
    pub scope: String,
    pub name: String,
}

impl View for CollectionName {
    type V = (Seq<char>, Seq<char>);

    open spec fn view(&self) -> (Seq<char>, Seq<char>) {
        (self.scope@, self.name@)
    }
}

/// The scope and collection that a collection path names, as owned strings.
pub fn collection_name(spec: &str) -> (c: CollectionName)
    ensures
        c@ == collection_path(spec@),
{
    let (scope, name) = parse_collection(spec);
    CollectionName { scope: crate::text::owned(scope), name: crate::text::owned(name) }
}

/// The collections that a list of collection paths names, in order.
pub fn collection_names(specs: &Vec<String>) -> (names: Vec<CollectionName>)
    ensures
        names@.len() == specs@.len(),
        forall|i: int| 0 <= i < specs@.len() ==> #[trigger] names@[i]@ == collection_path(specs@[i]@),
{
    let mut names: Vec<CollectionName> = Vec::new();
    let mut i: usize = 0;
    while i < specs.len()
        invariant
            i <= specs@.len(),
            names@.len() == i,
            forall|j: int| 0 <= j < i ==> #[trigger] names@[j]@ == collection_path(specs@[j]@),
        decreases specs@.len() - i,
    {
        names.push(collection_name(specs[i].as_str()));
        i = i + 1;
    }
    names
}

} // verus!
