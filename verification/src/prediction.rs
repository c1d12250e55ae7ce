//! Predictive models for `PREDICTION()` queries: which model a registration
//! asks for, and the names of the models registered so far.

use vstd::prelude::*;
use crate::text::{owned, str_equal};

verus! {

/// Where a predictive model's predictions come from.
#[derive(Debug)]
pub enum ModelSource {
    /// An ONNX model loaded from this file.
    Onnx(String),
    /// A stub that always returns `{score: 1.0}`.
    FixedScore,
}

/// A predictive model to register.
#[derive(Debug)]
pub struct PredictiveModelSpec {
    pub source: ModelSource,
    /// The key of the input dict whose value holds the model's input.
    pub input_field: String,
    /// The key under which the model's full output is written.
    pub output_field: String,
}

/// The text of an optional owned string.
pub open spec fn text_or(o: Option<String>, default: Seq<char>) -> Seq<char> {
    match o {
        Some(s) => s@,
        None => default,
    }
}

/// The model that a registration asks for: the ONNX file when a path is
/// given, else the fixed-score stub; input and output fields default to
/// `"input"` and `"output"`.
pub fn plan_predictive_model(
    onnx_path: Option<String>,
    input_field: Option<String>,
    output_field: Option<String>,
) -> (m: PredictiveModelSpec)
    ensures
        match onnx_path {
            Some(p) => m.source matches ModelSource::Onnx(q) && q@ == p@,
            None => m.source is FixedScore,
        },
        m.input_field@ == text_or(input_field, "input"@),
        m.output_field@ == text_or(output_field, "output"@),
{
    let input_field = match input_field {
        Some(f) => f,
        None => owned("input"),
    };
    let output_field = match output_field {
        Some(f) => f,
        None => owned("output"),
    };
    let source = match onnx_path {
        Some(p) => ModelSource::Onnx(p),
        None => ModelSource::FixedScore,
    };
    PredictiveModelSpec { source, input_field, output_field }
}

/// The names of the registered predictive models, each held once.
pub struct PredictionRegistry {
    names: Vec<String>,
}

impl PredictionRegistry {
    /// No name is held twice.
    #[verifier::type_invariant]
    spec fn distinct(self) -> bool {
        forall|i: int, j: int|
            0 <= i < j < self.names@.len() ==> #[trigger] self.names@[i]@ != #[trigger] self.names@[j]@
    }

    /// The names held, as a set.
    pub closed spec fn names(self) -> Set<Seq<char>> {
        Set::new(|n: Seq<char>| exists|i: int| 0 <= i < self.names@.len() && self.names@[i]@ == n)
    }

    /// How many names are held.
    pub closed spec fn count(self) -> nat {
        self.names@.len()
    }

    /// A registry holding no name.
    pub fn new() -> (r: Self)
        ensures
            r.names() == Set::<Seq<char>>::empty(),
            r.count() == 0,
    {
        let r = PredictionRegistry { names: Vec::new() };
        assert(r.names() =~= Set::<Seq<char>>::empty());
        r
    }

    /// The position of `name` among the names held.
    fn position(&self, name: &str) -> (p: Option<usize>)
        ensures
            match p {
                Some(i) => i < self.names@.len() && self.names@[i as int]@ == name@,
                None => forall|j: int| 0 <= j < self.names@.len() ==> self.names@[j]@ != name@,
            },
    {
        let mut i: usize = 0;
        while i < self.names.len()
            invariant
                i <= self.names@.len(),
                forall|j: int| 0 <= j < i ==> self.names@[j]@ != name@,
            decreases self.names@.len() - i,
        {
            if str_equal(self.names[i].as_str(), name) {
                return Some(i);
            }
            i = i + 1;
        }
        None
    }

    /// Whether a model is registered under `name`.
    pub fn contains(&self, name: &str) -> (b: bool)
        ensures
            b == self.names().contains(name@),
    {
        let p = self.position(name);
        proof {
            if let Some(i) = p {
                assert(self.names().contains(name@));
            }
        }
        p.is_some()
    }

    /// Records `name` as registered.
    pub fn insert(&mut self, name: String)
        ensures
            final(self).names() == old(self).names().insert(name@),
            final(self).count() == old(self).count() + if old(self).names().contains(name@) {
                0int
            } else {
                1int
            },
    {
        proof {
            use_type_invariant(&*self);
        }
        let p = self.position(name.as_str());
        if p.is_none() {
            let ghost before = self.names@;
            let mut names: Vec<String> = Vec::new();
            std::mem::swap(&mut names, &mut self.names);
            names.push(name);
            self.names = names;
            assert(self.names() =~= old(self).names().insert(name@)) by {
                assert forall|n: Seq<char>| #[trigger] self.names().contains(n) implies old(self).names().insert(name@).contains(n) by {
                    let i = choose|i: int| 0 <= i < self.names@.len() && self.names@[i]@ == n;
                    if i < before.len() {
                        assert(before[i]@ == n);
                    }
                }
                assert forall|n: Seq<char>| #[trigger] old(self).names().insert(name@).contains(n) implies self.names().contains(n) by {
                    if n == name@ {
                        assert(self.names@[before.len() as int]@ == n);
                    } else {
                        let i = choose|i: int| 0 <= i < before.len() && before[i]@ == n;
                        assert(self.names@[i]@ == n);
                    }
                }
            }
            assert(!old(self).names().contains(name@));
        } else {
            assert(old(self).names().contains(name@));
            assert(self.names() =~= old(self).names().insert(name@));
        }
    }

    /// Forgets `name`; nothing changes when it is not registered.
    pub fn remove(&mut self, name: &str)
        ensures
            final(self).names() == old(self).names().remove(name@),
            final(self).count() == old(self).count() - if old(self).names().contains(name@) {
                1int
            } else {
                0int
            },
    {
        proof {
            use_type_invariant(&*self);
        }
        match self.position(name) {
            Some(i) => {
                let ghost before = self.names@;
                let mut names: Vec<String> = Vec::new();
                std::mem::swap(&mut names, &mut self.names);
                let _ = names.remove(i);
                assert(names@ =~= before.subrange(0, i as int) + before.subrange(i + 1, before.len() as int));
                self.names = names;
                assert(self.names@ =~= before.subrange(0, i as int) + before.subrange(i + 1, before.len() as int));
                assert(self.names() =~= old(self).names().remove(name@)) by {
                    assert forall|n: Seq<char>| #[trigger] self.names().contains(n) implies old(self).names().remove(name@).contains(n) by {
                        let k = choose|k: int| 0 <= k < self.names@.len() && self.names@[k]@ == n;
                        if k < i {
                            assert(before[k]@ == n);
                            assert(k != i);
                        } else {
                            assert(before[k + 1]@ == n);
                        }
                    }
                    assert forall|n: Seq<char>| #[trigger] old(self).names().remove(name@).contains(n) implies self.names().contains(n) by {
                        let k = choose|k: int| 0 <= k < before.len() && before[k]@ == n;
                        if k < i {
                            assert(self.names@[k]@ == n);
                        } else {
                            assert(k != i);
                            assert(self.names@[k - 1]@ == n);
                        }
                    }
                }
            },
            None => {
                assert(self.names() =~= old(self).names().remove(name@));
                assert(!old(self).names().contains(name@));
            },
        }
    }
}

/// A model is registered from the registration of its name until its
/// unregistration; registering a name twice registers it once, and
/// unregistering one name leaves the others registered.
pub proof fn law_registered_until_unregistered(names: Set<Seq<char>>, name: Seq<char>, other: Seq<char>)
    requires
        other != name,
    ensures
        names.insert(name).contains(name),
        !names.insert(name).remove(name).contains(name),
        names.insert(name).insert(name) == names.insert(name),
        names.remove(name).contains(other) == names.contains(other),
        names.insert(name).contains(other) == names.contains(other),
{
    assert(names.insert(name).insert(name) =~= names.insert(name));
}

} // verus!
