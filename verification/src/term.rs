//! Datalog terms: the values handed in from Python, their conversion into
//! biscuit terms, and the conversion of biscuit terms back into Python values.
use vstd::prelude::*;
use vstd::multiset::Multiset;
use biscuit_auth::builder::Term;
use crate::error::{ErrorKind, PyError};
use chrono::TimeZone;

verus! {

/// Declaration of biscuit-auth's datalog term.
#[verifier::external_type_specification]
#[verifier::external_body]
pub struct ExTerm(Term);

/// A key of a map term.
pub enum MapKeyModel {
    Integer(i64),
    Str(Seq<char>),
    Parameter(Seq<char>),
}

/// What a biscuit term holds: its variant and contents. A set term is the
/// collection of its distinct elements, each counted once.
pub enum TermModel {
    Variable(Seq<char>),
    Integer(i64),
    Str(Seq<char>),
    Date(u64),
    Bytes(Seq<u8>),
    Bool(bool),
    TermSet(Multiset<TermModel>),
    Parameter(Seq<char>),
    Null,
    Array(Seq<TermModel>),
    TermMap(Map<MapKeyModel, TermModel>),
}

/// What a biscuit term holds (its variant and contents).
pub uninterp spec fn term_model(t: Term) -> TermModel;

/// The sequence without its repeated elements, each kept at its first place.
pub open spec fn distinct_models(s: Seq<TermModel>) -> Seq<TermModel>
    decreases s.len(),
{
    if s.len() == 0 {
        s
    } else {
        let r = distinct_models(s.drop_last());
        if r.contains(s.last()) {
            r
        } else {
            r.push(s.last())
        }
    }
}

/// The map built by inserting the pairs in order, a later pair replacing an
/// earlier one with the same key.
pub open spec fn pairs_to_map<K, V>(s: Seq<(K, V)>) -> Map<K, V>
    decreases s.len(),
{
    if s.len() == 0 {
        Map::empty()
    } else {
        pairs_to_map(s.drop_last()).insert(s.last().0, s.last().1)
    }
}

/// The models of a sequence of biscuit terms.
pub open spec fn term_models(s: Seq<Term>) -> Seq<TermModel> {
    s.map_values(|t: Term| term_model(t))
}

/// `Term::Integer`.
#[verifier::external_body]
fn term_integer(i: i64) -> (t: Term)
    ensures
        term_model(t) == TermModel::Integer(i),
{
    Term::Integer(i)
}

/// `Term::Str`.
#[verifier::external_body]
fn term_str(s: String) -> (t: Term)
    ensures
        term_model(t) == TermModel::Str(s@),
{
    Term::Str(s)
}

/// `Term::Date`, a number of seconds since the Unix epoch.
#[verifier::external_body]
fn term_date(d: u64) -> (t: Term)
    ensures
        term_model(t) == TermModel::Date(d),
{
    Term::Date(d)
}

/// `Term::Bytes`.
#[verifier::external_body]
fn term_bytes(b: Vec<u8>) -> (t: Term)
    ensures
        term_model(t) == TermModel::Bytes(b@),
{
    Term::Bytes(b)
}

/// `Term::Bool`.
#[verifier::external_body]
fn term_bool(b: bool) -> (t: Term)
    ensures
        term_model(t) == TermModel::Bool(b),
{
    Term::Bool(b)
}

/// `Term::Set` over a `BTreeSet` collected from the items: it holds each
/// distinct item once.
#[verifier::external_body]
fn term_set(items: Vec<Term>) -> (t: Term)
    ensures
        term_model(t) == TermModel::TermSet(distinct_models(term_models(items@)).to_multiset()),
{
    Term::Set(items.into_iter().collect())
}

/// `Term::Array`, keeping the items in order.
#[verifier::external_body]
fn term_array(items: Vec<Term>) -> (t: Term)
    ensures
        term_model(t) == TermModel::Array(term_models(items@)),
{
    Term::Array(items)
}

/// `Term::Map` over a `BTreeMap` collected from string-keyed entries, whose
/// keys are distinct: each key with its value.
#[verifier::external_body]
fn term_map_str(entries: Vec<(String, Term)>) -> (t: Term)
    requires
        str_keys_distinct(entries@),
    ensures
        term_model(t) == TermModel::TermMap(
            pairs_to_map(
                entries@.map_values(
                    |e: (String, Term)| (MapKeyModel::Str(e.0@), term_model(e.1)),
                ),
            ),
        ),
{
    Term::Map(
        entries.into_iter().map(|(k, v)| (biscuit_auth::builder::MapKey::Str(k), v)).collect(),
    )
}

/// `Term::Map` over a `BTreeMap` collected from integer-keyed entries, whose
/// keys are distinct: each key with its value.
#[verifier::external_body]
fn term_map_int(entries: Vec<(i64, Term)>) -> (t: Term)
    requires
        int_keys_distinct(entries@),
    ensures
        term_model(t) == TermModel::TermMap(
            pairs_to_map(
                entries@.map_values(
                    |e: (i64, Term)| (MapKeyModel::Integer(e.0), term_model(e.1)),
                ),
            ),
        ),
{
    Term::Map(
        entries.into_iter().map(|(k, v)| (biscuit_auth::builder::MapKey::Integer(k), v)).collect(),
    )
}

/// A timezone-aware date handed in from Python, as its number of seconds
/// since the Unix epoch (UTC).
#[derive(Clone, Copy, Debug, PartialEq, Eq, Structural, PartialOrd, Ord)]
pub struct PyDate(pub i64);

/// A datalog term that can occur in a set.
pub enum NestedPyTerm {
    Bool(bool),
    Integer(i64),
    Str(String),
    Date(PyDate),
    Bytes(Vec<u8>),
}

/// A term value handed in from Python. A dictionary is given by its entries.
pub enum PyTerm {
    Simple(NestedPyTerm),
    TermSet(Vec<NestedPyTerm>),
    Array(Vec<PyTerm>),
    StrDict(Vec<(String, PyTerm)>),
    IntDict(Vec<(i64, PyTerm)>),
}

/// The biscuit term a nested value stands for; none for a date before the
/// Unix epoch.
pub open spec fn nested_model(n: NestedPyTerm) -> Option<TermModel> {
    match n {
        NestedPyTerm::Bool(b) => Some(TermModel::Bool(b)),
        NestedPyTerm::Integer(i) => Some(TermModel::Integer(i)),
        NestedPyTerm::Str(s) => Some(TermModel::Str(s@)),
        NestedPyTerm::Bytes(b) => Some(TermModel::Bytes(b@)),
        NestedPyTerm::Date(d) => if d.0 >= 0 {
            Some(TermModel::Date(d.0 as u64))
        } else {
            None
        },
    }
}

/// The biscuit terms of a sequence of nested values, if each has one.
pub open spec fn nested_models(s: Seq<NestedPyTerm>) -> Option<Seq<TermModel>>
    decreases s.len(),
{
    if s.len() == 0 {
        Some(Seq::empty())
    } else {
        match (nested_models(s.drop_last()), nested_model(s.last())) {
            (Some(ms), Some(m)) => Some(ms.push(m)),
            _ => None,
        }
    }
}

/// The biscuit term a Python value stands for; none when a date in it lies
/// before the Unix epoch.
pub open spec fn py_term_model(t: PyTerm) -> Option<TermModel>
    decreases t,
{
    match t {
        PyTerm::Simple(n) => nested_model(n),
        PyTerm::TermSet(v) => match nested_models(v@) {
            Some(ms) => Some(TermModel::TermSet(distinct_models(ms).to_multiset())),
            None => None,
        },
        PyTerm::Array(v) => match py_term_models(v@) {
            Some(ms) => Some(TermModel::Array(ms)),
            None => None,
        },
        PyTerm::StrDict(v) => match str_entry_models(v@) {
            Some(es) => Some(TermModel::TermMap(pairs_to_map(es))),
            None => None,
        },
        PyTerm::IntDict(v) => match int_entry_models(v@) {
            Some(es) => Some(TermModel::TermMap(pairs_to_map(es))),
            None => None,
        },
    }
}

/// The biscuit terms of a sequence of Python values, if each has one.
pub open spec fn py_term_models(s: Seq<PyTerm>) -> Option<Seq<TermModel>>
    decreases s,
{
    if s.len() == 0 {
        Some(Seq::empty())
    } else {
        match (py_term_models(s.drop_last()), py_term_model(s.last())) {
            (Some(ms), Some(m)) => Some(ms.push(m)),
            _ => None,
        }
    }
}

/// The map entries of a string-keyed dictionary, if each value has a term.
pub open spec fn str_entry_models(s: Seq<(String, PyTerm)>) -> Option<
    Seq<(MapKeyModel, TermModel)>,
>
    decreases s,
{
    if s.len() == 0 {
        Some(Seq::empty())
    } else {
        match (str_entry_models(s.drop_last()), py_term_model(s.last().1)) {
            (Some(es), Some(m)) => Some(es.push((MapKeyModel::Str(s.last().0@), m))),
            _ => None,
        }
    }
}

/// The map entries of an integer-keyed dictionary, if each value has a term.
pub open spec fn int_entry_models(s: Seq<(i64, PyTerm)>) -> Option<Seq<(MapKeyModel, TermModel)>>
    decreases s,
{
    if s.len() == 0 {
        Some(Seq::empty())
    } else {
        match (int_entry_models(s.drop_last()), py_term_model(s.last().1)) {
            (Some(es), Some(m)) => Some(es.push((MapKeyModel::Integer(s.last().0), m))),
            _ => None,
        }
    }
}

/// No key of the entries occurs twice.
pub open spec fn str_keys_distinct<V>(s: Seq<(String, V)>) -> bool {
    forall|i: int, j: int| 0 <= i < j < s.len() ==> (#[trigger] s[i]).0@ != (#[trigger] s[j]).0@
}

/// No key of the entries occurs twice.
pub open spec fn int_keys_distinct<V>(s: Seq<(i64, V)>) -> bool {
    forall|i: int, j: int| 0 <= i < j < s.len() ==> (#[trigger] s[i]).0 != (#[trigger] s[j]).0
}

/// A value as Python hands it in: each dictionary in it, at any depth, has
/// each key once.
pub open spec fn py_term_well_formed(t: PyTerm) -> bool
    decreases t,
{
    match t {
        PyTerm::Simple(_) => true,
        PyTerm::TermSet(_) => true,
        PyTerm::Array(v) => py_terms_well_formed(v@),
        PyTerm::StrDict(v) => str_keys_distinct(v@) && str_entries_well_formed(v@),
        PyTerm::IntDict(v) => int_keys_distinct(v@) && int_entries_well_formed(v@),
    }
}

/// Each value of the sequence is as Python hands it in.
pub open spec fn py_terms_well_formed(s: Seq<PyTerm>) -> bool
    decreases s,
{
    if s.len() == 0 {
        true
    } else {
        py_terms_well_formed(s.drop_last()) && py_term_well_formed(s.last())
    }
}

/// Each value of the entries is as Python hands it in.
pub open spec fn str_entries_well_formed(s: Seq<(String, PyTerm)>) -> bool
    decreases s,
{
    if s.len() == 0 {
        true
    } else {
        str_entries_well_formed(s.drop_last()) && py_term_well_formed(s.last().1)
    }
}

/// Each value of the entries is as Python hands it in.
pub open spec fn int_entries_well_formed(s: Seq<(i64, PyTerm)>) -> bool
    decreases s,
{
    if s.len() == 0 {
        true
    } else {
        int_entries_well_formed(s.drop_last()) && py_term_well_formed(s.last().1)
    }
}

/// Each parameter value handed in is as Python hands it in.
pub open spec fn values_well_formed(ps: Seq<(String, PyTerm)>) -> bool {
    forall|i: int| 0 <= i < ps.len() ==> py_term_well_formed(#[trigger] ps[i].1)
}

/// Each element of a well-formed sequence is well formed.
proof fn lemma_terms_well_formed(s: Seq<PyTerm>)
    requires
        py_terms_well_formed(s),
    ensures
        forall|i: int| 0 <= i < s.len() ==> py_term_well_formed(#[trigger] s[i]),
    decreases s.len(),
{
    if s.len() > 0 {
        let p = s.drop_last();
        lemma_terms_well_formed(p);
        assert forall|i: int| 0 <= i < s.len() implies py_term_well_formed(#[trigger] s[i]) by {
            if i < s.len() - 1 {
                assert(p[i] == s[i]);
            }
        }
    }
}

/// Each value of well-formed entries is well formed.
proof fn lemma_str_entries_well_formed(s: Seq<(String, PyTerm)>)
    requires
        str_entries_well_formed(s),
    ensures
        forall|i: int| 0 <= i < s.len() ==> py_term_well_formed(#[trigger] s[i].1),
    decreases s.len(),
{
    if s.len() > 0 {
        let p = s.drop_last();
        lemma_str_entries_well_formed(p);
        assert forall|i: int| 0 <= i < s.len() implies py_term_well_formed(#[trigger] s[i].1) by {
            if i < s.len() - 1 {
                assert(p[i] == s[i]);
            }
        }
    }
}

/// Each value of well-formed entries is well formed.
proof fn lemma_int_entries_well_formed(s: Seq<(i64, PyTerm)>)
    requires
        int_entries_well_formed(s),
    ensures
        forall|i: int| 0 <= i < s.len() ==> py_term_well_formed(#[trigger] s[i].1),
    decreases s.len(),
{
    if s.len() > 0 {
        let p = s.drop_last();
        lemma_int_entries_well_formed(p);
        assert forall|i: int| 0 <= i < s.len() implies py_term_well_formed(#[trigger] s[i].1) by {
            if i < s.len() - 1 {
                assert(p[i] == s[i]);
            }
        }
    }
}

/// A sequence of nested values has biscuit terms exactly when each of its
/// elements has one, and they are then the elements' terms in order.
proof fn lemma_nested_models(s: Seq<NestedPyTerm>)
    ensures
        nested_models(s) is Some <==> forall|i: int| 0 <= i < s.len() ==> (#[trigger] nested_model(s[i])) is Some,
        nested_models(s) is Some ==> nested_models(s)->0.len() == s.len() && forall|i: int|
            0 <= i < s.len() ==> nested_models(s)->0[i] == (#[trigger] nested_model(s[i]))->0,
    decreases s.len(),
{
    if s.len() > 0 {
        let p = s.drop_last();
        lemma_nested_models(p);
        assert forall|i: int| 0 <= i < p.len() implies #[trigger] p[i] == s[i] by {}
        let last = s[s.len() - 1];
        assert(s.last() == last);
        if nested_models(s) is Some {
            assert forall|i: int| #![trigger nested_model(s[i])] 0 <= i < s.len() implies (nested_model(s[i]) is Some) && nested_models(s)->0[i] == nested_model(s[i])->0 by {
                if i < s.len() - 1 {
                    assert(p[i] == s[i]);
                }
            }
        } else if nested_models(p) is None {
            let i = choose|i: int| 0 <= i < p.len() && (nested_model(p[i])) is None;
            assert(p[i] == s[i]);
            assert((nested_model(s[i])) is None);
        } else {
            assert((nested_model(s[s.len() - 1])) is None);
        }
    }
}

/// A sequence of Python values has biscuit terms exactly when each of its
/// elements has one, and they are then the elements' terms in order.
proof fn lemma_py_term_models(s: Seq<PyTerm>)
    ensures
        py_term_models(s) is Some <==> forall|i: int| 0 <= i < s.len() ==> (#[trigger] py_term_model(s[i])) is Some,
        py_term_models(s) is Some ==> py_term_models(s)->0.len() == s.len() && forall|i: int|
            0 <= i < s.len() ==> py_term_models(s)->0[i] == (#[trigger] py_term_model(s[i]))->0,
    decreases s.len(),
{
    if s.len() > 0 {
        let p = s.drop_last();
        lemma_py_term_models(p);
        assert forall|i: int| 0 <= i < p.len() implies #[trigger] p[i] == s[i] by {}
        let last = s[s.len() - 1];
        assert(s.last() == last);
        if py_term_models(s) is Some {
            assert forall|i: int| #![trigger py_term_model(s[i])] 0 <= i < s.len() implies (py_term_model(s[i]) is Some) && py_term_models(s)->0[i] == py_term_model(s[i])->0 by {
                if i < s.len() - 1 {
                    assert(p[i] == s[i]);
                }
            }
        } else if py_term_models(p) is None {
            let i = choose|i: int| 0 <= i < p.len() && (py_term_model(p[i])) is None;
            assert(p[i] == s[i]);
            assert((py_term_model(s[i])) is None);
        } else {
            assert((py_term_model(s[s.len() - 1])) is None);
        }
    }
}

/// The entries of a string-keyed dictionary have terms exactly when each
/// value has one, and they then pair each key with its value's term.
proof fn lemma_str_entry_models(s: Seq<(String, PyTerm)>)
    ensures
        str_entry_models(s) is Some <==> forall|i: int| 0 <= i < s.len() ==> (#[trigger] py_term_model(s[i].1)) is Some,
        str_entry_models(s) is Some ==> str_entry_models(s)->0.len() == s.len() && forall|i: int|
            0 <= i < s.len() ==> str_entry_models(s)->0[i] == (
                MapKeyModel::Str(s[i].0@),
                (#[trigger] py_term_model(s[i].1))->0,
            ),
    decreases s.len(),
{
    if s.len() > 0 {
        let p = s.drop_last();
        lemma_str_entry_models(p);
        assert forall|i: int| 0 <= i < p.len() implies #[trigger] p[i] == s[i] by {}
        let last = s[s.len() - 1];
        assert(s.last() == last);
        if str_entry_models(s) is Some {
            assert forall|i: int| #![trigger py_term_model(s[i].1)] 0 <= i < s.len() implies (py_term_model(s[i].1) is Some) && str_entry_models(s)->0[i] == (MapKeyModel::Str(s[i].0@), py_term_model(s[i].1)->0) by {
                if i < s.len() - 1 {
                    assert(p[i] == s[i]);
                }
            }
        } else if str_entry_models(p) is None {
            let i = choose|i: int| 0 <= i < p.len() && (py_term_model(p[i].1)) is None;
            assert(p[i] == s[i]);
            assert((py_term_model(s[i].1)) is None);
        } else {
            assert((py_term_model(s[s.len() - 1].1)) is None);
        }
    }
}

/// The entries of an integer-keyed dictionary have terms exactly when each
/// value has one, and they then pair each key with its value's term.
proof fn lemma_int_entry_models(s: Seq<(i64, PyTerm)>)
    ensures
        int_entry_models(s) is Some <==> forall|i: int| 0 <= i < s.len() ==> (#[trigger] py_term_model(s[i].1)) is Some,
        int_entry_models(s) is Some ==> int_entry_models(s)->0.len() == s.len() && forall|i: int|
            0 <= i < s.len() ==> int_entry_models(s)->0[i] == (
                MapKeyModel::Integer(s[i].0),
                (#[trigger] py_term_model(s[i].1))->0,
            ),
    decreases s.len(),
{
    if s.len() > 0 {
        let p = s.drop_last();
        lemma_int_entry_models(p);
        assert forall|i: int| 0 <= i < p.len() implies #[trigger] p[i] == s[i] by {}
        let last = s[s.len() - 1];
        assert(s.last() == last);
        if int_entry_models(s) is Some {
            assert forall|i: int| #![trigger py_term_model(s[i].1)] 0 <= i < s.len() implies (py_term_model(s[i].1) is Some) && int_entry_models(s)->0[i] == (MapKeyModel::Integer(s[i].0), py_term_model(s[i].1)->0) by {
                if i < s.len() - 1 {
                    assert(p[i] == s[i]);
                }
            }
        } else if int_entry_models(p) is None {
            let i = choose|i: int| 0 <= i < p.len() && (py_term_model(p[i].1)) is None;
            assert(p[i] == s[i]);
            assert((py_term_model(s[i].1)) is None);
        } else {
            assert((py_term_model(s[s.len() - 1].1)) is None);
        }
    }
}

/// The message of the `ValueError` a date before the Unix epoch gives.
pub open spec fn timestamp_message() -> Seq<char> {
    "Only positive timestamps supported"@
}

/// An error of the given kind, where a `ValueError` is the one a date
/// before the Unix epoch gives, with its message.
pub open spec fn fails_with(e: PyError, k: ErrorKind) -> bool {
    &&& e.kind == k
    &&& k == ErrorKind::Value ==> e.message@ == timestamp_message()
}

impl NestedPyTerm {
    /// The biscuit term this value stands for. A date before the Unix epoch
    /// is refused with a `ValueError`.
    pub fn to_term(&self) -> (r: Result<Term, PyError>)
        ensures
            r is Ok <==> nested_model(*self) is Some,
            r matches Ok(t) ==> nested_model(*self) == Some(term_model(t)),
            r matches Err(e) ==> e.kind == ErrorKind::Value && e.message@ == timestamp_message(),
    {
        match self {
            NestedPyTerm::Integer(i) => Ok(term_integer(*i)),
            NestedPyTerm::Str(s) => Ok(term_str(s.clone())),
            NestedPyTerm::Bytes(b) => {
                let c = b.clone();
                assert(c@ =~= b@);
                Ok(term_bytes(c))
            },
            NestedPyTerm::Bool(b) => Ok(term_bool(*b)),
            NestedPyTerm::Date(d) => {
                if d.0 < 0 {
                    Err(
                        PyError::new(
                            ErrorKind::Value,
                            "Only positive timestamps supported".to_owned(),
                        ),
                    )
                } else {
                    Ok(term_date(d.0 as u64))
                }
            },
        }
    }
}

impl PyTerm {
    /// The biscuit term this value stands for, built recursively. A date
    /// before the Unix epoch anywhere in it is refused with a `ValueError`.
    #[verifier::loop_isolation(false)]
    pub fn to_term(&self) -> (r: Result<Term, PyError>)
        requires
            py_term_well_formed(*self),
        ensures
            r is Ok <==> py_term_model(*self) is Some,
            r matches Ok(t) ==> py_term_model(*self) == Some(term_model(t)),
            r matches Err(e) ==> e.kind == ErrorKind::Value && e.message@ == timestamp_message(),
        decreases self,
    {
        match self {
            PyTerm::Simple(n) => n.to_term(),
            PyTerm::TermSet(vs) => {
                let mut items: Vec<Term> = Vec::new();
                let mut i: usize = 0;
                while i < vs.len()
                    invariant
                        i <= vs.len(),
                        items.len() == i,
                        forall|j: int|
                            0 <= j < i ==> nested_model(vs@[j]) == Some(
                                term_model(#[trigger] items@[j]),
                            ),
                    decreases vs.len() - i,
                {
                    let t = match vs[i].to_term() {
                        Ok(t) => t,
                        Err(e) => {
                            proof {
                                lemma_nested_models(vs@);
                            }
                            return Err(e);
                        },
                    };
                    items.push(t);
                    i = i + 1;
                }
                proof {
                    lemma_nested_models(vs@);
                    assert forall|j: int| 0 <= j < vs.len() implies nested_model(vs@[j]) is Some by {
                        assert(nested_model(vs@[j]) == Some(term_model(items@[j])));
                    }
                }
                assert(nested_models(vs@)->0 =~= term_models(items@));
                Ok(term_set(items))
            },
            PyTerm::Array(vs) => {
                proof {
                    lemma_terms_well_formed(vs@);
                }
                let mut items: Vec<Term> = Vec::new();
                let mut i: usize = 0;
                while i < vs.len()
                    invariant
                        i <= vs.len(),
                        items.len() == i,
                        forall|j: int|
                            0 <= j < i ==> py_term_model(vs@[j]) == Some(
                                term_model(#[trigger] items@[j]),
                            ),
                    decreases vs.len() - i,
                {
                    proof {
                        assert(decreases_to!(self => vs@[i as int]));
                    }
                    let t = match vs[i].to_term() {
                        Ok(t) => t,
                        Err(e) => {
                            proof {
                                lemma_py_term_models(vs@);
                            }
                            return Err(e);
                        },
                    };
                    items.push(t);
                    i = i + 1;
                }
                proof {
                    lemma_py_term_models(vs@);
                    assert forall|j: int| 0 <= j < vs.len() implies py_term_model(vs@[j]) is Some by {
                        assert(py_term_model(vs@[j]) == Some(term_model(items@[j])));
                    }
                }
                assert(py_term_models(vs@)->0 =~= term_models(items@));
                Ok(term_array(items))
            },
            PyTerm::StrDict(vs) => {
                proof {
                    lemma_str_entries_well_formed(vs@);
                }
                let mut entries: Vec<(String, Term)> = Vec::new();
                let mut i: usize = 0;
                while i < vs.len()
                    invariant
                        i <= vs.len(),
                        entries.len() == i,
                        forall|j: int|
                            0 <= j < i ==> (#[trigger] entries@[j]).0@ == vs@[j].0@ && py_term_model(
                                vs@[j].1,
                            ) == Some(term_model(entries@[j].1)),
                    decreases vs.len() - i,
                {
                    proof {
                        assert(decreases_to!(self => vs@[i as int].1));
                    }
                    let t = match vs[i].1.to_term() {
                        Ok(t) => t,
                        Err(e) => {
                            proof {
                                lemma_str_entry_models(vs@);
                            }
                            return Err(e);
                        },
                    };
                    entries.push((vs[i].0.clone(), t));
                    i = i + 1;
                }
                proof {
                    lemma_str_entry_models(vs@);
                    assert forall|j: int| 0 <= j < vs.len() implies py_term_model(vs@[j].1) is Some by {
                        assert(py_term_model(vs@[j].1) == Some(term_model(entries@[j].1)));
                    }
                }
                assert(str_keys_distinct(entries@)) by {
                    assert forall|a: int, b: int| 0 <= a < b < entries@.len() implies (#[trigger] entries@[a]).0@
                        != (#[trigger] entries@[b]).0@ by {
                        assert(vs@[a].0@ != vs@[b].0@);
                    }
                }
                assert(str_entry_models(vs@)->0 =~= entries@.map_values(
                    |e: (String, Term)| (MapKeyModel::Str(e.0@), term_model(e.1)),
                ));
                Ok(term_map_str(entries))
            },
            PyTerm::IntDict(vs) => {
                proof {
                    lemma_int_entries_well_formed(vs@);
                }
                let mut entries: Vec<(i64, Term)> = Vec::new();
                let mut i: usize = 0;
                while i < vs.len()
                    invariant
                        i <= vs.len(),
                        entries.len() == i,
                        forall|j: int|
                            0 <= j < i ==> (#[trigger] entries@[j]).0 == vs@[j].0 && py_term_model(
                                vs@[j].1,
                            ) == Some(term_model(entries@[j].1)),
                    decreases vs.len() - i,
                {
                    proof {
                        assert(decreases_to!(self => vs@[i as int].1));
                    }
                    let t = match vs[i].1.to_term() {
                        Ok(t) => t,
                        Err(e) => {
                            proof {
                                lemma_int_entry_models(vs@);
                            }
                            return Err(e);
                        },
                    };
                    entries.push((vs[i].0, t));
                    i = i + 1;
                }
                proof {
                    lemma_int_entry_models(vs@);
                    assert forall|j: int| 0 <= j < vs.len() implies py_term_model(vs@[j].1) is Some by {
                        assert(py_term_model(vs@[j].1) == Some(term_model(entries@[j].1)));
                    }
                }
                assert(int_keys_distinct(entries@)) by {
                    assert forall|a: int, b: int| 0 <= a < b < entries@.len() implies (#[trigger] entries@[a]).0
                        != (#[trigger] entries@[b]).0 by {
                        assert(vs@[a].0 != vs@[b].0);
                    }
                }
                assert(int_entry_models(vs@)->0 =~= entries@.map_values(
                    |e: (i64, Term)| (MapKeyModel::Integer(e.0), term_model(e.1)),
                ));
                Ok(term_map_int(entries))
            },
        }
    }
}

/// The variant of a biscuit term and, for a scalar, its value.
pub enum TermView {
    Variable(String),
    Integer(i64),
    Str(String),
    Date(u64),
    Bytes(Vec<u8>),
    Bool(bool),
    TermSet,
    Parameter(String),
    Null,
    Array,
    TermMap,
}

/// The view agrees with what the term holds.
pub open spec fn view_matches(v: TermView, m: TermModel) -> bool {
    match v {
        TermView::Variable(s) => m == TermModel::Variable(s@),
        TermView::Integer(i) => m == TermModel::Integer(i),
        TermView::Str(s) => m == TermModel::Str(s@),
        TermView::Date(d) => m == TermModel::Date(d),
        TermView::Bytes(b) => m == TermModel::Bytes(b@),
        TermView::Bool(b) => m == TermModel::Bool(b),
        TermView::TermSet => m is TermSet,
        TermView::Parameter(s) => m == TermModel::Parameter(s@),
        TermView::Null => m is Null,
        TermView::Array => m is Array,
        TermView::TermMap => m is TermMap,
    }
}

/// Tells the variants of a biscuit term apart, copying a scalar's value.
#[verifier::external_body]
fn read_term(t: &Term) -> (v: TermView)
    ensures
        view_matches(v, term_model(*t)),
{
    match t {
        Term::Variable(s) => TermView::Variable(s.clone()),
        Term::Integer(i) => TermView::Integer(*i),
        Term::Str(s) => TermView::Str(s.clone()),
        Term::Date(d) => TermView::Date(*d),
        Term::Bytes(b) => TermView::Bytes(b.clone()),
        Term::Bool(b) => TermView::Bool(*b),
        Term::Set(_) => TermView::TermSet,
        Term::Parameter(s) => TermView::Parameter(s.clone()),
        Term::Null => TermView::Null,
        Term::Array(_) => TermView::Array,
        Term::Map(_) => TermView::TermMap,
    }
}

/// Whether chrono represents the UTC instant this many seconds after the
/// Unix epoch.
pub uninterp spec fn utc_timestamp_in_range(secs: i64) -> bool;

/// `Utc.timestamp_opt(secs, 0).single()`, read back with `timestamp()`: the
/// instant exists exactly when chrono represents it, and it has the seconds
/// it was made from.
#[verifier::external_body]
fn utc_timestamp(secs: i64) -> (r: Option<i64>)
    ensures
        r is Some <==> utc_timestamp_in_range(secs),
        r matches Some(x) ==> x == secs,
{
    match chrono::Utc.timestamp_opt(secs, 0).single() {
        Some(d) => Some(d.timestamp()),
        None => None,
    }
}

/// A value handed back to Python. A date is its number of seconds since the
/// Unix epoch, as a UTC instant.
#[derive(Debug)]
pub enum PyValue {
    Integer(i64),
    Str(String),
    Date(i64),
    Bytes(Vec<u8>),
    Bool(bool),
}

/// Whether a term has a Python value: a scalar other than a variable or
/// parameter, and a date only if chrono represents it.
pub open spec fn has_py_value(m: TermModel) -> bool {
    match m {
        TermModel::Integer(_) | TermModel::Str(_) | TermModel::Bytes(_) | TermModel::Bool(_) => true,
        TermModel::Date(d) => utc_timestamp_in_range(d as i64),
        _ => false,
    }
}

/// The Python value stands for the term.
pub open spec fn py_value_matches(v: PyValue, m: TermModel) -> bool {
    match m {
        TermModel::Integer(i) => v matches PyValue::Integer(j) && j == i,
        TermModel::Str(s) => v matches PyValue::Str(x) && x@ == s,
        TermModel::Bytes(b) => v matches PyValue::Bytes(x) && x@ == b,
        TermModel::Bool(b) => v matches PyValue::Bool(x) && x == b,
        TermModel::Date(d) => v matches PyValue::Date(x) && x == d as i64,
        _ => false,
    }
}

/// The kind of error for a term without a Python value: a collection has
/// none here; any other such term is an invalid datalog value.
pub open spec fn no_value_kind(m: TermModel) -> ErrorKind {
    match m {
        TermModel::TermSet(_) | TermModel::Array(_) | TermModel::TermMap(_) => ErrorKind::Unimplemented,
        _ => ErrorKind::DataLog,
    }
}

/// The message of the error for a term without a Python value.
pub open spec fn no_value_message(m: TermModel) -> Seq<char> {
    match m {
        TermModel::TermSet(_) | TermModel::Array(_) | TermModel::TermMap(_) =>
            "collection terms are not converted to Python values"@,
        TermModel::Date(_) => "Invalid timestamp"@,
        _ => "Invalid term value"@,
    }
}

/// The Python value is the simple value handed in.
pub open spec fn same_value(n: NestedPyTerm, v: PyValue) -> bool {
    match n {
        NestedPyTerm::Bool(b) => v matches PyValue::Bool(x) && x == b,
        NestedPyTerm::Integer(i) => v matches PyValue::Integer(x) && x == i,
        NestedPyTerm::Str(s) => v matches PyValue::Str(x) && x@ == s@,
        NestedPyTerm::Bytes(b) => v matches PyValue::Bytes(x) && x@ == b@,
        NestedPyTerm::Date(d) => v matches PyValue::Date(x) && x == d.0,
    }
}

/// Dropping repeated elements keeps exactly the elements of the sequence,
/// each once.
proof fn lemma_distinct_models(s: Seq<TermModel>)
    ensures
        forall|x: TermModel| distinct_models(s).contains(x) <==> s.contains(x),
        distinct_models(s).no_duplicates(),
    decreases s.len(),
{
    if s.len() > 0 {
        let p = s.drop_last();
        lemma_distinct_models(p);
        let r = distinct_models(p);
        assert forall|x: TermModel| distinct_models(s).contains(x) <==> s.contains(x) by {
            if s.contains(x) {
                let i = choose|i: int| 0 <= i < s.len() && s[i] == x;
                if i < s.len() - 1 {
                    assert(p[i] == x);
                    assert(p.contains(x));
                } else {
                    assert(x == s.last());
                }
            }
            if p.contains(x) {
                let i = choose|i: int| 0 <= i < p.len() && p[i] == x;
                assert(s[i] == x);
            }
            if !r.contains(s.last()) {
                assert(r.push(s.last())[r.len() as int] == s.last());
                if r.push(s.last()).contains(x) {
                    let i = choose|i: int| 0 <= i < r.len() + 1 && r.push(s.last())[i] == x;
                    if i < r.len() {
                        assert(r[i] == x);
                    }
                }
                if r.contains(x) {
                    let i = choose|i: int| 0 <= i < r.len() && r[i] == x;
                    assert(r.push(s.last())[i] == x);
                }
            }
            if x == s.last() {
                assert(s[s.len() - 1] == x);
            }
        }
    }
}

/// Inserting pairs whose keys are distinct gives the map from each key to
/// its value, and no other key.
proof fn lemma_pairs_to_map_distinct<K, V>(s: Seq<(K, V)>)
    requires
        forall|i: int, j: int| 0 <= i < j < s.len() ==> (#[trigger] s[i]).0 != (#[trigger] s[j]).0,
    ensures
        forall|i: int|
            0 <= i < s.len() ==> pairs_to_map(s).contains_key((#[trigger] s[i]).0) && pairs_to_map(s)[s[i].0]
                == s[i].1,
        forall|k: K| #[trigger] pairs_to_map(s).contains_key(k) ==> exists|i: int| 0 <= i < s.len() && s[i].0 == k,
    decreases s.len(),
{
    if s.len() > 0 {
        let p = s.drop_last();
        assert forall|i: int, j: int| 0 <= i < j < p.len() implies (#[trigger] p[i]).0 != (#[trigger] p[j]).0 by {
            assert(p[i] == s[i] && p[j] == s[j]);
        }
        lemma_pairs_to_map_distinct(p);
        assert forall|i: int| 0 <= i < s.len() implies pairs_to_map(s).contains_key((#[trigger] s[i]).0)
            && pairs_to_map(s)[s[i].0] == s[i].1 by {
            if i < s.len() - 1 {
                assert(p[i] == s[i]);
                assert(s[i].0 != s[s.len() - 1].0);
            }
        }
        assert forall|k: K| #[trigger] pairs_to_map(s).contains_key(k) implies exists|i: int|
            0 <= i < s.len() && s[i].0 == k by {
            if k != s.last().0 {
                assert(pairs_to_map(p).contains_key(k));
                let i = choose|i: int| 0 <= i < p.len() && p[i].0 == k;
                assert(s[i] == p[i]);
            } else {
                assert(s[s.len() - 1].0 == k);
            }
        }
    }
}

/// Converting a Python value into a term goes element by element. A simple
/// value gives its own term. A set gives the set term of its elements'
/// terms, each once; an array the array term of its elements' terms, in
/// order; a dictionary the map term from each key to its value's term. The
/// conversion fails exactly when that of some element or value fails (a
/// date before the Unix epoch), and the error is then that element's
/// `ValueError`.
pub proof fn law_to_term_elementwise(t: PyTerm)
    requires
        py_term_well_formed(t),
    ensures
        t matches PyTerm::Simple(n) ==> py_term_model(t) == nested_model(n),
        t matches PyTerm::TermSet(v) ==> (py_term_model(t) is Some <==> forall|i: int|
            0 <= i < v.len() ==> (#[trigger] nested_model(v@[i])) is Some),
        t matches PyTerm::TermSet(v) ==> (py_term_model(t) is Some ==> py_term_model(t)->0 is TermSet && (forall|
            x: TermModel,
        |
            #![trigger py_term_model(t)->0->TermSet_0.count(x)]
            (py_term_model(t)->0->TermSet_0.count(x) > 0 <==> exists|i: int|
                0 <= i < v.len() && nested_model(v@[i]) == Some(x)) && py_term_model(t)->0->TermSet_0.count(x)
                <= 1)),
        t matches PyTerm::Array(v) ==> (py_term_model(t) is Some <==> forall|i: int|
            0 <= i < v.len() ==> (#[trigger] py_term_model(v@[i])) is Some),
        t matches PyTerm::Array(v) ==> (py_term_model(t) is Some ==> py_term_model(t)->0 is Array
            && py_term_model(t)->0->Array_0.len() == v.len() && forall|i: int|
            0 <= i < v.len() ==> py_term_model(t)->0->Array_0[i] == (#[trigger] py_term_model(v@[i]))->0),
        t matches PyTerm::StrDict(v) ==> (py_term_model(t) is Some <==> forall|i: int|
            0 <= i < v.len() ==> (#[trigger] py_term_model(v@[i].1)) is Some),
        t matches PyTerm::StrDict(v) ==> (py_term_model(t) is Some ==> py_term_model(t)->0 is TermMap && (forall|
            i: int,
        |
            0 <= i < v.len() ==> py_term_model(t)->0->TermMap_0.contains_key(MapKeyModel::Str((#[trigger] v@[i]).0@))
                && py_term_model(t)->0->TermMap_0[MapKeyModel::Str(v@[i].0@)] == py_term_model(v@[i].1)->0)
            && forall|k: MapKeyModel|
            #[trigger] py_term_model(t)->0->TermMap_0.contains_key(k) ==> exists|i: int|
                0 <= i < v.len() && k == MapKeyModel::Str(v@[i].0@)),
        t matches PyTerm::IntDict(v) ==> (py_term_model(t) is Some <==> forall|i: int|
            0 <= i < v.len() ==> (#[trigger] py_term_model(v@[i].1)) is Some),
        t matches PyTerm::IntDict(v) ==> (py_term_model(t) is Some ==> py_term_model(t)->0 is TermMap && (forall|
            i: int,
        |
            0 <= i < v.len() ==> py_term_model(t)->0->TermMap_0.contains_key(MapKeyModel::Integer((#[trigger] v@[i]).0))
                && py_term_model(t)->0->TermMap_0[MapKeyModel::Integer(v@[i].0)] == py_term_model(v@[i].1)->0)
            && forall|k: MapKeyModel|
            #[trigger] py_term_model(t)->0->TermMap_0.contains_key(k) ==> exists|i: int|
                0 <= i < v.len() && k == MapKeyModel::Integer(v@[i].0)),
{
    match t {
        PyTerm::Simple(_) => {},
        PyTerm::TermSet(v) => {
            lemma_nested_models(v@);
            if nested_models(v@) is Some {
                let ms = nested_models(v@)->0;
                lemma_distinct_models(ms);
                let d = distinct_models(ms);
                d.to_multiset_ensures();
                d.lemma_multiset_has_no_duplicates();
                assert forall|x: TermModel| #![auto] d.to_multiset().count(x) > 0 <==> exists|i: int|
                    0 <= i < v.len() && nested_model(v@[i]) == Some(x) by {
                    if d.to_multiset().count(x) > 0 {
                        assert(d.contains(x));
                        assert(ms.contains(x));
                        let i = choose|i: int| 0 <= i < ms.len() && ms[i] == x;
                        assert(nested_model(v@[i]) == Some(x));
                    }
                    if exists|i: int| 0 <= i < v.len() && nested_model(v@[i]) == Some(x) {
                        let i = choose|i: int| 0 <= i < v.len() && nested_model(v@[i]) == Some(x);
                        assert(ms[i] == x);
                        assert(ms.contains(x));
                        assert(d.contains(x));
                    }
                }
                assert forall|x: TermModel| #![auto] d.to_multiset().count(x) <= 1 by {
                    if d.to_multiset().count(x) > 0 {
                        assert(d.to_multiset().contains(x));
                    }
                }
            }
        },
        PyTerm::Array(v) => {
            lemma_py_term_models(v@);
        },
        PyTerm::StrDict(v) => {
            lemma_str_entry_models(v@);
            if str_entry_models(v@) is Some {
                let es = str_entry_models(v@)->0;
                assert forall|i: int, j: int| 0 <= i < j < es.len() implies (#[trigger] es[i]).0 != (#[trigger] es[j]).0 by {
                    assert(v@[i].0@ != v@[j].0@);
                    assert(es[i] == (MapKeyModel::Str(v@[i].0@), py_term_model(v@[i].1)->0));
                    assert(es[j] == (MapKeyModel::Str(v@[j].0@), py_term_model(v@[j].1)->0));
                }
                lemma_pairs_to_map_distinct(es);
                assert forall|i: int| 0 <= i < v.len() implies pairs_to_map(es).contains_key(MapKeyModel::Str((#[trigger] v@[i]).0@))
                    && pairs_to_map(es)[MapKeyModel::Str(v@[i].0@)] == py_term_model(v@[i].1)->0 by {
                    assert(es[i].0 == MapKeyModel::Str(v@[i].0@));
                }
                assert forall|k: MapKeyModel| #[trigger] pairs_to_map(es).contains_key(k) implies exists|i: int|
                    0 <= i < v.len() && k == MapKeyModel::Str(v@[i].0@) by {
                    let i = choose|i: int| 0 <= i < es.len() && es[i].0 == k;
                    assert(es[i].0 == MapKeyModel::Str(v@[i].0@));
                }
            }
        },
        PyTerm::IntDict(v) => {
            lemma_int_entry_models(v@);
            if int_entry_models(v@) is Some {
                let es = int_entry_models(v@)->0;
                assert forall|i: int, j: int| 0 <= i < j < es.len() implies (#[trigger] es[i]).0 != (#[trigger] es[j]).0 by {
                    assert(v@[i].0 != v@[j].0);
                    assert(es[i] == (MapKeyModel::Integer(v@[i].0), py_term_model(v@[i].1)->0));
                    assert(es[j] == (MapKeyModel::Integer(v@[j].0), py_term_model(v@[j].1)->0));
                }
                lemma_pairs_to_map_distinct(es);
                assert forall|i: int| 0 <= i < v.len() implies pairs_to_map(es).contains_key(MapKeyModel::Integer((#[trigger] v@[i]).0))
                    && pairs_to_map(es)[MapKeyModel::Integer(v@[i].0)] == py_term_model(v@[i].1)->0 by {
                    assert(es[i].0 == MapKeyModel::Integer(v@[i].0));
                }
                assert forall|k: MapKeyModel| #[trigger] pairs_to_map(es).contains_key(k) implies exists|i: int|
                    0 <= i < v.len() && k == MapKeyModel::Integer(v@[i].0) by {
                    let i = choose|i: int| 0 <= i < es.len() && es[i].0 == k;
                    assert(es[i].0 == MapKeyModel::Integer(v@[i].0));
                }
            }
        },
    }
}

/// A simple value that becomes a term reads back as a Python value, and
/// that value is the one handed in; a date reads back when chrono
/// represents it.
pub proof fn law_value_roundtrip(n: NestedPyTerm)
    requires
        nested_model(n) is Some,
    ensures
        has_py_value(nested_model(n)->0) <==> match n {
            NestedPyTerm::Date(d) => utc_timestamp_in_range(d.0),
            _ => true,
        },
        forall|v: PyValue| py_value_matches(v, nested_model(n)->0) ==> same_value(n, v),
{
}

/// The Python value of a biscuit term. A variable, parameter or null term is
/// refused as an invalid term value, a date that chrono cannot represent as
/// an invalid timestamp, both with a `DataLogError`; a set, array or map term
/// has no Python value here.
pub fn term_to_py(t: &Term) -> (r: Result<PyValue, PyError>)
    ensures
        r is Ok <==> has_py_value(term_model(*t)),
        r matches Ok(v) ==> py_value_matches(v, term_model(*t)),
        r matches Err(e) ==> e.kind == no_value_kind(term_model(*t)),
        r matches Err(e) ==> e.message@ == no_value_message(term_model(*t)),
        match term_model(*t) {
            TermModel::Integer(i) => r matches Ok(PyValue::Integer(j)) && j == i,
            TermModel::Str(s) => r matches Ok(PyValue::Str(x)) && x@ == s,
            TermModel::Bytes(b) => r matches Ok(PyValue::Bytes(x)) && x@ == b,
            TermModel::Bool(b) => r matches Ok(PyValue::Bool(x)) && x == b,
            TermModel::Date(d) => if utc_timestamp_in_range(d as i64) {
                r matches Ok(PyValue::Date(x)) && x == d as i64
            } else {
                r matches Err(e) && e.kind == ErrorKind::DataLog && e.message@ == "Invalid timestamp"@
            },
            TermModel::Variable(_) | TermModel::Parameter(_) | TermModel::Null => r matches Err(e)
                && e.kind == ErrorKind::DataLog && e.message@ == "Invalid term value"@,
            TermModel::TermSet(_) | TermModel::Array(_) | TermModel::TermMap(_) => r matches Err(e)
                && e.kind == ErrorKind::Unimplemented,
        },
{
    match read_term(t) {
        TermView::Integer(i) => Ok(PyValue::Integer(i)),
        TermView::Str(s) => Ok(PyValue::Str(s)),
        TermView::Bytes(b) => Ok(PyValue::Bytes(b)),
        TermView::Bool(b) => Ok(PyValue::Bool(b)),
        TermView::Date(d) => match utc_timestamp(d as i64) {
            Some(secs) => Ok(PyValue::Date(secs)),
            None => Err(PyError::new(ErrorKind::DataLog, "Invalid timestamp".to_owned())),
        },
        TermView::Variable(_) | TermView::Parameter(_) | TermView::Null => Err(
            PyError::new(ErrorKind::DataLog, "Invalid term value".to_owned()),
        ),
        TermView::TermSet | TermView::Array | TermView::TermMap => Err(
            PyError::new(
                ErrorKind::Unimplemented,
                "collection terms are not converted to Python values".to_owned(),
            ),
        ),
    }
}

} // verus!
