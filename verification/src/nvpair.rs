//! A model of the storage engine's name/value property lists.
//!
//! The native list keeps uniquely named pairs; adding under an existing
//! name replaces the pair.  Names and string values travel to the engine
//! as C strings, so text holding a NUL byte is rejected with
//! `InvalidArgument` — exactly the inputs on which the native conversion
//! fails.

use vstd::prelude::*;
use vstd::string::StringSliceAdditionalSpecFns;

use crate::text::str_eq;

verus! {

/// The raw code the platform uses for an invalid-argument failure.
pub const EINVAL_CODE: i32 = 22;

/// The raw code the platform uses for an out-of-memory failure.
pub const ENOMEM_CODE: i32 = 12;

/// The ways a property-list operation can fail.
#[derive(Clone, Debug, PartialEq)]
pub enum NvListError {
    Message(String),
    InvalidArgument,
    InsufficientMemory,
    UnmatchingVariables,
    RestrictedOperation,
    NameTypeError,
    ConversionError,
    NvPairTypeError,
    NullPointer,
    NvListNullPointer,
    NvPairDontExist,
    NvListDontExist,
}

/// Turns a native return code into a result: zero carries the value
/// through, the invalid-argument and out-of-memory codes carry their
/// errors, and no other code is returned by the native calls.
pub fn value_or_err<T>(val: T, rc: i32) -> (r: Result<T, NvListError>)
    requires
        rc == 0 || rc == EINVAL_CODE || rc == ENOMEM_CODE,
    ensures
        rc == 0 ==> (r matches Ok(v) && v == val),
        rc == EINVAL_CODE ==> r == Err::<T, NvListError>(NvListError::InvalidArgument),
        rc == ENOMEM_CODE ==> r == Err::<T, NvListError>(NvListError::InsufficientMemory),
{
    if rc == 0 {
        Ok(val)
    } else if rc == EINVAL_CODE {
        Err(NvListError::InvalidArgument)
    } else {
        Err(NvListError::InsufficientMemory)
    }
}

/// How a list treats a second pair under one name.
#[derive(Clone, Copy, Debug, PartialEq, Eq, Structural)]
pub enum NvFlag {
    /// A new pair replaces an existing pair of the same name.
    UniqueName,
    /// As `UniqueName`, and the replacement must keep the pair's type.
    UniqueNameType,
}

/// One value of a pair.
#[derive(Debug)]
pub enum Value {
    U64(u64),
    Str(String),
    Boolean,
}

/// The mathematical image of a [`Value`].
pub enum ValueView {
    U64(u64),
    Str(Seq<char>),
    Boolean,
}

impl View for Value {
    type V = ValueView;

    open spec fn view(&self) -> ValueView {
        match self {
            Value::U64(v) => ValueView::U64(*v),
            Value::Str(s) => ValueView::Str(s@),
            Value::Boolean => ValueView::Boolean,
        }
    }
}

impl Clone for Value {
    fn clone(&self) -> (r: Self)
        ensures
            r@ == self@,
    {
        match self {
            Value::U64(v) => Value::U64(*v),
            Value::Str(s) => Value::Str(s.clone()),
            Value::Boolean => Value::Boolean,
        }
    }
}

/// Holds when the byte form of `s` cannot be handed to the engine as a C
/// string: it holds a NUL byte.
pub open spec fn has_nul(s: Seq<u8>) -> bool {
    exists|i: int| 0 <= i < s.len() && s[i] == 0
}

/// Whether `s` holds a NUL byte, which the C-string conversion rejects.
pub fn contains_nul(s: &str) -> (r: bool)
    ensures
        r == has_nul(s.spec_bytes()),
{
    let bytes = s.as_bytes();
    let mut i: usize = 0;
    while i < bytes.len()
        invariant
            i <= bytes@.len(),
            bytes@ == s.spec_bytes(),
            forall|j: int| 0 <= j < i ==> bytes@[j] != 0,
        decreases bytes@.len() - i,
    {
        if bytes[i] == 0 {
            return true;
        }
        i = i + 1;
    }
    false
}

/// A list of uniquely named property pairs.
#[derive(Debug)]
pub struct NvList {
    flag: NvFlag,
    pairs: Vec<(String, Value)>,
}

impl NvList {
    /// The pairs of the list: names with their values, in insertion
    /// order, each name once.
    pub closed spec fn pairs_spec(&self) -> Seq<(Seq<char>, ValueView)> {
        self.pairs@.map_values(|p: (String, Value)| (p.0@, p.1@))
    }

    /// The flag the list was created with.
    pub closed spec fn flag_spec(&self) -> NvFlag {
        self.flag
    }

    /// The value stored under `name`, if any.
    pub open spec fn value_of(&self, name: Seq<char>) -> Option<ValueView> {
        if exists|i: int| 0 <= i < self.pairs_spec().len() && (#[trigger] self.pairs_spec()[i]).0
            == name {
            let i = choose|i: int|
                0 <= i < self.pairs_spec().len() && (#[trigger] self.pairs_spec()[i]).0 == name;
            Some(self.pairs_spec()[i].1)
        } else {
            None
        }
    }

    /// Every name appears at most once.
    pub closed spec fn wf(&self) -> bool {
        forall|i: int, j: int|
            0 <= i < j < self.pairs_spec().len() ==> (#[trigger] self.pairs_spec()[i]).0 != (
            #[trigger] self.pairs_spec()[j]).0
    }

    /// An empty list.
    pub fn new(flag: NvFlag) -> (r: NvList)
        ensures
            r.wf(),
            r.flag_spec() == flag,
            r.pairs_spec() == Seq::<(Seq<char>, ValueView)>::empty(),
    {
        let r = NvList { flag, pairs: Vec::new() };
        proof {
            assert(r.pairs_spec() =~= Seq::<(Seq<char>, ValueView)>::empty());
        }
        r
    }

    /// How many pairs the list holds.
    pub fn len(&self) -> (n: usize)
        ensures
            n == self.pairs_spec().len(),
    {
        self.pairs.len()
    }

    /// The position of `name` in the list, if present.
    fn position(&self, name: &str) -> (r: Option<usize>)
        requires
            self.wf(),
        ensures
            r matches Some(i) ==> 0 <= i < self.pairs_spec().len()
                && (self.pairs_spec()[i as int]).0 == name@,
            r is None ==> forall|i: int|
                0 <= i < self.pairs_spec().len() ==> (#[trigger] self.pairs_spec()[i]).0 != name@,
    {
        let mut i: usize = 0;
        while i < self.pairs.len()
            invariant
                i <= self.pairs@.len(),
                forall|j: int| 0 <= j < i ==> (#[trigger] self.pairs_spec()[j]).0 != name@,
            decreases self.pairs@.len() - i,
        {
            if str_eq(self.pairs[i].0.as_str(), name) {
                return Some(i);
            }
            proof {
                assert(self.pairs_spec()[i as int].0 == self.pairs@[i as int].0@);
            }
            i = i + 1;
        }
        None
    }

    /// The value stored under `name`, if any.
    pub fn get(&self, name: &str) -> (r: Option<&Value>)
        requires
            self.wf(),
        ensures
            r matches Some(v) ==> self.value_of(name@) == Some(v@),
            r is None ==> self.value_of(name@) is None,
    {
        match self.position(name) {
            Some(i) => {
                let v = &self.pairs[i].1;
                proof {
                    let ghost k = choose|k: int|
                        0 <= k < self.pairs_spec().len() && (#[trigger] self.pairs_spec()[k]).0
                            == name@;
                    assert(self.pairs_spec()[i as int].0 == name@);
                    assert(k == i as int);
                }
                Some(v)
            },
            None => None,
        }
    }

    /// Stores `value` under `name`: an existing pair of that name is
    /// replaced, any other pair is untouched.
    fn put(&mut self, name: String, value: Value)
        requires
            old(self).wf(),
        ensures
            final(self).wf(),
            final(self).flag_spec() == old(self).flag_spec(),
            final(self).value_of(name@) == Some(value@),
            forall|other: Seq<char>|
                other != name@ ==> #[trigger] final(self).value_of(other) == old(self).value_of(
                    other,
                ),
    {
        let position = self.position(name.as_str());
        match position {
            Some(i) => {
                let ghost before = self.pairs_spec();
                self.pairs.set(i, (name, value));
                proof {
                    assert(self.pairs_spec() =~= before.update(
                        i as int,
                        (before[i as int].0, value@),
                    ));
                    self.lemma_put_updates(before, i as int, value@, name@);
                }
            },
            None => {
                let ghost before = self.pairs_spec();
                self.pairs.push((name, value));
                proof {
                    assert(self.pairs_spec() =~= before.push((name@, value@)));
                    self.lemma_push_updates(before, value@, name@);
                }
            },
        }
    }

    /// After replacing position `i`, whose name is `name`, lookups of
    /// `name` see the new value and all other lookups are unchanged.
    proof fn lemma_put_updates(
        &self,
        before: Seq<(Seq<char>, ValueView)>,
        i: int,
        value: ValueView,
        name: Seq<char>,
    )
        requires
            0 <= i < before.len(),
            before[i].0 == name,
            forall|p: int, q: int|
                0 <= p < q < before.len() ==> (#[trigger] before[p]).0 != (#[trigger] before[q]).0,
            self.pairs_spec() == before.update(i, (name, value)),
        ensures
            self.wf(),
            self.value_of(name) == Some(value),
            forall|other: Seq<char>|
                other != name ==> #[trigger] self.value_of(other) == lookup_in(before, other),
    {
        assert forall|other: Seq<char>| other != name implies #[trigger] self.value_of(other)
            == lookup_in(before, other) by {
            lemma_lookup_update_other(before, self.pairs_spec(), i, name, value, other);
        }
        assert(self.pairs_spec()[i].0 == name);
        assert(self.value_of(name) == Some(value)) by {
            let k = choose|k: int|
                0 <= k < self.pairs_spec().len() && (#[trigger] self.pairs_spec()[k]).0 == name;
            if k != i {
                assert(before[k].0 == name);
            }
        }
    }

    /// After appending a pair whose name was absent, lookups of that name
    /// see the new value and all other lookups are unchanged.
    proof fn lemma_push_updates(
        &self,
        before: Seq<(Seq<char>, ValueView)>,
        value: ValueView,
        name: Seq<char>,
    )
        requires
            forall|p: int| 0 <= p < before.len() ==> (#[trigger] before[p]).0 != name,
            forall|p: int, q: int|
                0 <= p < q < before.len() ==> (#[trigger] before[p]).0 != (#[trigger] before[q]).0,
            self.pairs_spec() == before.push((name, value)),
        ensures
            self.wf(),
            self.value_of(name) == Some(value),
            forall|other: Seq<char>|
                other != name ==> #[trigger] self.value_of(other) == lookup_in(before, other),
    {
        assert(self.pairs_spec()[before.len() as int].0 == name);
        assert(self.value_of(name) == Some(value)) by {
            let k = choose|k: int|
                0 <= k < self.pairs_spec().len() && (#[trigger] self.pairs_spec()[k]).0 == name;
            if k != before.len() as int {
                assert(before[k].0 == name);
            }
        }
        assert forall|other: Seq<char>| other != name implies #[trigger] self.value_of(other)
            == lookup_in(before, other) by {
            lemma_lookup_push_other(before, self.pairs_spec(), name, value, other);
        }
    }

    /// Adds a string pair: accepted exactly when neither the name nor the
    /// value holds a NUL byte, as the C-string conversion demands.
    pub fn add_string(&mut self, name: &str, value: &str) -> (r: Result<(), NvListError>)
        requires
            old(self).wf(),
        ensures
            final(self).wf(),
            final(self).flag_spec() == old(self).flag_spec(),
            r is Ok <==> !has_nul(name.spec_bytes()) && !has_nul(value.spec_bytes()),
            r is Ok ==> final(self).value_of(name@) == Some(ValueView::Str(value@))
                && forall|other: Seq<char>|
                other != name@ ==> #[trigger] final(self).value_of(other) == old(self).value_of(
                    other,
                ),
            r is Err ==> r == Err::<(), NvListError>(NvListError::InvalidArgument)
                && *final(self) == *old(self),
    {
        if contains_nul(name) || contains_nul(value) {
            return Err(NvListError::InvalidArgument);
        }
        self.put(name.to_owned(), Value::Str(value.to_owned()));
        Ok(())
    }

    /// Adds a numeric pair: accepted exactly when the name holds no NUL
    /// byte.
    pub fn add_uint64(&mut self, name: &str, value: u64) -> (r: Result<(), NvListError>)
        requires
            old(self).wf(),
        ensures
            final(self).wf(),
            final(self).flag_spec() == old(self).flag_spec(),
            r is Ok <==> !has_nul(name.spec_bytes()),
            r is Ok ==> final(self).value_of(name@) == Some(ValueView::U64(value))
                && forall|other: Seq<char>|
                other != name@ ==> #[trigger] final(self).value_of(other) == old(self).value_of(
                    other,
                ),
            r is Err ==> r == Err::<(), NvListError>(NvListError::InvalidArgument)
                && *final(self) == *old(self),
    {
        if contains_nul(name) {
            return Err(NvListError::InvalidArgument);
        }
        self.put(name.to_owned(), Value::U64(value));
        Ok(())
    }

    /// Adds a boolean marker pair — a bare name, as snapshot requests are
    /// listed: accepted exactly when the name holds no NUL byte.
    pub fn add_boolean(&mut self, name: &str) -> (r: Result<(), NvListError>)
        requires
            old(self).wf(),
        ensures
            final(self).wf(),
            final(self).flag_spec() == old(self).flag_spec(),
            r is Ok <==> !has_nul(name.spec_bytes()),
            r is Ok ==> final(self).value_of(name@) == Some(ValueView::Boolean)
                && forall|other: Seq<char>|
                other != name@ ==> #[trigger] final(self).value_of(other) == old(self).value_of(
                    other,
                ),
            r is Err ==> r == Err::<(), NvListError>(NvListError::InvalidArgument)
                && *final(self) == *old(self),
    {
        if contains_nul(name) {
            return Err(NvListError::InvalidArgument);
        }
        self.put(name.to_owned(), Value::Boolean);
        Ok(())
    }
}

impl Clone for NvList {
    fn clone(&self) -> (r: Self)
        ensures
            r.pairs_spec() == self.pairs_spec(),
            r.flag_spec() == self.flag_spec(),
            self.wf() ==> r.wf(),
    {
        let mut pairs: Vec<(String, Value)> = Vec::new();
        let mut i: usize = 0;
        while i < self.pairs.len()
            invariant
                i <= self.pairs@.len(),
                pairs@.map_values(|p: (String, Value)| (p.0@, p.1@)) =~= self.pairs_spec().take(
                    i as int,
                ),
            decreases self.pairs@.len() - i,
        {
            let ghost before = pairs@.map_values(|p: (String, Value)| (p.0@, p.1@));
            let name = self.pairs[i].0.clone();
            let value = self.pairs[i].1.clone();
            pairs.push((name, value));
            proof {
                assert(pairs@.map_values(|p: (String, Value)| (p.0@, p.1@)) =~= before.push(
                    self.pairs_spec()[i as int],
                ));
                assert(self.pairs_spec().take(i + 1) =~= self.pairs_spec().take(i as int).push(
                    self.pairs_spec()[i as int],
                ));
            }
            i = i + 1;
        }
        let r = NvList { flag: self.flag, pairs };
        proof {
            assert(self.pairs_spec().take(self.pairs_spec().len() as int) =~= self.pairs_spec());
            assert(r.pairs_spec() =~= self.pairs_spec());
        }
        r
    }
}

/// What a lookup in `pairs` finds under `name`.
pub open spec fn lookup_in(pairs: Seq<(Seq<char>, ValueView)>, name: Seq<char>) -> Option<
    ValueView,
> {
    if exists|i: int| 0 <= i < pairs.len() && (#[trigger] pairs[i]).0 == name {
        let i = choose|i: int| 0 <= i < pairs.len() && (#[trigger] pairs[i]).0 == name;
        Some(pairs[i].1)
    } else {
        None
    }
}

/// Replacing position `i` leaves lookups of every other name unchanged.
proof fn lemma_lookup_update_other(
    before: Seq<(Seq<char>, ValueView)>,
    after: Seq<(Seq<char>, ValueView)>,
    i: int,
    name: Seq<char>,
    value: ValueView,
    other: Seq<char>,
)
    requires
        0 <= i < before.len(),
        before[i].0 == name,
        forall|p: int, q: int|
            0 <= p < q < before.len() ==> (#[trigger] before[p]).0 != (#[trigger] before[q]).0,
        after == before.update(i, (name, value)),
        other != name,
    ensures
        lookup_in(after, other) == lookup_in(before, other),
{
    if exists|k: int| 0 <= k < after.len() && (#[trigger] after[k]).0 == other {
        let k = choose|k: int| 0 <= k < after.len() && (#[trigger] after[k]).0 == other;
        assert(k != i);
        assert(before[k].0 == other);
        let k2 = choose|k2: int| 0 <= k2 < before.len() && (#[trigger] before[k2]).0 == other;
        assert(before[k2].0 == other);
        assert(k2 == k);
        assert(after[k].1 == before[k].1);
    } else {
        if exists|k: int| 0 <= k < before.len() && (#[trigger] before[k]).0 == other {
            let k = choose|k: int| 0 <= k < before.len() && (#[trigger] before[k]).0 == other;
            assert(k != i);
            assert(after[k].0 == other);
        }
    }
}

/// Appending a pair leaves lookups of every other name unchanged.
proof fn lemma_lookup_push_other(
    before: Seq<(Seq<char>, ValueView)>,
    after: Seq<(Seq<char>, ValueView)>,
    name: Seq<char>,
    value: ValueView,
    other: Seq<char>,
)
    requires
        forall|p: int, q: int|
            0 <= p < q < before.len() ==> (#[trigger] before[p]).0 != (#[trigger] before[q]).0,
        after == before.push((name, value)),
        other != name,
    ensures
        lookup_in(after, other) == lookup_in(before, other),
{
    if exists|k: int| 0 <= k < after.len() && (#[trigger] after[k]).0 == other {
        let k = choose|k: int| 0 <= k < after.len() && (#[trigger] after[k]).0 == other;
        assert(k < before.len());
        assert(before[k].0 == other);
        let k2 = choose|k2: int| 0 <= k2 < before.len() && (#[trigger] before[k2]).0 == other;
        assert(before[k2].0 == other);
        assert(k2 == k);
        assert(after[k].1 == before[k].1);
    } else {
        if exists|k: int| 0 <= k < before.len() && (#[trigger] before[k]).0 == other {
            let k = choose|k: int| 0 <= k < before.len() && (#[trigger] before[k]).0 == other;
            assert(after[k].0 == other);
        }
    }
}

} // verus!
