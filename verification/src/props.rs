//! Page properties and the rules that decide which of them a response
//! carries.
//!
//! A property is either a stored JSON value or a thunk that computes one.
//! Which properties are included, and which thunks are run, depends on the
//! kind of the property, on its name and on the kind of the request.
use crate::json::{json_entries, JsonMap};
use crate::req_type::{contains_name, InertiaRequestType, PartialComponent};
use serde_json::Value;
use vstd::prelude::*;

verus! {

/// One page property. `F` is the type of the thunks of the lazy kinds.
#[derive(Clone)]
pub enum InertiaProp<F> {
    /// - ALWAYS included on standard visits
    /// - OPTIONALLY included on partial reloads
    /// - ALWAYS evaluated
    Data(Value),
    /// - ALWAYS included on standard visits
    /// - OPTIONALLY included on partial reloads
    /// - ONLY evaluated when included
    Lazy(F),
    /// - ALWAYS included on standard visits
    /// - ALWAYS included on partial reloads (even if not requested or excepted)
    /// - ALWAYS evaluated
    Always(Value),
    /// - NEVER included on standard visits
    /// - OPTIONALLY included on partial reloads
    /// - ONLY evaluated when needed
    Demand(F),
}

/// A named property of a table.
struct PropEntry<F> {
    key: String,
    prop: InertiaProp<F>,
}

/// The properties of a page, by name. No name occurs twice.
pub struct InertiaProps<F> {
    entries: Vec<PropEntry<F>>,
}

/// Whether no two entries share a name.
spec fn distinct_keys<F>(entries: Seq<PropEntry<F>>) -> bool {
    forall|i: int, j: int|
        0 <= i < j < entries.len() ==> (#[trigger] entries[i]).key@ != (#[trigger] entries[j]).key@
}

/// Whether some entry is named `key`.
spec fn has_key<F>(entries: Seq<PropEntry<F>>, key: Seq<char>) -> bool {
    exists|i: int| 0 <= i < entries.len() && (#[trigger] entries[i]).key@ == key
}

/// The position of an entry named `key`.
spec fn key_index<F>(entries: Seq<PropEntry<F>>, key: Seq<char>) -> int {
    choose|i: int| 0 <= i < entries.len() && (#[trigger] entries[i]).key@ == key
}

/// The mapping that a list of entries stands for.
spec fn entries_map<F>(entries: Seq<PropEntry<F>>) -> Map<Seq<char>, InertiaProp<F>> {
    Map::new(|k: Seq<char>| has_key(entries, k), |k: Seq<char>| entries[key_index(entries, k)].prop)
}

/// With distinct names, each entry is what the mapping holds under the
/// entry's name.
proof fn lemma_entries_map<F>(entries: Seq<PropEntry<F>>)
    requires
        distinct_keys(entries),
    ensures
        forall|i: int|
            0 <= i < entries.len() ==> {
                &&& entries_map(entries).contains_key((#[trigger] entries[i]).key@)
                &&& entries_map(entries)[entries[i].key@] == entries[i].prop
            },
        forall|k: Seq<char>| #[trigger]
            entries_map(entries).contains_key(k) ==> {
                &&& 0 <= key_index(entries, k) < entries.len()
                &&& entries[key_index(entries, k)].key@ == k
            },
{
    assert forall|i: int| 0 <= i < entries.len() implies {
        &&& entries_map(entries).contains_key((#[trigger] entries[i]).key@)
        &&& entries_map(entries)[entries[i].key@] == entries[i].prop
    } by {
        let k = entries[i].key@;
        assert(has_key(entries, k));
        let c = key_index(entries, k);
        assert(0 <= c < entries.len() && entries[c].key@ == k);
        assert(c == i);
    }
}

impl<F> InertiaProp<F> {
    /// Whether the property holds a thunk rather than a stored value.
    pub open spec fn is_thunk(&self) -> bool {
        self is Lazy || self is Demand
    }

    /// Whether a response to a request of kind `req_type` carries this
    /// property, given that the property is named `key`.
    pub open spec fn included(&self, key: Seq<char>, req_type: InertiaRequestType) -> bool {
        match req_type {
            InertiaRequestType::Standard => !(self is Demand),
            InertiaRequestType::Partial(partial) => self is Always || partial.selects(key),
        }
    }

    /// Whether resolving the property named `key` runs its thunk.
    pub open spec fn evaluated(&self, key: Seq<char>, req_type: InertiaRequestType) -> bool {
        self.is_thunk() && self.included(key, req_type)
    }
}

impl<F: Fn() -> Value> InertiaProp<F> {
    /// Whether the thunk, if the property holds one, may be called.
    pub open spec fn callable(&self) -> bool {
        match self {
            InertiaProp::Lazy(f) => f.requires(()),
            InertiaProp::Demand(f) => f.requires(()),
            _ => true,
        }
    }

    /// Whether `value` is what the property resolves to: the stored value,
    /// or a value that a call of the thunk returns.
    pub open spec fn yields(&self, value: Value) -> bool {
        match self {
            InertiaProp::Data(stored) => value == stored,
            InertiaProp::Always(stored) => value == stored,
            InertiaProp::Lazy(f) => f.ensures((), value),
            InertiaProp::Demand(f) => f.ensures((), value),
        }
    }

    /// Calls the thunk of the property named `key`, once, and notes the
    /// call in `log`. Resolution calls thunks here and nowhere else.
    fn invoke(resolver: &F, Ghost(key): Ghost<Seq<char>>, log: &mut Ghost<Seq<Seq<char>>>) -> (value:
        Value)
        requires
            resolver.requires(()),
        ensures
            resolver.ensures((), value),
            final(log)@ == old(log)@.push(key),
    {
        let value = resolver();
        proof {
            *log.borrow_mut() = log@.push(key);
        }
        value
    }

    /// The value of the property named `key`, whatever its kind: the
    /// stored value, or the result of one call of the thunk, which is
    /// noted in `log`.
    fn resolve_prop_unconditionally(
        &self,
        Ghost(key): Ghost<Seq<char>>,
        log: &mut Ghost<Seq<Seq<char>>>,
    ) -> (value: Value)
        requires
            self.callable(),
        ensures
            self.yields(value),
            final(log)@ == (if self.is_thunk() {
                old(log)@.push(key)
            } else {
                old(log)@
            }),
    {
        match self {
            InertiaProp::Always(value) => value.clone(),
            InertiaProp::Data(value) => value.clone(),
            InertiaProp::Demand(resolver) => Self::invoke(resolver, Ghost(key), log),
            InertiaProp::Lazy(resolver) => Self::invoke(resolver, Ghost(key), log),
        }
    }

    /// Whether the filter of a partial reload selects the property named
    /// `key`.
    pub fn should_be_pushed(key: &String, partial: &PartialComponent) -> (pushed: bool)
        ensures
            pushed == partial.selects(key@),
    {
        contains_name(&partial.only, key) || partial.only.len() == 0 && !contains_name(
            &partial.except,
            key,
        )
    }

    /// Resolves the properties that a response to a request of kind
    /// `req_type` carries.
    ///
    /// The result holds exactly the included properties, each under its own
    /// name: a stored value as it is, a thunk's value as one call returned
    /// it. Thunks of properties that are left out are not called.
    pub fn resolve_props(raw_props: &InertiaProps<F>, req_type: &InertiaRequestType) -> (props:
        JsonMap)
        requires
            can_resolve(raw_props@, *req_type),
        ensures
            resolves_to(raw_props@, *req_type, json_entries(props)),
    {
        let (props, _) = Self::resolve_props_traced(raw_props, req_type);
        props
    }

    /// Resolves as `resolve_props` does and also tells, as ghost data, the
    /// names of the properties whose thunk was called, one item per call
    /// and in the order of the calls: no name comes twice, and the names
    /// are those of the thunk-valued properties that the response carries.
    /// So a thunk is called once where its property is included, and not
    /// at all where it is left out.
    pub fn resolve_props_traced(raw_props: &InertiaProps<F>, req_type: &InertiaRequestType) -> (res:
        (JsonMap, Ghost<Seq<Seq<char>>>))
        requires
            can_resolve(raw_props@, *req_type),
        ensures
            resolves_to(raw_props@, *req_type, json_entries(res.0)),
            res.1@.no_duplicates(),
            res.1@.to_set() =~= evaluated_keys(raw_props@, *req_type),
    {
        proof {
            use_type_invariant(raw_props);
            lemma_entries_map(raw_props.entries@);
        }
        let ghost entries = raw_props.entries@;
        let ghost table = raw_props@;
        let mut props = JsonMap::new();
        let mut log: Ghost<Seq<Seq<char>>> = Ghost(Seq::empty());
        let mut i: usize = 0;
        while i < raw_props.entries.len()
            invariant
                i <= entries.len(),
                entries == raw_props.entries@,
                table == entries_map(entries),
                distinct_keys(entries),
                can_resolve(table, *req_type),
                forall|j: int|
                    0 <= j < entries.len() ==> {
                        &&& table.contains_key((#[trigger] entries[j]).key@)
                        &&& table[entries[j].key@] == entries[j].prop
                    },
                forall|k: Seq<char>| #[trigger]
                    json_entries(props).contains_key(k) ==> {
                        &&& has_key(entries.take(i as int), k)
                        &&& table[k].included(k, *req_type)
                        &&& table[k].yields(json_entries(props)[k])
                    },
                forall|j: int|
                    0 <= j < i && (#[trigger] entries[j]).prop.included(entries[j].key@, *req_type)
                        ==> json_entries(props).contains_key(entries[j].key@),
                log@.no_duplicates(),
                forall|k: Seq<char>| #[trigger]
                    log@.contains(k) ==> {
                        &&& has_key(entries.take(i as int), k)
                        &&& table[k].evaluated(k, *req_type)
                    },
                forall|j: int|
                    0 <= j < i && (#[trigger] entries[j]).prop.evaluated(entries[j].key@, *req_type)
                        ==> log@.contains(entries[j].key@),
            decreases entries.len() - i,
        {
            let entry = &raw_props.entries[i];
            let ghost key = entry.key@;
            let ghost before = json_entries(props);
            let ghost called = log@;
            proof {
                assert(entries[i as int] == *entry);
                assert(table[key] == entry.prop);
                lemma_take_next(entries, i as int);
                assert(!has_key(entries.take(i as int), key)) by {
                    if has_key(entries.take(i as int), key) {
                        let j = key_index(entries.take(i as int), key);
                        assert(entries.take(i as int)[j] == entries[j]);
                    }
                }
            }
            match req_type {
                InertiaRequestType::Standard => {
                    match &entry.prop {
                        InertiaProp::Demand(_) => {},
                        prop => {
                            let value = prop.resolve_prop_unconditionally(Ghost(key), &mut log);
                            props.insert(entry.key.clone(), value);
                        },
                    };
                },
                InertiaRequestType::Partial(partials) => {
                    match &entry.prop {
                        InertiaProp::Always(value) => {
                            props.insert(entry.key.clone(), value.clone());
                        },
                        InertiaProp::Data(value) => {
                            if Self::should_be_pushed(&entry.key, partials) {
                                props.insert(entry.key.clone(), value.clone());
                            }
                        },
                        InertiaProp::Lazy(resolver) => {
                            if Self::should_be_pushed(&entry.key, partials) {
                                let value = Self::invoke(resolver, Ghost(key), &mut log);
                                props.insert(entry.key.clone(), value);
                            }
                        },
                        InertiaProp::Demand(resolver) => {
                            if Self::should_be_pushed(&entry.key, partials) {
                                let value = Self::invoke(resolver, Ghost(key), &mut log);
                                props.insert(entry.key.clone(), value);
                            }
                        },
                    };
                },
            }
            let ghost invoked = log@;
            proof {
                assert(invoked == called || invoked == called.push(key));
                assert(!called.contains(key));
                assert(invoked.no_duplicates()) by {
                    assert forall|a: int, b: int|
                        0 <= a < invoked.len() && 0 <= b < invoked.len() && a
                            != b implies invoked[a] != invoked[b] by {
                        if a < called.len() {
                            assert(called.contains(invoked[a]));
                        }
                        if b < called.len() {
                            assert(called.contains(invoked[b]));
                        }
                    }
                }
                assert forall|k: Seq<char>| #[trigger] invoked.contains(k) implies {
                    &&& has_key(entries.take(i + 1), k)
                    &&& table[k].evaluated(k, *req_type)
                } by {
                    if k != key || called.contains(k) {
                        assert(called.contains(k)) by {
                            if invoked != called {
                                let t = choose|t: int| 0 <= t < invoked.len() && invoked[t] == k;
                                assert(called[t] == k);
                            }
                        }
                    }
                }
                assert forall|j: int|
                    0 <= j < i + 1 && (#[trigger] entries[j]).prop.evaluated(
                        entries[j].key@,
                        *req_type,
                    ) implies invoked.contains(entries[j].key@) by {
                    if j < i {
                        let t = choose|t: int| 0 <= t < called.len() && called[t] == entries[j].key@;
                        assert(invoked[t] == entries[j].key@);
                    } else {
                        assert(invoked[called.len() as int] == key);
                    }
                }
            }
            i += 1;
        }
        proof {
            assert(entries.take(i as int) == entries);
            assert forall|k: Seq<char>| #[trigger]
                resolved_keys(table, *req_type).contains(k) implies json_entries(
                props,
            ).contains_key(k) by {
                let j = key_index(entries, k);
                assert(entries[j].key@ == k);
            }
            assert forall|k: Seq<char>| evaluated_keys(table, *req_type).contains(
                k,
            ) implies #[trigger] log@.to_set().contains(k) by {
                let j = key_index(entries, k);
                assert(entries[j].key@ == k);
            }
        }
        (props, log)
    }
}

/// Taking one more entry adds that entry's name and no other.
proof fn lemma_take_next<F>(entries: Seq<PropEntry<F>>, i: int)
    requires
        0 <= i < entries.len(),
    ensures
        forall|k: Seq<char>|
            has_key(entries.take(i + 1), k) <==> (has_key(entries.take(i), k) || k
                == entries[i].key@),
{
    assert forall|k: Seq<char>|
        has_key(entries.take(i + 1), k) <==> (has_key(entries.take(i), k) || k
            == entries[i].key@) by {
        if has_key(entries.take(i + 1), k) {
            let j = key_index(entries.take(i + 1), k);
            if j < i {
                assert(entries.take(i)[j].key@ == k);
            }
        }
        if has_key(entries.take(i), k) {
            let j = key_index(entries.take(i), k);
            assert(entries.take(i + 1)[j].key@ == k);
        }
        if k == entries[i].key@ {
            assert(entries.take(i + 1)[i].key@ == k);
        }
    }
}

/// The names of the properties that a response carries.
pub open spec fn resolved_keys<F>(
    table: Map<Seq<char>, InertiaProp<F>>,
    req_type: InertiaRequestType,
) -> Set<Seq<char>> {
    Set::new(|k: Seq<char>| table.contains_key(k) && table[k].included(k, req_type))
}

/// The names of the properties whose thunk is run.
pub open spec fn evaluated_keys<F>(
    table: Map<Seq<char>, InertiaProp<F>>,
    req_type: InertiaRequestType,
) -> Set<Seq<char>> {
    Set::new(|k: Seq<char>| table.contains_key(k) && table[k].evaluated(k, req_type))
}

/// Whether every thunk that resolution runs may be called.
pub open spec fn can_resolve<F: Fn() -> Value>(
    table: Map<Seq<char>, InertiaProp<F>>,
    req_type: InertiaRequestType,
) -> bool {
    forall|k: Seq<char>| #[trigger]
        table.contains_key(k) && table[k].evaluated(k, req_type) ==> table[k].callable()
}

/// Whether every thunk of the table may be called.
pub open spec fn all_callable<F: Fn() -> Value>(table: Map<Seq<char>, InertiaProp<F>>) -> bool {
    forall|k: Seq<char>| #[trigger] table.contains_key(k) ==> table[k].callable()
}

/// Whether `props` is a resolution of `table` for a request of kind
/// `req_type`: it holds the included properties and no others, each with a
/// value that the property yields.
pub open spec fn resolves_to<F: Fn() -> Value>(
    table: Map<Seq<char>, InertiaProp<F>>,
    req_type: InertiaRequestType,
    props: Map<Seq<char>, Value>,
) -> bool {
    &&& props.dom() =~= resolved_keys(table, req_type)
    &&& forall|k: Seq<char>| #[trigger] props.contains_key(k) ==> table[k].yields(props[k])
}

impl<F> View for InertiaProps<F> {
    type V = Map<Seq<char>, InertiaProp<F>>;

    closed spec fn view(&self) -> Map<Seq<char>, InertiaProp<F>> {
        entries_map(self.entries@)
    }
}

impl<F> InertiaProps<F> {
    #[verifier::type_invariant]
    spec fn well_formed(&self) -> bool {
        distinct_keys(self.entries@)
    }

    /// A table without properties.
    pub fn new() -> (table: Self)
        ensures
            table@ =~= Map::empty(),
    {
        InertiaProps { entries: Vec::new() }
    }

    /// The position of the entry named `key`, if there is one.
    fn position(&self, key: &String) -> (found: Option<usize>)
        ensures
            match found {
                Some(i) => i < self.entries@.len() && self.entries@[i as int].key@ == key@,
                None => !has_key(self.entries@, key@),
            },
    {
        let mut i: usize = 0;
        while i < self.entries.len()
            invariant
                i <= self.entries@.len(),
                forall|j: int| 0 <= j < i ==> (#[trigger] self.entries@[j]).key@ != key@,
            decreases self.entries@.len() - i,
        {
            if self.entries[i].key == *key {
                return Some(i);
            }
            i += 1;
        }
        None
    }

    /// Binds `key` to `prop`, replacing what `key` was bound to, and hands
    /// back the property it replaced, if any.
    pub fn insert(&mut self, key: String, prop: InertiaProp<F>) -> (previous: Option<
        InertiaProp<F>,
    >)
        ensures
            final(self)@ == old(self)@.insert(key@, prop),
            previous == (if old(self)@.contains_key(key@) {
                Some(old(self)@[key@])
            } else {
                None
            }),
    {
        proof {
            use_type_invariant(&*self);
            lemma_entries_map(self.entries@);
        }
        let ghost before = self.entries@;
        let found = self.position(&key);
        let mut entries: Vec<PropEntry<F>> = Vec::new();
        std::mem::swap(&mut self.entries, &mut entries);
        let previous = match found {
            Some(i) => {
                let replaced = entries.remove(i);
                proof {
                    lemma_remove_keys(before, i as int);
                }
                Some(replaced.prop)
            },
            None => None,
        };
        let ghost kept = entries@;
        assert(!has_key(kept, key@));
        entries.push(PropEntry { key, prop });
        proof {
            let after = entries@;
            assert(after == kept.push(after.last()));
            assert(distinct_keys(after)) by {
                assert forall|a: int, b: int| 0 <= a < b < after.len() implies (
                #[trigger] after[a]).key@ != (#[trigger] after[b]).key@ by {
                    assert(after[a] == kept[a]);
                    if b < kept.len() {
                        assert(after[b] == kept[b]);
                    }
                }
            }
        }
        self.entries = entries;
        proof {
            let after = self.entries@;
            lemma_entries_map(after);
            assert(entries_map(after) =~= entries_map(before).insert(key@, prop)) by {
                assert forall|k: Seq<char>| #[trigger]
                    entries_map(after).contains_key(k) <==> entries_map(before).insert(
                        key@,
                        prop,
                    ).contains_key(k) by {
                    if has_key(after, k) {
                        let j = key_index(after, k);
                        if j < kept.len() {
                            assert(kept[j].key@ == k);
                        }
                    }
                    if has_key(before, k) && k != key@ {
                        assert(has_key(kept, k));
                        let j = key_index(kept, k);
                        assert(after[j].key@ == k);
                    }
                    if k == key@ {
                        assert(after[kept.len() as int].key@ == k);
                    }
                }
                assert forall|k: Seq<char>| #[trigger]
                    entries_map(after).contains_key(k) implies entries_map(after)[k]
                    == entries_map(before).insert(key@, prop)[k] by {
                    let j = key_index(after, k);
                    if j < kept.len() {
                        assert(after[j] == kept[j]);
                        lemma_kept_entry(before, kept, k, j);
                    }
                }
            }
        }
        previous
    }

    /// The property named `key`, if the table holds one.
    pub fn get(&self, key: &String) -> (prop: Option<&InertiaProp<F>>)
        ensures
            match prop {
                Some(p) => self@.contains_key(key@) && *p == self@[key@],
                None => !self@.contains_key(key@),
            },
    {
        proof {
            use_type_invariant(self);
            lemma_entries_map(self.entries@);
        }
        match self.position(key) {
            Some(i) => Some(&self.entries[i].prop),
            None => None,
        }
    }

    /// Whether the table holds a property named `key`.
    pub fn contains_key(&self, key: &String) -> (found: bool)
        ensures
            found == self@.contains_key(key@),
    {
        self.position(key).is_some()
    }

    /// The number of properties.
    pub fn len(&self) -> (n: usize)
        ensures
            self@.dom().finite(),
            n == self@.len(),
    {
        proof {
            use_type_invariant(self);
            lemma_entries_len(self.entries@);
        }
        self.entries.len()
    }

    /// Whether the table holds no property.
    pub fn is_empty(&self) -> (empty: bool)
        ensures
            empty == (self@ =~= Map::empty()),
    {
        proof {
            use_type_invariant(self);
            lemma_entries_map(self.entries@);
            if self.entries@.len() > 0 {
                assert(self@.contains_key(self.entries@[0].key@));
            }
        }
        self.entries.len() == 0
    }
}

/// Taking an entry out leaves the names of the others, and no entry of the
/// name that left.
proof fn lemma_remove_keys<F>(entries: Seq<PropEntry<F>>, i: int)
    requires
        distinct_keys(entries),
        0 <= i < entries.len(),
    ensures
        distinct_keys(entries.remove(i)),
        !has_key(entries.remove(i), entries[i].key@),
        forall|k: Seq<char>|
            k != entries[i].key@ ==> (has_key(entries.remove(i), k) <==> has_key(entries, k)),
{
    let rest = entries.remove(i);
    assert forall|a: int, b: int| 0 <= a < b < rest.len() implies (#[trigger] rest[a]).key@ != (
    #[trigger] rest[b]).key@ by {
        let a0 = if a < i { a } else { a + 1 };
        let b0 = if b < i { b } else { b + 1 };
        assert(rest[a] == entries[a0] && rest[b] == entries[b0]);
    }
    if has_key(rest, entries[i].key@) {
        let j = key_index(rest, entries[i].key@);
        let j0 = if j < i { j } else { j + 1 };
        assert(rest[j] == entries[j0]);
    }
    assert forall|k: Seq<char>| k != entries[i].key@ implies (has_key(rest, k) <==> has_key(
        entries,
        k,
    )) by {
        if has_key(rest, k) {
            let j = key_index(rest, k);
            let j0 = if j < i { j } else { j + 1 };
            assert(entries[j0].key@ == k);
        }
        if has_key(entries, k) {
            let j = key_index(entries, k);
            let j1 = if j < i { j } else { j - 1 };
            assert(rest[j1].key@ == k);
        }
    }
}

/// An entry that stayed is the entry that the table held under its name.
proof fn lemma_kept_entry<F>(
    before: Seq<PropEntry<F>>,
    kept: Seq<PropEntry<F>>,
    k: Seq<char>,
    j: int,
)
    requires
        distinct_keys(before),
        0 <= j < kept.len(),
        kept[j].key@ == k,
        kept == before || exists|i: int| 0 <= i < before.len() && kept == before.remove(i),
    ensures
        has_key(before, k),
        entries_map(before)[k] == kept[j].prop,
{
    lemma_entries_map(before);
    if kept == before {
        assert(before[j].key@ == k);
    } else {
        let i = choose|i: int| 0 <= i < before.len() && kept == before.remove(i);
        let j0 = if j < i { j } else { j + 1 };
        assert(kept[j] == before[j0]);
        assert(before[j0].key@ == k);
    }
}

/// A table has as many names as entries.
proof fn lemma_entries_len<F>(entries: Seq<PropEntry<F>>)
    requires
        distinct_keys(entries),
    ensures
        entries_map(entries).dom().finite(),
        entries_map(entries).dom().len() == entries.len(),
    decreases entries.len(),
{
    if entries.len() == 0 {
        assert(entries_map(entries).dom() =~= Set::empty());
    } else {
        let init = entries.drop_last();
        let last = entries.last();
        assert forall|a: int, b: int| 0 <= a < b < init.len() implies (#[trigger] init[a]).key@ != (
        #[trigger] init[b]).key@ by {
            assert(init[a] == entries[a] && init[b] == entries[b]);
        }
        lemma_entries_len(init);
        assert(!has_key(init, last.key@)) by {
            if has_key(init, last.key@) {
                let j = key_index(init, last.key@);
                assert(init[j] == entries[j]);
            }
        }
        assert(entries_map(entries).dom() =~= entries_map(init).dom().insert(last.key@)) by {
            assert forall|k: Seq<char>|
                has_key(entries, k) <==> (has_key(init, k) || k == last.key@) by {
                if has_key(entries, k) {
                    let j = key_index(entries, k);
                    if j < init.len() {
                        assert(init[j].key@ == k);
                    }
                }
                if has_key(init, k) {
                    let j = key_index(init, k);
                    assert(entries[j].key@ == k);
                }
                if k == last.key@ {
                    assert(entries[entries.len() - 1].key@ == k);
                }
            }
        }
    }
}


/// A standard visit never carries an on-demand property.
pub proof fn lemma_standard_omits_on_demand<F: Fn() -> Value>(
    table: Map<Seq<char>, InertiaProp<F>>,
    props: Map<Seq<char>, Value>,
    key: Seq<char>,
)
    requires
        resolves_to(table, InertiaRequestType::Standard, props),
        table.contains_key(key),
        table[key] is Demand,
    ensures
        !props.contains_key(key),
{
    assert(!resolved_keys(table, InertiaRequestType::Standard).contains(key));
}

/// A standard visit carries every property that is not on-demand.
pub proof fn lemma_standard_includes_the_rest<F: Fn() -> Value>(
    table: Map<Seq<char>, InertiaProp<F>>,
    props: Map<Seq<char>, Value>,
    key: Seq<char>,
)
    requires
        resolves_to(table, InertiaRequestType::Standard, props),
        table.contains_key(key),
        !(table[key] is Demand),
    ensures
        props.contains_key(key),
        table[key].yields(props[key]),
{
    assert(resolved_keys(table, InertiaRequestType::Standard).contains(key));
}

/// An `Always` property is part of every response, with its stored value,
/// whatever the kind of the request and whatever a filter says.
pub proof fn lemma_always_is_included<F: Fn() -> Value>(
    table: Map<Seq<char>, InertiaProp<F>>,
    req_type: InertiaRequestType,
    props: Map<Seq<char>, Value>,
    key: Seq<char>,
)
    requires
        resolves_to(table, req_type, props),
        table.contains_key(key),
        table[key] is Always,
    ensures
        props.contains_key(key),
        props[key] == table[key]->Always_0,
{
    assert(resolved_keys(table, req_type).contains(key));
}

/// Under a filter with a non-empty `only` list, a property that is not
/// `Always` is part of the response if and only if `only` names it;
/// `except` has no say.
pub proof fn lemma_only_decides<F: Fn() -> Value>(
    table: Map<Seq<char>, InertiaProp<F>>,
    partial: PartialComponent,
    props: Map<Seq<char>, Value>,
    key: Seq<char>,
)
    requires
        resolves_to(table, InertiaRequestType::Partial(partial), props),
        partial.only@.len() > 0,
        table.contains_key(key),
        !(table[key] is Always),
    ensures
        props.contains_key(key) <==> partial.only_names().contains(key),
{
    let req_type = InertiaRequestType::Partial(partial);
    assert(resolved_keys(table, req_type).contains(key) <==> props.contains_key(key));
}

/// Under a filter with an empty `only` list, a property that is not
/// `Always` is part of the response if and only if `except` does not name
/// it.
pub proof fn lemma_except_decides<F: Fn() -> Value>(
    table: Map<Seq<char>, InertiaProp<F>>,
    partial: PartialComponent,
    props: Map<Seq<char>, Value>,
    key: Seq<char>,
)
    requires
        resolves_to(table, InertiaRequestType::Partial(partial), props),
        partial.only@.len() == 0,
        table.contains_key(key),
        !(table[key] is Always),
    ensures
        props.contains_key(key) <==> !partial.except_names().contains(key),
{
    let req_type = InertiaRequestType::Partial(partial);
    assert(resolved_keys(table, req_type).contains(key) <==> props.contains_key(key));
}

/// A thunk runs only for a property that the response carries: each name
/// in a trace of calls without repetition is the name of an included
/// thunk-valued property, so a thunk is called once if its property is
/// selected and not at all otherwise. On a standard visit no on-demand
/// thunk runs.
pub proof fn lemma_thunk_runs_at_most_once<F: Fn() -> Value>(
    table: Map<Seq<char>, InertiaProp<F>>,
    req_type: InertiaRequestType,
    invoked: Seq<Seq<char>>,
    key: Seq<char>,
)
    requires
        invoked.no_duplicates(),
        invoked.to_set() =~= evaluated_keys(table, req_type),
    ensures
        invoked.filter(|k: Seq<char>| k == key).len() == (if table.contains_key(key)
            && table[key].evaluated(key, req_type) {
            1nat
        } else {
            0nat
        }),
        invoked.contains(key) ==> resolved_keys(table, req_type).contains(key),
        req_type is Standard && table.contains_key(key) && table[key] is Demand
            ==> !invoked.contains(key),
{
    lemma_count_in_distinct(invoked, key);
    assert(invoked.contains(key) <==> invoked.to_set().contains(key));
    assert(evaluated_keys(table, req_type).contains(key) <==> (table.contains_key(key)
        && table[key].evaluated(key, req_type)));
}

/// In a sequence without repetition an item occurs once or not at all.
proof fn lemma_count_in_distinct(s: Seq<Seq<char>>, key: Seq<char>)
    requires
        s.no_duplicates(),
    ensures
        s.filter(|k: Seq<char>| k == key).len() == (if s.contains(key) {
            1nat
        } else {
            0nat
        }),
    decreases s.len(),
{
    let is_key = |k: Seq<char>| k == key;
    reveal(Seq::filter);
    if s.len() > 0 {
        let init = s.drop_last();
        assert(init.no_duplicates()) by {
            assert forall|a: int, b: int|
                0 <= a < init.len() && 0 <= b < init.len() && a != b implies init[a]
                != init[b] by {
                assert(init[a] == s[a] && init[b] == s[b]);
            }
        }
        lemma_count_in_distinct(init, key);
        if s.last() == key {
            assert(!init.contains(key)) by {
                if init.contains(key) {
                    let j = choose|j: int| 0 <= j < init.len() && init[j] == key;
                    assert(s[j] == s[s.len() - 1]);
                }
            }
            assert(s.contains(key)) by {
                assert(s[s.len() - 1] == key);
            }
            assert(s.filter(is_key) == init.filter(is_key).push(s.last()));
        } else {
            assert(s.filter(is_key) == init.filter(is_key));
            assert(s.contains(key) <==> init.contains(key)) by {
                if s.contains(key) {
                    let j = choose|j: int| 0 <= j < s.len() && s[j] == key;
                    assert(init[j] == key);
                }
                if init.contains(key) {
                    let j = choose|j: int| 0 <= j < init.len() && init[j] == key;
                    assert(s[j] == key);
                }
            }
        }
    } else {
        assert(s.filter(is_key).len() == 0);
    }
}

} // verus!
