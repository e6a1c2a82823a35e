//! Encoder command-line parameters and the keyed collection that holds them.

use vstd::prelude::*;

use crate::text::{concat2, concat4, decimal_int, i64_to_decimal, str_eq};

verus! {

/// One encoder parameter: a prefix such as `--`, and either a textual value,
/// a numeric value, or a flag.
#[allow(inconsistent_fields)]
#[derive(Debug, PartialEq, Eq)]
pub enum CLIParameter {
    String { prefix: String, delimiter: String, value: String },
    Number { prefix: String, delimiter: String, value: i64 },
    Bool { prefix: String, value: bool },
}

/// The mathematical value of a [`CLIParameter`].
#[allow(inconsistent_fields)]
pub enum ParamView {
    Text { prefix: Seq<char>, delimiter: Seq<char>, value: Seq<char> },
    Number { prefix: Seq<char>, delimiter: Seq<char>, value: int },
    Flag { prefix: Seq<char>, value: bool },
}

impl View for CLIParameter {
    type V = ParamView;

    open spec fn view(&self) -> ParamView {
        match self {
            CLIParameter::String { prefix, delimiter, value } => ParamView::Text {
                prefix: prefix@,
                delimiter: delimiter@,
                value: value@,
            },
            CLIParameter::Number { prefix, delimiter, value } => ParamView::Number {
                prefix: prefix@,
                delimiter: delimiter@,
                value: *value as int,
            },
            CLIParameter::Bool { prefix, value } => ParamView::Flag { prefix: prefix@, value: *value },
        }
    }
}

/// A textual parameter.
pub open spec fn text_param(prefix: Seq<char>, delimiter: Seq<char>, value: Seq<char>) -> ParamView {
    ParamView::Text { prefix, delimiter, value }
}

/// A numeric parameter.
pub open spec fn number_param(prefix: Seq<char>, delimiter: Seq<char>, value: int) -> ParamView {
    ParamView::Number { prefix, delimiter, value }
}

/// A flag parameter.
pub open spec fn flag_param(prefix: Seq<char>, value: bool) -> ParamView {
    ParamView::Flag { prefix, value }
}

/// The text of a parameter's value: the text itself, the decimal number, or
/// `true`/`false`.
pub open spec fn value_text(p: ParamView) -> Seq<char> {
    match p {
        ParamView::Text { value, .. } => value,
        ParamView::Number { value, .. } => decimal_int(value),
        ParamView::Flag { value, .. } => if value { "true"@ } else { "false"@ },
    }
}

/// The command-line arguments that parameter `p` under name `key` becomes:
/// with a space delimiter the name and the value are two arguments, with any
/// other delimiter they are joined into one; a flag is its name when set and
/// nothing otherwise.
pub open spec fn render_parameter(key: Seq<char>, p: ParamView) -> Seq<Seq<char>> {
    match p {
        ParamView::Text { prefix, delimiter, value } => if delimiter == " "@ {
            seq![prefix + key, value]
        } else {
            seq![prefix + key + delimiter + value]
        },
        ParamView::Number { prefix, delimiter, value } => if delimiter == " "@ {
            seq![prefix + key, decimal_int(value)]
        } else {
            seq![prefix + key + delimiter + decimal_int(value)]
        },
        ParamView::Flag { prefix, value } => if value {
            seq![prefix + key]
        } else {
            seq![]
        },
    }
}

/// The arguments of a list of named parameters, in list order.
pub open spec fn render_entries(entries: Seq<(Seq<char>, ParamView)>) -> Seq<Seq<char>>
    decreases entries.len(),
{
    if entries.len() == 0 {
        seq![]
    } else {
        render_entries(entries.drop_last()) + render_parameter(
            entries.last().0,
            entries.last().1,
        )
    }
}

/// The map that a list of named parameters denotes; a later entry for a name
/// replaces an earlier one.
pub open spec fn entries_map(entries: Seq<(Seq<char>, ParamView)>) -> Map<Seq<char>, ParamView>
    decreases entries.len(),
{
    if entries.len() == 0 {
        Map::empty()
    } else {
        entries_map(entries.drop_last()).insert(entries.last().0, entries.last().1)
    }
}

/// No name occurs twice in the list.
pub open spec fn distinct_keys(entries: Seq<(Seq<char>, ParamView)>) -> bool {
    forall|i: int, j: int|
        0 <= i < entries.len() && 0 <= j < entries.len() && i != j ==> entries[i].0 != entries[j].0
}

/// `entries` lists the map `m`: each name once, with its value.
pub open spec fn is_listing(entries: Seq<(Seq<char>, ParamView)>, m: Map<Seq<char>, ParamView>) -> bool {
    distinct_keys(entries) && entries_map(entries) == m
}

/// The names that occur in a list.
pub proof fn lemma_entries_map_dom(entries: Seq<(Seq<char>, ParamView)>, k: Seq<char>)
    ensures
        entries_map(entries).dom().contains(k) <==> exists|i: int|
            0 <= i < entries.len() && #[trigger] entries[i].0 == k,
    decreases entries.len(),
{
    if entries.len() > 0 {
        let init = entries.drop_last();
        lemma_entries_map_dom(init, k);
        if entries_map(entries).dom().contains(k) && k != entries.last().0 {
            let i = choose|i: int| 0 <= i < init.len() && #[trigger] init[i].0 == k;
            assert(entries[i].0 == k);
        }
        if exists|i: int| 0 <= i < entries.len() && #[trigger] entries[i].0 == k {
            let i = choose|i: int| 0 <= i < entries.len() && #[trigger] entries[i].0 == k;
            if i < entries.len() - 1 {
                assert(init[i].0 == k);
            }
        }
    }
}

/// In a list without repeated names, each entry's name maps to its value.
pub proof fn lemma_entries_map_lookup(entries: Seq<(Seq<char>, ParamView)>, i: int)
    requires
        0 <= i < entries.len(),
        distinct_keys(entries),
    ensures
        entries_map(entries).dom().contains(entries[i].0),
        entries_map(entries)[entries[i].0] == entries[i].1,
    decreases entries.len(),
{
    if i < entries.len() - 1 {
        let init = entries.drop_last();
        lemma_entries_map_lookup(init, i);
        assert(init[i] == entries[i]);
        assert(entries.last().0 != entries[i].0);
    }
}

/// Replacing the value of an entry whose name occurs nowhere else updates the
/// map at that name.
pub proof fn lemma_entries_map_update(
    entries: Seq<(Seq<char>, ParamView)>,
    i: int,
    v: ParamView,
)
    requires
        0 <= i < entries.len(),
        distinct_keys(entries),
    ensures
        entries_map(entries.update(i, (entries[i].0, v))) == entries_map(entries).insert(
            entries[i].0,
            v,
        ),
    decreases entries.len(),
{
    let k = entries[i].0;
    let updated = entries.update(i, (k, v));
    if i == entries.len() - 1 {
        assert(updated.drop_last() =~= entries.drop_last());
        assert(entries_map(updated) =~= entries_map(entries).insert(k, v));
    } else {
        let init = entries.drop_last();
        lemma_entries_map_update(init, i, v);
        assert(updated.drop_last() =~= init.update(i, (k, v)));
        assert(entries.last().0 != k);
        assert(entries_map(updated) =~= entries_map(entries).insert(k, v));
    }
}

/// A keyed collection of parameters. Each name occurs at most once; entries
/// keep the order in which their names were first inserted.
pub struct ParameterMap {
    entries: Vec<(String, CLIParameter)>,
}

/// The view of one stored entry.
pub open spec fn entry_view(e: (String, CLIParameter)) -> (Seq<char>, ParamView) {
    (e.0@, e.1@)
}

impl ParameterMap {
    /// The entries, in order.
    pub closed spec fn entries(&self) -> Seq<(Seq<char>, ParamView)> {
        self.entries@.map_values(|e: (String, CLIParameter)| entry_view(e))
    }

    /// Each name occurs at most once.
    #[verifier::type_invariant]
    closed spec fn wf(&self) -> bool {
        distinct_keys(self.entries())
    }

    /// The map from names to parameters.
    pub open spec fn view(&self) -> Map<Seq<char>, ParamView> {
        entries_map(self.entries())
    }

    /// An empty collection.
    pub fn new() -> (m: Self)
        ensures
            m@ == Map::<Seq<char>, ParamView>::empty(),
            m.entries() == Seq::<(Seq<char>, ParamView)>::empty(),
    {
        let m = ParameterMap { entries: Vec::new() };
        assert(m.entries() =~= Seq::<(Seq<char>, ParamView)>::empty());
        m
    }

    /// The number of parameters.
    pub fn len(&self) -> (n: usize)
        ensures
            n == self.entries().len(),
    {
        self.entries.len()
    }

    /// The name and parameter at position `i`.
    pub fn entry(&self, i: usize) -> (e: (&String, &CLIParameter))
        requires
            i < self.entries().len(),
        ensures
            e.0@ == self.entries()[i as int].0,
            e.1@ == self.entries()[i as int].1,
    {
        let e = &self.entries[i];
        (&e.0, &e.1)
    }

    /// The position of `key`, if it is present.
    pub fn position(&self, key: &str) -> (r: Option<usize>)
        ensures
            r matches Some(i) ==> i < self.entries().len() && self.entries()[i as int].0 == key@,
            r is None ==> !self@.dom().contains(key@),
    {
        let mut i: usize = 0;
        while i < self.entries.len()
            invariant
                i <= self.entries().len(),
                self.entries().len() == self.entries@.len(),
                forall|j: int| 0 <= j < i ==> self.entries()[j].0 != key@,
            decreases self.entries.len() - i,
        {
            if str_eq(self.entries[i].0.as_str(), key) {
                return Some(i);
            }
            i = i + 1;
        }
        proof {
            lemma_entries_map_dom(self.entries(), key@);
        }
        None
    }

    /// Whether `key` is present.
    pub fn contains_key(&self, key: &str) -> (r: bool)
        ensures
            r == self@.dom().contains(key@),
    {
        match self.position(key) {
            Some(i) => {
                proof {
                    lemma_entries_map_dom(self.entries(), key@);
                }
                true
            },
            None => false,
        }
    }

    /// The parameter stored under `key`.
    pub fn get(&self, key: &str) -> (r: Option<&CLIParameter>)
        ensures
            r matches Some(p) ==> self@.dom().contains(key@) && self@[key@] == p@,
            r is None ==> !self@.dom().contains(key@),
    {
        proof {
            use_type_invariant(self);
        }
        match self.position(key) {
            Some(i) => {
                proof {
                    let s = self.entries();
                    let v = s[i as int].1;
                    lemma_entries_map_update(s, i as int, v);
                    assert(s.update(i as int, (key@, v)) =~= s);
                }
                Some(&self.entries[i].1)
            },
            None => None,
        }
    }

    /// Stores `value` under `key`, replacing what was there. A new name goes
    /// after all present ones; a present name keeps its position.
    pub fn insert(&mut self, key: String, value: CLIParameter)
        ensures
            final(self)@ == old(self)@.insert(key@, value@),
            old(self)@.dom().contains(key@) ==> exists|i: int|
                0 <= i < old(self).entries().len() && old(self).entries()[i].0 == key@
                    && final(self).entries() == old(self).entries().update(i, (key@, value@)),
            !old(self)@.dom().contains(key@) ==> final(self).entries() == old(self).entries().push(
                (key@, value@),
            ),
    {
        proof {
            use_type_invariant(&*self);
        }
        let ghost old_entries = self.entries();
        let ghost kv = key@;
        let ghost vv = value@;
        let position = self.position(key.as_str());
        let mut entries: Vec<(String, CLIParameter)> = Vec::new();
        std::mem::swap(&mut entries, &mut self.entries);
        assert(entries@.map_values(|e: (String, CLIParameter)| entry_view(e)) == old_entries);
        match position {
            Some(i) => {
                entries.set(i, (key, value));
                proof {
                    let new_entries = entries@.map_values(|e: (String, CLIParameter)| entry_view(e));
                    assert(new_entries =~= old_entries.update(i as int, (kv, vv)));
                    lemma_entries_map_update(old_entries, i as int, vv);
                    lemma_entries_map_dom(old_entries, kv);
                    assert forall|a: int, b: int|
                        0 <= a < new_entries.len() && 0 <= b < new_entries.len() && a
                            != b implies new_entries[a].0 != new_entries[b].0 by {
                        assert(old_entries[a].0 == new_entries[a].0);
                        assert(old_entries[b].0 == new_entries[b].0);
                    }
                }
            },
            None => {
                entries.push((key, value));
                proof {
                    let new_entries = entries@.map_values(|e: (String, CLIParameter)| entry_view(e));
                    assert(new_entries =~= old_entries.push((kv, vv)));
                    assert(new_entries.drop_last() =~= old_entries);
                    lemma_entries_map_dom(old_entries, kv);
                }
            },
        }
        self.entries = entries;
    }

    /// Stores every parameter of `other` in turn, so that `other` wins where
    /// both hold a name.
    pub fn extend(&mut self, other: &ParameterMap)
        ensures
            final(self)@ == old(self)@.union_prefer_right(other@),
    {
        let ghost start = self@;
        let ghost oe = other.entries();
        let n = other.entries.len();
        let mut i: usize = 0;
        while i < n
            invariant
                n == oe.len(),
                oe == other.entries(),
                i <= n,
                self@ == start.union_prefer_right(entries_map(oe.take(i as int))),
            decreases n - i,
        {
            let key = other.entries[i].0.clone();
            let value = other.entries[i].1.duplicate();
            proof {
                assert(oe[i as int] == entry_view(other.entries@[i as int]));
            }
            self.insert(key, value);
            proof {
                assert(oe.take(i + 1).drop_last() =~= oe.take(i as int));
                assert(self@ =~= start.union_prefer_right(entries_map(oe.take(i + 1))));
            }
            i = i + 1;
        }
        assert(oe.take(n as int) =~= oe);
    }
}

impl ParameterMap {
    /// Appends the arguments of every parameter, in entry order, to `args`.
    /// The entries list the map.
    pub fn push_all_arguments(&self, args: &mut Vec<String>)
        ensures
            is_listing(self.entries(), self@),
            final(args)@.map_values(|a: String| a@) == old(args)@.map_values(|a: String| a@)
                + render_entries(self.entries()),
    {
        proof {
            use_type_invariant(self);
        }
        let ghost before = args@.map_values(|a: String| a@);
        let ghost es = self.entries();
        let n = self.entries.len();
        let mut i: usize = 0;
        while i < n
            invariant
                n == es.len(),
                es == self.entries(),
                i <= n,
                args@.map_values(|a: String| a@) == before + render_entries(es.take(i as int)),
            decreases n - i,
        {
            let e = &self.entries[i];
            proof {
                assert(es[i as int] == entry_view(self.entries@[i as int]));
            }
            e.1.push_arguments(e.0.as_str(), args);
            proof {
                assert(es.take(i + 1).drop_last() =~= es.take(i as int));
                assert(before + render_entries(es.take(i as int)) + render_parameter(
                    es[i as int].0,
                    es[i as int].1,
                ) =~= before + render_entries(es.take(i + 1)));
            }
            i = i + 1;
        }
        assert(es.take(n as int) =~= es);
    }
}

impl ParameterMap {
    /// Stores a numeric parameter under `key`.
    pub fn insert_number(&mut self, key: &str, prefix: &str, delimiter: &str, value: i64)
        ensures
            final(self)@ == old(self)@.insert(key@, number_param(prefix@, delimiter@, value as int)),
    {
        self.insert(key.to_owned(), CLIParameter::new_number(prefix, delimiter, value));
    }

    /// Stores a textual parameter under `key`.
    pub fn insert_string(&mut self, key: &str, prefix: &str, delimiter: &str, value: &str)
        ensures
            final(self)@ == old(self)@.insert(key@, text_param(prefix@, delimiter@, value@)),
    {
        self.insert(key.to_owned(), CLIParameter::new_string(prefix, delimiter, value));
    }

    /// Stores a flag parameter under `key`.
    pub fn insert_bool(&mut self, key: &str, prefix: &str, value: bool)
        ensures
            final(self)@ == old(self)@.insert(key@, flag_param(prefix@, value)),
    {
        self.insert(key.to_owned(), CLIParameter::new_bool(prefix, value));
    }

    /// Removes `key`, returning the parameter that was stored under it.
    pub fn remove(&mut self, key: &str) -> (r: Option<CLIParameter>)
        ensures
            final(self)@ == old(self)@.remove(key@),
            r matches Some(p) ==> old(self)@.dom().contains(key@) && p@ == old(self)@[key@],
            r is None ==> !old(self)@.dom().contains(key@),
    {
        proof {
            use_type_invariant(&*self);
        }
        let ghost old_entries = self.entries();
        let ghost kv = key@;
        match self.position(key) {
            None => None,
            Some(i) => {
                let mut entries: Vec<(String, CLIParameter)> = Vec::new();
                std::mem::swap(&mut entries, &mut self.entries);
                assert(entries@.map_values(|e: (String, CLIParameter)| entry_view(e)) == old_entries);
                let removed = entries.remove(i);
                proof {
                    let new_entries = entries@.map_values(|e: (String, CLIParameter)| entry_view(e));
                    assert(new_entries =~= old_entries.remove(i as int));
                    lemma_entries_map_remove(old_entries, i as int);
                    lemma_entries_map_update(old_entries, i as int, old_entries[i as int].1);
                    assert(old_entries.update(i as int, (kv, old_entries[i as int].1)) =~= old_entries);
                    assert forall|a: int, b: int|
                        0 <= a < new_entries.len() && 0 <= b < new_entries.len() && a
                            != b implies new_entries[a].0 != new_entries[b].0 by {
                        let oa = if a < i { a } else { a + 1 };
                        let ob = if b < i { b } else { b + 1 };
                        assert(old_entries[oa].0 == new_entries[a].0);
                        assert(old_entries[ob].0 == new_entries[b].0);
                    }
                }
                self.entries = entries;
                Some(removed.1)
            },
        }
    }
}

/// Removing the entry of a name that occurs once removes the name from the map.
pub proof fn lemma_entries_map_remove(entries: Seq<(Seq<char>, ParamView)>, i: int)
    requires
        0 <= i < entries.len(),
        distinct_keys(entries),
    ensures
        entries_map(entries.remove(i)) == entries_map(entries).remove(entries[i].0),
    decreases entries.len(),
{
    let k = entries[i].0;
    let init = entries.drop_last();
    if i == entries.len() - 1 {
        assert(entries.remove(i) =~= init);
        lemma_entries_map_dom(init, k);
        assert(entries_map(init) =~= entries_map(entries).remove(k));
    } else {
        lemma_entries_map_remove(init, i);
        let r = entries.remove(i);
        assert(r.drop_last() =~= init.remove(i));
        assert(r.last() == entries.last());
        assert(entries.last().0 != k);
        assert(entries_map(r) =~= entries_map(entries).remove(k));
    }
}

impl CLIParameter {
    /// A copy of this parameter.
    pub fn duplicate(&self) -> (r: CLIParameter)
        ensures
            r@ == self@,
    {
        match self {
            CLIParameter::String { prefix, delimiter, value } => CLIParameter::String {
                prefix: prefix.clone(),
                delimiter: delimiter.clone(),
                value: value.clone(),
            },
            CLIParameter::Number { prefix, delimiter, value } => CLIParameter::Number {
                prefix: prefix.clone(),
                delimiter: delimiter.clone(),
                value: *value,
            },
            CLIParameter::Bool { prefix, value } => CLIParameter::Bool {
                prefix: prefix.clone(),
                value: *value,
            },
        }
    }

    /// A textual parameter.
    pub fn new_string(prefix: &str, delimiter: &str, value: &str) -> (r: CLIParameter)
        ensures
            r@ == text_param(prefix@, delimiter@, value@),
    {
        CLIParameter::String {
            prefix: prefix.to_owned(),
            delimiter: delimiter.to_owned(),
            value: value.to_owned(),
        }
    }

    /// A numeric parameter.
    pub fn new_number(prefix: &str, delimiter: &str, value: i64) -> (r: CLIParameter)
        ensures
            r@ == number_param(prefix@, delimiter@, value as int),
    {
        CLIParameter::Number { prefix: prefix.to_owned(), delimiter: delimiter.to_owned(), value }
    }

    /// A flag parameter.
    pub fn new_bool(prefix: &str, value: bool) -> (r: CLIParameter)
        ensures
            r@ == flag_param(prefix@, value),
    {
        CLIParameter::Bool { prefix: prefix.to_owned(), value }
    }

    /// The text of the value.
    pub fn to_string_value(&self) -> (r: String)
        ensures
            r@ == value_text(self@),
    {
        match self {
            CLIParameter::String { value, .. } => value.clone(),
            CLIParameter::Number { value, .. } => i64_to_decimal(*value),
            CLIParameter::Bool { value, .. } => if *value {
                "true".to_owned()
            } else {
                "false".to_owned()
            },
        }
    }

    /// Appends the arguments of this parameter under name `key` to `args`.
    pub fn push_arguments(&self, key: &str, args: &mut Vec<String>)
        ensures
            final(args)@.map_values(|a: String| a@) == old(args)@.map_values(|a: String| a@)
                + render_parameter(key@, self@),
    {
        let ghost before = args@.map_values(|a: String| a@);
        match self {
            CLIParameter::String { prefix, delimiter, value } => {
                if str_eq(delimiter.as_str(), " ") {
                    args.push(concat2(prefix.as_str(), key));
                    args.push(value.clone());
                } else {
                    args.push(concat4(prefix.as_str(), key, delimiter.as_str(), value.as_str()));
                }
            },
            CLIParameter::Number { prefix, delimiter, value } => {
                let number = i64_to_decimal(*value);
                if str_eq(delimiter.as_str(), " ") {
                    args.push(concat2(prefix.as_str(), key));
                    args.push(number);
                } else {
                    args.push(concat4(prefix.as_str(), key, delimiter.as_str(), number.as_str()));
                }
            },
            CLIParameter::Bool { prefix, value } => {
                if *value {
                    args.push(concat2(prefix.as_str(), key));
                }
            },
        }
        assert(args@.map_values(|a: String| a@) =~= before + render_parameter(key@, self@));
    }
}

impl ParameterMap {
    /// A copy of this collection, entry for entry.
    pub fn duplicate(&self) -> (r: ParameterMap)
        ensures
            r.entries() == self.entries(),
            r@ == self@,
    {
        proof {
            use_type_invariant(self);
        }
        let mut entries: Vec<(String, CLIParameter)> = Vec::new();
        let mut i: usize = 0;
        while i < self.entries.len()
            invariant
                i <= self.entries@.len(),
                entries@.map_values(|e: (String, CLIParameter)| entry_view(e)) == self.entries().take(i as int),
            decreases self.entries.len() - i,
        {
            let key = self.entries[i].0.clone();
            let value = self.entries[i].1.duplicate();
            let ghost before = entries@;
            entries.push((key, value));
            proof {
                assert(entries@.map_values(|e: (String, CLIParameter)| entry_view(e)) =~= before.map_values(
                    |e: (String, CLIParameter)| entry_view(e),
                ).push(entry_view(self.entries@[i as int])));
                assert(self.entries().take(i + 1) =~= self.entries().take(i as int).push(self.entries()[i as int]));
            }
            i = i + 1;
        }
        proof {
            assert(self.entries().take(self.entries@.len() as int) =~= self.entries());
        }
        ParameterMap { entries }
    }
}

impl CLIParameter {
    /// Whether two parameters are the same: same kind, prefix, delimiter and
    /// value.
    pub fn same_as(&self, other: &CLIParameter) -> (r: bool)
        ensures
            r == (self@ == other@),
    {
        match (self, other) {
            (
                CLIParameter::String { prefix: p1, delimiter: d1, value: v1 },
                CLIParameter::String { prefix: p2, delimiter: d2, value: v2 },
            ) => str_eq(p1.as_str(), p2.as_str()) && str_eq(d1.as_str(), d2.as_str()) && str_eq(v1.as_str(), v2.as_str()),
            (
                CLIParameter::Number { prefix: p1, delimiter: d1, value: v1 },
                CLIParameter::Number { prefix: p2, delimiter: d2, value: v2 },
            ) => str_eq(p1.as_str(), p2.as_str()) && str_eq(d1.as_str(), d2.as_str()) && *v1 == *v2,
            (CLIParameter::Bool { prefix: p1, value: v1 }, CLIParameter::Bool { prefix: p2, value: v2 }) => str_eq(
                p1.as_str(),
                p2.as_str(),
            ) && *v1 == *v2,
            _ => false,
        }
    }
}

/// The parameters of `own` that `parent` does not hold with the same value.
pub open spec fn spec_without_inherited(own: Map<Seq<char>, ParamView>, parent: Map<Seq<char>, ParamView>) -> Map<
    Seq<char>,
    ParamView,
> {
    own.restrict(Set::new(|k: Seq<char>| !(parent.dom().contains(k) && parent[k] == own[k])))
}

impl ParameterMap {
    /// This collection without the parameters that `parent` holds with the
    /// same value.
    pub fn without_inherited(&self, parent: &ParameterMap) -> (r: ParameterMap)
        ensures
            r@ == spec_without_inherited(self@, parent@),
    {
        proof {
            use_type_invariant(parent);
        }
        let mut r = self.duplicate();
        let ghost own = self@;
        let ghost pe = parent.entries();
        let n = parent.entries.len();
        let mut i: usize = 0;
        while i < n
            invariant
                n == pe.len(),
                pe == parent.entries(),
                distinct_keys(pe),
                parent@ == entries_map(pe),
                own == self@,
                i <= n,
                forall|k: Seq<char>| #![trigger r@.dom().contains(k)]
                    r@.dom().contains(k) == (own.dom().contains(k) && !((exists|j: int| 0 <= j < i && pe[j].0 == k)
                        && parent@[k] == own[k])),
                forall|k: Seq<char>| r@.dom().contains(k) ==> r@[k] == own[k],
            decreases n - i,
        {
            let key = &parent.entries[i].0;
            let parent_value = &parent.entries[i].1;
            proof {
                assert(pe[i as int] == entry_view(parent.entries@[i as int]));
                lemma_entries_map_update(pe, i as int, pe[i as int].1);
                assert(pe.update(i as int, (pe[i as int].0, pe[i as int].1)) =~= pe);
                assert(parent@[key@] == parent_value@);
            }
            let matches = match r.get(key.as_str()) {
                Some(value) => value.same_as(parent_value),
                None => false,
            };
            if matches {
                r.remove(key.as_str());
            }
            proof {
                assert forall|k: Seq<char>| #![trigger r@.dom().contains(k)]
                    r@.dom().contains(k) == (own.dom().contains(k) && !((exists|j: int| 0 <= j < i + 1 && pe[j].0 == k)
                        && parent@[k] == own[k])) by {
                    if k == key@ {
                        assert(pe[i as int].0 == k);
                    } else {
                        if exists|j: int| 0 <= j < i + 1 && pe[j].0 == k {
                            let j = choose|j: int| 0 <= j < i + 1 && pe[j].0 == k;
                            assert(j != i);
                        }
                    }
                }
            }
            i = i + 1;
        }
        proof {
            let target = spec_without_inherited(own, parent@);
            assert forall|k: Seq<char>| #![trigger r@.dom().contains(k)] r@.dom().contains(k) == target.dom().contains(k) by {
                lemma_entries_map_dom(pe, k);
            }
            assert forall|k: Seq<char>| r@.dom().contains(k) implies r@[k] == target[k] by {
                lemma_entries_map_dom(pe, k);
            }
            assert(r@ =~= target);
        }
        r
    }
}

} // verus!
