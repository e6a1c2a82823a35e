//! VapourSynth scripts built from parts: the modules each package provides,
//! the lines of the script, and the clips it outputs, and their text.

use vstd::prelude::*;
use std::collections::BTreeMap;
use vstd::std_specs::iter::IteratorSpec;
use crate::text::{decimal_nat, u64_to_decimal};
use crate::text_map::{
    TextMap, entry_keys, entry_values, lemma_pairs_map_take, lemma_sorted_entries, pairs_map, sorted_keys, sorted_values,
    strictly_sorted,
};

verus! {

broadcast use {vstd::std_specs::btree::group_btree_axioms, vstd::laws_cmp::group_laws_cmp};

/// One line of a script.
pub enum Line {
    /// Written after `# `.
    Comment(String),
    /// A term, such as a function call.
    Term(String),
    /// A term followed by a comment.
    TermWithComment(String, String),
    /// `name = value`.
    Expression(String, String),
    /// `name = value` followed by a comment.
    ExpressionWithComment(String, String, String),
}

/// The modules of each package that the script imports, each with an
/// optional alias.
pub type Imports = TextMap<TextMap<Option<String>>>;

/// The clips a script outputs, by output index.
pub struct Outputs {
    entries: BTreeMap<u8, String>,
}

/// Indices in strictly increasing order.
pub open spec fn increasing(keys: Seq<u8>) -> bool {
    forall|i: int, j: int| 0 <= i < j < keys.len() ==> keys[i] < keys[j]
}

/// The map from each index to the name at its position.
pub open spec fn index_map(keys: Seq<u8>, names: Seq<Seq<char>>) -> Map<u8, Seq<char>> {
    Map::new(|k: u8| keys.contains(k), |k: u8| names[choose|i: int| 0 <= i < keys.len() && keys[i] == k])
}

proof fn lemma_index_map_at(keys: Seq<u8>, names: Seq<Seq<char>>, i: int)
    requires
        increasing(keys),
        0 <= i < keys.len(),
    ensures
        index_map(keys, names).dom().contains(keys[i]),
        index_map(keys, names)[keys[i]] == names[i],
{
    let j = choose|j: int| 0 <= j < keys.len() && keys[j] == keys[i];
    assert(0 <= j < keys.len() && keys[j] == keys[i]);
    if j < i {
        assert(keys[j] < keys[i]);
    } else if j > i {
        assert(keys[i] < keys[j]);
    }
}

/// The indices of a set of output indices in increasing order, each once.
pub open spec fn sorted_indices(indices: Set<u8>) -> Seq<u8> {
    choose|s: Seq<u8>| increasing(s) && forall|k: u8| #[trigger] s.contains(k) == indices.contains(k)
}

/// The clip names of outputs, in the order of their indices.
pub open spec fn sorted_names(m: Map<u8, Seq<char>>) -> Seq<Seq<char>> {
    sorted_indices(m.dom()).map_values(|k: u8| m[k])
}

/// Two increasing lists that hold the same indices are the same list.
pub proof fn lemma_increasing_unique(a: Seq<u8>, b: Seq<u8>)
    requires
        increasing(a),
        increasing(b),
        forall|k: u8| #[trigger] a.contains(k) == b.contains(k),
    ensures
        a == b,
    decreases a.len(),
{
    if a.len() == 0 {
        if b.len() > 0 {
            assert(b.contains(b[0]));
            assert(a.contains(b[0]));
        }
        assert(a =~= b);
    } else {
        assert(a.contains(a[0]));
        assert(b.contains(a[0]));
        assert(b.contains(b[0]));
        assert(a.contains(b[0]));
        let i = choose|i: int| 0 <= i < b.len() && b[i] == a[0];
        let j = choose|j: int| 0 <= j < a.len() && a[j] == b[0];
        if a[0] != b[0] {
            assert(i > 0 && j > 0);
            assert(b[0] < b[i]);
            assert(a[0] < a[j]);
        }
        let a1 = a.drop_first();
        let b1 = b.drop_first();
        assert forall|k: u8| #[trigger] a1.contains(k) == b1.contains(k) by {
            if a1.contains(k) {
                let p = choose|p: int| 0 <= p < a1.len() && a1[p] == k;
                assert(a[p + 1] == k && a[0] < a[p + 1]);
                assert(a.contains(k));
                assert(b.contains(k));
                let q = choose|q: int| 0 <= q < b.len() && b[q] == k;
                assert(b1[q - 1] == k);
            }
            if b1.contains(k) {
                let p = choose|p: int| 0 <= p < b1.len() && b1[p] == k;
                assert(b[p + 1] == k && b[0] < b[p + 1]);
                assert(a.contains(k));
                let q = choose|q: int| 0 <= q < a.len() && a[q] == k;
                assert(a1[q - 1] == k);
            }
        }
        lemma_increasing_unique(a1, b1);
        assert(a =~= seq![a[0]] + a1);
        assert(b =~= seq![b[0]] + b1);
    }
}

/// An increasing list of exactly the indices of a set is the set's sorted
/// indices.
pub proof fn lemma_sorted_indices_of(s: Seq<u8>, indices: Set<u8>)
    requires
        increasing(s),
        forall|k: u8| #[trigger] s.contains(k) == indices.contains(k),
    ensures
        sorted_indices(indices) == s,
{
    let t = sorted_indices(indices);
    assert(increasing(t) && forall|k: u8| #[trigger] t.contains(k) == indices.contains(k));
    lemma_increasing_unique(t, s);
}

/// Increasing indices with their names are the outputs' indices in order
/// and their names in that order: the order of the outputs is fixed by the
/// map.
pub proof fn lemma_output_entries(indices: Seq<u8>, names: Seq<Seq<char>>)
    requires
        increasing(indices),
        indices.len() == names.len(),
    ensures
        sorted_indices(index_map(indices, names).dom()) == indices,
        sorted_names(index_map(indices, names)) == names,
{
    let m = index_map(indices, names);
    assert(forall|k: u8| #[trigger] indices.contains(k) == m.dom().contains(k));
    let s = sorted_indices(m.dom());
    assert(increasing(s) && forall|k: u8| #[trigger] s.contains(k) == m.dom().contains(k));
    lemma_increasing_unique(s, indices);
    assert forall|i: int| 0 <= i < indices.len() implies #[trigger] sorted_names(m)[i] == names[i] by {
        lemma_index_map_at(indices, names, i);
    }
    assert(sorted_names(m) =~= names);
}

/// The keys of a walk over a map of outputs come in increasing order.
proof fn lemma_walk_increasing(w: Seq<(&u8, &String)>)
    requires
        vstd::std_specs::btree::increasing_seq(w.map_values(|kv: (&u8, &String)| *kv.0)),
    ensures
        forall|i: int, j: int| 0 <= i < j < w.len() ==> *w[i].0 < *w[j].0,
{
    let keys = w.map_values(|kv: (&u8, &String)| *kv.0);
    assert forall|i: int, j: int| 0 <= i < j < w.len() implies *w[i].0 < *w[j].0 by {
        assert(vstd::std_specs::cmp::OrdSpec::cmp_spec(&keys[i], &keys[j]) is Less);
    }
}

/// A walk over outputs in increasing index order meets every output once:
/// its indices are the sorted indices and its names the sorted names.
proof fn lemma_walk_in_order(m: Map<u8, String>, w: Seq<(&u8, &String)>)
    requires
        forall|i: int, j: int| 0 <= i < j < w.len() ==> *w[i].0 < *w[j].0,
        forall|i: int| 0 <= i < w.len() ==> m.contains_key(*w[i].0) && m[*w[i].0] == *w[i].1,
        forall|k: u8| #[trigger] m.contains_key(k) ==> w.contains((&k, &m[k])),
    ensures
        w.map_values(|kv: (&u8, &String)| *kv.0) == sorted_indices(m.dom()),
        w.map_values(|kv: (&u8, &String)| (*kv.1)@) == sorted_names(m.map_values(|v: String| v@)),
{
    let keys = w.map_values(|kv: (&u8, &String)| *kv.0);
    let view = m.map_values(|v: String| v@);
    assert(view.dom() =~= m.dom());
    assert(increasing(keys));
    assert forall|k: u8| #[trigger] keys.contains(k) == m.dom().contains(k) by {
        if keys.contains(k) {
            let i = choose|i: int| 0 <= i < keys.len() && keys[i] == k;
            assert(m.contains_key(*w[i].0));
        }
        if m.dom().contains(k) {
            assert(m.contains_key(k));
            assert(w.contains((&k, &m[k])));
            let i = choose|i: int| 0 <= i < w.len() && w[i] == (&k, &m[k]);
            assert(keys[i] == k);
        }
    }
    lemma_sorted_indices_of(keys, m.dom());
    assert forall|i: int| 0 <= i < w.len() implies #[trigger] sorted_names(view)[i] == (*w[i].1)@ by {
        assert(m.contains_key(*w[i].0));
    }
    assert(w.map_values(|kv: (&u8, &String)| (*kv.1)@) =~= sorted_names(view));
}

/// Whether index `k` is among the first `n` steps of walk `w`.
pub open spec fn walked(w: Seq<(&u8, &String)>, n: int, k: u8) -> bool {
    exists|j: int| 0 <= j < n && *w[j].0 == k
}

impl Outputs {
    /// The map from output index to clip name.
    pub closed spec fn view(&self) -> Map<u8, Seq<char>> {
        self.entries@.map_values(|v: String| v@)
    }

    /// The output indices, increasing.
    pub open spec fn indices(&self) -> Seq<u8> {
        sorted_indices(self@.dom())
    }

    /// The clip names, in index order.
    pub open spec fn names(&self) -> Seq<Seq<char>> {
        sorted_names(self@)
    }

    /// No outputs.
    pub fn new() -> (r: Self)
        ensures
            r@ == Map::<u8, Seq<char>>::empty(),
    {
        let r = Outputs { entries: BTreeMap::new() };
        assert(r@ =~= Map::<u8, Seq<char>>::empty());
        r
    }

    /// The outputs in index order: each index with its clip name.
    pub fn in_order(&self) -> (r: Vec<(u8, String)>)
        ensures
            r@.len() == self.indices().len(),
            r@.len() == self.names().len(),
            increasing(self.indices()),
            forall|i: int| 0 <= i < r@.len() ==> (#[trigger] r@[i]).0 == self.indices()[i] && r@[i].1@ == self.names()[i],
    {
        let walk = self.entries.iter();
        proof {
            lemma_walk_increasing(walk.remaining());
            lemma_walk_in_order(self.entries@, walk.remaining());
        }
        let ghost w = walk.remaining();
        let mut r: Vec<(u8, String)> = Vec::new();
        for kv in it: self.entries.iter()
            invariant
                it.seq() == vstd::std_specs::btree::spec_btree_map_iter(&self.entries).remaining(),
                it.seq() == w,
                r@.len() == it.index(),
                forall|i: int| 0 <= i < r@.len() ==> (#[trigger] r@[i]).0 == *w[i].0 && r@[i].1@ == (*w[i].1)@,
        {
            let (k, v) = kv;
            r.push((*k, v.clone()));
        }
        proof {
            let keys = w.map_values(|kv: (&u8, &String)| *kv.0);
            let names = w.map_values(|kv: (&u8, &String)| (*kv.1)@);
            assert(self@.dom() =~= self.entries@.dom());
            assert(keys == self.indices());
            assert(names == self.names());
            assert forall|i: int| 0 <= i < r@.len() implies (#[trigger] r@[i]).0 == self.indices()[i] && r@[i].1@
                == self.names()[i] by {
                assert(keys[i] == *w[i].0);
                assert(names[i] == (*w[i].1)@);
            }
        }
        r
    }

    /// Outputs clip `name` at `index`, replacing the clip there if any.
    pub fn insert(&mut self, index: u8, name: String)
        ensures
            final(self)@ == old(self)@.insert(index, name@),
    {
        self.entries.insert(index, name);
        assert(self@ =~= old(self)@.insert(index, name@));
    }

    /// Adds every output of `other`, so that `other` wins where both use an
    /// index.
    pub fn extend(&mut self, other: Outputs)
        ensures
            final(self)@ == old(self)@.union_prefer_right(other@),
    {
        let ghost start = self@;
        let walk = other.entries.iter();
        let ghost w = walk.remaining();
        for kv in it: other.entries.iter()
            invariant
                it.seq() == vstd::std_specs::btree::spec_btree_map_iter(&other.entries).remaining(),
                it.seq() == w,
                w.len() == other.entries@.dom().len(),
                forall|i: int| 0 <= i < w.len() ==> other.entries@.contains_key(*w[i].0) && other.entries@[*w[i].0] == *w[i].1,
                forall|k: u8| #[trigger] self@.contains_key(k) == (start.contains_key(k) || walked(w, it.index() as int, k)),
                forall|k: u8| #[trigger] self@.contains_key(k) ==> self@[k] == if walked(w, it.index() as int, k) {
                    other@[k]
                } else {
                    start[k]
                },
        {
            let (k, v) = kv;
            let ghost i = it.index() as int;
            proof {
                assert(other.entries@.contains_key(*w[i].0));
                assert forall|q: u8| walked(w, i + 1, q) == (walked(w, i, q) || q == *k) by {
                    if q == *k {
                        assert(*w[i].0 == q);
                    }
                    if walked(w, i + 1, q) && q != *k {
                        let j = choose|j: int| 0 <= j < i + 1 && *w[j].0 == q;
                        assert(j < i);
                    }
                }
            }
            self.insert(*k, v.clone());
        }
        proof {
            assert forall|k: u8| #[trigger] other.entries@.contains_key(k) implies walked(w, w.len() as int, k) by {
                assert(w.contains((&k, &other.entries@[k])));
                let j = choose|j: int| 0 <= j < w.len() && w[j] == (&k, &other.entries@[k]);
                assert(*w[j].0 == k);
            }
            assert forall|k: u8| walked(w, w.len() as int, k) implies #[trigger] other.entries@.contains_key(k) by {
                let j = choose|j: int| 0 <= j < w.len() && *w[j].0 == k;
            }
            assert(self@ =~= start.union_prefer_right(other@));
        }
    }
}

/// A VapourSynth script: imports, lines and outputs.
pub struct VapourSynthScript {
    pub imports: Imports,
    pub lines: Vec<Line>,
    pub outputs: Outputs,
}

/// The modules of a package after merging `incoming` into `existing`: where
/// the package is imported by both, the incoming aliases win module by
/// module.
pub open spec fn merged_modules(
    existing: Map<Seq<char>, TextMap<Option<String>>>,
    incoming: Map<Seq<char>, TextMap<Option<String>>>,
    package: Seq<char>,
) -> Map<Seq<char>, Option<String>> {
    if incoming.dom().contains(package) {
        if existing.dom().contains(package) {
            existing[package]@.union_prefer_right(incoming[package]@)
        } else {
            incoming[package]@
        }
    } else {
        existing[package]@
    }
}

impl Default for VapourSynthScript {
    /// A script that imports `core` from `vapoursynth` and has no lines and
    /// no outputs.
    fn default() -> (r: Self)
        ensures
            r.imports@.dom() == set!["vapoursynth"@],
            r.imports@["vapoursynth"@]@ == map!["core"@ => None::<String>],
            r.lines@.len() == 0,
            r.outputs@ == Map::<u8, Seq<char>>::empty(),
    {
        let mut imports: Imports = TextMap::new();
        let mut vs_modules: TextMap<Option<String>> = TextMap::new();
        vs_modules.insert("core".to_owned(), None);
        let ghost modules = vs_modules@;
        imports.insert("vapoursynth".to_owned(), vs_modules);
        assert(imports@.dom() =~= set!["vapoursynth"@]);
        assert(modules =~= map!["core"@ => None::<String>]);
        VapourSynthScript { imports, lines: Vec::new(), outputs: Outputs::new() }
    }
}

impl VapourSynthScript {
    /// Appends `lines` after the present lines; gives the script back for
    /// further changes.
    pub fn add_lines(&mut self, lines: Vec<Line>) -> (r: &mut Self)
        ensures
            r.lines@ == old(self).lines@ + lines@,
            r.imports == old(self).imports,
            r.outputs == old(self).outputs,
            *final(self) == *final(r),
    {
        let mut lines = lines;
        self.lines.append(&mut lines);
        self
    }

    /// Adds the imports of `imports`: a package already imported gets the
    /// incoming modules too, an incoming alias replacing the present one;
    /// gives the script back for further changes.
    pub fn add_imports(&mut self, imports: Imports) -> (r: &mut Self)
        ensures
            r.imports@.dom() == old(self).imports@.dom() + imports@.dom(),
            forall|k: Seq<char>|
                #[trigger] r.imports@.dom().contains(k) ==> r.imports@[k]@ == merged_modules(
                    old(self).imports@,
                    imports@,
                    k,
                ),
            r.lines == old(self).lines,
            r.outputs == old(self).outputs,
            *final(self) == *final(r),
    {
        let ghost start = self.imports@;
        let ghost ik = imports.keys();
        let ghost iv = imports.values();
        let ghost incoming = imports@;
        let mut entries = imports.into_entries();
        let ghost all = entries@;
        let n = entries.len();
        let mut i: usize = 0;
        while i < n
            invariant
                n == all.len(),
                i <= n,
                entry_keys(all) == ik,
                entry_values(all) == iv,
                strictly_sorted(ik),
                incoming == pairs_map(ik, iv),
                entries@ == all.skip(i as int),
                self.lines == old(self).lines,
                self.outputs == old(self).outputs,
                start == old(self).imports@,
                forall|k: Seq<char>|
                    #[trigger] self.imports@.dom().contains(k) == (start.dom().contains(k) || pairs_map(
                        ik.take(i as int),
                        iv.take(i as int),
                    ).dom().contains(k)),
                forall|k: Seq<char>|
                    #[trigger] self.imports@.dom().contains(k) ==> self.imports@[k]@ == merged_modules(
                        start,
                        pairs_map(ik.take(i as int), iv.take(i as int)),
                        k,
                    ),
            decreases n - i,
        {
            let (package, modules) = entries.remove(0);
            let ghost pre = pairs_map(ik.take(i as int), iv.take(i as int));
            let ghost prev = self.imports@;
            proof {
                assert(all.skip(i as int)[0] == all[i as int]);
                assert(all.skip(i as int).remove(0) =~= all.skip(i + 1));
                assert(package@ == ik[i as int]);
                assert(modules == iv[i as int]);
                lemma_pairs_map_take(ik, iv, i as int);
                assert(!pre.dom().contains(package@)) by {
                    if pre.dom().contains(package@) {
                        let j = choose|j: int| 0 <= j < ik.take(i as int).len() && ik.take(i as int)[j] == package@;
                        assert(crate::text_map::lex_lt(ik[j], ik[i as int]));
                        crate::text_map::lemma_lex_irreflexive(ik[i as int]);
                    }
                }
            }
            let mut existing = match self.imports.take(package.as_str()) {
                Some(m) => m,
                None => TextMap::new(),
            };
            let ghost before_extend = existing@;
            existing.extend(modules);
            self.imports.insert(package, existing);
            proof {
                let post = pairs_map(ik.take(i + 1), iv.take(i + 1));
                assert(post == pre.insert(ik[i as int], iv[i as int]));
                if prev.dom().contains(ik[i as int]) {
                    assert(start.dom().contains(ik[i as int]));
                    assert(before_extend == start[ik[i as int]]@);
                } else {
                    assert(!start.dom().contains(ik[i as int]));
                    assert(before_extend.union_prefer_right(iv[i as int]@) =~= iv[i as int]@);
                }
                assert forall|k: Seq<char>| #[trigger] self.imports@.dom().contains(k) == (start.dom().contains(k)
                    || post.dom().contains(k)) by {}
                assert forall|k: Seq<char>| #[trigger] self.imports@.dom().contains(k) implies self.imports@[k]@
                    == merged_modules(start, post, k) by {
                    if k != ik[i as int] {
                        assert(prev.dom().contains(k));
                    }
                }
            }
            i = i + 1;
        }
        proof {
            assert(ik.take(n as int) =~= ik);
            assert(iv.take(n as int) =~= iv);
            assert(self.imports@.dom() =~= start.dom() + incoming.dom());
        }
        self
    }

    /// Adds the outputs of `outputs`, which win where both use an index;
    /// gives the script back for further changes.
    pub fn add_outputs(&mut self, outputs: Outputs) -> (r: &mut Self)
        ensures
            r.outputs@ == old(self).outputs@.union_prefer_right(outputs@),
            r.lines == old(self).lines,
            r.imports == old(self).imports,
            *final(self) == *final(r),
    {
        self.outputs.extend(outputs);
        self
    }
}

/// A module name with its alias, if any: `name` or `name as alias`.
pub open spec fn module_item(name: Seq<char>, alias: Option<String>) -> Seq<char> {
    match alias {
        Some(a) => name + " as "@ + a@,
        None => name,
    }
}

/// The modules of an import line, separated by `, `.
pub open spec fn module_list(names: Seq<Seq<char>>, aliases: Seq<Option<String>>) -> Seq<char>
    decreases names.len(),
{
    if names.len() == 0 {
        Seq::empty()
    } else if names.len() == 1 {
        module_item(names[0], aliases[0])
    } else {
        module_list(names.drop_last(), aliases.drop_last()) + ", "@ + module_item(names.last(), aliases.last())
    }
}

/// `from <package> import <modules>` and a line break, the modules in the
/// order of their names.
pub open spec fn import_line(package: Seq<char>, modules: TextMap<Option<String>>) -> Seq<char> {
    "from "@ + package + " import "@ + module_list(sorted_keys(modules@.dom()), sorted_values(modules@)) + "\n"@
}

/// The import lines, one per package, in package order.
pub open spec fn render_imports(packages: Seq<Seq<char>>, modules: Seq<TextMap<Option<String>>>) -> Seq<char>
    decreases packages.len(),
{
    if packages.len() == 0 {
        Seq::empty()
    } else {
        render_imports(packages.drop_last(), modules.drop_last()) + import_line(packages.last(), modules.last())
    }
}

/// The text of one line of a script, with its line break.
pub open spec fn render_line(line: Line) -> Seq<char> {
    match line {
        Line::Comment(c) => "# "@ + c@ + "\n"@,
        Line::Term(t) => t@ + "\n"@,
        Line::TermWithComment(t, c) => t@ + " # "@ + c@ + "\n"@,
        Line::Expression(n, v) => n@ + " = "@ + v@ + "\n"@,
        Line::ExpressionWithComment(n, v, c) => n@ + " = "@ + v@ + " # "@ + c@ + "\n"@,
    }
}

/// The text of the lines, in order.
pub open spec fn render_lines(lines: Seq<Line>) -> Seq<char>
    decreases lines.len(),
{
    if lines.len() == 0 {
        Seq::empty()
    } else {
        render_lines(lines.drop_last()) + render_line(lines.last())
    }
}

/// `<name>.set_output(index = <index>)` and a line break, for each output in
/// index order.
pub open spec fn render_outputs(indices: Seq<u8>, names: Seq<Seq<char>>) -> Seq<char>
    decreases indices.len(),
{
    if indices.len() == 0 {
        Seq::empty()
    } else {
        render_outputs(indices.drop_last(), names.drop_last()) + names.last() + ".set_output(index = "@
            + decimal_nat(indices.last() as nat) + ")"@ + "\n"@
    }
}

/// The text of a script: the import lines in the order of the package
/// names, an empty line, the lines, an empty line, the output lines in index
/// order, and an empty line.
pub open spec fn render_script(s: &VapourSynthScript) -> Seq<char> {
    render_imports(sorted_keys(s.imports@.dom()), sorted_values(s.imports@)) + "\n"@ + render_lines(s.lines@)
        + "\n"@ + render_outputs(sorted_indices(s.outputs@.dom()), sorted_names(s.outputs@)) + "\n"@
}

fn push_str(r: &mut String, s: &str)
    ensures
        final(r)@ == old(r)@ + s@,
{
    r.append(s);
}

fn write_module_list(r: &mut String, modules: &TextMap<Option<String>>)
    ensures
        final(r)@ == old(r)@ + module_list(sorted_keys(modules@.dom()), sorted_values(modules@)),
{
    let n = modules.len();
    proof {
        lemma_sorted_entries(modules.keys(), modules.values());
    }
    let ghost start = r@;
    let mut i: usize = 0;
    while i < n
        invariant
            n == modules.keys().len(),
            n == modules.values().len(),
            i <= n,
            r@ == start + module_list(modules.keys().take(i as int), modules.values().take(i as int)),
        decreases n - i,
    {
        let (name, alias) = modules.entry(i);
        if i > 0 {
            push_str(r, ", ");
        }
        push_str(r, name.as_str());
        match alias {
            Some(a) => {
                push_str(r, " as ");
                push_str(r, a.as_str());
            },
            None => {},
        }
        proof {
            let k1 = modules.keys().take(i + 1);
            let a1 = modules.values().take(i + 1);
            assert(k1.drop_last() =~= modules.keys().take(i as int));
            assert(a1.drop_last() =~= modules.values().take(i as int));
            if i == 0 {
                assert(module_list(modules.keys().take(0), modules.values().take(0)) == Seq::<char>::empty());
            }
            assert(r@ =~= start + module_list(k1, a1));
        }
        i = i + 1;
    }
    proof {
        assert(modules.keys().take(n as int) =~= modules.keys());
        assert(modules.values().take(n as int) =~= modules.values());
    }
}

fn write_line(r: &mut String, line: &Line)
    ensures
        final(r)@ == old(r)@ + render_line(*line),
{
    let ghost start = r@;
    match line {
        Line::Comment(c) => {
            push_str(r, "# ");
            push_str(r, c.as_str());
        },
        Line::Term(t) => {
            push_str(r, t.as_str());
        },
        Line::TermWithComment(t, c) => {
            push_str(r, t.as_str());
            push_str(r, " # ");
            push_str(r, c.as_str());
        },
        Line::Expression(n, v) => {
            push_str(r, n.as_str());
            push_str(r, " = ");
            push_str(r, v.as_str());
        },
        Line::ExpressionWithComment(n, v, c) => {
            push_str(r, n.as_str());
            push_str(r, " = ");
            push_str(r, v.as_str());
            push_str(r, " # ");
            push_str(r, c.as_str());
        },
    }
    push_str(r, "\n");
    assert(r@ =~= start + render_line(*line));
}

impl VapourSynthScript {
    /// The text of the script.
    pub fn to_string(&self) -> (r: String)
        ensures
            r@ == render_script(self),
    {
        let mut r = String::new();
        let n = self.imports.len();
        proof {
            lemma_sorted_entries(self.imports.keys(), self.imports.values());
        }
        let mut i: usize = 0;
        while i < n
            invariant
                n == self.imports.keys().len(),
                n == self.imports.values().len(),
                i <= n,
                r@ == render_imports(self.imports.keys().take(i as int), self.imports.values().take(i as int)),
            decreases n - i,
        {
            let (package, modules) = self.imports.entry(i);
            let ghost before = r@;
            push_str(&mut r, "from ");
            push_str(&mut r, package.as_str());
            push_str(&mut r, " import ");
            write_module_list(&mut r, modules);
            push_str(&mut r, "\n");
            proof {
                let k1 = self.imports.keys().take(i + 1);
                let v1 = self.imports.values().take(i + 1);
                assert(k1.drop_last() =~= self.imports.keys().take(i as int));
                assert(v1.drop_last() =~= self.imports.values().take(i as int));
                assert(r@ =~= before + import_line(package@, *modules));
            }
            i = i + 1;
        }
        proof {
            assert(self.imports.keys().take(n as int) =~= self.imports.keys());
            assert(self.imports.values().take(n as int) =~= self.imports.values());
        }
        let ghost after_imports = r@;
        push_str(&mut r, "\n");
        let mut j: usize = 0;
        while j < self.lines.len()
            invariant
                j <= self.lines@.len(),
                r@ == after_imports + "\n"@ + render_lines(self.lines@.take(j as int)),
            decreases self.lines.len() - j,
        {
            write_line(&mut r, &self.lines[j]);
            proof {
                assert(self.lines@.take(j + 1).drop_last() =~= self.lines@.take(j as int));
            }
            j = j + 1;
        }
        proof {
            assert(self.lines@.take(self.lines@.len() as int) =~= self.lines@);
        }
        let ghost after_lines = r@;
        push_str(&mut r, "\n");
        let outputs = self.outputs.in_order();
        let m = outputs.len();
        let mut k: usize = 0;
        while k < m
            invariant
                m == outputs@.len(),
                m == self.outputs.indices().len(),
                m == self.outputs.names().len(),
                forall|i: int| 0 <= i < m ==> (#[trigger] outputs@[i]).0 == self.outputs.indices()[i] && outputs@[i].1@
                    == self.outputs.names()[i],
                k <= m,
                r@ == after_lines + "\n"@ + render_outputs(
                    self.outputs.indices().take(k as int),
                    self.outputs.names().take(k as int),
                ),
            decreases m - k,
        {
            let index = outputs[k].0;
            let name = &outputs[k].1;
            let ghost before = r@;
            push_str(&mut r, name.as_str());
            push_str(&mut r, ".set_output(index = ");
            let digits = u64_to_decimal(index as u64);
            push_str(&mut r, digits.as_str());
            push_str(&mut r, ")");
            push_str(&mut r, "\n");
            proof {
                let i1 = self.outputs.indices().take(k + 1);
                let n1 = self.outputs.names().take(k + 1);
                assert(i1.drop_last() =~= self.outputs.indices().take(k as int));
                assert(n1.drop_last() =~= self.outputs.names().take(k as int));
                assert(r@ =~= after_lines + "\n"@ + render_outputs(i1, n1));
            }
            k = k + 1;
        }
        proof {
            assert(self.outputs.indices().take(m as int) =~= self.outputs.indices());
            assert(self.outputs.names().take(m as int) =~= self.outputs.names());
        }
        push_str(&mut r, "\n");
        r
    }
}

} // verus!
