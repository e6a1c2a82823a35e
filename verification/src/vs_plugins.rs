//! VapourSynth plugin calls as script lines, and the enumerations their
//! arguments take (with the numbers and names VapourSynth expects).

use vstd::prelude::*;
use crate::text::{decimal_nat, u64_to_decimal};
use crate::vapoursynth::{Imports, Line};

verus! {

/// A plugin call that can be written as script lines assigning to a clip
/// variable; it may also need imports.
pub trait VapourSynthPluginScript {
    fn generate_script(&self, node_name: String) -> (Option<Imports>, Vec<Line>);
}

/// Numbers separated by `, `.
pub open spec fn joined_numbers(v: Seq<u32>) -> Seq<char>
    decreases v.len(),
{
    if v.len() == 0 {
        Seq::empty()
    } else if v.len() == 1 {
        decimal_nat(v[0] as nat)
    } else {
        joined_numbers(v.drop_last()) + ", "@ + decimal_nat(v.last() as nat)
    }
}

fn push_str(r: &mut String, s: &str)
    ensures
        final(r)@ == old(r)@ + s@,
{
    r.append(s);
}

/// Appends the numbers of `v`, separated by `, `.
fn push_joined(r: &mut String, v: &Vec<u32>)
    ensures
        final(r)@ == old(r)@ + joined_numbers(v@),
{
    let ghost start = r@;
    let mut i: usize = 0;
    while i < v.len()
        invariant
            i <= v@.len(),
            r@ == start + joined_numbers(v@.take(i as int)),
        decreases v.len() - i,
    {
        if i > 0 {
            push_str(r, ", ");
        }
        let digits = u64_to_decimal(v[i] as u64);
        push_str(r, digits.as_str());
        proof {
            assert(v@.take(i + 1).drop_last() =~= v@.take(i as int));
            if i == 0 {
                assert(joined_numbers(v@.take(0)) == Seq::<char>::empty());
            }
            assert(r@ =~= start + joined_numbers(v@.take(i + 1)));
        }
        i = i + 1;
    }
    assert(v@.take(v@.len() as int) =~= v@);
}

/// `1` for true, `0` for false.
pub open spec fn flag_digit(b: bool) -> Seq<char> {
    if b {
        "1"@
    } else {
        "0"@
    }
}

/// Keeps every `cycle`-th group of frames at the given offsets.
pub struct SelectEvery {
    pub cycle: u32,
    pub offsets: Vec<u32>,
    pub modify_duration: Option<bool>,
}

/// The call that selects frames: `core.std.SelectEvery(clip = <node>,
/// cycle = <cycle>, offsets = [<offsets>]` then, when given,
/// `, modify_duration = <0 or 1>`, then `)`.
pub open spec fn select_every_call(s: &SelectEvery, node: Seq<char>) -> Seq<char> {
    "core.std.SelectEvery(clip = "@ + node + ", cycle = "@ + decimal_nat(s.cycle as nat) + ", offsets = ["@
        + joined_numbers(s.offsets@) + "]"@ + match s.modify_duration {
        Some(m) => ", modify_duration = "@ + flag_digit(m),
        None => Seq::empty(),
    } + ")"@
}

impl VapourSynthPluginScript for SelectEvery {
    /// One line assigning the selection to `node_name`; no imports.
    fn generate_script(&self, node_name: String) -> (r: (Option<Imports>, Vec<Line>))
        ensures
            r.0 is None,
            r.1@.len() == 1,
            r.1@[0] matches Line::Expression(n, v) && n@ == node_name@ && v@ == select_every_call(self, node_name@),
    {
        let mut line = String::new();
        push_str(&mut line, "core.std.SelectEvery(clip = ");
        push_str(&mut line, node_name.as_str());
        push_str(&mut line, ", cycle = ");
        let cycle = u64_to_decimal(self.cycle as u64);
        push_str(&mut line, cycle.as_str());
        push_str(&mut line, ", offsets = [");
        push_joined(&mut line, &self.offsets);
        push_str(&mut line, "]");
        let ghost before = line@;
        match self.modify_duration {
            Some(m) => {
                push_str(&mut line, ", modify_duration = ");
                push_str(&mut line, if m { "1" } else { "0" });
            },
            None => {},
        }
        push_str(&mut line, ")");
        assert(line@ =~= select_every_call(self, node_name@));
        let mut lines: Vec<Line> = Vec::new();
        lines.push(Line::Expression(node_name, line));
        (None, lines)
    }
}

/// Replaces the listed frames of clip A with those of clip B.
pub struct RFS {
    pub clip_a_name: String,
    pub frames: Vec<u32>,
    pub clip_b_name: String,
    pub planes: Option<Vec<u32>>,
    pub mismatch: Option<bool>,
}

/// The call that replaces frames: `core.vszip.RFS(clipa = <a>, clipb = <b>,
/// frames = [<frames>]`, then `, planes = [<planes>]` and
/// `, mismatch = <0 or 1>` when given, then `)`.
pub open spec fn rfs_call(s: &RFS) -> Seq<char> {
    "core.vszip.RFS(clipa = "@ + s.clip_a_name@ + ", clipb = "@ + s.clip_b_name@ + ", frames = ["@
        + joined_numbers(s.frames@) + "]"@ + match s.planes {
        Some(p) => ", planes = ["@ + joined_numbers(p@) + "]"@,
        None => Seq::empty(),
    } + match s.mismatch {
        Some(m) => ", mismatch = "@ + flag_digit(m),
        None => Seq::empty(),
    } + ")"@
}

impl VapourSynthPluginScript for RFS {
    /// One line assigning the result to `node_name`; no imports.
    fn generate_script(&self, node_name: String) -> (r: (Option<Imports>, Vec<Line>))
        ensures
            r.0 is None,
            r.1@.len() == 1,
            r.1@[0] matches Line::Expression(n, v) && n@ == node_name@ && v@ == rfs_call(self),
    {
        let mut line = String::new();
        push_str(&mut line, "core.vszip.RFS(clipa = ");
        push_str(&mut line, self.clip_a_name.as_str());
        push_str(&mut line, ", clipb = ");
        push_str(&mut line, self.clip_b_name.as_str());
        push_str(&mut line, ", frames = [");
        push_joined(&mut line, &self.frames);
        push_str(&mut line, "]");
        let ghost after_frames = line@;
        match &self.planes {
            Some(p) => {
                push_str(&mut line, ", planes = [");
                push_joined(&mut line, p);
                push_str(&mut line, "]");
            },
            None => {},
        }
        let ghost after_planes = line@;
        match self.mismatch {
            Some(m) => {
                push_str(&mut line, ", mismatch = ");
                push_str(&mut line, if m { "1" } else { "0" });
            },
            None => {},
        }
        push_str(&mut line, ")");
        assert(line@ =~= rfs_call(self));
        let mut lines: Vec<Line> = Vec::new();
        lines.push(Line::Expression(node_name, line));
        (None, lines)
    }
}

/// The SSIMULACRA2 score of a distorted clip against a reference clip.
pub struct SSIMULACRA2 {
    pub reference_node_name: String,
    pub distorted_node_name: String,
}

/// `core.vszip.SSIMULACRA2(reference = <reference>, distorted = <distorted>)`.
pub open spec fn ssimulacra2_call(s: &SSIMULACRA2) -> Seq<char> {
    "core.vszip.SSIMULACRA2(reference = "@ + s.reference_node_name@ + ", distorted = "@ + s.distorted_node_name@
        + ")"@
}

impl VapourSynthPluginScript for SSIMULACRA2 {
    /// One line assigning the scored clip to `node_name`; no imports.
    fn generate_script(&self, node_name: String) -> (r: (Option<Imports>, Vec<Line>))
        ensures
            r.0 is None,
            r.1@.len() == 1,
            r.1@[0] matches Line::Expression(n, v) && n@ == node_name@ && v@ == ssimulacra2_call(self),
    {
        let mut line = String::new();
        push_str(&mut line, "core.vszip.SSIMULACRA2(reference = ");
        push_str(&mut line, self.reference_node_name.as_str());
        push_str(&mut line, ", distorted = ");
        push_str(&mut line, self.distorted_node_name.as_str());
        push_str(&mut line, ")");
        assert(line@ =~= ssimulacra2_call(self));
        let mut lines: Vec<Line> = Vec::new();
        lines.push(Line::Expression(node_name, line));
        (None, lines)
    }
}

} // verus!
