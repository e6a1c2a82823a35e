//! Reading encoder parameters from the text a user types, such as
//! `--preset 4 --crf=30 -v`.
//!
//! The grammar, item after item, each item preceded by optional white space
//! (space, tab, carriage return, line feed):
//! - a prefix, `--` or else `-`;
//! - then `name=value`: a name of at least one character without `=` or
//!   space, `=`, and a value of at least one character up to the next space;
//! - or else `name value`: a name of at least one character up to the next
//!   space, at least one white-space character, and a value of at least one
//!   character up to the next space;
//! - or else a flag: the name up to the next space, or, when a space follows
//!   the prefix at once or nothing does, all the rest of the text.
//!
//! Reading stops at the first item that does not begin with a prefix. A value
//! that is an integer (an optional sign and digits, within 64 bits) becomes a
//! numeric parameter, any other value a textual one; a flag is set. A later
//! item with a name already read replaces the earlier one.

use vstd::prelude::*;
use crate::cli_parameter::{CLIParameter, ParamView, ParameterMap, entries_map, flag_param, number_param, text_param};

verus! {

pub open spec fn is_multispace(c: char) -> bool {
    c == ' ' || c == '\t' || c == '\r' || c == '\n'
}

/// The position after the white space that starts at `i`.
pub open spec fn skip_multispace(s: Seq<char>, i: int) -> int
    decreases s.len() - i,
{
    if 0 <= i < s.len() && is_multispace(s[i]) {
        skip_multispace(s, i + 1)
    } else {
        i
    }
}

/// The position of the first space at or after `i`, or the end.
pub open spec fn till_space(s: Seq<char>, i: int) -> int
    decreases s.len() - i,
{
    if 0 <= i < s.len() && s[i] != ' ' {
        till_space(s, i + 1)
    } else {
        i
    }
}

/// The position of the first `=` or space at or after `i`, or the end.
pub open spec fn till_equals_or_space(s: Seq<char>, i: int) -> int
    decreases s.len() - i,
{
    if 0 <= i < s.len() && s[i] != '=' && s[i] != ' ' {
        till_equals_or_space(s, i + 1)
    } else {
        i
    }
}

/// The length of the prefix at `i`: 2 for `--`, 1 for `-`, 0 for none.
pub open spec fn prefix_len(s: Seq<char>, i: int) -> int {
    if 0 <= i && i + 1 < s.len() && s[i] == '-' && s[i + 1] == '-' {
        2
    } else if 0 <= i < s.len() && s[i] == '-' {
        1
    } else {
        0
    }
}

pub open spec fn is_digit(c: char) -> bool {
    '0' <= c && c <= '9'
}

/// The number that a sequence of decimal digits denotes.
pub open spec fn digits_value(d: Seq<char>) -> nat
    decreases d.len(),
{
    if d.len() == 0 {
        0
    } else {
        digits_value(d.drop_last()) * 10 + ((d.last() as int - '0' as int) as nat)
    }
}

/// The digits of an integer literal: after a leading `-` or `+`, if any.
pub open spec fn literal_digits(v: Seq<char>) -> Seq<char> {
    if v.len() > 0 && (v[0] == '-' || v[0] == '+') {
        v.drop_first()
    } else {
        v
    }
}

/// An optional sign and at least one digit, denoting a 64-bit integer.
pub open spec fn is_int_literal(v: Seq<char>) -> bool {
    let d = literal_digits(v);
    &&& d.len() > 0
    &&& forall|i: int| 0 <= i < d.len() ==> is_digit(#[trigger] d[i])
    &&& if v[0] == '-' {
        digits_value(d) <= 0x8000_0000_0000_0000
    } else {
        digits_value(d) <= 0x7fff_ffff_ffff_ffff
    }
}

/// The integer an integer literal denotes.
pub open spec fn int_literal_value(v: Seq<char>) -> int {
    if v[0] == '-' {
        -(digits_value(literal_digits(v)) as int)
    } else {
        digits_value(literal_digits(v)) as int
    }
}

/// The parameter a value becomes: numeric for an integer, textual otherwise.
pub open spec fn value_param(prefix: Seq<char>, delimiter: Seq<char>, value: Seq<char>) -> ParamView {
    if is_int_literal(value) {
        number_param(prefix, delimiter, int_literal_value(value))
    } else {
        text_param(prefix, delimiter, value)
    }
}

/// `[-/--]name=value` at `i`: where it ends, its name and its parameter; a
/// name of at least one character without `=` or space, `=`, and a value of
/// at least one character up to the next space.
pub open spec fn equals_pair(s: Seq<char>, i: int) -> Option<(int, Seq<char>, ParamView)> {
    let p = prefix_len(s, i);
    let a = i + p;
    let e = till_equals_or_space(s, a);
    if p > 0 && e > a && e < s.len() && s[e] == '=' && till_space(s, e + 1) > e + 1 {
        let end = till_space(s, e + 1);
        Some((end, s.subrange(a, e), value_param(s.subrange(i, a), "="@, s.subrange(e + 1, end))))
    } else {
        None
    }
}

/// `[-/--]name value` at `i`: a name of at least one character up to the
/// next space, white space, and a value of at least one character up to the
/// next space.
pub open spec fn space_pair(s: Seq<char>, i: int) -> Option<(int, Seq<char>, ParamView)> {
    let p = prefix_len(s, i);
    let a = i + p;
    let n = till_space(s, a);
    let w = skip_multispace(s, n);
    let v = till_space(s, w);
    if p > 0 && n > a && w > n && v > w {
        Some((v, s.subrange(a, n), value_param(s.subrange(i, a), " "@, s.subrange(w, v))))
    } else {
        None
    }
}

/// `[-/--]flag` at `i`: the name up to the next space, or, when a space
/// follows the prefix at once or nothing does, all the rest of the text.
pub open spec fn flag_item(s: Seq<char>, i: int) -> Option<(int, Seq<char>, ParamView)> {
    let p = prefix_len(s, i);
    let a = i + p;
    let n = till_space(s, a);
    if p == 0 {
        None
    } else if n > a {
        Some((n, s.subrange(a, n), flag_param(s.subrange(i, a), true)))
    } else {
        Some((s.len() as int, s.subrange(a, s.len() as int), flag_param(s.subrange(i, a), true)))
    }
}

/// The item that starts at `i` (white space already skipped): the first of
/// an `=` pair, a space pair and a flag that reads; `None` when no prefix
/// starts there.
pub open spec fn parse_item(s: Seq<char>, i: int) -> Option<(int, Seq<char>, ParamView)> {
    match equals_pair(s, i) {
        Some(item) => Some(item),
        None => match space_pair(s, i) {
            Some(item) => Some(item),
            None => flag_item(s, i),
        },
    }
}

/// The items read from position `i` on, in order.
pub open spec fn parse_items(s: Seq<char>, i: int) -> Seq<(Seq<char>, ParamView)>
    decreases s.len() - i,
{
    let j = skip_multispace(s, i);
    match parse_item(s, j) {
        Some((end, name, param)) => if i < end <= s.len() {
            seq![(name, param)] + parse_items(s, end)
        } else {
            seq![]
        },
        None => seq![],
    }
}

proof fn lemma_skip_bounds(s: Seq<char>, i: int)
    requires
        0 <= i <= s.len(),
    ensures
        i <= skip_multispace(s, i) <= s.len(),
        skip_multispace(s, i) < s.len() ==> !is_multispace(s[skip_multispace(s, i)]),
        forall|k: int| i <= k < skip_multispace(s, i) ==> is_multispace(#[trigger] s[k]),
    decreases s.len() - i,
{
    if i < s.len() && is_multispace(s[i]) {
        lemma_skip_bounds(s, i + 1);
    }
}

proof fn lemma_till_space_bounds(s: Seq<char>, i: int)
    requires
        0 <= i <= s.len(),
    ensures
        i <= till_space(s, i) <= s.len(),
        till_space(s, i) < s.len() ==> s[till_space(s, i)] == ' ',
        forall|k: int| i <= k < till_space(s, i) ==> #[trigger] s[k] != ' ',
    decreases s.len() - i,
{
    if i < s.len() && s[i] != ' ' {
        lemma_till_space_bounds(s, i + 1);
    }
}

proof fn lemma_till_equals_bounds(s: Seq<char>, i: int)
    requires
        0 <= i <= s.len(),
    ensures
        i <= till_equals_or_space(s, i) <= s.len(),
        till_equals_or_space(s, i) < s.len() ==> (s[till_equals_or_space(s, i)] == '=' || s[till_equals_or_space(
            s,
            i,
        )] == ' '),
        forall|k: int| i <= k < till_equals_or_space(s, i) ==> #[trigger] s[k] != '=' && s[k] != ' ',
    decreases s.len() - i,
{
    if i < s.len() && s[i] != '=' && s[i] != ' ' {
        lemma_till_equals_bounds(s, i + 1);
    }
}

fn ws_at(s: &str, j: usize) -> (r: bool)
    requires
        j < s@.len(),
    ensures
        r == is_multispace(s@[j as int]),
{
    let c = s.get_char(j);
    c == ' ' || c == '\t' || c == '\r' || c == '\n'
}

fn space_at(s: &str, j: usize) -> (r: bool)
    requires
        j < s@.len(),
    ensures
        r == (s@[j as int] == ' '),
{
    s.get_char(j) == ' '
}

fn equals_or_space_at(s: &str, j: usize) -> (r: bool)
    requires
        j < s@.len(),
    ensures
        r == (s@[j as int] == '=' || s@[j as int] == ' '),
{
    let c = s.get_char(j);
    c == '=' || c == ' '
}

/// The position after the white space that starts at `i`.
fn skip_ws(s: &str, n: usize, i: usize) -> (r: usize)
    requires
        n == s@.len(),
        i <= n,
    ensures
        r == skip_multispace(s@, i as int),
        i <= r <= n,
{
    let mut j: usize = i;
    while j < n && ws_at(s, j)
        invariant
            n == s@.len(),
            i <= j <= n,
            skip_multispace(s@, j as int) == skip_multispace(s@, i as int),
        decreases n - j,
    {
        j = j + 1;
    }
    j
}

/// The position of the first space at or after `i`, or the end.
fn find_space(s: &str, n: usize, i: usize) -> (r: usize)
    requires
        n == s@.len(),
        i <= n,
    ensures
        r == till_space(s@, i as int),
        i <= r <= n,
{
    let mut j: usize = i;
    while j < n && !space_at(s, j)
        invariant
            n == s@.len(),
            i <= j <= n,
            till_space(s@, j as int) == till_space(s@, i as int),
        decreases n - j,
    {
        j = j + 1;
    }
    j
}

/// The position of the first `=` or space at or after `i`, or the end.
fn find_equals_or_space(s: &str, n: usize, i: usize) -> (r: usize)
    requires
        n == s@.len(),
        i <= n,
    ensures
        r == till_equals_or_space(s@, i as int),
        i <= r <= n,
{
    let mut j: usize = i;
    while j < n && !equals_or_space_at(s, j)
        invariant
            n == s@.len(),
            i <= j <= n,
            till_equals_or_space(s@, j as int) == till_equals_or_space(s@, i as int),
        decreases n - j,
    {
        j = j + 1;
    }
    j
}

proof fn lemma_digits_value_take(d: Seq<char>, k: int)
    requires
        0 <= k < d.len(),
    ensures
        digits_value(d.take(k + 1)) == digits_value(d.take(k)) * 10 + ((d[k] as int - '0' as int) as nat),
{
    assert(d.take(k + 1).drop_last() =~= d.take(k));
}

proof fn lemma_digits_value_grows(d: Seq<char>, k: int)
    requires
        0 <= k <= d.len(),
        forall|i: int| 0 <= i < d.len() ==> is_digit(#[trigger] d[i]),
    ensures
        digits_value(d.take(k)) <= digits_value(d),
    decreases d.len() - k,
{
    if k < d.len() {
        lemma_digits_value_take(d, k);
        lemma_digits_value_grows(d, k + 1);
        assert(d[k] as int - '0' as int >= 0) by {
            assert(is_digit(d[k]));
        }
    } else {
        assert(d.take(k) =~= d);
    }
}

/// The integer that `v` denotes, if it is an integer literal.
pub(crate) fn parse_int_literal(v: &str) -> (r: Option<i64>)
    ensures
        match r {
            Some(x) => is_int_literal(v@) && x as int == int_literal_value(v@),
            None => !is_int_literal(v@),
        },
{
    let n = v.unicode_len();
    if n == 0 {
        return None;
    }
    let c0 = v.get_char(0);
    let neg = c0 == '-';
    let start: usize = if c0 == '-' || c0 == '+' { 1 } else { 0 };
    let ghost d = literal_digits(v@);
    proof {
        if start == 1 {
            assert(d =~= v@.skip(1));
        } else {
            assert(d =~= v@);
        }
    }
    if start == n {
        return None;
    }
    let limit: u64 = if neg { 0x8000_0000_0000_0000 } else { 0x7fff_ffff_ffff_ffff };
    let mut acc: u64 = 0;
    let mut j: usize = start;
    while j < n
        invariant
            n == v@.len(),
            start <= j <= n,
            start < n,
            d == literal_digits(v@),
            d.len() == n - start,
            forall|k: int| 0 <= k < d.len() ==> d[k] == v@[k + start],
            forall|k: int| 0 <= k < j - start ==> is_digit(#[trigger] d[k]),
            acc == digits_value(d.take(j - start)),
            acc <= limit,
            limit == (if v@[0] == '-' { 0x8000_0000_0000_0000u64 } else { 0x7fff_ffff_ffff_ffffu64 }),
        decreases n - j,
    {
        let c = v.get_char(j);
        if !('0' <= c && c <= '9') {
            proof {
                let k = j - start;
                assert(v@[k + start] == c);
                assert(d[k] == c);
                assert(!is_digit(d[k]));
                assert(!(forall|i: int| 0 <= i < d.len() ==> is_digit(#[trigger] d[i])));
                assert(literal_digits(v@) == d);
            }
            assert(!is_int_literal(v@));
            return None;
        }
        let digit: u64 = (c as u32 - '0' as u32) as u64;
        proof {
            lemma_digits_value_take(d, j - start);
            assert(d[j - start] == c);
        }
        if acc > (limit - digit) / 10 {
            proof {
                assert(acc * 10 + digit > limit) by (nonlinear_arith)
                    requires acc > (limit - digit) / 10, digit <= 9, limit >= 9;
                if forall|k: int| 0 <= k < d.len() ==> is_digit(#[trigger] d[k]) {
                    lemma_digits_value_grows(d, j - start + 1);
                    assert(digits_value(d) > limit);
                }
                assert(!is_int_literal(v@));
            }
            return None;
        }
        proof {
            assert(acc * 10 + digit <= limit) by (nonlinear_arith)
                requires acc <= (limit - digit) / 10, digit <= 9, limit >= 9;
        }
        acc = acc * 10 + digit;
        j = j + 1;
    }
    proof {
        assert(d.take(d.len() as int) =~= d);
    }
    if neg {
        if acc == 0x8000_0000_0000_0000 {
            Some(i64::MIN)
        } else {
            Some(-(acc as i64))
        }
    } else {
        Some(acc as i64)
    }
}

/// Whether an optional item read at `i` is `item`, ending after `i` and
/// within the text.
pub open spec fn read_as(
    r: Option<(usize, String, CLIParameter)>,
    item: Option<(int, Seq<char>, ParamView)>,
    i: int,
    n: int,
) -> bool {
    match item {
        Some((end, name, param)) => r matches Some((e, nm, pr)) && e == end && nm@ == name && pr@ == param && i
            < e <= n,
        None => r is None,
    }
}

/// Reads encoder parameters from a line of text.
pub struct EncoderParamsParser;

impl EncoderParamsParser {
    /// The length of the prefix at `i`: 2 for `--`, 1 for `-`, 0 for none.
    fn parse_prefix(s: &str, n: usize, i: usize) -> (r: usize)
        requires
            n == s@.len(),
            i <= n,
        ensures
            r == prefix_len(s@, i as int),
    {
        if i < n && i + 1 < n && s.get_char(i) == '-' && s.get_char(i + 1) == '-' {
            2
        } else if i < n && s.get_char(i) == '-' {
            1
        } else {
            0
        }
    }

    /// The parameter that `value` becomes under `prefix` and `delimiter`:
    /// numeric for an integer, textual otherwise.
    fn to_cli_parameter(prefix: &str, delimiter: &str, value: &str) -> (r: CLIParameter)
        ensures
            r@ == value_param(prefix@, delimiter@, value@),
    {
        match parse_int_literal(value) {
            Some(x) => CLIParameter::new_number(prefix, delimiter, x),
            None => CLIParameter::new_string(prefix, delimiter, value),
        }
    }

    /// `[-/--]name=value` at `i`.
    fn parse_equals_pair(s: &str, n: usize, i: usize) -> (r: Option<(usize, String, CLIParameter)>)
        requires
            n == s@.len(),
            i <= n,
        ensures
            read_as(r, equals_pair(s@, i as int), i as int, n as int),
    {
        let p = Self::parse_prefix(s, n, i);
        if p == 0 {
            return None;
        }
        let a: usize = i + p;
        let e = find_equals_or_space(s, n, a);
        if e > a && e < n && s.get_char(e) == '=' {
            let end = find_space(s, n, e + 1);
            if end > e + 1 {
                let name = s.substring_char(a, e).to_owned();
                let param = Self::to_cli_parameter(s.substring_char(i, a), "=", s.substring_char(e + 1, end));
                return Some((end, name, param));
            }
        }
        None
    }

    /// `[-/--]name value` at `i`.
    fn parse_space_pair(s: &str, n: usize, i: usize) -> (r: Option<(usize, String, CLIParameter)>)
        requires
            n == s@.len(),
            i <= n,
        ensures
            read_as(r, space_pair(s@, i as int), i as int, n as int),
    {
        let p = Self::parse_prefix(s, n, i);
        if p == 0 {
            return None;
        }
        let a: usize = i + p;
        let name_end = find_space(s, n, a);
        let w = skip_ws(s, n, name_end);
        let v = find_space(s, n, w);
        if name_end > a && w > name_end && v > w {
            let name = s.substring_char(a, name_end).to_owned();
            let param = Self::to_cli_parameter(s.substring_char(i, a), " ", s.substring_char(w, v));
            Some((v, name, param))
        } else {
            None
        }
    }

    /// `[-/--]flag` at `i`.
    fn parse_flag(s: &str, n: usize, i: usize) -> (r: Option<(usize, String, CLIParameter)>)
        requires
            n == s@.len(),
            i <= n,
        ensures
            read_as(r, flag_item(s@, i as int), i as int, n as int),
    {
        let p = Self::parse_prefix(s, n, i);
        if p == 0 {
            return None;
        }
        let a: usize = i + p;
        let prefix = s.substring_char(i, a);
        let name_end = find_space(s, n, a);
        if name_end > a {
            let name = s.substring_char(a, name_end).to_owned();
            Some((name_end, name, CLIParameter::new_bool(prefix, true)))
        } else {
            let name = s.substring_char(a, n).to_owned();
            Some((n, name, CLIParameter::new_bool(prefix, true)))
        }
    }

    /// The item that starts at `i`: an `=` pair, else a space pair, else a
    /// flag.
    fn parse_parameter(s: &str, n: usize, i: usize) -> (r: Option<(usize, String, CLIParameter)>)
        requires
            n == s@.len(),
            i <= n,
        ensures
            read_as(r, parse_item(s@, i as int), i as int, n as int),
    {
        match Self::parse_equals_pair(s, n, i) {
            Some(item) => Some(item),
            None => match Self::parse_space_pair(s, n, i) {
                Some(item) => Some(item),
                None => Self::parse_flag(s, n, i),
            },
        }
    }

    /// The parameters that `input` holds, read item after item until one does
    /// not begin with a prefix; a later item replaces an earlier one of the
    /// same name.
    pub fn parse_string(input: &str) -> (r: ParameterMap)
        ensures
            r@ == entries_map(parse_items(input@, 0)),
    {
        let n = input.unicode_len();
        let mut map = ParameterMap::new();
        let ghost all = parse_items(input@, 0);
        let ghost mut consumed: Seq<(Seq<char>, ParamView)> = seq![];
        let mut i: usize = 0;
        loop
            invariant
                n == input@.len(),
                i <= n,
                all == parse_items(input@, 0),
                all == consumed + parse_items(input@, i as int),
                map@ == entries_map(consumed),
            ensures
                map@ == entries_map(all),
            decreases n - i,
        {
            let j = skip_ws(input, n, i);
            match Self::parse_parameter(input, n, j) {
                Some((end, name, param)) => {
                    proof {
                        let item = (name@, param@);
                        assert(parse_items(input@, i as int) == seq![item] + parse_items(input@, end as int));
                        assert(all =~= consumed.push(item) + parse_items(input@, end as int));
                        assert(consumed.push(item).drop_last() =~= consumed);
                        consumed = consumed.push(item);
                    }
                    map.insert(name, param);
                    i = end;
                },
                None => {
                    proof {
                        assert(parse_items(input@, i as int) =~= seq![]);
                        assert(all =~= consumed);
                    }
                    break;
                },
            }
        }
        map
    }
}

} // verus!
