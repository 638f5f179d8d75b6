//! String helpers shared by the parser and the emitter: the conventional
//! "lua"/"lua_" name-prefix stripping applied to every declaration-facing
//! name, attribute-name lookup, and indentation of nested declaration blocks.

use vstd::prelude::*;
use vstd::string::StrSliceExecFns;
use vstd::string::StringExecFns;

verus! {

/// Attribute that marks an item as exposed to Lua.
pub const MLUA_BINDGEN_ATTR: &'static str = "mlua_bindgen";

/// Attribute that removes an item (and everything only beneath it) from all
/// generated output.
pub const MLUA_IGNORE_BINDGEN_ATTR: &'static str = "mlua_bindgen_ignore";

/// ASCII lower-casing of one character, as a code point.
pub open spec fn spec_lower_code(c: char) -> int {
    if 'A' as int <= c as int && c as int <= 'Z' as int {
        c as int + 32
    } else {
        c as int
    }
}

/// Case-insensitive match of `c` against an ASCII lower-case letter `l`.
pub open spec fn spec_eq_lower(c: char, l: char) -> bool {
    spec_lower_code(c) == l as int
}

/// Where the conventional name prefix ends: `Some(4)` for a "lua_" prefix,
/// `Some(3)` for a bare "lua" prefix (each matched case-insensitively),
/// `None` where the name carries neither. The longer prefix wins.
pub open spec fn spec_lua_prefix(s: Seq<char>) -> Option<usize> {
    if s.len() >= 4 && spec_eq_lower(s[0], 'l') && spec_eq_lower(s[1], 'u') && spec_eq_lower(
        s[2],
        'a',
    ) && s[3] == '_' {
        Some(4usize)
    } else if s.len() >= 3 && spec_eq_lower(s[0], 'l') && spec_eq_lower(s[1], 'u') && spec_eq_lower(
        s[2],
        'a',
    ) {
        Some(3usize)
    } else {
        None
    }
}

/// Searches for a "lua" prefix in a string and returns the index of the first
/// character after the prefix. Only the prefixes "lua" and "lua_" count, the
/// longer one first; a name such as "slua_func" carries neither.
pub fn get_lua_prefix(s: &str) -> (r: Option<usize>)
    ensures
        r == spec_lua_prefix(s@),
{
    let n = s.unicode_len();
    if n < 3 {
        return None;
    }
    let c0 = s.get_char(0);
    let c1 = s.get_char(1);
    let c2 = s.get_char(2);
    let is_lua = (c0 == 'l' || c0 == 'L') && (c1 == 'u' || c1 == 'U') && (c2 == 'a' || c2 == 'A');
    if !is_lua {
        return None;
    }
    if n >= 4 && s.get_char(3) == '_' {
        Some(4)
    } else {
        Some(3)
    }
}

/// The name with its conventional prefix stripped; a name without the prefix
/// stays as it is.
pub open spec fn spec_remove_lua_prefix(s: Seq<char>) -> Seq<char> {
    match spec_lua_prefix(s) {
        Some(k) => s.skip(k as int),
        None => s,
    }
}

/// Try to remove a lua prefix and return a new string. If there's no prefix,
/// the same string comes back.
pub fn remove_lua_prefix(s: String) -> (r: String)
    ensures
        r@ == spec_remove_lua_prefix(s@),
{
    match get_lua_prefix(s.as_str()) {
        Some(up_to) => {
            let n = s.as_str().unicode_len();
            let sub = s.as_str().substring_char(up_to, n);
            let r = sub.to_owned();
            proof {
                assert(r@ =~= s@.skip(up_to as int));
            }
            r
        },
        None => s,
    }
}

/// Character-wise equality of two string slices.
pub fn str_eq(a: &str, b: &str) -> (r: bool)
    ensures
        r == (a@ == b@),
{
    let na = a.unicode_len();
    let nb = b.unicode_len();
    if na != nb {
        return false;
    }
    let mut i: usize = 0;
    while i < na
        invariant
            na == a@.len(),
            na == b@.len(),
            i <= na,
            forall|j: int| 0 <= j < i ==> a@[j] == b@[j],
        decreases na - i,
    {
        if a.get_char(i) != b.get_char(i) {
            return false;
        }
        i += 1;
    }
    proof {
        assert(a@ =~= b@);
    }
    true
}

/// Whether one of the attribute names equals `needed`.
pub open spec fn spec_contains_attr(attrs: Seq<Seq<char>>, needed: Seq<char>) -> bool {
    exists|i: int| 0 <= i < attrs.len() && attrs[i] == needed
}

/// Simply iterates over attribute names and checks whether at least one of
/// them matches the supplied `needed` attribute string.
///
/// This is used to check whether an item carries one of the marker attributes.
pub fn contains_attr(attrs: &Vec<String>, needed: &str) -> (r: bool)
    ensures
        r == spec_contains_attr(attrs.deep_view(), needed@),
{
    let mut i: usize = 0;
    while i < attrs.len()
        invariant
            i <= attrs@.len(),
            forall|j: int| 0 <= j < i ==> attrs.deep_view()[j] != needed@,
        decreases attrs@.len() - i,
    {
        if str_eq(attrs[i].as_str(), needed) {
            proof {
                assert(attrs.deep_view()[i as int] == needed@);
            }
            return true;
        }
        i += 1;
    }
    false
}

/// Whether `pat` occurs in `s` at position `i`.
pub open spec fn spec_match_at(s: Seq<char>, pat: Seq<char>, i: int) -> bool {
    0 <= i && i + pat.len() <= s.len() && s.subrange(i, i + pat.len()) == pat
}

/// Whether `pat` stands in `s` at position `i`, by characters.
fn match_at(s: &str, pat: &str, i: usize) -> (r: bool)
    requires
        i + pat@.len() <= s@.len(),
    ensures
        r == spec_match_at(s@, pat@, i as int),
{
    let n = s.unicode_len();
    let m = pat.unicode_len();
    let seg = s.substring_char(i, i + m);
    str_eq(seg, pat)
}

/// Whether `s` ends with `pat`.
pub open spec fn spec_ends_with(s: Seq<char>, pat: Seq<char>) -> bool {
    pat.len() <= s.len() && spec_match_at(s, pat, s.len() - pat.len())
}

/// Whether `s` ends with `pat`, by characters.
pub fn ends_with_str(s: &str, pat: &str) -> (r: bool)
    ensures
        r == spec_ends_with(s@, pat@),
{
    let n = s.unicode_len();
    let m = pat.unicode_len();
    if m > n {
        return false;
    }
    match_at(s, pat, n - m)
}

/// `s` with every occurrence of `pat` replaced by `to`, scanning left to
/// right without overlap. A pattern longer than the rest of the string
/// leaves it unchanged.
pub open spec fn spec_replace(s: Seq<char>, pat: Seq<char>, to: Seq<char>) -> Seq<char>
    decreases s.len(),
    when pat.len() > 0
{
    if pat.len() > s.len() {
        s
    } else if s.subrange(0, pat.len() as int) == pat {
        to + spec_replace(s.skip(pat.len() as int), pat, to)
    } else {
        seq![s[0]] + spec_replace(s.drop_first(), pat, to)
    }
}

/// Replace every occurrence of `pat` in `s` by `to`, as `str::replace`
/// does.
pub fn replace_str(s: &str, pat: &str, to: &str) -> (r: String)
    requires
        pat@.len() > 0,
    ensures
        r@ == spec_replace(s@, pat@, to@),
{
    let n = s.unicode_len();
    let m = pat.unicode_len();
    let mut out = String::new();
    let mut i: usize = 0;
    proof {
        assert(s@.skip(0) =~= s@);
    }
    while i < n
        invariant
            i <= n,
            n == s@.len(),
            m == pat@.len(),
            m > 0,
            out@ + spec_replace(s@.skip(i as int), pat@, to@) == spec_replace(s@, pat@, to@),
        decreases n - i,
    {
        let ghost t = s@.skip(i as int);
        let ghost out_old = out@;
        if m <= n - i && match_at(s, pat, i) {
            proof {
                assert(t.subrange(0, m as int) =~= s@.subrange(i as int, i as int + m));
                assert(t.skip(m as int) =~= s@.skip(i as int + m));
            }
            out.append(to);
            i = i + m;
        } else {
            proof {
                if i + m <= n {
                    assert(t.subrange(0, m as int) =~= s@.subrange(i as int, i as int + m));
                }
                assert(t.len() > 0);
                assert(t.drop_first() =~= s@.skip(i as int + 1));
                assert(t[0] == s@[i as int]);
            }
            let c = s.substring_char(i, i + 1);
            out.append(c);
            proof {
                assert(c@ =~= seq![t[0]]);
            }
            i = i + 1;
        }
        proof {
            assert(out@ + spec_replace(s@.skip(i as int), pat@, to@) =~= out_old + spec_replace(
                t,
                pat@,
                to@,
            ));
        }
    }
    proof {
        assert(s@.skip(n as int) =~= Seq::<char>::empty());
        assert(out@ + spec_replace(Seq::<char>::empty(), pat@, to@) =~= out@);
    }
    out
}

/// Index of the first newline in `s` at or after `i`, or the length of `s`
/// where there is none (or `i` is out of range).
pub open spec fn spec_find_nl(s: Seq<char>, i: int) -> int
    decreases s.len() - i,
{
    if i < 0 || i >= s.len() {
        s.len() as int
    } else if s[i] == '\n' {
        i
    } else {
        spec_find_nl(s, i + 1)
    }
}

proof fn lemma_find_nl_range(s: Seq<char>, i: int)
    requires
        0 <= i <= s.len(),
    ensures
        i <= spec_find_nl(s, i) <= s.len(),
        forall|j: int| i <= j < spec_find_nl(s, i) ==> s[j] != '\n',
        spec_find_nl(s, i) < s.len() ==> s[spec_find_nl(s, i)] == '\n',
    decreases s.len() - i,
{
    if i < s.len() && s[i] != '\n' {
        lemma_find_nl_range(s, i + 1);
    }
}

/// Finding a newline in a suffix mirrors finding it in the whole string.
proof fn lemma_find_nl_skip(s: Seq<char>, k: int, i: int)
    requires
        0 <= k <= s.len(),
        0 <= i,
    ensures
        spec_find_nl(s.skip(k), i) == spec_find_nl(s, k + i) - k,
    decreases s.len() - k - i,
{
    if k + i >= s.len() {
        assert(s.skip(k).len() == s.len() - k);
    } else {
        assert(s.skip(k)[i] == s[k + i]);
        if s[k + i] != '\n' {
            lemma_find_nl_skip(s, k, i + 1);
        }
    }
}

/// One line as `str::lines` hands it out: a final carriage return is dropped.
pub open spec fn spec_line_strip(l: Seq<char>) -> Seq<char> {
    if l.len() > 0 && l[l.len() - 1] == '\r' {
        l.drop_last()
    } else {
        l
    }
}

/// The lines of `s`, split on newlines as `str::lines` does: no empty line
/// after a trailing newline, and a carriage return before a newline dropped.
pub open spec fn spec_lines(s: Seq<char>) -> Seq<Seq<char>>
    decreases s.len(),
{
    if s.len() == 0 {
        Seq::empty()
    } else {
        let i = spec_find_nl(s, 0);
        if 0 <= i < s.len() {
            seq![spec_line_strip(s.subrange(0, i))] + spec_lines(
                s.subrange(i + 1, s.len() as int),
            )
        } else {
            seq![spec_line_strip(s)]
        }
    }
}

/// `amount` copies of the four-space tab.
pub open spec fn spec_tab(amount: nat) -> Seq<char>
    decreases amount,
{
    if amount == 0 {
        Seq::empty()
    } else {
        "    "@ + spec_tab((amount - 1) as nat)
    }
}

/// Each line indented by `amount` tabs and closed with a newline.
pub open spec fn spec_tabs_lines(ls: Seq<Seq<char>>, amount: nat) -> Seq<char>
    decreases ls.len(),
{
    if ls.len() == 0 {
        Seq::empty()
    } else {
        spec_tab(amount) + ls[0] + seq!['\n'] + spec_tabs_lines(ls.drop_first(), amount)
    }
}

/// The string re-assembled from its lines, each indented by `amount` tabs.
pub open spec fn spec_add_tabs(s: Seq<char>, amount: nat) -> Seq<char> {
    spec_tabs_lines(spec_lines(s), amount)
}

/// `amount` copies of the four-space tab, as a string.
fn make_tabs(amount: usize) -> (r: String)
    ensures
        r@ == spec_tab(amount as nat),
{
    let mut r = String::new();
    let mut i: usize = 0;
    while i < amount
        invariant
            i <= amount,
            r@ + spec_tab((amount - i) as nat) == spec_tab(amount as nat),
        decreases amount - i,
    {
        let ghost before = r@;
        r.append("    ");
        proof {
            assert(before + spec_tab((amount - i) as nat) =~= r@ + spec_tab(
                (amount - i - 1) as nat,
            ));
        }
        i += 1;
    }
    proof {
        assert(r@ + spec_tab(0) =~= r@);
    }
    r
}

/// Index of the first newline in `s` at or after `from`, or the character
/// length of `s` where there is none.
fn find_newline(s: &str, from: usize) -> (r: usize)
    requires
        from <= s@.len(),
    ensures
        r as int == spec_find_nl(s@, from as int),
        from <= r <= s@.len(),
{
    let n = s.unicode_len();
    let mut i: usize = from;
    while i < n
        invariant
            from <= i <= n,
            n == s@.len(),
            spec_find_nl(s@, from as int) == spec_find_nl(s@, i as int),
        decreases n - i,
    {
        if s.get_char(i) == '\n' {
            return i;
        }
        i += 1;
    }
    n
}

/// Will transform a string and return a new one, with a specific amount of
/// tabs in front of every line.
pub fn add_tabs(s: String, amount: usize) -> (r: String)
    ensures
        r@ == spec_add_tabs(s@, amount as nat),
{
    let tab = make_tabs(amount);
    let st = s.as_str();
    let n = st.unicode_len();
    let mut out = String::new();
    let mut pos: usize = 0;
    proof {
        assert(s@.skip(0) =~= s@);
    }
    while pos < n
        invariant
            pos <= n,
            n == s@.len(),
            st@ == s@,
            tab@ == spec_tab(amount as nat),
            out@ + spec_add_tabs(s@.skip(pos as int), amount as nat) == spec_add_tabs(
                s@,
                amount as nat,
            ),
        decreases n - pos,
    {
        let nl = find_newline(st, pos);
        proof {
            lemma_find_nl_skip(s@, pos as int, 0);
        }
        let line_end = if nl > pos && st.get_char(nl - 1) == '\r' {
            nl - 1
        } else {
            nl
        };
        let line = st.substring_char(pos, line_end);
        let ghost t = s@.skip(pos as int);
        let ghost out_before = out@;
        out.append(tab.as_str());
        out.append(line);
        out.append("\n");
        proof {
            reveal_strlit("\n");
            assert("\n"@ =~= seq!['\n']);
            assert(spec_find_nl(t, 0) == nl - pos);
            let ls = spec_lines(t);
            if nl < n {
                assert(t.subrange(0, nl - pos) =~= s@.subrange(pos as int, nl as int));
                assert(t.subrange(nl - pos + 1, t.len() as int) =~= s@.skip(nl + 1));
                assert(line@ =~= spec_line_strip(t.subrange(0, nl - pos)));
                assert(ls == seq![spec_line_strip(t.subrange(0, nl - pos))] + spec_lines(
                    s@.skip(nl + 1),
                ));
                assert(ls[0] == line@);
                assert(ls.drop_first() =~= spec_lines(s@.skip(nl + 1)));
                assert(spec_tabs_lines(ls, amount as nat) == spec_tab(amount as nat) + ls[0]
                    + seq!['\n'] + spec_tabs_lines(ls.drop_first(), amount as nat));
                assert(out@ + spec_add_tabs(s@.skip(nl + 1), amount as nat) =~= out_before
                    + spec_add_tabs(t, amount as nat));
            } else {
                assert(line@ =~= spec_line_strip(t));
                assert(ls == seq![spec_line_strip(t)]);
                assert(ls[0] == line@);
                assert(ls.drop_first() =~= Seq::<Seq<char>>::empty());
                assert(spec_tabs_lines(ls, amount as nat) == spec_tab(amount as nat) + ls[0]
                    + seq!['\n'] + spec_tabs_lines(ls.drop_first(), amount as nat));
                assert(spec_tabs_lines(Seq::<Seq<char>>::empty(), amount as nat)
                    == Seq::<char>::empty());
                assert(out@ =~= out_before + spec_add_tabs(t, amount as nat));
                assert(s@.skip(n as int) =~= Seq::<char>::empty());
            }
        }
        pos = if nl < n {
            nl + 1
        } else {
            n
        };
    }
    proof {
        assert(s@.skip(n as int) =~= Seq::<char>::empty());
    }
    out
}

} // verus!
