//! Git aliases and their grouping into sections.
//!
//! The aliases come from `git config --get-regexp '^alias\.'`; their grouping
//! comes from section comments (`# --- name ---`) inside the `[alias]` block of
//! the user's gitconfig.  Reading both is the caller's business: this module
//! turns the two texts into sections.
use vstd::prelude::*;

use crate::text::{
    chars_lt, eq_ignore_ascii_case, eq_ignore_case, lines, lines_of, owned, seq_lt, str_eq, chars_of, ends_with, ends_with_chars, lowercase, slice_chars, starts_with, starts_with_chars,
    string_of, to_lowercase, trim, trim_chars, trim_end_char, trim_end_char_chars,
    trim_start_char, trim_start_char_chars,
};

verus! {

/// A single git alias
#[derive(Debug, PartialEq, Eq)]
pub struct Alias {
    /// Alias name (e.g., "co")
    pub name: String,
    /// Alias command (e.g., "checkout")
    pub command: String,
}

impl Clone for Alias {
    fn clone(&self) -> (res: Self)
        ensures
            res == *self,
    {
        Alias { name: self.name.clone(), command: self.command.clone() }
    }
}

/// The view of an alias: its name and its command.
pub open spec fn alias_view(a: Alias) -> (Seq<char>, Seq<char>) {
    (a.name@, a.command@)
}

/// A section/category of aliases
#[derive(Debug)]
pub struct AliasSection {
    /// Section name (e.g., "fetch", "commit")
    pub name: String,
    /// Aliases in this section
    pub aliases: Vec<Alias>,
}

impl Clone for AliasSection {
    fn clone(&self) -> (res: Self)
        ensures
            res.name == self.name,
            res.aliases@ == self.aliases@,
    {
        AliasSection { name: self.name.clone(), aliases: clone_aliases(&self.aliases) }
    }
}

/// A copy of a list of aliases.
pub fn clone_aliases(v: &Vec<Alias>) -> (res: Vec<Alias>)
    ensures
        res@ == v@,
{
    let mut res: Vec<Alias> = Vec::new();
    let n = v.len();
    for i in 0..n
        invariant
            n == v@.len(),
            res@ == v@.take(i as int),
    {
        res.push(v[i].clone());
        assert(v@.take(i + 1) == v@.take(i as int).push(v@[i as int]));
    }
    assert(v@.take(n as int) == v@);
    res
}

/// The view of a section: its name and the views of its aliases.
pub open spec fn section_view(s: AliasSection) -> (Seq<char>, Seq<(Seq<char>, Seq<char>)>) {
    (s.name@, s.aliases@.map_values(|a: Alias| alias_view(a)))
}

/// Git configuration with aliases grouped by section
#[derive(Debug)]
pub struct GitConfig {
    /// Alias sections in order
    pub sections: Vec<AliasSection>,
}

impl Default for GitConfig {
    fn default() -> (res: Self)
        ensures
            res.sections@.len() == 0,
    {
        GitConfig { sections: Vec::new() }
    }
}

// ---------------------------------------------------------------------------
// Line-level parsing
// ---------------------------------------------------------------------------

/// Position of the first `c` in `s`, or `s.len()` when there is none.
pub open spec fn first_index(s: Seq<char>, c: char) -> nat
    decreases s.len(),
{
    if s.len() == 0 {
        0
    } else if s[0] == c {
        0
    } else {
        1 + first_index(s.drop_first(), c)
    }
}

/// A section header comment such as `# --- fetch ---`, giving its name in
/// lower case; the name is a single word.
pub open spec fn section_header(line: Seq<char>) -> Option<Seq<char>> {
    if !(line.len() > 0 && line[0] == '#') {
        None
    } else {
        let content = trim(trim_start_char(line, '#'));
        if starts_with(content, "---"@) && ends_with(content, "---"@) {
            let inner = trim(trim_end_char(trim_start_char(content, '-'), '-'));
            if inner.len() > 0 && !inner.contains(' ') {
                Some(lowercase(inner))
            } else {
                None
            }
        } else {
            None
        }
    }
}

/// An alias definition line `name = command`: the name before the first `=`
/// and the command after it, both trimmed, the command without surrounding
/// double quotes.
pub open spec fn alias_line(line: Seq<char>) -> Option<(Seq<char>, Seq<char>)> {
    if (line.len() > 0 && line[0] == '#') || line.len() == 0 {
        None
    } else if line.contains('=') {
        let k = first_index(line, '=') as int;
        let name = trim(line.take(k));
        let command = trim_end_char(trim_start_char(trim(line.skip(k + 1)), '"'), '"');
        if name.len() > 0 {
            Some((name, command))
        } else {
            None
        }
    } else {
        None
    }
}

proof fn lemma_first_index(s: Seq<char>, c: char)
    ensures
        first_index(s, c) <= s.len(),
        first_index(s, c) < s.len() <==> s.contains(c),
        first_index(s, c) < s.len() ==> s[first_index(s, c) as int] == c,
        forall|j: int| 0 <= j < first_index(s, c) ==> s[j] != c,
    decreases s.len(),
{
    if s.len() > 0 && s[0] != c {
        lemma_first_index(s.drop_first(), c);
        if s.contains(c) {
            let j = choose|j: int| 0 <= j < s.len() && s[j] == c;
            assert(s.drop_first()[j - 1] == c);
        }
        if s.drop_first().contains(c) {
            let j = choose|j: int| 0 <= j < s.drop_first().len() && s.drop_first()[j] == c;
            assert(s[j + 1] == c);
        }
        assert forall|j: int| 0 <= j < first_index(s, c) implies s[j] != c by {
            if j > 0 {
                assert(s[j] == s.drop_first()[j - 1]);
            }
        }
    } else if s.len() > 0 {
        assert(s[0] == c);
    }
}

/// Position of the first `c` in `v`, or `v.len()` when there is none.
pub fn find_char(v: &Vec<char>, c: char) -> (res: usize)
    ensures
        res == first_index(v@, c),
        res <= v@.len(),
        res < v@.len() <==> v@.contains(c),
{
    proof {
        lemma_first_index(v@, c);
    }
    let mut i: usize = 0;
    assert(v@.skip(0) == v@);
    while i < v.len() && v[i] != c
        invariant
            i <= v.len(),
            first_index(v@, c) == i + first_index(v@.skip(i as int), c),
        decreases v.len() - i,
    {
        assert(v@.skip(i as int).drop_first() == v@.skip(i + 1));
        i = i + 1;
    }
    i
}

/// Whether `v` holds the character `c`.
pub fn has_char(v: &Vec<char>, c: char) -> (res: bool)
    ensures
        res == v@.contains(c),
{
    find_char(v, c) < v.len()
}

// ---------------------------------------------------------------------------
// The alias table
// ---------------------------------------------------------------------------

/// An alias table entry: name and command.
pub type AliasEntry = (Seq<char>, Seq<char>);

/// Insertion into a table kept in string order of names, a new command
/// replacing the old one under the same name: the model of a `BTreeMap`.
pub open spec fn sorted_insert(s: Seq<AliasEntry>, k: Seq<char>, c: Seq<char>) -> Seq<AliasEntry>
    decreases s.len(),
{
    if s.len() == 0 {
        seq![(k, c)]
    } else if s[0].0 == k {
        seq![(k, c)] + s.drop_first()
    } else if seq_lt(k, s[0].0) {
        seq![(k, c)] + s
    } else {
        seq![s[0]] + sorted_insert(s.drop_first(), k, c)
    }
}

/// An output line of `git config --get-regexp '^alias\.'`, which reads
/// `alias.<name> <command>`.
pub open spec fn alias_entry(line: Seq<char>) -> Option<AliasEntry> {
    if starts_with(line, "alias."@) {
        let rest = line.skip("alias."@.len() as int);
        if rest.contains(' ') {
            let k = first_index(rest, ' ') as int;
            Some((rest.take(k), rest.skip(k + 1)))
        } else {
            None
        }
    } else {
        None
    }
}

/// The alias table built from the lines of the `git config` output.
pub open spec fn alias_table(ls: Seq<Seq<char>>) -> Seq<AliasEntry>
    decreases ls.len(),
{
    if ls.len() == 0 {
        seq![]
    } else {
        let m = alias_table(ls.drop_last());
        match alias_entry(ls.last()) {
            Some(e) => sorted_insert(m, e.0, e.1),
            None => m,
        }
    }
}

/// The command stored under `k`, if any.
pub open spec fn table_get(m: Seq<AliasEntry>, k: Seq<char>) -> Option<Seq<char>>
    decreases m.len(),
{
    if m.len() == 0 {
        None
    } else if m[0].0 == k {
        Some(m[0].1)
    } else {
        table_get(m.drop_first(), k)
    }
}

/// Views of a list of aliases.
pub open spec fn aliases_view(v: Seq<Alias>) -> Seq<AliasEntry> {
    v.map_values(|a: Alias| alias_view(a))
}

/// Views of a list of sections.
pub open spec fn sections_view(v: Seq<AliasSection>) -> Seq<(Seq<char>, Seq<AliasEntry>)> {
    v.map_values(|s: AliasSection| section_view(s))
}

/// Copies of the aliases `v[from..to]`.
pub fn copy_aliases(v: &Vec<Alias>, from: usize, to: usize) -> (res: Vec<Alias>)
    requires
        from <= to <= v.len(),
    ensures
        res@ == v@.subrange(from as int, to as int),
{
    let mut res: Vec<Alias> = Vec::new();
    for j in from..to
        invariant
            to <= v.len(),
            res@ == v@.subrange(from as int, j as int),
    {
        res.push(v[j].clone());
        assert(v@.subrange(from as int, j + 1) == v@.subrange(from as int, j as int).push(
            v@[j as int],
        ));
    }
    res
}

/// Where `name` goes in a table kept in name order: the position, and
/// whether an entry of that name is there already.
fn insert_position(v: &Vec<Alias>, name: &String) -> (res: (usize, bool))
    ensures
        res.0 <= v.len(),
        res.1 <==> (res.0 < v.len() && v@[res.0 as int].name@ == name@),
        forall|c: Seq<char>|
            sorted_insert(aliases_view(v@), name@, c) == aliases_view(v@).take(res.0 as int)
                + sorted_insert(aliases_view(v@).skip(res.0 as int), name@, c),
        res.0 < v.len() ==> (v@[res.0 as int].name@ == name@ || seq_lt(
            name@,
            v@[res.0 as int].name@,
        )),
{
    let ghost s = aliases_view(v@);
    let key = chars_of(name.as_str());
    let mut i: usize = 0;
    assert(s.take(0) + s.skip(0) == s);
    while i < v.len() && !(v[i].name == *name) && !chars_lt(&key, &chars_of(v[i].name.as_str()))
        invariant
            i <= v.len(),
            s == aliases_view(v@),
            key@ == name@,
            forall|c: Seq<char>|
                sorted_insert(s, name@, c) == s.take(i as int) + sorted_insert(
                    s.skip(i as int),
                    name@,
                    c,
                ),
        decreases v.len() - i,
    {
        assert(s.skip(i as int)[0] == s[i as int]);
        assert(s.skip(i as int).drop_first() == s.skip(i + 1));
        assert(s.take(i + 1) == s.take(i as int) + seq![s[i as int]]);
        assert forall|c: Seq<char>|
            sorted_insert(s, name@, c) == s.take(i + 1) + sorted_insert(
                s.skip(i + 1),
                name@,
                c,
            ) by {
            assert(sorted_insert(s.skip(i as int), name@, c) == seq![s[i as int]]
                + sorted_insert(s.skip(i + 1), name@, c));
        }
        i = i + 1;
    }
    let replace = i < v.len() && v[i].name == *name;
    (i, replace)
}

/// Inserts an alias into a table kept in name order.
pub fn insert_sorted(v: &Vec<Alias>, name: String, command: String) -> (res: Vec<Alias>)
    ensures
        aliases_view(res@) == sorted_insert(aliases_view(v@), name@, command@),
{
    let ghost s = aliases_view(v@);
    let (i, replace) = insert_position(v, &name);
    let start = if replace { i + 1 } else { i };
    let mut res = copy_aliases(v, 0, i);
    let ghost new_alias = Alias { name: name, command: command };
    res.push(Alias { name, command });
    let mut tail = copy_aliases(v, start, v.len());
    res.append(&mut tail);
    assert(res@ == v@.subrange(0, i as int).push(new_alias) + v@.subrange(
        start as int,
        v@.len() as int,
    ));
    if i < v.len() {
        assert(s.skip(i as int)[0] == s[i as int]);
        assert(s.skip(i as int).drop_first() == s.skip(i + 1));
    }
    assert(aliases_view(res@) =~= s.take(i as int) + sorted_insert(
        s.skip(i as int),
        new_alias.name@,
        new_alias.command@,
    ));
    res
}

/// The command stored under `name` in a table, if any.
pub fn table_lookup(m: &Vec<Alias>, name: &str) -> (res: Option<String>)
    ensures
        res matches Some(c) ==> table_get(aliases_view(m@), name@) == Some(c@),
        res is None ==> table_get(aliases_view(m@), name@) is None,
{
    let ghost s = aliases_view(m@);
    let mut i: usize = 0;
    assert(s.skip(0) == s);
    while i < m.len()
        invariant
            i <= m.len(),
            s == aliases_view(m@),
            table_get(s, name@) == table_get(s.skip(i as int), name@),
        decreases m.len() - i,
    {
        assert(s.skip(i as int)[0] == s[i as int]);
        if str_eq(m[i].name.as_str(), name) {
            return Some(m[i].command.clone());
        }
        assert(s.skip(i as int).drop_first() == s.skip(i + 1));
        i = i + 1;
    }
    None
}

/// Whether `name` is among `seen`.
fn seen_contains(seen: &Vec<String>, name: &str) -> (res: bool)
    ensures
        res == seen@.map_values(|x: String| x@).contains(name@),
{
    let ghost s = seen@.map_values(|x: String| x@);
    let n = seen.len();
    for i in 0..n
        invariant
            n == seen@.len(),
            s == seen@.map_values(|x: String| x@),
            forall|j: int| 0 <= j < i ==> s[j] != name@,
    {
        if str_eq(seen[i].as_str(), name) {
            assert(s[i as int] == name@);
            return true;
        }
    }
    false
}

// ---------------------------------------------------------------------------
// Section grouping
// ---------------------------------------------------------------------------

/// A section as seen by the grouping: its name and its entries.
pub type SectionEntry = (Seq<char>, Seq<AliasEntry>);

/// Grouping state: sections so far, whether inside `[alias]`, names seen.
pub type GroupState = (Seq<SectionEntry>, bool, Seq<Seq<char>>);

/// One line of the gitconfig applied to the grouping state.
pub open spec fn group_step(st: GroupState, raw: Seq<char>, m: Seq<AliasEntry>) -> GroupState {
    let t = trim(raw);
    if eq_ignore_ascii_case(t, "[alias]"@) {
        (st.0, true, st.2)
    } else if t.len() > 0 && t[0] == '[' {
        (st.0, false, st.2)
    } else if !st.1 {
        st
    } else if section_header(t) is Some {
        (st.0.push((section_header(t)->0, seq![])), st.1, st.2)
    } else {
        match alias_line(t) {
            Some(p) => match table_get(m, p.0) {
                Some(cmd) => if st.2.contains(p.0) {
                    st
                } else if st.0.len() > 0 {
                    let last = st.0.last();
                    (
                        st.0.update(st.0.len() - 1, (last.0, last.1.push((p.0, cmd)))),
                        st.1,
                        st.2.push(p.0),
                    )
                } else {
                    (seq![("other"@, seq![(p.0, cmd)])], st.1, st.2.push(p.0))
                },
                None => st,
            },
            None => st,
        }
    }
}

/// The grouping state after the given lines.
pub open spec fn group_lines(ls: Seq<Seq<char>>, m: Seq<AliasEntry>) -> GroupState
    decreases ls.len(),
{
    if ls.len() == 0 {
        (seq![], false, seq![])
    } else {
        group_step(group_lines(ls.drop_last(), m), ls.last(), m)
    }
}

/// Entries of the table whose names were not seen.
pub open spec fn unseen(m: Seq<AliasEntry>, seen: Seq<Seq<char>>) -> Seq<AliasEntry>
    decreases m.len(),
{
    if m.len() == 0 {
        seq![]
    } else if seen.contains(m.last().0) {
        unseen(m.drop_last(), seen)
    } else {
        unseen(m.drop_last(), seen).push(m.last())
    }
}

/// The sections that hold at least one alias.
pub open spec fn non_empty_sections(v: Seq<SectionEntry>) -> Seq<SectionEntry>
    decreases v.len(),
{
    if v.len() == 0 {
        seq![]
    } else if v.last().1.len() > 0 {
        non_empty_sections(v.drop_last()).push(v.last())
    } else {
        non_empty_sections(v.drop_last())
    }
}

/// The sections built from the alias table and the gitconfig text: without
/// a readable gitconfig, one section "all" with the whole table; otherwise the
/// commented groups of the `[alias]` block, then "other" for the aliases that
/// no group names, leaving out empty sections.
pub open spec fn grouped_sections(m: Seq<AliasEntry>, content: Option<Seq<char>>) -> Seq<
    SectionEntry,
> {
    match content {
        None => seq![("all"@, m)],
        Some(c) => {
            let st = group_lines(lines(c), m);
            let r = unseen(m, st.2);
            let secs = if r.len() > 0 {
                st.0.push(("other"@, r))
            } else {
                st.0
            };
            non_empty_sections(secs)
        },
    }
}


/// The view of an optional text.
pub open spec fn opt_text(t: Option<&str>) -> Option<Seq<char>> {
    match t {
        Some(c) => Some(c@),
        None => None,
    }
}

/// Applies one gitconfig line to the grouping state.
fn group_line(
    secs: &mut Vec<AliasSection>,
    in_block: &mut bool,
    seen: &mut Vec<String>,
    line: &Vec<char>,
    m: &Vec<Alias>,
)
    ensures
        (sections_view(final(secs)@), *final(in_block), final(seen)@.map_values(|x: String| x@))
            == group_step(
            (sections_view(old(secs)@), *old(in_block), old(seen)@.map_values(|x: String| x@)),
            line@,
            aliases_view(m@),
        ),
{
    let t = trim_chars(line);
    if eq_ignore_case(&t, "[alias]") {
        *in_block = true;
        return;
    }
    if t.len() > 0 && t[0] == '[' {
        *in_block = false;
        return;
    }
    if !*in_block {
        return;
    }
    let ts = string_of(t.as_slice());
    match GitConfig::parse_section_header(ts.as_str()) {
        Some(name) => {
            let ghost old_view = sections_view(secs@);
            let sec = AliasSection { name, aliases: Vec::new() };
            secs.push(sec);
            assert(sections_view(secs@) =~= old_view.push(section_view(sec)));
            assert(section_view(sec).1 =~= seq![]);
            return;
        },
        None => {},
    }
    match GitConfig::parse_alias_line(ts.as_str()) {
        Some(parsed) => {
            let name = parsed.0;
            match table_lookup(m, name.as_str()) {
                Some(cmd) => {
                    if seen_contains(seen, name.as_str()) {
                        return;
                    }
                    let ghost old_seen = seen@.map_values(|x: String| x@);
                    seen.push(name.clone());
                    assert(seen@.map_values(|x: String| x@) =~= old_seen.push(name@));
                    let a = Alias { name, command: cmd };
                    let ghost old_view = sections_view(secs@);
                    if secs.len() > 0 {
                        let mut last = secs.pop().unwrap();
                        assert(old_view.last() == section_view(last));
                        let ghost last_aliases = last.aliases@;
                        last.aliases.push(a);
                        assert(aliases_view(last.aliases@) =~= aliases_view(last_aliases).push(
                            alias_view(a),
                        ));
                        secs.push(last);
                        assert(sections_view(secs@) =~= old_view.update(
                            old_view.len() - 1,
                            (old_view.last().0, old_view.last().1.push(alias_view(a))),
                        ));
                    } else {
                        let mut al: Vec<Alias> = Vec::new();
                        al.push(a);
                        let sec = AliasSection { name: owned("other"), aliases: al };
                        secs.push(sec);
                        assert(aliases_view(al@) =~= seq![alias_view(a)]);
                        assert(sections_view(secs@) =~= seq![section_view(sec)]);
                    }
                },
                None => {},
            }
        },
        None => {},
    }
}

/// The entries of `m` whose names are not in `seen`.
fn unseen_aliases(m: &Vec<Alias>, seen: &Vec<String>) -> (res: Vec<Alias>)
    ensures
        aliases_view(res@) == unseen(aliases_view(m@), seen@.map_values(|x: String| x@)),
{
    let ghost mv = aliases_view(m@);
    let ghost sv = seen@.map_values(|x: String| x@);
    let mut res: Vec<Alias> = Vec::new();
    let n = m.len();
    for i in 0..n
        invariant
            n == m@.len(),
            mv == aliases_view(m@),
            sv == seen@.map_values(|x: String| x@),
            aliases_view(res@) == unseen(mv.take(i as int), sv),
    {
        assert(mv.take(i + 1).drop_last() == mv.take(i as int));
        assert(mv.take(i + 1).last() == alias_view(m@[i as int]));
        if !seen_contains(seen, m[i].name.as_str()) {
            let ghost before = aliases_view(res@);
            res.push(m[i].clone());
            assert(aliases_view(res@) =~= before.push(alias_view(m@[i as int])));
        }
    }
    assert(mv.take(n as int) == mv);
    res
}

/// The sections that hold at least one alias.
fn keep_non_empty(v: Vec<AliasSection>) -> (res: Vec<AliasSection>)
    ensures
        sections_view(res@) == non_empty_sections(sections_view(v@)),
{
    let ghost vv = sections_view(v@);
    let mut res: Vec<AliasSection> = Vec::new();
    let n = v.len();
    for i in 0..n
        invariant
            n == v@.len(),
            vv == sections_view(v@),
            sections_view(res@) == non_empty_sections(vv.take(i as int)),
    {
        assert(vv.take(i + 1).drop_last() == vv.take(i as int));
        assert(vv.take(i + 1).last() == section_view(v@[i as int]));
        if v[i].aliases.len() > 0 {
            let ghost before = sections_view(res@);
            let sec = v[i].clone();
            res.push(sec);
            assert(section_view(sec) == section_view(v@[i as int]));
            assert(sections_view(res@) =~= before.push(section_view(v@[i as int])));
        }
    }
    assert(vv.take(n as int) == vv);
    res
}


impl GitConfig {
    /// Parse section header like "# --- fetch ---"
    pub fn parse_section_header(line: &str) -> (res: Option<String>)
        ensures
            res matches Some(n) ==> section_header(line@) == Some(n@),
            res is None ==> section_header(line@) is None,
    {
        let v = chars_of(line);
        if !(v.len() > 0 && v[0] == '#') {
            return None;
        }
        let content = trim_chars(&trim_start_char_chars(&v, '#'));
        if starts_with_chars(&content, "---") && ends_with_chars(&content, "---") {
            let inner = trim_chars(&trim_end_char_chars(&trim_start_char_chars(&content, '-'), '-'));
            if inner.len() > 0 && !has_char(&inner, ' ') {
                let s = string_of(inner.as_slice());
                return Some(to_lowercase(s.as_str()));
            }
        }
        None
    }

    /// Parse an alias line like "co = checkout"
    pub fn parse_alias_line(line: &str) -> (res: Option<(String, String)>)
        ensures
            res matches Some(p) ==> alias_line(line@) == Some((p.0@, p.1@)),
            res is None ==> alias_line(line@) is None,
    {
        let v = chars_of(line);
        if (v.len() > 0 && v[0] == '#') || v.len() == 0 {
            return None;
        }
        let k = find_char(&v, '=');
        if k < v.len() {
            let name = trim_chars(&slice_chars(&v, 0, k));
            let rest = trim_chars(&slice_chars(&v, k + 1, v.len()));
            let command = trim_end_char_chars(&trim_start_char_chars(&rest, '"'), '"');
            assert(v@.subrange(0, k as int) == v@.take(k as int));
            assert(v@.subrange(k + 1, v@.len() as int) == v@.skip(k + 1));
            if name.len() > 0 {
                return Some((string_of(name.as_slice()), string_of(command.as_slice())));
            }
        }
        None
    }

    /// Parse the output of `git config --get-regexp '^alias\.'` into a table
    /// ordered by alias name.
    pub fn parse_alias_table(output: &str) -> (res: Vec<Alias>)
        ensures
            aliases_view(res@) == alias_table(lines(output@)),
    {
        let ls = lines_of(output);
        let ghost lv = ls@.map_values(|l: Vec<char>| l@);
        let prefix = chars_of("alias.");
        let mut m: Vec<Alias> = Vec::new();
        let n = ls.len();
        for i in 0..n
            invariant
                n == ls@.len(),
                lv == ls@.map_values(|l: Vec<char>| l@),
                lv == lines(output@),
                prefix@ == "alias."@,
                aliases_view(m@) == alias_table(lv.take(i as int)),
        {
            assert(lv.take(i + 1).drop_last() == lv.take(i as int));
            assert(lv.take(i + 1).last() == ls@[i as int]@);
            let l = &ls[i];
            if starts_with_chars(l, "alias.") {
                let rest = slice_chars(l, prefix.len(), l.len());
                assert(rest@ == l@.skip("alias."@.len() as int));
                let k = find_char(&rest, ' ');
                if k < rest.len() {
                    let name = string_of(slice_chars(&rest, 0, k).as_slice());
                    let cmd = string_of(slice_chars(&rest, k + 1, rest.len()).as_slice());
                    assert(rest@.subrange(0, k as int) == rest@.take(k as int));
                    assert(rest@.subrange(k + 1, rest@.len() as int) == rest@.skip(k + 1));
                    m = insert_sorted(&m, name, cmd);
                }
            }
        }
        assert(lv.take(n as int) == lv);
        m
    }

    /// Group the alias table into sections, following the section comments of
    /// the `[alias]` block in the gitconfig text (`None` when it could not be
    /// read).
    pub fn parse_sections_from_gitconfig(alias_map: &Vec<Alias>, gitconfig: Option<&str>) -> (res:
        Vec<AliasSection>)
        ensures
            sections_view(res@) == grouped_sections(aliases_view(alias_map@), opt_text(gitconfig)),
    {
        match gitconfig {
            None => {
                let mut res: Vec<AliasSection> = Vec::new();
                let sec = AliasSection { name: owned("all"), aliases: clone_aliases(alias_map) };
                res.push(sec);
                assert(sections_view(res@) =~= seq![("all"@, aliases_view(alias_map@))]);
                res
            },
            Some(content) => {
                let ls = lines_of(content);
                let ghost lv = ls@.map_values(|l: Vec<char>| l@);
                let ghost mv = aliases_view(alias_map@);
                let mut secs: Vec<AliasSection> = Vec::new();
                let mut in_block = false;
                let mut seen: Vec<String> = Vec::new();
                let n = ls.len();
                assert(seen@.map_values(|x: String| x@) =~= seq![]);
                assert(sections_view(secs@) =~= seq![]);
                for i in 0..n
                    invariant
                        n == ls@.len(),
                        lv == ls@.map_values(|l: Vec<char>| l@),
                        mv == aliases_view(alias_map@),
                        (sections_view(secs@), in_block, seen@.map_values(|x: String| x@))
                            == group_lines(lv.take(i as int), mv),
                {
                    assert(lv.take(i + 1).drop_last() == lv.take(i as int));
                    assert(lv.take(i + 1).last() == ls@[i as int]@);
                    group_line(&mut secs, &mut in_block, &mut seen, &ls[i], alias_map);
                }
                assert(lv.take(n as int) == lv);
                let remaining = unseen_aliases(alias_map, &seen);
                if remaining.len() > 0 {
                    let ghost before = sections_view(secs@);
                    let sec = AliasSection { name: owned("other"), aliases: remaining };
                    secs.push(sec);
                    assert(sections_view(secs@) =~= before.push(section_view(sec)));
                }
                keep_non_empty(secs)
            },
        }
    }

    /// Build the configuration from the `git config` alias output and the
    /// gitconfig text (`None` when it could not be read).
    pub fn from_sources(alias_output: &str, gitconfig: Option<&str>) -> (res: GitConfig)
        ensures
            sections_view(res.sections@) == grouped_sections(
                alias_table(lines(alias_output@)),
                opt_text(gitconfig),
            ),
    {
        let table = GitConfig::parse_alias_table(alias_output);
        GitConfig { sections: GitConfig::parse_sections_from_gitconfig(&table, gitconfig) }
    }

}

/// Reading a name back from the alias table gives the command last inserted
/// under it; the other names keep their commands.
pub proof fn lemma_table_insert_get(t: Seq<AliasEntry>, k: Seq<char>, c: Seq<char>, k2: Seq<char>)
    ensures
        table_get(sorted_insert(t, k, c), k2) == if k2 == k {
            Some(c)
        } else {
            table_get(t, k2)
        },
    decreases t.len(),
{
    if t.len() > 0 && t[0].0 != k && !seq_lt(k, t[0].0) {
        lemma_table_insert_get(t.drop_first(), k, c, k2);
        let r = seq![t[0]] + sorted_insert(t.drop_first(), k, c);
        assert(sorted_insert(t, k, c) == r);
        assert(r.drop_first() =~= sorted_insert(t.drop_first(), k, c));
        assert(r[0] == t[0]);
        assert(table_get(r, k2) == if t[0].0 == k2 {
            Some(t[0].1)
        } else {
            table_get(r.drop_first(), k2)
        });
    } else if t.len() > 0 && t[0].0 == k {
        let r = seq![(k, c)] + t.drop_first();
        assert(sorted_insert(t, k, c) == r);
        assert(r.drop_first() =~= t.drop_first());
        assert(r[0] == (k, c));
        assert(table_get(r, k2) == if k2 == k { Some(c) } else { table_get(r.drop_first(), k2) });
        assert(table_get(t, k2) == if t[0].0 == k2 { Some(t[0].1) } else { table_get(t.drop_first(), k2) });
    } else if t.len() > 0 {
        let r = seq![(k, c)] + t;
        assert(sorted_insert(t, k, c) == r);
        assert(r.drop_first() =~= t);
        assert(r[0] == (k, c));
        assert(table_get(r, k2) == if k2 == k { Some(c) } else { table_get(r.drop_first(), k2) });
    } else {
        assert(seq![(k, c)].drop_first() =~= Seq::<AliasEntry>::empty());
        assert(sorted_insert(t, k, c) == seq![(k, c)]);
        assert(seq![(k, c)][0] == (k, c));
        assert(table_get(Seq::<AliasEntry>::empty(), k2) is None);
    }
}

} // verus!
