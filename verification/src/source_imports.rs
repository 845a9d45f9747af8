//! The `import` lines of a proof source, found line by line before the
//! source reaches the Human API.
use vstd::prelude::*;

use crate::text::{
    chars_from, chars_of, concat_all, insert_sorted_unique, is_whitespace, is_ws, non_empty, pieces,
    sorted_unique, string_from_chars, string_views, trim_start, trim_start_chars, views,
};

verus! {

/// The keyword that starts an import line.
pub open spec fn import_keyword() -> Seq<char> {
    seq!['i', 'm', 'p', 'o', 'r', 't']
}

/// The separator test for lines.
pub open spec fn newline_sep() -> spec_fn(char) -> bool {
    |c: char| c == '\n'
}

/// The separator test for words.
pub open spec fn whitespace_sep() -> spec_fn(char) -> bool {
    |c: char| is_ws(c)
}

/// The lines of `s`, split at each newline. A carriage return before a
/// newline stays at the end of its line; it is whitespace, so no import
/// name ever holds it.
pub open spec fn source_lines(s: Seq<char>) -> Seq<Seq<char>> {
    pieces(s, newline_sep())
}

/// The whitespace-separated words of `s`.
pub open spec fn source_words(s: Seq<char>) -> Seq<Seq<char>> {
    non_empty(pieces(s, whitespace_sep()))
}

/// The import names that one line declares: none unless the line, after
/// its leading whitespace, starts with the keyword `import` followed by
/// whitespace or by nothing; then the words after the keyword, or the empty
/// name when there are none.
pub open spec fn line_import_names(line: Seq<char>) -> Seq<Seq<char>> {
    let t = trim_start(line);
    if t.len() >= 6 && t.take(6) == import_keyword() {
        let rest = t.skip(6);
        if rest.len() == 0 || is_ws(rest[0]) {
            let ws = source_words(rest);
            if ws.len() == 0 {
                seq![Seq::<char>::empty()]
            } else {
                ws
            }
        } else {
            Seq::<Seq<char>>::empty()
        }
    } else {
        Seq::<Seq<char>>::empty()
    }
}

/// The import names that the lines of `source` declare, line after line.
pub open spec fn import_line_names(source: Seq<char>) -> Seq<Seq<char>> {
    concat_all(source_lines(source).map_values(|line: Seq<char>| line_import_names(line)))
}

/// The pieces of `s` between separators: newlines when `newline`, else
/// whitespace characters.
fn split_pieces(s: &Vec<char>, newline: bool) -> (r: Vec<Vec<char>>)
    ensures
        views(r@) == pieces(s@, if newline {
            newline_sep()
        } else {
            whitespace_sep()
        }),
{
    let ghost sep = if newline {
        newline_sep()
    } else {
        whitespace_sep()
    };
    let mut done: Vec<Vec<char>> = Vec::new();
    let mut cur: Vec<char> = Vec::new();
    let mut i: usize = 0;
    assert(s@.take(0) =~= Seq::<char>::empty());
    while i < s.len()
        invariant
            i <= s.len(),
            sep == (if newline {
                newline_sep()
            } else {
                whitespace_sep()
            }),
            views(done@).push(cur@) == pieces(s@.take(i as int), sep),
        decreases s.len() - i,
    {
        let c = s[i];
        let is_sep = if newline {
            c == '\n'
        } else {
            is_whitespace(c)
        };
        assert(is_sep == sep(c));
        let ghost before = views(done@).push(cur@);
        assert(s@.take(i + 1).drop_last() =~= s@.take(i as int));
        assert(s@.take(i + 1).last() == c);
        if is_sep {
            let piece = cur;
            done.push(piece);
            cur = Vec::new();
            assert(views(done@).push(cur@) =~= before.push(Seq::<char>::empty()));
        } else {
            cur.push(c);
            assert(views(done@).push(cur@) =~= before.update(
                before.len() - 1,
                before.last().push(c),
            ));
        }
        i += 1;
    }
    assert(s@.take(i as int) =~= s@);
    let piece = cur;
    done.push(piece);
    assert(views(done@) =~= pieces(s@, sep));
    done
}

/// The elements of `v` that are not empty.
fn drop_empty(v: Vec<Vec<char>>) -> (r: Vec<Vec<char>>)
    ensures
        views(r@) == non_empty(views(v@)),
{
    let mut r: Vec<Vec<char>> = Vec::new();
    let mut i: usize = 0;
    while i < v.len()
        invariant
            i <= v.len(),
            views(r@) == non_empty(views(v@).take(i as int)),
        decreases v.len() - i,
    {
        assert(views(v@).take(i + 1).drop_last() =~= views(v@).take(i as int));
        assert(views(v@).take(i + 1).last() == v@[i as int]@);
        if v[i].len() > 0 {
            let w = v[i].clone();
            r.push(w);
            assert(views(r@) =~= non_empty(views(v@).take(i as int)).push(v@[i as int]@));
        }
        i += 1;
    }
    assert(views(v@).take(i as int) =~= views(v@));
    r
}

/// The whitespace-separated words of `s`.
fn words_of(s: &Vec<char>) -> (r: Vec<Vec<char>>)
    ensures
        views(r@) == source_words(s@),
{
    let ps = split_pieces(s, false);
    drop_empty(ps)
}

/// The import names that one line declares.
fn line_names(line: &Vec<char>) -> (r: Vec<Vec<char>>)
    ensures
        views(r@) == line_import_names(line@),
{
    let t = trim_start_chars(line);
    let is_import = t.len() >= 6 && t[0] == 'i' && t[1] == 'm' && t[2] == 'p' && t[3] == 'o'
        && t[4] == 'r' && t[5] == 't';
    proof {
        if t@.len() >= 6 {
            if is_import {
                assert(t@.take(6) =~= import_keyword());
            } else {
                assert(t@.take(6) != import_keyword()) by {
                    if t@.take(6) == import_keyword() {
                        assert(t@.take(6)[0] == 'i');
                        assert(t@.take(6)[1] == 'm');
                        assert(t@.take(6)[2] == 'p');
                        assert(t@.take(6)[3] == 'o');
                        assert(t@.take(6)[4] == 'r');
                        assert(t@.take(6)[5] == 't');
                    }
                }
            }
        }
    }
    if !is_import {
        let r: Vec<Vec<char>> = Vec::new();
        assert(views(r@) =~= Seq::<Seq<char>>::empty());
        return r;
    }
    let rest = chars_from(&t, 6);
    assert(rest@ =~= t@.skip(6));
    if rest.len() == 0 || is_whitespace(rest[0]) {
        let ws = words_of(&rest);
        if ws.len() == 0 {
            let mut r: Vec<Vec<char>> = Vec::new();
            r.push(Vec::new());
            assert(views(r@) =~= seq![Seq::<char>::empty()]);
            r
        } else {
            ws
        }
    } else {
        let r: Vec<Vec<char>> = Vec::new();
        assert(views(r@) =~= Seq::<Seq<char>>::empty());
        r
    }
}

/// The strings holding the character sequences of `v`.
pub fn strings_of(v: &Vec<Vec<char>>) -> (r: Vec<String>)
    ensures
        string_views(r@) == views(v@),
{
    let mut r: Vec<String> = Vec::new();
    let mut i: usize = 0;
    while i < v.len()
        invariant
            i <= v.len(),
            r@.len() == i,
            string_views(r@) == views(v@).take(i as int),
        decreases v.len() - i,
    {
        let s = string_from_chars(&v[i]);
        assert(s@ == views(v@)[i as int]);
        let ghost prev = r@;
        r.push(s);
        assert forall|k: int| 0 <= k < i + 1 implies #[trigger] string_views(r@)[k] == views(
            v@,
        ).take(i + 1)[k] by {
            if k < i {
                assert(string_views(prev)[k] == views(v@).take(i as int)[k]);
                assert(r@[k] == prev[k]);
            }
        }
        assert(string_views(r@) =~= views(v@).take(i + 1));
        i += 1;
    }
    assert(views(v@).take(i as int) =~= views(v@));
    r
}

/// The import names that the lines of `source` declare, as character
/// sequences.
pub fn import_line_name_chars(source: &str) -> (r: Vec<Vec<char>>)
    ensures
        views(r@) == import_line_names(source@),
{
    let chars = chars_of(source);
    let ls = split_pieces(&chars, true);
    let ghost f = |line: Seq<char>| line_import_names(line);
    let ghost lv = views(ls@);
    let mut r: Vec<Vec<char>> = Vec::new();
    let mut i: usize = 0;
    assert(lv.map_values(f).take(0) =~= Seq::<Seq<Seq<char>>>::empty());
    while i < ls.len()
        invariant
            i <= ls.len(),
            lv == views(ls@),
            lv == source_lines(source@),
            f == (|line: Seq<char>| line_import_names(line)),
            views(r@) == concat_all(lv.map_values(f).take(i as int)),
        decreases ls.len() - i,
    {
        let names = line_names(&ls[i]);
        let ghost prev = views(r@);
        let mut j: usize = 0;
        while j < names.len()
            invariant
                j <= names.len(),
                r@.len() == prev.len() + j,
                views(r@) == prev + views(names@).take(j as int),
            decreases names.len() - j,
        {
            let n = names[j].clone();
            assert(n@ =~= names@[j as int]@);
            let ghost before = r@;
            r.push(n);
            assert forall|k: int| 0 <= k < views(r@).len() implies #[trigger] views(r@)[k] == (prev
                + views(names@).take(j + 1))[k] by {
                if k < views(before).len() {
                    assert(views(before)[k] == (prev + views(names@).take(j as int))[k]);
                    assert(r@[k] == before[k]);
                }
            }
            assert(views(r@) =~= prev + views(names@).take(j + 1));
            j += 1;
        }
        assert(views(names@).take(j as int) =~= views(names@));
        assert(lv.map_values(f).take(i + 1).drop_last() =~= lv.map_values(f).take(i as int));
        assert(lv.map_values(f).take(i + 1).last() == f(lv[i as int]));
        i += 1;
    }
    assert(lv.map_values(f).take(i as int) =~= lv.map_values(f));
    r
}

/// The import names that the lines of `source` declare, line after line,
/// each line's names in the order they stand in.
pub fn source_import_line_names(source: &str) -> (r: Vec<String>)
    ensures
        string_views(r@) == import_line_names(source@),
{
    let v = import_line_name_chars(source);
    strings_of(&v)
}

/// The import names of `source`: those of its import lines together with
/// `parsed`, the modules that the Human parser found imported, sorted and
/// each named once.
pub fn source_import_names(source: &str, parsed: &Vec<String>) -> (r: Vec<String>)
    ensures
        sorted_unique(string_views(r@)),
        string_views(r@).to_set() == import_line_names(source@).to_set().union(
            string_views(parsed@).to_set(),
        ),
{
    let line = import_line_name_chars(source);
    let mut acc: Vec<Vec<char>> = Vec::new();
    let mut i: usize = 0;
    assert(views(acc@).to_set() =~= views(line@).take(0).to_set());
    while i < line.len()
        invariant
            i <= line.len(),
            sorted_unique(views(acc@)),
            views(acc@).to_set() == views(line@).take(i as int).to_set(),
        decreases line.len() - i,
    {
        let x = line[i].clone();
        insert_sorted_unique(&mut acc, x);
        assert(views(line@).take(i + 1) =~= views(line@).take(i as int).push(line@[i as int]@));
        assert(views(line@).take(i + 1).to_set() =~= views(line@).take(i as int).to_set().insert(
            line@[i as int]@,
        )) by {
            lemma_push_to_set(views(line@).take(i as int), line@[i as int]@);
        }
        i += 1;
    }
    assert(views(line@).take(i as int) =~= views(line@));
    let mut k: usize = 0;
    let ghost base = views(acc@).to_set();
    assert(string_views(parsed@).take(0).to_set() =~= Set::<Seq<char>>::empty());
    while k < parsed.len()
        invariant
            k <= parsed.len(),
            sorted_unique(views(acc@)),
            views(acc@).to_set() == base.union(string_views(parsed@).take(k as int).to_set()),
        decreases parsed.len() - k,
    {
        let x = chars_of(parsed[k].as_str());
        insert_sorted_unique(&mut acc, x);
        assert(string_views(parsed@).take(k + 1) =~= string_views(parsed@).take(k as int).push(
            parsed@[k as int]@,
        ));
        proof {
            lemma_push_to_set(string_views(parsed@).take(k as int), parsed@[k as int]@);
        }
        assert(views(acc@).to_set() =~= base.union(string_views(parsed@).take(k + 1).to_set()));
        k += 1;
    }
    assert(string_views(parsed@).take(k as int) =~= string_views(parsed@));
    assert(views(line@) == import_line_names(source@));
    strings_of(&acc)
}

/// Pushing an element adds it to the set of elements.
pub proof fn lemma_push_to_set<A>(s: Seq<A>, x: A)
    ensures
        s.push(x).to_set() == s.to_set().insert(x),
{
    assert forall|e: A| s.push(x).to_set().contains(e) <==> s.to_set().insert(x).contains(e) by {
        if s.push(x).contains(e) {
            let k = choose|k: int| 0 <= k < s.push(x).len() && s.push(x)[k] == e;
            if k < s.len() {
                assert(s[k] == e);
            }
        }
        if s.contains(e) {
            let k = choose|k: int| 0 <= k < s.len() && s[k] == e;
            assert(s.push(x)[k] == e);
        }
        if e == x {
            assert(s.push(x)[s.len() as int] == e);
        }
    }
    assert(s.push(x).to_set() =~= s.to_set().insert(x));
}

} // verus!
