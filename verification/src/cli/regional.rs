use crate::cli::wizard::Menu;
use crate::text::{
    owned, split_newlines, split_newlines_exec, split_whitespace, str_eq, to_chars, trim, trim_bounds, trimmed, views,
    words,
};
use vstd::prelude::*;

verus! {

/// The lines of a listing, trimmed, without the blank ones.
pub open spec fn nonblank_lines(lines: Seq<Seq<char>>) -> Seq<Seq<char>>
    decreases lines.len(),
{
    if lines.len() == 0 {
        Seq::empty()
    } else {
        let t = trim(lines.last());
        nonblank_lines(lines.drop_last()) + if t.len() > 0 { seq![t] } else { Seq::empty() }
    }
}

/// The first word of each line that has one.
pub open spec fn first_words(lines: Seq<Seq<char>>) -> Seq<Seq<char>>
    decreases lines.len(),
{
    if lines.len() == 0 {
        Seq::empty()
    } else {
        let w = words(lines.last());
        first_words(lines.drop_last()) + if w.len() > 0 { seq![w[0]] } else { Seq::empty() }
    }
}

/// Where the first run of two spaces starts in `s` at or after `k`, or the
/// length of `s` when there is none.
pub open spec fn double_space_from(s: Seq<char>, k: int) -> int
    decreases s.len() - k,
{
    if k < 0 || k + 1 >= s.len() {
        s.len() as int
    } else if s[k] == ' ' && s[k + 1] == ' ' {
        k
    } else {
        double_space_from(s, k + 1)
    }
}

/// The first column of a table row whose columns are set apart by two or
/// more spaces, trimmed.
pub open spec fn first_column(line: Seq<char>) -> Seq<char> {
    trim(line.take(double_space_from(line, 0)))
}

/// The rows of a listing after its two header lines.
pub open spec fn after_header(lines: Seq<Seq<char>>) -> Seq<Seq<char>> {
    if lines.len() >= 2 {
        lines.skip(2)
    } else {
        Seq::empty()
    }
}

/// The choices that a regional menu offers from the listing the system
/// gives for it: one timezone or keymap per non-blank line, the first word of
/// each line of the supported-locales file, and `Worldwide` followed by the
/// country column of the mirror country table.
pub open spec fn listed_choices(menu: Menu, listing: Seq<char>) -> Seq<Seq<char>> {
    match menu {
        Menu::Timezone => nonblank_lines(split_newlines(listing)),
        Menu::Keymap => nonblank_lines(split_newlines(listing)),
        Menu::Locale => first_words(split_newlines(listing)),
        _ => seq!["Worldwide"@] + after_header(nonblank_lines(split_newlines(listing))).map_values(
            |l: Seq<char>| first_column(l),
        ),
    }
}

/// The choices, with the current value put first when the listing lacks it.
pub open spec fn with_current(items: Seq<Seq<char>>, current: Seq<char>) -> Seq<Seq<char>> {
    if items.contains(current) {
        items
    } else {
        seq![current] + items
    }
}

fn nonblank_lines_exec(lines: &Vec<String>) -> (r: Vec<String>)
    ensures
        views(r@) == nonblank_lines(views(lines@)),
{
    let ghost lv = views(lines@);
    let mut out: Vec<String> = Vec::new();
    let n = lines.len();
    let mut i: usize = 0;
    while i < n
        invariant
            n == lines@.len(),
            lv == views(lines@),
            i <= n,
            views(out@) == nonblank_lines(lv.take(i as int)),
        decreases n - i,
    {
        assert(lv.take(i + 1).drop_last() =~= lv.take(i as int));
        assert(lv[i as int] == lines@[i as int]@);
        let t = trimmed(lines[i].as_str());
        let ghost prev = out@;
        if t.as_str().unicode_len() > 0 {
            out.push(t);
            assert(views(out@) =~= views(prev) + seq![t@]);
        } else {
            assert(views(prev) + Seq::<Seq<char>>::empty() =~= views(prev));
        }
        i = i + 1;
    }
    assert(lv.take(n as int) =~= lv);
    out
}

fn first_words_exec(lines: &Vec<String>) -> (r: Vec<String>)
    ensures
        views(r@) == first_words(views(lines@)),
{
    let ghost lv = views(lines@);
    let mut out: Vec<String> = Vec::new();
    let n = lines.len();
    let mut i: usize = 0;
    while i < n
        invariant
            n == lines@.len(),
            lv == views(lines@),
            i <= n,
            views(out@) == first_words(lv.take(i as int)),
        decreases n - i,
    {
        assert(lv.take(i + 1).drop_last() =~= lv.take(i as int));
        assert(lv[i as int] == lines@[i as int]@);
        let w = split_whitespace(lines[i].as_str());
        let ghost prev = out@;
        if w.len() > 0 {
            assert(views(w@)[0] == w@[0]@);
            out.push(w[0].clone());
            assert(views(out@) =~= views(prev) + seq![w@[0]@]);
        } else {
            assert(views(prev) + Seq::<Seq<char>>::empty() =~= views(prev));
        }
        i = i + 1;
    }
    assert(lv.take(n as int) =~= lv);
    out
}

/// The first column of a table row.
pub fn first_column_exec(line: &str) -> (r: String)
    ensures
        r@ == first_column(line@),
{
    let chars = to_chars(line);
    let n = chars.len();
    let mut k: usize = 0;
    while k < n && k + 1 < n && !(chars[k] == ' ' && chars[k + 1] == ' ')
        invariant
            chars@ == line@,
            n == chars@.len(),
            k <= n,
            double_space_from(line@, 0) == double_space_from(line@, k as int),
        decreases n - k,
    {
        k = k + 1;
    }
    let end = if k < n && k + 1 < n { k } else { n };
    assert(double_space_from(line@, k as int) == end);
    let (a, b) = trim_bounds(&chars, 0, end);
    assert(chars@.subrange(0, end as int) =~= line@.take(end as int));
    owned(line.substring_char(a, b))
}

fn first_columns(lines: &Vec<String>) -> (r: Vec<String>)
    ensures
        views(r@) == views(lines@).map_values(|l: Seq<char>| first_column(l)),
{
    let mut out: Vec<String> = Vec::new();
    let n = lines.len();
    let mut i: usize = 0;
    while i < n
        invariant
            n == lines@.len(),
            i <= n,
            views(out@) == views(lines@).take(i as int).map_values(|l: Seq<char>| first_column(l)),
        decreases n - i,
    {
        let c = first_column_exec(lines[i].as_str());
        let ghost prev = out@;
        out.push(c);
        assert(views(lines@).take(i + 1) =~= views(lines@).take(i as int).push(lines@[i as int]@));
        assert(views(out@) =~= views(prev).push(c@));
        assert(views(out@) =~= views(lines@).take(i + 1).map_values(|l: Seq<char>| first_column(l)));
        i = i + 1;
    }
    assert(views(lines@).take(n as int) =~= views(lines@));
    out
}

/// The choices a regional menu offers, from the listing the system gave for
/// it (empty when it gave none), with `current` first when it is missing.
pub fn regional_choices(menu: Menu, listing: &str, current: &str) -> (r: Vec<String>)
    requires
        menu == Menu::MirrorRegion || menu == Menu::Timezone || menu == Menu::Locale || menu == Menu::Keymap,
    ensures
        views(r@) == with_current(listed_choices(menu, listing@), current@),
{
    let lines = split_newlines_exec(listing);
    let mut items: Vec<String> = match menu {
        Menu::Locale => first_words_exec(&lines),
        Menu::Timezone => nonblank_lines_exec(&lines),
        Menu::Keymap => nonblank_lines_exec(&lines),
        _ => {
            let rows = nonblank_lines_exec(&lines);
            let mut body: Vec<String> = Vec::new();
            let r = rows.len();
            if r >= 2 {
                let mut i: usize = 2;
                while i < r
                    invariant
                        r == rows@.len(),
                        2 <= i <= r,
                        views(body@) == views(rows@).subrange(2, i as int),
                    decreases r - i,
                {
                    let ghost prev = body@;
                    body.push(rows[i].clone());
                    assert(views(rows@).subrange(2, i + 1) =~= views(rows@).subrange(2, i as int).push(rows@[i as int]@));
                    assert(views(body@) =~= views(prev).push(rows@[i as int]@));
                    i = i + 1;
                }
            }
            assert(views(body@) =~= after_header(views(rows@)));
            let columns = first_columns(&body);
            let mut all: Vec<String> = Vec::new();
            all.push("Worldwide".to_string());
            let ghost first = views(all@);
            let m = columns.len();
            let mut j: usize = 0;
            while j < m
                invariant
                    m == columns@.len(),
                    j <= m,
                    views(all@) == first + views(columns@).take(j as int),
                decreases m - j,
            {
                let ghost prev = all@;
                all.push(columns[j].clone());
                assert(views(columns@).take(j + 1) =~= views(columns@).take(j as int).push(columns@[j as int]@));
                assert(views(all@) =~= views(prev).push(columns@[j as int]@));
                j = j + 1;
            }
            assert(views(columns@).take(m as int) =~= views(columns@));
            proof {
                reveal_strlit("Worldwide");
            }
            assert(views(all@) =~= listed_choices(menu, listing@));
            all
        },
    };
    assert(views(items@) == listed_choices(menu, listing@));
    let ghost listed = views(items@);
    let n = items.len();
    let mut i: usize = 0;
    while i < n
        invariant
            n == items@.len(),
            listed == views(items@),
            listed == listed_choices(menu, listing@),
            i <= n,
            forall|j: int| 0 <= j < i ==> listed[j] != current@,
        decreases n - i,
    {
        if str_eq(items[i].as_str(), current) {
            assert(listed[i as int] == current@);
            assert(listed.contains(current@));
            return items;
        }
        i = i + 1;
    }
    assert(!listed.contains(current@));
    let ghost prev = items@;
    items.insert(0, owned(current));
    assert(views(items@) =~= seq![current@] + views(prev));
    items
}

} // verus!
