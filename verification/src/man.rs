//! From a command line to the name of its manual page.

use vstd::prelude::*;
use crate::text::{
    chars_of,
    find_at,
    first_index,
    starts_with,
    trim_end_at,
    trim_spec,
    trim_start_at,
    trim_start_spec,
};

verus! {

/// `s` with every `from` replaced by `to`.
pub open spec fn replace_spec(s: Seq<char>, from: char, to: char) -> Seq<char> {
    Seq::new(
        s.len(),
        |i: int|
            if s[i] == from {
                to
            } else {
                s[i]
            },
    )
}

/// The word that asks for elevated rights.
pub open spec fn sudo_word() -> Seq<char> {
    seq!['s', 'u', 'd', 'o']
}

/// A line without what escapes or quotes its first word. A leading
/// backslash goes. A leading quote goes together with the quote that closes
/// it, where that one ends the word; otherwise both stay.
pub open spec fn unquote_spec(line: Seq<char>) -> Seq<char> {
    if line.len() == 0 {
        line
    } else {
        let quote = line[0];
        let rest = line.drop_first();
        if quote == '\\' {
            rest
        } else if quote == '\'' || quote == '"' {
            let i = first_index(rest, quote);
            if i < rest.len() && (i + 1 == rest.len() || rest[i + 1] == ' ') {
                rest.take(i) + rest.skip(i + 1)
            } else {
                line
            }
        } else {
            line
        }
    }
}

/// The manual page for a command line: the line without surrounding white
/// space, without a leading `sudo`, without the quoting of its first word,
/// and with a hyphen for each space.
pub open spec fn find_man_spec(command_line: Seq<char>) -> Seq<char> {
    let line = trim_spec(command_line);
    let line = if sudo_word().is_prefix_of(line) {
        line.skip(4)
    } else {
        line
    };
    let line = trim_start_spec(line);
    replace_spec(unquote_spec(line), ' ', '-')
}

/// Appends `v[from..to]` to `out`, with a hyphen for each space.
fn push_hyphenated(out: &mut String, v: &Vec<char>, from: usize, to: usize)
    requires
        from <= to <= v.len(),
    ensures
        final(out)@ == old(out)@ + replace_spec(v@.subrange(from as int, to as int), ' ', '-'),
{
    let mut i: usize = from;
    assert(replace_spec(v@.subrange(from as int, from as int), ' ', '-') =~= Seq::<char>::empty());
    assert(out@ + Seq::<char>::empty() =~= out@);
    while i < to
        invariant
            from <= i <= to <= v.len(),
            out@ == old(out)@ + replace_spec(v@.subrange(from as int, i as int), ' ', '-'),
        decreases to - i,
    {
        let c = if v[i] == ' ' {
            '-'
        } else {
            v[i]
        };
        out.push(c);
        proof {
            assert(replace_spec(v@.subrange(from as int, i as int), ' ', '-').push(c)
                =~= replace_spec(v@.subrange(from as int, i as int + 1), ' ', '-'));
            assert((old(out)@ + replace_spec(v@.subrange(from as int, i as int), ' ', '-')).push(c)
                =~= old(out)@ + replace_spec(v@.subrange(from as int, i as int + 1), ' ', '-'));
        }
        i += 1;
    }
}

/// Appends `v[from..to]` to `out`, unquoted and with a hyphen for each
/// space.
fn push_unquoted(out: &mut String, v: &Vec<char>, from: usize, to: usize)
    requires
        from <= to <= v.len(),
    ensures
        final(out)@ == old(out)@ + replace_spec(
            unquote_spec(v@.subrange(from as int, to as int)),
            ' ',
            '-',
        ),
{
    let ghost line = v@.subrange(from as int, to as int);
    if from == to {
        assert(replace_spec(line, ' ', '-') =~= Seq::<char>::empty());
        assert(out@ + Seq::<char>::empty() =~= out@);
        return ;
    }
    let quote = v[from];
    assert(line[0] == quote);
    let ghost rest = line.drop_first();
    assert(rest == v@.subrange(from as int + 1, to as int));
    if quote == '\\' {
        push_hyphenated(out, v, from + 1, to);
        return ;
    }
    if quote == '\'' || quote == '"' {
        let i = find_at(v, quote, from + 1, to);
        if i < to && (i + 1 == to || v[i + 1] == ' ') {
            let ghost k = i - (from + 1);
            assert(rest.take(k) == v@.subrange(from as int + 1, i as int));
            assert(rest.skip(k + 1) == v@.subrange(i as int + 1, to as int));
            assert(i + 1 < to ==> rest[k + 1] == v[i as int + 1]);
            push_hyphenated(out, v, from + 1, i);
            push_hyphenated(out, v, i + 1, to);
            assert(replace_spec(rest.take(k), ' ', '-') + replace_spec(rest.skip(k + 1), ' ', '-')
                =~= replace_spec(rest.take(k) + rest.skip(k + 1), ' ', '-'));
            assert(out@ =~= old(out)@ + replace_spec(
                rest.take(k) + rest.skip(k + 1),
                ' ',
                '-',
            ));
            return ;
        }
        assert(i + 1 < to ==> rest[i - (from + 1) + 1] == v[i as int + 1]);
    }
    push_hyphenated(out, v, from, to);
}

/// Derives the name of the manual page from a command line.
pub fn find_man(command_line: String) -> (page: String)
    ensures
        page@ == find_man_spec(command_line@),
{
    let v = chars_of(command_line.as_str());
    let n = v.len();
    assert(v@.subrange(0, n as int) == v@);
    let a = trim_start_at(&v, 0, n);
    let b = trim_end_at(&v, a, n);
    let sudo = vec!['s', 'u', 'd', 'o'];
    assert(sudo@ =~= sudo_word());
    let a = if starts_with(&v, a, b, &sudo) {
        assert(v@.subrange(a as int, b as int).skip(4) == v@.subrange(a as int + 4, b as int));
        a + 4
    } else {
        a
    };
    let c = trim_start_at(&v, a, b);
    let mut page = String::new();
    push_unquoted(&mut page, &v, c, b);
    assert(Seq::<char>::empty() + find_man_spec(command_line@) =~= find_man_spec(command_line@));
    page
}

} // verus!
