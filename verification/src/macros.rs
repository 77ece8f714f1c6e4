//! Crafting macros as the game's macro editor writes them.
//!
//! A macro is a text of lines. A line holds an action if, after leading
//! blanks, it begins with `/ac` or `/action` and a blank. The name of the
//! action follows: in double quotes, or bare, and then it ends before the
//! first `<`. After the name the line may give the wait in seconds, as
//! `<wait.3>`. All other lines are passed over.

use crate::task::action_views;
use crate::task::Action;
use crate::task::ActionView;
use crate::text::chars_of;
use crate::text::digits_value;
use crate::text::leading_digits;
use crate::text::read_number;
use crate::text::text_between;
use vstd::prelude::*;

verus! {

/// Whether `c` is a blank: a space, a tab or a carriage return.
pub open spec fn is_blank(c: char) -> bool {
    c == ' ' || c == '\t' || c == '\r'
}

/// `s` without the blanks that it begins with.
pub open spec fn skip_blanks(s: Seq<char>) -> Seq<char>
    decreases s.len(),
{
    if s.len() > 0 && is_blank(s[0]) {
        skip_blanks(s.drop_first())
    } else {
        s
    }
}

/// `s` without the blanks that it ends with.
pub open spec fn trim_end(s: Seq<char>) -> Seq<char>
    decreases s.len(),
{
    if s.len() > 0 && is_blank(s.last()) {
        trim_end(s.drop_last())
    } else {
        s
    }
}

/// Whether `s` begins with `prefix`.
pub open spec fn starts_with(s: Seq<char>, prefix: Seq<char>) -> bool {
    prefix.len() <= s.len() && s.take(prefix.len() as int) == prefix
}

/// The position of the first `c` in `s`; the length of `s` if there is
/// none.
pub open spec fn index_of(s: Seq<char>, c: char) -> int
    decreases s.len(),
{
    if s.len() == 0 || s[0] == c {
        0
    } else {
        1 + index_of(s.drop_first(), c)
    }
}

/// `n`, or the largest number of 64 bits if `n` is larger.
pub open spec fn capped(n: nat) -> nat {
    if n <= u64::MAX {
        n
    } else {
        u64::MAX as nat
    }
}

/// What follows `word` and the blanks behind it, if `body` begins with
/// `word` and a blank.
pub open spec fn after_word(body: Seq<char>, word: Seq<char>) -> Option<Seq<char>> {
    if starts_with(body, word) && body.len() > word.len() && is_blank(body[word.len() as int]) {
        Some(skip_blanks(body.skip(word.len() as int)))
    } else {
        None
    }
}

/// What follows the command of an action line; `None` for any other line.
pub open spec fn command_rest(line: Seq<char>) -> Option<Seq<char>> {
    let body = skip_blanks(line);
    match after_word(body, "/ac"@) {
        Some(rest) => Some(rest),
        None => after_word(body, "/action"@),
    }
}

/// Whether the name that `rest` begins with is in double quotes.
pub open spec fn is_quoted(rest: Seq<char>) -> bool {
    rest.len() > 0 && rest[0] == '"'
}

/// The name that `rest` begins with. A quoted name ends before the next
/// double quote, or with the line if there is none. A bare name ends before
/// the first `<`, or with the line, and has no blanks at its end.
pub open spec fn name_of(rest: Seq<char>) -> Seq<char> {
    if is_quoted(rest) {
        rest.drop_first().take(index_of(rest.drop_first(), '"'))
    } else {
        trim_end(rest.take(index_of(rest, '<')))
    }
}

/// What follows the name that `rest` begins with.
pub open spec fn after_name(rest: Seq<char>) -> Seq<char> {
    if is_quoted(rest) {
        let inner = rest.drop_first();
        if index_of(inner, '"') < inner.len() {
            inner.skip(index_of(inner, '"') + 1)
        } else {
            Seq::empty()
        }
    } else {
        rest.skip(index_of(rest, '<'))
    }
}

/// The wait that `tail` gives: the number behind `<wait.`, where `tail`
/// begins with that after its blanks, and 0 where it does not. A number
/// that does not fit in 64 bits counts as the largest that does.
pub open spec fn wait_of(tail: Seq<char>) -> nat {
    let mark = skip_blanks(tail);
    if starts_with(mark, "<wait."@) {
        capped(digits_value(leading_digits(mark.skip("<wait."@.len() as int))))
    } else {
        0
    }
}

/// The action that `line` holds, if it holds one. A line whose name is
/// empty holds none.
pub open spec fn line_action(line: Seq<char>) -> Option<ActionView> {
    match command_rest(line) {
        None => None,
        Some(rest) => if name_of(rest).len() == 0 {
            None
        } else {
            Some(ActionView { name: name_of(rest), wait: wait_of(after_name(rest)) })
        },
    }
}

/// The actions of the macro `text`, line by line. Lines end with a line
/// feed; the last one ends with the text.
pub open spec fn macro_actions(text: Seq<char>) -> Seq<ActionView>
    decreases text.len(),
{
    let end = index_of(text, '\n');
    let first = match line_action(text.take(end)) {
        Some(action) => seq![action],
        None => Seq::empty(),
    };
    if 0 <= end < text.len() {
        first + macro_actions(text.skip(end + 1))
    } else {
        first
    }
}

/// Whether `c` is a blank.
fn blank(c: char) -> (res: bool)
    ensures
        res == is_blank(c),
{
    c == ' ' || c == '\t' || c == '\r'
}

/// The first position at or behind `from` that holds no blank.
fn skip_blanks_from(line: &Vec<char>, from: usize) -> (res: usize)
    requires
        from <= line.len(),
    ensures
        from <= res <= line.len(),
        line@.skip(res as int) == skip_blanks(line@.skip(from as int)),
{
    let mut i: usize = from;
    while i < line.len() && blank(line[i])
        invariant
            from <= i <= line.len(),
            skip_blanks(line@.skip(i as int)) == skip_blanks(line@.skip(from as int)),
        decreases line.len() - i,
    {
        assert(line@.skip(i as int).drop_first() == line@.skip(i as int + 1));
        i = i + 1;
    }
    i
}

/// The first position at or behind `from` that holds `c`; the length of
/// the line if there is none.
fn find_from(line: &Vec<char>, c: char, from: usize) -> (res: usize)
    requires
        from <= line.len(),
    ensures
        from <= res <= line.len(),
        res - from == index_of(line@.skip(from as int), c),
{
    let mut i: usize = from;
    while i < line.len() && line[i] != c
        invariant
            from <= i <= line.len(),
            index_of(line@.skip(from as int), c) == (i - from) + index_of(
                line@.skip(i as int),
                c,
            ),
        decreases line.len() - i,
    {
        assert(line@.skip(i as int).drop_first() == line@.skip(i as int + 1));
        i = i + 1;
    }
    i
}

/// The end of the part of the line from `from` to `to` once the blanks at
/// its end are cut off.
fn trim_end_to(line: &Vec<char>, from: usize, to: usize) -> (res: usize)
    requires
        from <= to <= line.len(),
    ensures
        from <= res <= to,
        line@.subrange(from as int, res as int) == trim_end(line@.subrange(from as int, to as int)),
{
    let mut i: usize = to;
    while i > from && blank(line[i - 1])
        invariant
            from <= i <= to <= line.len(),
            trim_end(line@.subrange(from as int, i as int)) == trim_end(
                line@.subrange(from as int, to as int),
            ),
        decreases i,
    {
        assert(line@.subrange(from as int, i as int).drop_last() == line@.subrange(
            from as int,
            i as int - 1,
        ));
        i = i - 1;
    }
    i
}

/// The position behind `word`, if the line holds `word` at `from`.
fn prefix_at(line: &Vec<char>, from: usize, word: &str) -> (res: Option<usize>)
    requires
        from <= line.len(),
    ensures
        match res {
            Some(at) => starts_with(line@.skip(from as int), word@) && at == from + word@.len(),
            None => !starts_with(line@.skip(from as int), word@),
        },
{
    let letters = chars_of(word);
    if line.len() - from < letters.len() {
        return None;
    }
    let ghost rest = line@.skip(from as int);
    for i in 0..letters.len()
        invariant
            letters@ == word@,
            letters.len() <= line.len() - from,
            rest == line@.skip(from as int),
            forall|j: int| 0 <= j < i ==> rest[j] == letters@[j],
    {
        if line[from + i] != letters[i] {
            return None;
        }
    }
    assert(rest.take(letters@.len() as int) == letters@);
    Some(from + letters.len())
}

/// The position behind `word` and the blanks that follow it, if the line
/// holds `word` and a blank at `from`.
fn after_word_at(line: &Vec<char>, from: usize, word: &str) -> (res: Option<usize>)
    requires
        from <= line.len(),
    ensures
        match res {
            Some(at) => at <= line.len() && after_word(line@.skip(from as int), word@) == Some(
                line@.skip(at as int),
            ),
            None => after_word(line@.skip(from as int), word@) is None,
        },
{
    match prefix_at(line, from, word) {
        None => None,
        Some(at) => {
            if at < line.len() && blank(line[at]) {
                assert(line@.skip(from as int).skip(at - from) == line@.skip(at as int));
                Some(skip_blanks_from(line, at))
            } else {
                None
            }
        },
    }
}

/// The wait that the line gives at `from`.
fn wait_at(line: &Vec<char>, from: usize) -> (res: u64)
    requires
        from <= line.len(),
    ensures
        res == wait_of(line@.skip(from as int)),
{
    let mark = skip_blanks_from(line, from);
    match prefix_at(line, mark, "<wait.") {
        None => 0,
        Some(number) => {
            assert(line@.skip(mark as int).skip(number - mark) == line@.skip(number as int));
            match read_number(line, number).1 {
                Some(wait) => wait,
                None => u64::MAX,
            }
        },
    }
}

/// Reads one line of a macro.
pub fn parse_line(line: &Vec<char>) -> (res: Option<Action>)
    ensures
        match res {
            Some(action) => line_action(line@) == Some(action@),
            None => line_action(line@) is None,
        },
{
    assert(line@.skip(0) == line@);
    let body = skip_blanks_from(line, 0);
    let rest = match after_word_at(line, body, "/ac") {
        Some(at) => at,
        None => match after_word_at(line, body, "/action") {
            Some(at) => at,
            None => {
                return None;
            },
        },
    };
    let ghost tail = line@.skip(rest as int);
    let len = line.len();
    let name_from: usize;
    let name_to: usize;
    let tail_from: usize;
    if rest < len && line[rest] == '"' {
        name_from = rest + 1;
        name_to = find_from(line, '"', rest + 1);
        tail_from = if name_to < len {
            name_to + 1
        } else {
            len
        };
        assert(tail.drop_first() == line@.skip(rest as int + 1));
    } else {
        let stop = find_from(line, '<', rest);
        name_from = rest;
        name_to = trim_end_to(line, rest, stop);
        tail_from = stop;
        assert(tail.take(stop - rest) == line@.subrange(rest as int, stop as int));
    }
    assert(name_of(tail) == line@.subrange(name_from as int, name_to as int));
    assert(after_name(tail) == line@.skip(tail_from as int));
    if name_from == name_to {
        return None;
    }
    let name = text_between(line, name_from, name_to);
    let wait = wait_at(line, tail_from);
    Some(Action { name, wait })
}

/// The characters of `chars` from position `from` up to, but not
/// including, position `to`.
fn line_between(chars: &Vec<char>, from: usize, to: usize) -> (res: Vec<char>)
    requires
        from <= to <= chars.len(),
    ensures
        res@ == chars@.subrange(from as int, to as int),
{
    let mut res: Vec<char> = Vec::new();
    let mut i: usize = from;
    while i < to
        invariant
            from <= i <= to <= chars.len(),
            res@ == chars@.subrange(from as int, i as int),
        decreases to - i,
    {
        res.push(chars[i]);
        i = i + 1;
    }
    res
}

/// Reads a macro: the actions that its lines hold, in order.
pub fn parse(text: &str) -> (res: Vec<Action>)
    ensures
        action_views(res@) == macro_actions(text@),
{
    let chars = chars_of(text);
    let len = chars.len();
    let mut actions: Vec<Action> = Vec::new();
    let mut start: usize = 0;
    let mut end: usize = find_from(&chars, '\n', 0);
    assert(chars@.skip(0) == chars@);
    while end < len
        invariant
            start <= end <= len,
            len == chars.len(),
            end - start == index_of(chars@.skip(start as int), '\n'),
            action_views(actions@) + macro_actions(chars@.skip(start as int)) == macro_actions(
                chars@,
            ),
        decreases len - start,
    {
        let line = line_between(&chars, start, end);
        proof {
            let rest = chars@.skip(start as int);
            assert(rest.take(end - start) == line@);
            assert(rest.skip(end - start + 1) == chars@.skip(end as int + 1));
        }
        match parse_line(&line) {
            Some(action) => {
                actions.push(action);
            },
            None => {},
        }
        start = end + 1;
        end = find_from(&chars, '\n', start);
    }
    let line = line_between(&chars, start, end);
    assert(chars@.skip(start as int).take(end - start) == line@);
    match parse_line(&line) {
        Some(action) => {
            actions.push(action);
        },
        None => {},
    }
    actions
}

} // verus!
