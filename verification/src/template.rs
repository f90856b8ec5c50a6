//! Text templates with named placeholders.
//!
//! A placeholder is written `{key}`. Expanding a template replaces each
//! placeholder whose key the scope binds by the bound value, in one pass from
//! left to right; a placeholder with an unbound key, and an opening brace that
//! is never closed, stay as they are.

use vstd::prelude::*;
use vstd::std_specs::iter::IteratorSpec;
use vstd::string::*;
use crate::plain::Plain;

verus! {

/// A named value a template can refer to.
#[derive(Debug, PartialEq, Eq)]
pub struct Param {
    pub key: String,
    pub value: String,
}

/// The mathematical value of a [`Param`].
pub struct ParamView {
    pub key: Seq<char>,
    pub value: Seq<char>,
}

impl DeepView for Param {
    type V = ParamView;

    open spec fn deep_view(&self) -> ParamView {
        ParamView { key: self.key@, value: self.value@ }
    }
}

impl View for Param {
    type V = ParamView;

    open spec fn view(&self) -> ParamView {
        self.deep_view()
    }
}

impl Param {
    /// Binds `key` to `value`.
    pub fn new(key: &str, value: &str) -> (p: Param)
        ensures
            p@ == (ParamView { key: key@, value: value@ }),
    {
        Param { key: String::from_str(key), value: String::from_str(value) }
    }

}

impl Plain for Param {
    fn same(&self, other: &Self) -> (equal: bool) {
        self.key == other.key && self.value == other.value
    }

    fn duplicate(&self) -> (copy: Self) {
        Param { key: self.key.clone(), value: self.value.clone() }
    }
}

/// The value the first binding of `key` in `scope` gives, if any binds it.
pub open spec fn lookup(scope: Seq<ParamView>, key: Seq<char>) -> Option<Seq<char>>
    decreases scope.len(),
{
    if scope.len() == 0 {
        None
    } else if scope[0].key == key {
        Some(scope[0].value)
    } else {
        lookup(scope.drop_first(), key)
    }
}

/// The position of the first `mark` in `text` at or after `from`, or the
/// length of `text` where there is none.
pub open spec fn next_mark(text: Seq<char>, mark: char, from: int) -> int
    decreases text.len() - from,
{
    if from >= text.len() {
        text.len() as int
    } else if from >= 0 && text[from] == mark {
        from
    } else {
        next_mark(text, mark, from + 1)
    }
}

/// The text that `template` expands to under `scope`.
pub open spec fn expand(template: Seq<char>, scope: Seq<ParamView>) -> Seq<char>
    decreases template.len(),
{
    if template.len() == 0 {
        Seq::empty()
    } else if template[0] == '{' {
        let close = next_mark(template, '}', 1);
        if 1 <= close < template.len() {
            let piece = match lookup(scope, template.subrange(1, close)) {
                Some(value) => value,
                None => template.subrange(0, close + 1),
            };
            piece + expand(template.subrange(close + 1, template.len() as int), scope)
        } else {
            template
        }
    } else {
        let open = next_mark(template, '{', 1);
        if 1 <= open <= template.len() {
            template.subrange(0, open) + expand(
                template.subrange(open, template.len() as int),
                scope,
            )
        } else {
            template
        }
    }
}

/// The keys of the placeholders of `template` that `scope` leaves unbound, in
/// the order in which they occur.
pub open spec fn residue(template: Seq<char>, scope: Seq<ParamView>) -> Seq<Seq<char>>
    decreases template.len(),
{
    if template.len() == 0 {
        Seq::empty()
    } else if template[0] == '{' {
        let close = next_mark(template, '}', 1);
        if 1 <= close < template.len() {
            let key = template.subrange(1, close);
            let rest = residue(template.subrange(close + 1, template.len() as int), scope);
            if lookup(scope, key) is None {
                seq![key] + rest
            } else {
                rest
            }
        } else {
            Seq::empty()
        }
    } else {
        let open = next_mark(template, '{', 1);
        if 1 <= open <= template.len() {
            residue(template.subrange(open, template.len() as int), scope)
        } else {
            Seq::empty()
        }
    }
}

/// `next_mark` answers with a position between `from` and the end of the text.
pub proof fn lemma_next_mark_bounds(text: Seq<char>, mark: char, from: int)
    requires
        0 <= from <= text.len(),
    ensures
        from <= next_mark(text, mark, from) <= text.len(),
        next_mark(text, mark, from) < text.len() ==> text[next_mark(text, mark, from)] == mark,
    decreases text.len() - from,
{
    if from < text.len() && text[from] != mark {
        lemma_next_mark_bounds(text, mark, from + 1);
    }
}

/// No key that `scope` binds is left over after expansion.
pub proof fn lemma_residue_is_unbound(template: Seq<char>, scope: Seq<ParamView>, key: Seq<char>)
    requires
        residue(template, scope).contains(key),
    ensures
        lookup(scope, key) is None,
    decreases template.len(),
{
    if template.len() == 0 {
    } else if template[0] == '{' {
        let close = next_mark(template, '}', 1);
        lemma_next_mark_bounds(template, '}', 1);
        if close < template.len() {
            let found = template.subrange(1, close);
            let rest = residue(template.subrange(close + 1, template.len() as int), scope);
            if lookup(scope, found) is None && found == key {
            } else {
                if lookup(scope, found) is None {
                    let i = choose|i: int| 0 <= i < (seq![found] + rest).len() && (seq![found] + rest)[i] == key;
                    assert(i > 0);
                    assert(rest[i - 1] == key);
                }
                lemma_residue_is_unbound(
                    template.subrange(close + 1, template.len() as int),
                    scope,
                    key,
                );
            }
        }
    } else {
        lemma_next_mark_bounds(template, '{', 1);
        lemma_residue_is_unbound(
            template.subrange(next_mark(template, '{', 1), template.len() as int),
            scope,
            key,
        );
    }
}

/// The value the first binding of `key` in `scope` gives, if any binds it.
pub fn find<'a>(scope: &'a Vec<Param>, key: &String) -> (found: Option<&'a String>)
    ensures
        found.deep_view() == lookup(scope.deep_view(), key@),
{
    let mut i: usize = 0;
    assert(scope.deep_view().skip(0) =~= scope.deep_view());
    while i < scope.len()
        invariant
            i <= scope.len(),
            lookup(scope.deep_view(), key@) == lookup(scope.deep_view().skip(i as int), key@),
        decreases scope.len() - i,
    {
        let ghost rest = scope.deep_view().skip(i as int);
        assert(rest[0] == scope[i as int]@);
        assert(rest.drop_first() =~= scope.deep_view().skip(i + 1));
        if scope[i].key == *key {
            return Some(&scope[i].value);
        }
        i = i + 1;
    }
    None
}

/// The characters of `text`, one by one.
pub fn characters(text: &str) -> (chars: Vec<char>)
    ensures
        chars@ == text@,
{
    broadcast use vstd::string::group_string_axioms;

    let n = text.unicode_len();
    let mut chars: Vec<char> = Vec::new();
    let mut rest = text.chars();
    assert(chars@ + rest.remaining() =~= text@);
    loop
        invariant
            n == text@.len(),
            chars@ + rest.remaining() == text@,
            rest.obeys_prophetic_iter_laws(),
        ensures
            chars@ == text@,
        decreases n - chars.len(),
    {
        let ghost before = rest.remaining();
        match rest.next() {
            Some(c) => {
                chars.push(c);
                assert(chars@ + rest.remaining() =~= text@) by {
                    assert(before =~= seq![c] + before.drop_first());
                }
            },
            None => {
                assert(chars@ + before =~= chars@);
                break ;
            },
        }
    }
    chars
}

/// Expands `template` under `scope`.
///
/// Each piece of the result is cut out of the template by counting its
/// characters from the start, so the time this takes grows with the length
/// of the template times the number of its placeholders.
pub fn instantiate(template: &str, scope: &Vec<Param>) -> (text: String)
    ensures
        text@ == expand(template@, scope.deep_view()),
{
    let chars = characters(template);
    let n = chars.len();
    let mut text = String::new();
    let mut i: usize = 0;
    assert(template@.subrange(0, n as int) =~= template@);
    assert(text@ + expand(template@, scope.deep_view()) =~= expand(template@, scope.deep_view()));
    while i < n
        invariant
            i <= n,
            n == template@.len(),
            chars@ == template@,
            text@ + expand(template@.subrange(i as int, n as int), scope.deep_view()) == expand(
                template@,
                scope.deep_view(),
            ),
        decreases n - i,
    {
        let ghost rest = template@.subrange(i as int, n as int);
        let opens = chars[i] == '{';
        let mark = if opens {
            '}'
        } else {
            '{'
        };
        let mut j: usize = i + 1;
        while j < n && chars[j] != mark
            invariant
                i < j <= n,
                n == template@.len(),
                chars@ == template@,
                rest == template@.subrange(i as int, n as int),
                next_mark(rest, mark, 1) == next_mark(rest, mark, j - i),
            decreases n - j,
        {
            j = j + 1;
        }
        assert(next_mark(rest, mark, 1) == j - i);
        if opens {
            if j < n {
                let key = String::from_str(template.substring_char(i + 1, j));
                assert(key@ =~= rest.subrange(1, j - i));
                match find(scope, &key) {
                    Some(value) => {
                        text.append(value.as_str());
                    },
                    None => {
                        let whole = template.substring_char(i, j + 1);
                        assert(whole@ =~= rest.subrange(0, j - i + 1));
                        text.append(whole);
                    },
                }
                assert(template@.subrange(j + 1, n as int) =~= rest.subrange(
                    j - i + 1,
                    rest.len() as int,
                ));
                i = j + 1;
            } else {
                let whole = template.substring_char(i, n);
                assert(whole@ =~= rest);
                text.append(whole);
                assert(template@.subrange(n as int, n as int) =~= Seq::<char>::empty());
                i = n;
            }
        } else {
            let run = template.substring_char(i, j);
            assert(run@ =~= rest.subrange(0, j - i));
            text.append(run);
            assert(template@.subrange(j as int, n as int) =~= rest.subrange(
                j - i,
                rest.len() as int,
            ));
            i = j;
        }
    }
    assert(template@.subrange(n as int, n as int) =~= Seq::<char>::empty());
    text
}

/// The key of the first placeholder of `template` that `scope` leaves
/// unbound, if there is one.
pub fn first_unbound(template: &str, scope: &Vec<Param>) -> (key: Option<String>)
    ensures
        match key {
            Some(key) => residue(template@, scope.deep_view()).len() > 0 && key@ == residue(
                template@,
                scope.deep_view(),
            )[0],
            None => residue(template@, scope.deep_view()).len() == 0,
        },
{
    let chars = characters(template);
    let n = chars.len();
    let mut i: usize = 0;
    assert(template@.subrange(0, n as int) =~= template@);
    while i < n
        invariant
            i <= n,
            n == template@.len(),
            chars@ == template@,
            residue(template@.subrange(i as int, n as int), scope.deep_view()) == residue(
                template@,
                scope.deep_view(),
            ),
        decreases n - i,
    {
        let ghost rest = template@.subrange(i as int, n as int);
        let opens = chars[i] == '{';
        let mark = if opens {
            '}'
        } else {
            '{'
        };
        let mut j: usize = i + 1;
        while j < n && chars[j] != mark
            invariant
                i < j <= n,
                n == template@.len(),
                chars@ == template@,
                rest == template@.subrange(i as int, n as int),
                next_mark(rest, mark, 1) == next_mark(rest, mark, j - i),
            decreases n - j,
        {
            j = j + 1;
        }
        assert(next_mark(rest, mark, 1) == j - i);
        if opens {
            if j < n {
                let key = String::from_str(template.substring_char(i + 1, j));
                assert(key@ =~= rest.subrange(1, j - i));
                assert(template@.subrange(j + 1, n as int) =~= rest.subrange(
                    j - i + 1,
                    rest.len() as int,
                ));
                if find(scope, &key).is_none() {
                    return Some(key);
                }
                i = j + 1;
            } else {
                return None;
            }
        } else {
            assert(template@.subrange(j as int, n as int) =~= rest.subrange(
                j - i,
                rest.len() as int,
            ));
            i = j;
        }
    }
    assert(template@.subrange(n as int, n as int) =~= Seq::<char>::empty());
    None
}

} // verus!
