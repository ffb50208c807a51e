//! Reading the arguments of one command: switches, flags with a value, and
//! positional arguments, in any order.

use vstd::prelude::*;
use vstd::string::*;
use crate::cli::command::optional_text;
use crate::cli::mft_diff_action::with_flag;
use crate::cli::mft_diff_action::with_number;
use crate::text::decimal;
use crate::text::chars_of;
use crate::text::same_text;
use crate::text::texts;

verus! {

/// The flags that a command knows.
#[derive(Debug)]
pub struct Schema {
    /// Flags without a value.
    pub switches: Vec<String>,
    /// Flags that are followed by a value.
    pub valued: Vec<String>,
}

/// The mathematical value of a [`Schema`].
pub struct SchemaView {
    pub switches: Seq<Seq<char>>,
    pub valued: Seq<Seq<char>>,
}

impl View for Schema {
    type V = SchemaView;

    open spec fn view(&self) -> SchemaView {
        SchemaView { switches: texts(self.switches@), valued: texts(self.valued@) }
    }
}

/// What was read so far.
pub struct ParseState {
    pub positionals: Seq<Seq<char>>,
    /// For each switch, whether it was given.
    pub switches: Seq<bool>,
    /// For each flag with a value, the value that was given.
    pub values: Seq<Option<Seq<char>>>,
    /// The flag whose value comes next.
    pub expecting: Option<int>,
    /// Whether something was wrong.
    pub failed: bool,
}

/// The arguments of one command, as read.
#[derive(Debug)]
pub struct Parsed {
    pub positionals: Vec<String>,
    pub switches: Vec<bool>,
    pub values: Vec<Option<String>>,
}

/// The texts of optional strings.
pub open spec fn option_texts(values: Seq<Option<String>>) -> Seq<Option<Seq<char>>> {
    values.map_values(|v: Option<String>| optional_text(v))
}

impl Parsed {
    /// The state that these arguments stand for.
    pub open spec fn state(&self) -> ParseState {
        ParseState {
            positionals: texts(self.positionals@),
            switches: self.switches@,
            values: option_texts(self.values@),
            expecting: None,
            failed: false,
        }
    }
}

/// The first place of `name` among `names`.
pub open spec fn index_in(names: Seq<Seq<char>>, name: Seq<char>) -> Option<int>
    decreases names.len(),
{
    if names.len() == 0 {
        None
    } else if index_in(names.drop_last(), name) is Some {
        index_in(names.drop_last(), name)
    } else if names.last() == name {
        Some(names.len() - 1)
    } else {
        None
    }
}

/// Whether a token looks like a flag: it begins with a hyphen and goes on.
/// A hyphen by itself is an argument like any other.
pub open spec fn flag_like(token: Seq<char>) -> bool {
    token.len() >= 2 && token[0] == '-'
}

/// The value that a token carries behind the name of a flag: behind `=`
/// for a long name (`--limit=5`), and right behind a short name, with or
/// without `=` (`-j4`, `-j=4`). A short name is a hyphen and one character.
pub open spec fn value_behind(name: Seq<char>, token: Seq<char>) -> Option<Seq<char>> {
    if token.len() <= name.len() || token.take(name.len() as int) != name {
        None
    } else if name.len() == 2 {
        if token[2] == '=' {
            Some(token.skip(3))
        } else {
            Some(token.skip(2))
        }
    } else if token[name.len() as int] == '=' {
        Some(token.skip(name.len() as int + 1))
    } else {
        None
    }
}

/// A value that a token carries behind the name of a flag.
pub struct Attached {
    /// The place of the flag among the names.
    pub index: int,
    pub value: Seq<char>,
}

/// The first of `names` behind which `token` carries a value, and the
/// value.
pub open spec fn attached(names: Seq<Seq<char>>, token: Seq<char>) -> Option<Attached>
    decreases names.len(),
{
    if names.len() == 0 {
        None
    } else if attached(names.drop_last(), token) is Some {
        attached(names.drop_last(), token)
    } else {
        match value_behind(names.last(), token) {
            Some(value) => Some(Attached { index: names.len() - 1, value }),
            None => None,
        }
    }
}

/// A name behind which a token carries a value is one of the names, and the
/// value is what stands behind it.
pub proof fn attached_properties(names: Seq<Seq<char>>, token: Seq<char>)
    ensures
        attached(names, token) is Some ==> 0 <= attached(names, token)->0.index < names.len()
            && value_behind(names[attached(names, token)->0.index], token) == Some(
            attached(names, token)->0.value,
        ),
    decreases names.len(),
{
    if names.len() > 0 {
        attached_properties(names.drop_last(), token);
        if attached(names.drop_last(), token) is Some {
            let k = attached(names.drop_last(), token)->0.index;
            assert(names.drop_last()[k] == names[k]);
        }
    }
}

/// What is found among the first names is found among all.
pub proof fn attached_stays(names: Seq<Seq<char>>, token: Seq<char>, n: int)
    requires
        0 <= n <= names.len(),
        attached(names.take(n), token) is Some,
    ensures
        attached(names, token) == attached(names.take(n), token),
    decreases names.len() - n,
{
    if n < names.len() {
        assert(names.take(n + 1).drop_last() =~= names.take(n));
        attached_stays(names, token, n + 1);
    } else {
        assert(names.take(n) =~= names);
    }
}

/// A token that carries a value behind the name of a flag looks like a
/// flag.
pub proof fn attached_looks_like_flag(names: Seq<Seq<char>>, token: Seq<char>)
    requires
        forall|i: int| 0 <= i < names.len() ==> flag_like(#[trigger] names[i]),
        attached(names, token) is Some,
    ensures
        flag_like(token),
{
    attached_properties(names, token);
    let name = names[attached(names, token)->0.index];
    assert(flag_like(name));
    assert(token.take(name.len() as int)[0] == token[0]);
}

/// Before anything is read.
pub open spec fn initial(schema: SchemaView) -> ParseState {
    ParseState {
        positionals: Seq::empty(),
        switches: Seq::new(schema.switches.len(), |i: int| false),
        values: Seq::new(schema.valued.len(), |i: int| None),
        expecting: None,
        failed: false,
    }
}

/// Reading one more token. After a flag with a value, the token is that
/// value, whatever it looks like. Otherwise a known switch is set, a known
/// flag with a value expects its value or takes the one that the token
/// carries behind its name, and anything else that looks like a flag is
/// wrong, as is a flag that comes twice. Every other token is a positional
/// argument.
pub open spec fn step(schema: SchemaView, s: ParseState, token: Seq<char>) -> ParseState {
    if s.failed {
        s
    } else if s.expecting is Some {
        ParseState {
            values: s.values.update(s.expecting->0, Some(token)),
            expecting: None,
            ..s
        }
    } else if index_in(schema.switches, token) is Some {
        let i = index_in(schema.switches, token)->0;
        if s.switches[i] {
            ParseState { failed: true, ..s }
        } else {
            ParseState { switches: s.switches.update(i, true), ..s }
        }
    } else if index_in(schema.valued, token) is Some {
        let k = index_in(schema.valued, token)->0;
        if s.values[k] is Some {
            ParseState { failed: true, ..s }
        } else {
            ParseState { expecting: Some(k), ..s }
        }
    } else if attached(schema.valued, token) is Some {
        let k = attached(schema.valued, token)->0.index;
        if s.values[k] is Some {
            ParseState { failed: true, ..s }
        } else {
            ParseState { values: s.values.update(k, Some(attached(schema.valued, token)->0.value)), ..s }
        }
    } else if flag_like(token) {
        ParseState { failed: true, ..s }
    } else {
        ParseState { positionals: s.positionals.push(token), ..s }
    }
}

/// Reading all tokens, from left to right.
pub open spec fn run(schema: SchemaView, tokens: Seq<Seq<char>>) -> ParseState
    decreases tokens.len(),
{
    if tokens.len() == 0 {
        initial(schema)
    } else {
        step(schema, run(schema, tokens.drop_last()), tokens.last())
    }
}

/// Whether the tokens were read without fault and none is missing.
pub open spec fn complete(s: ParseState) -> bool {
    !s.failed && s.expecting is None
}

/// Whether the flags of a schema can be told apart and from positional
/// arguments: each looks like a flag, and none comes twice.
pub open spec fn schema_wf(schema: SchemaView) -> bool {
    &&& forall|i: int| 0 <= i < schema.switches.len() ==> flag_like(#[trigger] schema.switches[i])
    &&& forall|i: int| 0 <= i < schema.valued.len() ==> flag_like(#[trigger] schema.valued[i])
    &&& forall|i: int, j: int|
        0 <= i < j < schema.switches.len() ==> schema.switches[i] != schema.switches[j]
    &&& forall|i: int, j: int| 0 <= i < j < schema.valued.len() ==> schema.valued[i] != schema.valued[j]
    &&& forall|i: int, j: int|
        0 <= i < schema.switches.len() && 0 <= j < schema.valued.len() ==> schema.switches[i]
            != schema.valued[j]
}

/// A name is found where it is, if it is nowhere before; a name that is
/// nowhere is not found; and what is found is in range and is the name.
pub proof fn index_in_properties(names: Seq<Seq<char>>, name: Seq<char>)
    ensures
        index_in(names, name) is Some ==> 0 <= index_in(names, name)->0 < names.len()
            && names[index_in(names, name)->0] == name,
        (forall|i: int| 0 <= i < names.len() ==> names[i] != name) ==> index_in(names, name)
            is None,
        forall|i: int|
            0 <= i < names.len() && names[i] == name && (forall|j: int|
                0 <= j < i ==> names[j] != name) ==> index_in(names, name) == Some(i),
    decreases names.len(),
{
    if names.len() > 0 {
        let head = names.drop_last();
        index_in_properties(head, name);
        assert forall|i: int|
            0 <= i < names.len() && names[i] == name && (forall|j: int|
                0 <= j < i ==> names[j] != name) implies index_in(names, name) == Some(i) by {
            if i < names.len() - 1 {
                assert(head[i] == names[i]);
                assert forall|j: int| 0 <= j < i implies head[j] != name by {
                    assert(head[j] == names[j]);
                }
            } else {
                assert forall|j: int| 0 <= j < head.len() implies head[j] != name by {
                    assert(head[j] == names[j]);
                }
            }
        }
        if forall|i: int| 0 <= i < names.len() ==> names[i] != name {
            assert forall|i: int| 0 <= i < head.len() implies head[i] != name by {
                assert(head[i] == names[i]);
            }
        }
    }
}

/// Reading keeps as many switches and values as the schema has flags.
pub proof fn run_keeps_shape(schema: SchemaView, tokens: Seq<Seq<char>>)
    ensures
        run(schema, tokens).switches.len() == schema.switches.len(),
        run(schema, tokens).values.len() == schema.valued.len(),
        run(schema, tokens).expecting is Some ==> 0 <= run(schema, tokens).expecting->0
            < schema.valued.len(),
    decreases tokens.len(),
{
    if tokens.len() > 0 {
        run_keeps_shape(schema, tokens.drop_last());
        index_in_properties(schema.switches, tokens.last());
        index_in_properties(schema.valued, tokens.last());
        attached_properties(schema.valued, tokens.last());
    }
}

/// A switch that was not given yet is set by its name.
pub proof fn run_push_switch(schema: SchemaView, tokens: Seq<Seq<char>>, i: int)
    requires
        schema_wf(schema),
        complete(run(schema, tokens)),
        0 <= i < schema.switches.len(),
        !run(schema, tokens).switches[i],
    ensures
        run(schema, tokens.push(schema.switches[i])) == (ParseState {
            switches: run(schema, tokens).switches.update(i, true),
            ..run(schema, tokens)
        }),
{
    let next = tokens.push(schema.switches[i]);
    assert(next.drop_last() =~= tokens);
    index_in_properties(schema.switches, schema.switches[i]);
}

/// A flag with a value that was not given yet takes the token behind it.
pub proof fn run_push_valued(
    schema: SchemaView,
    tokens: Seq<Seq<char>>,
    k: int,
    value: Seq<char>,
)
    requires
        schema_wf(schema),
        complete(run(schema, tokens)),
        0 <= k < schema.valued.len(),
        run(schema, tokens).values[k] is None,
    ensures
        run(schema, tokens.push(schema.valued[k]).push(value)) == (ParseState {
            values: run(schema, tokens).values.update(k, Some(value)),
            ..run(schema, tokens)
        }),
{
    let named = tokens.push(schema.valued[k]);
    assert(named.drop_last() =~= tokens);
    index_in_properties(schema.switches, schema.valued[k]);
    index_in_properties(schema.valued, schema.valued[k]);
    assert(run(schema, named) == (ParseState { expecting: Some(k), ..run(schema, tokens) }));
    let both = named.push(value);
    assert(both.drop_last() =~= named);
}

/// A token that does not look like a flag is a positional argument.
pub proof fn run_push_positional(schema: SchemaView, tokens: Seq<Seq<char>>, token: Seq<char>)
    requires
        schema_wf(schema),
        complete(run(schema, tokens)),
        !flag_like(token),
    ensures
        run(schema, tokens.push(token)) == (ParseState {
            positionals: run(schema, tokens).positionals.push(token),
            ..run(schema, tokens)
        }),
{
    let next = tokens.push(token);
    assert(next.drop_last() =~= tokens);
    index_in_properties(schema.switches, token);
    index_in_properties(schema.valued, token);
    if attached(schema.valued, token) is Some {
        attached_looks_like_flag(schema.valued, token);
    }
}

/// Nothing read, nothing found.
pub proof fn run_of_nothing(schema: SchemaView)
    ensures
        run(schema, Seq::empty()) == initial(schema),
        complete(initial(schema)),
{
}

/// A switch that may be written sets what it says.
pub proof fn run_with_flag(schema: SchemaView, tokens: Seq<Seq<char>>, i: int, on: bool)
    requires
        schema_wf(schema),
        complete(run(schema, tokens)),
        0 <= i < schema.switches.len(),
        !run(schema, tokens).switches[i],
    ensures
        run(schema, with_flag(tokens, schema.switches[i], on)) == (ParseState {
            switches: run(schema, tokens).switches.update(i, on),
            ..run(schema, tokens)
        }),
{
    run_keeps_shape(schema, tokens);
    if on {
        run_push_switch(schema, tokens, i);
    } else {
        assert(run(schema, tokens).switches.update(i, false) =~= run(schema, tokens).switches);
    }
}

/// A number that may be written behind its flag is the value of the flag.
pub proof fn run_with_number(schema: SchemaView, tokens: Seq<Seq<char>>, k: int, n: Option<usize>)
    requires
        schema_wf(schema),
        complete(run(schema, tokens)),
        0 <= k < schema.valued.len(),
        run(schema, tokens).values[k] is None,
    ensures
        run(schema, with_number(tokens, schema.valued[k], n)) == (ParseState {
            values: run(schema, tokens).values.update(
                k,
                match n {
                    Some(n) => Some(decimal(n as nat)),
                    None => None,
                },
            ),
            ..run(schema, tokens)
        }),
{
    run_keeps_shape(schema, tokens);
    match n {
        Some(n) => {
            run_push_valued(schema, tokens, k, decimal(n as nat));
        },
        None => {
            assert(run(schema, tokens).values.update(k, None) =~= run(schema, tokens).values);
        },
    }
}

/// Once something is wrong, it stays wrong.
pub proof fn failure_sticks(schema: SchemaView, tokens: Seq<Seq<char>>, n: int)
    requires
        0 <= n <= tokens.len(),
        run(schema, tokens.take(n)).failed,
    ensures
        run(schema, tokens).failed,
    decreases tokens.len() - n,
{
    if n < tokens.len() {
        assert(tokens.take(n + 1).drop_last() =~= tokens.take(n));
        failure_sticks(schema, tokens, n + 1);
    } else {
        assert(tokens.take(n) =~= tokens);
    }
}

fn find_name(names: &Vec<String>, token: &str) -> (r: Option<usize>)
    ensures
        r is Some <==> index_in(texts(names@), token@) is Some,
        r is Some ==> r->0 < names@.len() && index_in(texts(names@), token@) == Some(r->0 as int),
{
    let ghost all = texts(names@);
    let mut i: usize = 0;
    while i < names.len()
        invariant
            i <= names.len(),
            all == texts(names@),
            forall|j: int| 0 <= j < i ==> all[j] != token@,
        decreases names.len() - i,
    {
        if same_text(names[i].as_str(), token) {
            proof {
                assert(all[i as int] == names@[i as int]@);
                index_in_properties(all, token@);
            }
            return Some(i);
        }
        i += 1;
    }
    proof {
        index_in_properties(all, token@);
    }
    None
}

fn looks_like_flag(token: &str) -> (b: bool)
    ensures
        b == flag_like(token@),
{
    token.unicode_len() >= 2 && token.get_char(0) == '-'
}

/// The text of the characters from place `from` on.
fn text_from(chars: &Vec<char>, from: usize) -> (s: String)
    requires
        from <= chars@.len(),
    ensures
        s@ == chars@.skip(from as int),
{
    let mut s = String::new();
    let mut i: usize = from;
    assert(chars@.subrange(from as int, from as int) =~= Seq::<char>::empty());
    while i < chars.len()
        invariant
            from <= i <= chars.len(),
            s@ == chars@.subrange(from as int, i as int),
        decreases chars.len() - i,
    {
        s.push(chars[i]);
        assert(chars@.subrange(from as int, i + 1) =~= chars@.subrange(from as int, i as int).push(
            chars@[i as int],
        ));
        i += 1;
    }
    assert(chars@.subrange(from as int, chars.len() as int) =~= chars@.skip(from as int));
    s
}

fn read_behind(name: &str, token: &str) -> (r: Option<String>)
    ensures
        match value_behind(name@, token@) {
            Some(value) => r is Some && r->0@ == value,
            None => r is None,
        },
{
    let n = chars_of(name);
    let t = chars_of(token);
    if t.len() <= n.len() {
        return None;
    }
    let mut i: usize = 0;
    while i < n.len()
        invariant
            i <= n.len() < t.len(),
            n@ == name@,
            t@ == token@,
            forall|j: int| 0 <= j < i ==> n@[j] == t@[j],
        decreases n.len() - i,
    {
        if n[i] != t[i] {
            proof {
                assert(token@.take(name@.len() as int)[i as int] == t@[i as int]);
            }
            return None;
        }
        i += 1;
    }
    assert(token@.take(name@.len() as int) =~= name@);
    if n.len() == 2 {
        if t[2] == '=' {
            Some(text_from(&t, 3))
        } else {
            Some(text_from(&t, 2))
        }
    } else if t[n.len()] == '=' {
        Some(text_from(&t, n.len() + 1))
    } else {
        None
    }
}

/// A flag and the value that a token carries behind its name.
struct Carried {
    index: usize,
    value: String,
}

fn find_attached(names: &Vec<String>, token: &str) -> (r: Option<Carried>)
    ensures
        match attached(texts(names@), token@) {
            Some(a) => r is Some && r->0.index == a.index && r->0.value@ == a.value && a.index
                < names@.len(),
            None => r is None,
        },
{
    let ghost all = texts(names@);
    let mut i: usize = 0;
    assert(all.take(0) =~= Seq::<Seq<char>>::empty());
    while i < names.len()
        invariant
            i <= names.len(),
            all == texts(names@),
            attached(all.take(i as int), token@) is None,
        decreases names.len() - i,
    {
        proof {
            assert(all.take(i + 1).drop_last() =~= all.take(i as int));
            assert(all.take(i + 1).last() == names@[i as int]@);
        }
        match read_behind(names[i].as_str(), token) {
            Some(value) => {
                proof {
                    attached_stays(all, token@, i + 1);
                }
                return Some(Carried { index: i, value });
            },
            None => {},
        }
        i += 1;
    }
    assert(all.take(names.len() as int) =~= all);
    None
}

/// Reads the tokens from position `from` on.
pub fn parse_tokens(schema: &Schema, tokens: &Vec<String>, from: usize) -> (r: Option<Parsed>)
    ensures
        from <= tokens@.len() ==> (match r {
            Some(p) => p.state() == run(schema@, texts(tokens@).skip(from as int)),
            None => !complete(run(schema@, texts(tokens@).skip(from as int))),
        }),
        from > tokens@.len() ==> r is None,
        r is Some ==> r->0.switches@.len() == schema@.switches.len() && r->0.values@.len()
            == schema@.valued.len(),
{
    if from > tokens.len() {
        return None;
    }
    let ghost rest = texts(tokens@).skip(from as int);
    let mut positionals: Vec<String> = Vec::new();
    let mut switches: Vec<bool> = Vec::new();
    let mut values: Vec<Option<String>> = Vec::new();
    let mut k: usize = 0;
    while k < schema.switches.len()
        invariant
            k <= schema.switches.len(),
            switches@.len() == k,
            forall|j: int| 0 <= j < k ==> !switches@[j],
        decreases schema.switches.len() - k,
    {
        switches.push(false);
        k += 1;
    }
    k = 0;
    while k < schema.valued.len()
        invariant
            k <= schema.valued.len(),
            values@.len() == k,
            forall|j: int| 0 <= j < k ==> values@[j] is None,
        decreases schema.valued.len() - k,
    {
        values.push(None);
        k += 1;
    }
    let mut expecting: Option<usize> = None;
    let mut i: usize = from;
    proof {
        assert(rest.take(0) =~= Seq::<Seq<char>>::empty());
        assert(texts(positionals@) =~= Seq::empty());
        assert(switches@ =~= initial(schema@).switches);
        assert(option_texts(values@) =~= initial(schema@).values);
    }
    while i < tokens.len()
        invariant
            from <= i <= tokens.len(),
            rest == texts(tokens@).skip(from as int),
            switches@.len() == schema@.switches.len(),
            values@.len() == schema@.valued.len(),
            run(schema@, rest.take(i - from)) == (ParseState {
                positionals: texts(positionals@),
                switches: switches@,
                values: option_texts(values@),
                expecting: match expecting {
                    Some(e) => Some(e as int),
                    None => None,
                },
                failed: false,
            }),
            expecting is Some ==> expecting->0 < values@.len(),
        decreases tokens.len() - i,
    {
        let ghost before = run(schema@, rest.take(i - from));
        let ghost token = tokens@[i as int]@;
        proof {
            let upto = rest.take(i - from + 1);
            assert(upto.drop_last() =~= rest.take(i - from));
            assert(upto.last() == token);
            run_keeps_shape(schema@, rest.take(i - from));
        }
        match expecting {
            Some(e) => {
                let ghost old_values = option_texts(values@);
                values.set(e, Some(tokens[i].clone()));
                assert(option_texts(values@) =~= old_values.update(e as int, Some(token)));
                expecting = None;
            },
            None => {
                match find_name(&schema.switches, tokens[i].as_str()) {
                    Some(s) => {
                        if switches[s] {
                            proof {
                                failure_sticks(schema@, rest, i - from + 1);
                            }
                            return None;
                        }
                        switches.set(s, true);
                    },
                    None => {
                        match find_name(&schema.valued, tokens[i].as_str()) {
                            Some(v) => {
                                if values[v].is_some() {
                                    proof {
                                        assert(option_texts(values@)[v as int] is Some);
                                        failure_sticks(schema@, rest, i - from + 1);
                                    }
                                    return None;
                                }
                                proof {
                                    assert(option_texts(values@)[v as int] is None);
                                }
                                expecting = Some(v);
                            },
                            None => {
                                match find_attached(&schema.valued, tokens[i].as_str()) {
                                    Some(carried) => {
                                        let k = carried.index;
                                        if values[k].is_some() {
                                            proof {
                                                assert(option_texts(values@)[k as int] is Some);
                                                failure_sticks(schema@, rest, i - from + 1);
                                            }
                                            return None;
                                        }
                                        let ghost old_values = option_texts(values@);
                                        let ghost value = carried.value@;
                                        proof {
                                            assert(old_values[k as int] is None);
                                        }
                                        values.set(k, Some(carried.value));
                                        assert(option_texts(values@) =~= old_values.update(
                                            k as int,
                                            Some(value),
                                        ));
                                    },
                                    None => {
                                        if looks_like_flag(tokens[i].as_str()) {
                                            proof {
                                                failure_sticks(schema@, rest, i - from + 1);
                                            }
                                            return None;
                                        }
                                        let ghost old_positionals = texts(positionals@);
                                        positionals.push(tokens[i].clone());
                                        assert(texts(positionals@) =~= old_positionals.push(token));
                                    },
                                }
                            },
                        }
                    },
                }
            },
        }
        i += 1;
    }
    proof {
        assert(rest.take(tokens.len() - from) =~= rest);
    }
    if expecting.is_some() {
        return None;
    }
    Some(Parsed { positionals, switches, values })
}

} // verus!
