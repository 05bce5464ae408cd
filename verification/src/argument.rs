//! The argument list of a program, as a table of options in emission order.
//!
//! Every option of a wrapped program is either a presence flag or a value
//! flag.  A builder lists its options once, in the order in which they are
//! emitted; the argument list is what the options of that table contribute,
//! one after the other.

use vstd::prelude::*;

verus! {

/// One option of a program, with its current setting.
pub enum Argument {
    /// A presence flag: contributes its bare name when switched on.
    Flag { name: Seq<char>, on: bool },
    /// A value flag: contributes its name and then its value when one is set.
    Value { name: Seq<char>, value: Option<Seq<char>> },
}

impl Argument {
    /// The option's name, the token that introduces it.
    pub open spec fn name(self) -> Seq<char> {
        match self {
            Argument::Flag { name, .. } => name,
            Argument::Value { name, .. } => name,
        }
    }

    /// Whether the option contributes anything to the argument list.
    pub open spec fn is_set(self) -> bool {
        match self {
            Argument::Flag { on, .. } => on,
            Argument::Value { value, .. } => value is Some,
        }
    }

    /// The tokens that the option contributes: one for a flag that is on, two
    /// for a value that is set, none otherwise.
    pub open spec fn tokens(self) -> Seq<Seq<char>> {
        match self {
            Argument::Flag { name, on } => if on {
                seq![name]
            } else {
                Seq::empty()
            },
            Argument::Value { name, value } => match value {
                Some(v) => seq![name, v],
                None => Seq::empty(),
            },
        }
    }
}

/// The argument list of a table of options: the tokens of each option, in the
/// order of the table.
pub open spec fn emitted(table: Seq<Argument>) -> Seq<Seq<char>>
    decreases table.len(),
{
    if table.len() == 0 {
        Seq::empty()
    } else {
        emitted(table.drop_last()) + table.last().tokens()
    }
}

/// Where the tokens of option `i` start in the argument list: behind all that
/// the options before it contribute.
pub open spec fn position(table: Seq<Argument>, i: int) -> int {
    emitted(table.take(i)).len() as int
}

/// Appending an option to a table appends its tokens to the argument list.
pub proof fn lemma_emitted_push(table: Seq<Argument>, last: Argument)
    ensures
        emitted(table.push(last)) == emitted(table) + last.tokens(),
{
    assert(table.push(last).drop_last() =~= table);
}

/// The argument list of two tables joined is the two argument lists joined.
pub proof fn lemma_emitted_concat(front: Seq<Argument>, back: Seq<Argument>)
    ensures
        emitted(front + back) == emitted(front) + emitted(back),
    decreases back.len(),
{
    if back.len() == 0 {
        assert(front + back =~= front);
        assert(emitted(front) + emitted(back) =~= emitted(front));
    } else {
        lemma_emitted_concat(front, back.drop_last());
        assert((front + back).drop_last() =~= front + back.drop_last());
        assert((front + back).last() == back.last());
        assert(emitted(front + back) =~= emitted(front) + emitted(back));
    }
}

/// An argument list splits at any option into what comes before it, its own
/// tokens, and what comes after it.
pub proof fn lemma_emitted_split(table: Seq<Argument>, i: int)
    requires
        0 <= i < table.len(),
    ensures
        emitted(table) == emitted(table.take(i)) + table[i].tokens() + emitted(table.skip(i + 1)),
{
    let front = table.take(i).push(table[i]);
    assert(table =~= front + table.skip(i + 1));
    lemma_emitted_concat(front, table.skip(i + 1));
    lemma_emitted_push(table.take(i), table[i]);
}

/// Every token of an argument list is contributed by some option of the table.
pub proof fn lemma_token_origin(table: Seq<Argument>, k: int) -> (j: int)
    requires
        0 <= k < emitted(table).len(),
    ensures
        0 <= j < table.len(),
        table[j].tokens().contains(emitted(table)[k]),
    decreases table.len(),
{
    let front = emitted(table.drop_last());
    if k < front.len() {
        let j = lemma_token_origin(table.drop_last(), k);
        assert(table.drop_last()[j] == table[j]);
        j
    } else {
        let own = table.last().tokens();
        assert(own[k - front.len()] == emitted(table)[k]);
        table.len() - 1
    }
}

/// No two options of the table share a name.
pub open spec fn names_distinct(table: Seq<Argument>) -> bool {
    forall|i: int, j: int|
        0 <= i < table.len() && 0 <= j < table.len() && i != j ==> #[trigger] table[i].name()
            != #[trigger] table[j].name()
}

/// No value that is set in the table reads like `token`.
pub open spec fn no_value_reads(table: Seq<Argument>, token: Seq<char>) -> bool {
    forall|j: int|
        0 <= j < table.len() ==> (#[trigger] table[j] matches Argument::Value {
            value: Some(v),
            ..
        } ==> v != token)
}

/// An option that is not set contributes nothing: the argument list is that
/// of the table without it.
pub proof fn lemma_unset_contributes_nothing(table: Seq<Argument>, i: int)
    requires
        0 <= i < table.len(),
        !table[i].is_set(),
    ensures
        table[i].tokens().len() == 0,
        emitted(table) == emitted(table.take(i)) + emitted(table.skip(i + 1)),
{
    lemma_emitted_split(table, i);
    assert(emitted(table.take(i)) + table[i].tokens() =~= emitted(table.take(i)));
}

/// A presence flag that is on contributes exactly one token, its name, at the
/// flag's position.
pub proof fn lemma_flag_contributes_name(table: Seq<Argument>, i: int)
    requires
        0 <= i < table.len(),
        table[i] is Flag,
        table[i].is_set(),
    ensures
        emitted(table) == emitted(table.take(i)) + seq![table[i].name()] + emitted(
            table.skip(i + 1),
        ),
        emitted(table)[position(table, i)] == table[i].name(),
{
    lemma_emitted_split(table, i);
}

/// A value flag that is set contributes exactly two adjacent tokens, its name
/// and then its value, at the flag's position.
pub proof fn lemma_value_contributes_pair(table: Seq<Argument>, i: int)
    requires
        0 <= i < table.len(),
        table[i] matches Argument::Value { value: Some(_), .. },
    ensures
        emitted(table) == emitted(table.take(i)) + seq![
            table[i].name(),
            table[i]->value->0,
        ] + emitted(table.skip(i + 1)),
        emitted(table)[position(table, i)] == table[i].name(),
        emitted(table)[position(table, i) + 1] == table[i]->value->0,
{
    lemma_emitted_split(table, i);
}

/// In a table of distinct names, the name of an option that is set occurs in
/// the argument list at the option's position and nowhere else, unless some
/// value reads like that name.
pub proof fn lemma_name_occurs_once(table: Seq<Argument>, i: int)
    requires
        0 <= i < table.len(),
        table[i].is_set(),
        names_distinct(table),
        no_value_reads(table, table[i].name()),
    ensures
        forall|k: int|
            0 <= k < emitted(table).len() ==> (#[trigger] emitted(table)[k] == table[i].name()
                <==> k == position(table, i)),
{
    let name = table[i].name();
    let front = table.take(i);
    let back = table.skip(i + 1);
    let own = table[i].tokens();
    lemma_emitted_split(table, i);
    assert(own[0] == name);
    assert forall|k: int| 0 <= k < emitted(table).len() implies (#[trigger] emitted(table)[k]
        == name <==> k == position(table, i)) by {
        if k < emitted(front).len() {
            let j = lemma_token_origin(front, k);
            assert(front[j] == table[j]);
            assert(emitted(front)[k] == emitted(table)[k]);
            assert(table[j].name() != table[i].name());
        } else if k < emitted(front).len() + own.len() {
            assert(emitted(table)[k] == own[k - emitted(front).len()]);
        } else {
            let m = k - emitted(front).len() - own.len();
            let j = lemma_token_origin(back, m);
            assert(back[j] == table[i + 1 + j]);
            assert(emitted(back)[m] == emitted(table)[k]);
            assert(table[i + 1 + j].name() != table[i].name());
        }
    }
}

/// A table in which no option is set has an empty argument list.
pub proof fn lemma_nothing_set(table: Seq<Argument>)
    requires
        forall|i: int| 0 <= i < table.len() ==> !(#[trigger] table[i]).is_set(),
    ensures
        emitted(table) == Seq::<Seq<char>>::empty(),
    decreases table.len(),
{
    if table.len() > 0 {
        assert forall|i: int| 0 <= i < table.drop_last().len() implies !(
        #[trigger] table.drop_last()[i]).is_set() by {
            assert(table.drop_last()[i] == table[i]);
        }
        lemma_nothing_set(table.drop_last());
        assert(!table[table.len() - 1].is_set());
        assert(emitted(table) =~= Seq::<Seq<char>>::empty());
    }
}

/// A copy of an optional string.
pub fn clone_text(value: &Option<String>) -> (copy: Option<String>)
    ensures
        copy == *value,
{
    match value {
        Some(text) => Some(text.clone()),
        None => None,
    }
}

/// The tokens collected so far for an argument list, with the table of
/// options that they come from.
pub struct ArgumentList {
    tokens: Vec<String>,
    table: Ghost<Seq<Argument>>,
}

impl ArgumentList {
    #[verifier::type_invariant]
    spec fn consistent(&self) -> bool {
        self.tokens.deep_view() == emitted(self.table@)
    }

    /// The options recorded so far, in the order in which they were recorded.
    pub closed spec fn table(&self) -> Seq<Argument> {
        self.table@
    }

    /// An empty list.
    pub fn new() -> (list: Self)
        ensures
            list.table() == Seq::<Argument>::empty(),
    {
        let tokens: Vec<String> = Vec::new();
        assert(tokens.deep_view() =~= emitted(Seq::empty()));
        ArgumentList { tokens, table: Ghost(Seq::empty()) }
    }

    /// Records a presence flag, and appends its name if the flag is on.
    pub fn flag(self, name: &str, on: bool) -> (list: Self)
        ensures
            list.table() == self.table().push(Argument::Flag { name: name@, on }),
    {
        proof {
            use_type_invariant(&self);
            lemma_emitted_push(self.table@, Argument::Flag { name: name@, on });
        }
        let ghost table = self.table@.push(Argument::Flag { name: name@, on });
        let ghost before = self.tokens.deep_view();
        let mut tokens = self.tokens;
        if on {
            tokens.push(name.to_owned());
            assert(tokens.deep_view() =~= before + seq![name@]);
        } else {
            assert(before + Seq::<Seq<char>>::empty() =~= before);
        }
        ArgumentList { tokens, table: Ghost(table) }
    }

    /// Records a value flag, and appends its name and its value if one is set.
    pub fn value(self, name: &str, value: &Option<String>) -> (list: Self)
        ensures
            list.table() == self.table().push(
                Argument::Value { name: name@, value: value.deep_view() },
            ),
    {
        proof {
            use_type_invariant(&self);
            lemma_emitted_push(
                self.table@,
                Argument::Value { name: name@, value: value.deep_view() },
            );
        }
        let ghost table = self.table@.push(
            Argument::Value { name: name@, value: value.deep_view() },
        );
        let ghost before = self.tokens.deep_view();
        let mut tokens = self.tokens;
        match value {
            Some(v) => {
                tokens.push(name.to_owned());
                tokens.push(v.clone());
                assert(tokens.deep_view() =~= before + seq![name@, v@]);
            },
            None => {
                assert(before + Seq::<Seq<char>>::empty() =~= before);
            },
        }
        ArgumentList { tokens, table: Ghost(table) }
    }

    /// The argument list of the options recorded.
    pub fn into_tokens(self) -> (tokens: Vec<String>)
        ensures
            tokens.deep_view() == emitted(self.table()),
    {
        proof {
            use_type_invariant(&self);
        }
        self.tokens
    }
}

} // verus!
