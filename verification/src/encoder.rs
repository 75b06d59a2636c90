//! The argument encoder: how settings become tokens of an argument list.
//!
//! A boolean setting becomes a bare flag, an optional value a flag followed
//! by the value, and a list one such pair per element, in the list's order.
//! Nothing is quoted, split, reordered or left out: a token reaches the
//! command as the text that it is.

use crate::command::{add_arg, add_arg_pair, add_args, command_args, command_program};
use crate::text::{pair_texts, text_of, texts};
use command_run::Command;
use vstd::prelude::*;
use vstd::utf8::encode_utf8;

verus! {

/// A bare flag: the flag alone where the setting is on, nothing where it is
/// off.
pub open spec fn flag(name: Seq<char>, on: bool) -> Seq<Seq<char>> {
    if on {
        seq![name]
    } else {
        Seq::empty()
    }
}

/// A flag with a value: the flag and then the value where there is one,
/// nothing where there is none.
pub open spec fn flag_value(name: Seq<char>, value: Option<Seq<char>>) -> Seq<Seq<char>> {
    match value {
        Some(value) => seq![name, value],
        None => Seq::empty(),
    }
}

/// A repeated flag: for each value, in the order of the list, the flag and
/// then the value.
pub open spec fn flag_values(name: Seq<char>, values: Seq<Seq<char>>) -> Seq<Seq<char>> {
    values.flat_map(|value: Seq<char>| seq![name, value])
}

/// A token that may be absent: the value alone where there is one.
pub open spec fn optional(value: Option<Seq<char>>) -> Seq<Seq<char>> {
    match value {
        Some(value) => seq![value],
        None => Seq::empty(),
    }
}

/// A key and its value as one token, `key=value`.
pub open spec fn key_value(key: Seq<char>, value: Seq<char>) -> Seq<char> {
    key + "="@ + value
}

/// Each pair of a list as a `key=value` token.
pub open spec fn key_values(pairs: Seq<(Seq<char>, Seq<char>)>) -> Seq<Seq<char>> {
    pairs.map_values(|pair: (Seq<char>, Seq<char>)| key_value(pair.0, pair.1))
}

/// The byte strings that a list of tokens becomes as arguments of a command:
/// each token in UTF-8.
pub open spec fn encode_tokens(tokens: Seq<Seq<char>>) -> Seq<Seq<u8>> {
    tokens.map_values(|token: Seq<char>| encode_utf8(token))
}

/// `cmd` is `base` with `tokens` appended to its arguments: the program is
/// the same, and the arguments are those of `base` and then the tokens.
pub open spec fn extends(base: Command, cmd: Command, tokens: Seq<Seq<char>>) -> bool {
    &&& command_program(cmd) == command_program(base)
    &&& command_args(cmd) == command_args(base) + encode_tokens(tokens)
}

/// A flag repeated for no values is nothing.
pub proof fn lemma_flag_values_empty(name: Seq<char>)
    ensures
        flag_values(name, Seq::empty()) == Seq::<Seq<char>>::empty(),
{
    let pair = |value: Seq<char>| seq![name, value];
    assert(Seq::<Seq<char>>::empty().map_values(pair) =~= Seq::<Seq<Seq<char>>>::empty());
}

/// One more value adds one more pair at the end of a repeated flag.
pub proof fn lemma_flag_values_push(name: Seq<char>, values: Seq<Seq<char>>, value: Seq<char>)
    ensures
        flag_values(name, values.push(value)) == flag_values(name, values) + seq![name, value],
{
    let pair = |value: Seq<char>| seq![name, value];
    assert(values.push(value).map_values(pair) =~= values.map_values(pair).push(pair(value)));
    values.map_values(pair).lemma_flatten_push(pair(value));
}

/// A repeated flag holds two tokens for each value: at the even places the
/// flag, at the odd places the values in their order.
pub proof fn lemma_flag_values(name: Seq<char>, values: Seq<Seq<char>>)
    ensures
        flag_values(name, values).len() == 2 * values.len(),
        forall|i: int|
            0 <= i < values.len() ==> #[trigger] flag_values(name, values)[2 * i] == name,
        forall|i: int|
            0 <= i < values.len() ==> #[trigger] flag_values(name, values)[2 * i + 1] == values[i],
    decreases values.len(),
{
    if values.len() == 0 {
        assert(values =~= Seq::empty());
        lemma_flag_values_empty(name);
    } else {
        let front = values.drop_last();
        assert(front.push(values.last()) =~= values);
        lemma_flag_values(name, front);
        lemma_flag_values_push(name, front, values.last());
    }
}

/// Tokens that are appended one list after the other are encoded one list
/// after the other.
pub proof fn lemma_encode_tokens_concat(first: Seq<Seq<char>>, second: Seq<Seq<char>>)
    ensures
        encode_tokens(first + second) == encode_tokens(first) + encode_tokens(second),
{
}

/// Encoding loses nothing: lists of tokens that give the same byte strings
/// are the same tokens.
pub proof fn lemma_encode_tokens_is_exact(first: Seq<Seq<char>>, second: Seq<Seq<char>>)
    requires
        encode_tokens(first) == encode_tokens(second),
    ensures
        first == second,
{
    assert(first.len() == encode_tokens(first).len());
    assert(second.len() == encode_tokens(second).len());
    assert forall|i: int| 0 <= i < first.len() implies first[i] == second[i] by {
        assert(encode_utf8(first[i]) == encode_tokens(first)[i]);
        assert(encode_utf8(second[i]) == encode_tokens(second)[i]);
        vstd::utf8::encode_utf8_decode_utf8(first[i]);
        vstd::utf8::encode_utf8_decode_utf8(second[i]);
    }
}

/// Where a command extends a base command by some tokens, its arguments are
/// those of the base command, then each token in UTF-8, and nothing more.
pub proof fn lemma_extends_arguments(base: Command, cmd: Command, tokens: Seq<Seq<char>>)
    requires
        extends(base, cmd, tokens),
    ensures
        command_args(cmd).len() == command_args(base).len() + tokens.len(),
        forall|k: int|
            0 <= k < command_args(base).len() ==> #[trigger] command_args(cmd)[k] == command_args(
                base,
            )[k],
        forall|k: int|
            0 <= k < tokens.len() ==> #[trigger] command_args(cmd)[command_args(base).len() + k]
                == encode_utf8(tokens[k]),
{
}

/// The same tokens appended to the same base command give the same program
/// and the same arguments.
pub proof fn lemma_extends_is_exact(
    base: Command,
    first: Command,
    second: Command,
    tokens: Seq<Seq<char>>,
)
    requires
        extends(base, first, tokens),
        extends(base, second, tokens),
    ensures
        command_program(first) == command_program(second),
        command_args(first) == command_args(second),
{
}

/// A command under construction: a copy of a base command, and the tokens
/// appended to it so far.
pub(crate) struct ArgWriter {
    cmd: Command,
    base: Ghost<Command>,
    added: Ghost<Seq<Seq<char>>>,
}

impl ArgWriter {
    /// The command that the writer started from.
    pub(crate) closed spec fn base(&self) -> Command {
        self.base@
    }

    /// The tokens appended since the start.
    pub(crate) closed spec fn added(&self) -> Seq<Seq<char>> {
        self.added@
    }

    /// The command held is the base command with the tokens appended.
    pub(crate) closed spec fn wf(&self) -> bool {
        extends(self.base@, self.cmd, self.added@)
    }

    /// Starts from a copy of `base`, with nothing appended.
    pub(crate) fn start(base: &Command) -> (writer: Self)
        ensures
            writer.wf(),
            writer.base() == *base,
            writer.added() == Seq::<Seq<char>>::empty(),
    {
        let cmd = base.clone();
        ArgWriter { cmd, base: Ghost(*base), added: Ghost(Seq::empty()) }
    }

    /// Hands out the command.
    pub(crate) fn finish(self) -> (cmd: Command)
        requires
            self.wf(),
        ensures
            extends(self.base(), cmd, self.added()),
    {
        self.cmd
    }

    /// Appends one token.
    pub(crate) fn token(&mut self, token: &str)
        requires
            old(self).wf(),
        ensures
            final(self).wf(),
            final(self).base() == old(self).base(),
            final(self).added() == old(self).added() + seq![token@],
    {
        add_arg(&mut self.cmd, token);
        proof {
            lemma_encode_tokens_concat(self.added@, seq![token@]);
            self.added@ = self.added@ + seq![token@];
            assert(command_args(self.cmd) =~= command_args(self.base@) + encode_tokens(
                self.added@,
            ));
        }
    }

    /// Appends a flag and its value.
    pub(crate) fn pair(&mut self, name: &str, value: &str)
        requires
            old(self).wf(),
        ensures
            final(self).wf(),
            final(self).base() == old(self).base(),
            final(self).added() == old(self).added() + seq![name@, value@],
    {
        add_arg_pair(&mut self.cmd, name, value);
        proof {
            lemma_encode_tokens_concat(self.added@, seq![name@, value@]);
            assert(encode_tokens(seq![name@, value@]) =~= seq![
                encode_utf8(name@),
                encode_utf8(value@),
            ]);
            self.added@ = self.added@ + seq![name@, value@];
            assert(command_args(self.cmd) =~= command_args(self.base@) + encode_tokens(
                self.added@,
            ));
        }
    }

    /// Appends a bare flag where the setting is on.
    pub(crate) fn flag(&mut self, name: &str, on: bool)
        requires
            old(self).wf(),
        ensures
            final(self).wf(),
            final(self).base() == old(self).base(),
            final(self).added() == old(self).added() + flag(name@, on),
    {
        if on {
            self.token(name);
        } else {
            proof {
                self.added@ = self.added@ + flag(name@, on);
            }
        }
    }

    /// Appends a flag and its value where there is a value.
    pub(crate) fn flag_value(&mut self, name: &str, value: &Option<String>)
        requires
            old(self).wf(),
        ensures
            final(self).wf(),
            final(self).base() == old(self).base(),
            final(self).added() == old(self).added() + flag_value(name@, text_of(*value)),
    {
        match value {
            Some(value) => {
                self.pair(name, value.as_str());
            },
            None => {
                proof {
                    self.added@ = self.added@ + flag_value(name@, text_of(*value));
                }
            },
        }
    }

    /// Appends the value as a token where there is a value.
    pub(crate) fn optional(&mut self, value: &Option<String>)
        requires
            old(self).wf(),
        ensures
            final(self).wf(),
            final(self).base() == old(self).base(),
            final(self).added() == old(self).added() + optional(text_of(*value)),
    {
        match value {
            Some(value) => {
                self.token(value.as_str());
            },
            None => {
                proof {
                    self.added@ = self.added@ + optional(text_of(*value));
                }
            },
        }
    }

    /// Appends the flag and a `key=value` token for each pair, in order.
    pub(crate) fn key_values(&mut self, name: &str, pairs: &Vec<(String, String)>)
        requires
            old(self).wf(),
        ensures
            final(self).wf(),
            final(self).base() == old(self).base(),
            final(self).added() == old(self).added() + flag_values(
                name@,
                key_values(pair_texts(pairs@)),
            ),
    {
        let ghost before = self.added@;
        let ghost values = key_values(pair_texts(pairs@));
        let n = pairs.len();
        proof {
            lemma_flag_values_empty(name@);
        }
        for i in 0..n
            invariant
                n == pairs@.len(),
                values == key_values(pair_texts(pairs@)),
                self.wf(),
                self.base() == old(self).base(),
                self.added() == before + flag_values(name@, values.take(i as int)),
        {
            let mut token = pairs[i].0.clone();
            token.append("=");
            token.append(pairs[i].1.as_str());
            proof {
                assert(values.take(i + 1) =~= values.take(i as int).push(token@));
                lemma_flag_values_push(name@, values.take(i as int), token@);
            }
            self.pair(name, token.as_str());
        }
        proof {
            assert(values.take(n as int) =~= values);
        }
    }

    /// Appends every string of the list as a token, in order.
    pub(crate) fn tokens(&mut self, items: &Vec<String>)
        requires
            old(self).wf(),
        ensures
            final(self).wf(),
            final(self).base() == old(self).base(),
            final(self).added() == old(self).added() + texts(items@),
    {
        add_args(&mut self.cmd, items);
        proof {
            lemma_encode_tokens_concat(self.added@, texts(items@));
            assert(encode_tokens(texts(items@)) =~= Seq::new(
                items@.len(),
                |i: int| encode_utf8(items@[i]@),
            ));
            self.added@ = self.added@ + texts(items@);
            assert(command_args(self.cmd) =~= command_args(self.base@) + encode_tokens(
                self.added@,
            ));
        }
    }
}

} // verus!
