//! Reading the command-line operands into the text and the two languages of
//! one translation.

use vstd::prelude::*;
use crate::lang::{Lang, UnsupportedLanguage, lang_of_token, other_of};

verus! {

/// One translation asked for on the command line.
#[derive(Debug, Clone, PartialEq, Eq)]
pub struct Invocation {
    pub text: String,
    pub from: Lang,
    pub to: Lang,
}

/// Why the operands do not describe a translation.
#[derive(Debug, Clone, PartialEq, Eq)]
pub enum InvocationError {
    /// Neither `text target` nor `text target source`: the number of operands.
    WrongArgumentCount(usize),
    /// A language token that names no supported language.
    UnsupportedLanguage(UnsupportedLanguage),
}

/// The operands as character sequences.
pub open spec fn operands_view(args: Seq<String>) -> Seq<Seq<char>> {
    args.map_values(|a: String| a@)
}

/// The text, source and target that operands describe: `text target`, the
/// source then being the other language, or `text target source`.
pub open spec fn invocation_of(args: Seq<Seq<char>>) -> Option<(Seq<char>, Lang, Lang)> {
    if args.len() == 2 {
        match lang_of_token(args[1]) {
            Some(to) => Some((args[0], other_of(to), to)),
            None => None,
        }
    } else if args.len() == 3 {
        match (lang_of_token(args[1]), lang_of_token(args[2])) {
            (Some(to), Some(from)) => Some((args[0], from, to)),
            _ => None,
        }
    } else {
        None
    }
}

impl Invocation {
    /// Reads the operands `text target` or `text target source`. The target
    /// token is checked before the source token.
    pub fn parse(args: &Vec<String>) -> (r: Result<Invocation, InvocationError>)
        ensures
            match r {
                Ok(inv) => invocation_of(operands_view(args@)) == Some((inv.text@, inv.from, inv.to)),
                Err(InvocationError::WrongArgumentCount(n)) => {
                    &&& n == args.len()
                    &&& args.len() != 2
                    &&& args.len() != 3
                },
                Err(InvocationError::UnsupportedLanguage(e)) => {
                    &&& args.len() == 2 || args.len() == 3
                    &&& invocation_of(operands_view(args@)).is_none()
                    &&& if lang_of_token(args@[1]@).is_none() {
                        e@ == args@[1]@
                    } else {
                        e@ == args@[2]@ && lang_of_token(args@[2]@).is_none()
                    }
                },
            },
    {
        let n = args.len();
        if n != 2 && n != 3 {
            return Err(InvocationError::WrongArgumentCount(n));
        }
        let ghost ops = operands_view(args@);
        assert(ops[1] == args@[1]@);
        let to = match Lang::parse(args[1].as_str()) {
            Ok(lang) => lang,
            Err(e) => return Err(InvocationError::UnsupportedLanguage(e)),
        };
        let from = if n == 2 {
            to.other()
        } else {
            assert(ops[2] == args@[2]@);
            match Lang::parse(args[2].as_str()) {
                Ok(lang) => lang,
                Err(e) => return Err(InvocationError::UnsupportedLanguage(e)),
            }
        };
        let text = args[0].clone();
        assert(ops[0] == args@[0]@);
        Ok(Invocation { text, from, to })
    }
}

/// With only a target given, the source is the other language: a target of
/// `"en"` implies Japanese, a target of `"jp"` implies English.
pub proof fn lemma_source_inferred(text: Seq<char>, target: Seq<char>)
    ensures
        target == seq!['e', 'n'] ==> invocation_of(seq![text, target]) == Some(
            (text, Lang::JP, Lang::EN),
        ),
        target == seq!['j', 'p'] ==> invocation_of(seq![text, target]) == Some(
            (text, Lang::EN, Lang::JP),
        ),
        invocation_of(seq![text, target]) matches Some((_, from, to)) ==> from != to,
{
}

} // verus!
