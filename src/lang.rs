//! The closed set of supported languages, the tokens users write for them and
//! the codes the provider expects on the wire.

use vstd::prelude::*;
use vstd::string::*;

verus! {

/// A supported language.
#[derive(Debug, Clone, Copy, PartialEq, Eq, Structural)]
pub enum Lang {
    JP,
    EN,
}

/// The language a user token names, if any: tokens match exactly and are
/// case-sensitive.
pub open spec fn lang_of_token(raw: Seq<char>) -> Option<Lang> {
    if raw == seq!['j', 'p'] {
        Some(Lang::JP)
    } else if raw == seq!['e', 'n'] {
        Some(Lang::EN)
    } else {
        None
    }
}

/// The code the provider expects for a language.
pub open spec fn wire_code_of(lang: Lang) -> Seq<char> {
    match lang {
        Lang::JP => seq!['j', 'a'],
        Lang::EN => seq!['e', 'n'],
    }
}

/// The other language of the two-language set.
pub open spec fn other_of(lang: Lang) -> Lang {
    match lang {
        Lang::JP => Lang::EN,
        Lang::EN => Lang::JP,
    }
}

/// A token that names no supported language.
#[derive(Debug, Clone, PartialEq, Eq)]
pub struct UnsupportedLanguage {
    token: String,
}

impl View for UnsupportedLanguage {
    type V = Seq<char>;

    /// The rejected token.
    closed spec fn view(&self) -> Seq<char> {
        self.token@
    }
}

impl UnsupportedLanguage {
    /// The rejected token.
    pub fn token(&self) -> (r: &str)
        ensures
            r@ == self@,
    {
        self.token.as_str()
    }
}

impl Lang {
    /// Reads a user token; `"jp"` and `"en"` are the only ones accepted.
    pub fn parse(raw: &str) -> (r: Result<Lang, UnsupportedLanguage>)
        ensures
            match r {
                Ok(lang) => lang_of_token(raw@) == Some(lang),
                Err(e) => lang_of_token(raw@).is_none() && e@ == raw@,
            },
    {
        proof {
            reveal_strlit("jp");
            reveal_strlit("en");
            assert("jp"@ =~= seq!['j', 'p']);
            assert("en"@ =~= seq!['e', 'n']);
        }
        let token = raw.to_owned();
        let jp = String::from_str("jp");
        let en = String::from_str("en");
        if token == jp {
            Ok(Lang::JP)
        } else if token == en {
            Ok(Lang::EN)
        } else {
            Err(UnsupportedLanguage { token })
        }
    }

    /// The provider's code for this language (`"ja"` or `"en"`).
    pub fn wire_code(&self) -> (r: String)
        ensures
            r@ == wire_code_of(*self),
    {
        proof {
            reveal_strlit("ja");
            reveal_strlit("en");
        }
        match self {
            Lang::JP => {
                let r = String::from_str("ja");
                assert(r@ =~= seq!['j', 'a']);
                r
            },
            Lang::EN => {
                let r = String::from_str("en");
                assert(r@ =~= seq!['e', 'n']);
                r
            },
        }
    }

    /// The other language of the pair: the source a target implies when no
    /// source is given.
    pub fn other(&self) -> (r: Lang)
        ensures
            r == other_of(*self),
    {
        match self {
            Lang::JP => Lang::EN,
            Lang::EN => Lang::JP,
        }
    }
}

/// Every accepted token reads as its language and goes out as that language's
/// provider code (`"jp"` as `"ja"`, `"en"` as `"en"`); every other token is
/// rejected.
pub proof fn lemma_token_to_wire_code(raw: Seq<char>)
    ensures
        raw == seq!['j', 'p'] ==> lang_of_token(raw) == Some(Lang::JP) && wire_code_of(Lang::JP)
            == seq!['j', 'a'],
        raw == seq!['e', 'n'] ==> lang_of_token(raw) == Some(Lang::EN) && wire_code_of(Lang::EN)
            == seq!['e', 'n'],
        raw != seq!['j', 'p'] && raw != seq!['e', 'n'] ==> lang_of_token(raw).is_none(),
{
}

/// Distinct languages have distinct provider codes.
pub proof fn lemma_wire_code_injective(a: Lang, b: Lang)
    ensures
        wire_code_of(a) == wire_code_of(b) ==> a == b,
{
    if a != b {
        assert(wire_code_of(a)[0] != wire_code_of(b)[0]);
    }
}

/// Each language is the other's other: a target of English implies a source
/// of Japanese, and the reverse.
pub proof fn lemma_other_swaps(lang: Lang)
    ensures
        other_of(lang) != lang,
        other_of(other_of(lang)) == lang,
        other_of(Lang::EN) == Lang::JP,
        other_of(Lang::JP) == Lang::EN,
{
}

} // verus!
