//! The identity allocator: every stored image is named by a fresh random
//! 128-bit token in its canonical text form.

use vstd::prelude::*;
use vstd::string::StringExecFns;
use vstd::string::StrSliceExecFns;

verus! {

/// The number of characters of a canonical identity.
pub const IDENTITY_LENGTH: usize = 36;

/// `c` is a decimal digit or one of the letters `a` to `f`.
pub open spec fn is_lower_hex(c: char) -> bool {
    ('0' <= c && c <= '9') || ('a' <= c && c <= 'f')
}

/// The positions of the four hyphens of a canonical identity.
pub open spec fn is_hyphen_position(i: int) -> bool {
    i == 8 || i == 13 || i == 18 || i == 23
}

/// The canonical text of a random token: 32 lower-case hexadecimal digits in
/// groups of 8, 4, 4, 4 and 12 that hyphens separate, with the version digit
/// `4` and a variant digit among `8`, `9`, `a` and `b`.
pub open spec fn is_canonical(text: Seq<char>) -> bool {
    &&& text.len() == IDENTITY_LENGTH
    &&& forall|i: int|
        0 <= i < IDENTITY_LENGTH ==> if is_hyphen_position(i) {
            #[trigger] text[i] == '-'
        } else {
            is_lower_hex(text[i])
        }
    &&& text[14] == '4'
    &&& (text[19] == '8' || text[19] == '9' || text[19] == 'a' || text[19] == 'b')
}

/// The token that names one stored image and its preview.
#[derive(Debug, PartialEq, Eq)]
pub struct Identity {
    text: String,
}

impl View for Identity {
    type V = Seq<char>;

    closed spec fn view(&self) -> Seq<char> {
        self.text@
    }
}

/// The canonical text of a token that `Uuid::new_v4` of the uuid crate drew
/// from the operating system's random source. Nothing is claimed of which
/// token comes back, only of its form: the crate sets the version and variant
/// bits of every such token, and writes a token as hyphenated lower-case
/// hexadecimal digits. Where the operating system has no random bytes to give,
/// the crate does not return; like memory that runs out, no contract can
/// leave that out.
#[verifier::external_body]
fn random_token_text() -> (text: String)
    ensures
        is_canonical(text@),
{
    uuid::Uuid::new_v4().to_string()
}

impl Identity {
    /// The text of an identity is canonical, always.
    #[verifier::type_invariant]
    pub closed spec fn well_formed(self) -> bool {
        is_canonical(self.text@)
    }

    /// What being well formed means of the view.
    pub proof fn lemma_canonical(self)
        requires
            self.well_formed(),
        ensures
            is_canonical(self@),
    {
    }

    /// Allocates a fresh identity. No registry is consulted: two allocations
    /// differ because the token space is large, which no contract can state.
    pub fn allocate() -> (identity: Identity)
        ensures
            is_canonical(identity@),
    {
        Identity { text: random_token_text() }
    }

    /// Reads an identity back from its text, which must be canonical.
    pub fn parse(text: &str) -> (parsed: Option<Identity>)
        ensures
            parsed is Some <==> is_canonical(text@),
            parsed matches Some(identity) ==> identity@ == text@,
    {
        if text.unicode_len() != IDENTITY_LENGTH {
            return None;
        }
        let mut i: usize = 0;
        while i < IDENTITY_LENGTH
            invariant
                0 <= i <= IDENTITY_LENGTH,
                text@.len() == IDENTITY_LENGTH,
                forall|j: int|
                    0 <= j < i ==> if is_hyphen_position(j) {
                        #[trigger] text@[j] == '-'
                    } else {
                        is_lower_hex(text@[j])
                    },
                i > 14 ==> text@[14] == '4',
                i > 19 ==> (text@[19] == '8' || text@[19] == '9' || text@[19] == 'a' || text@[19]
                    == 'b'),
            decreases IDENTITY_LENGTH - i,
        {
            let c: char = text.get_char(i);
            let fits = if i == 8 || i == 13 || i == 18 || i == 23 {
                c == '-'
            } else if i == 14 {
                c == '4'
            } else if i == 19 {
                c == '8' || c == '9' || c == 'a' || c == 'b'
            } else {
                ('0' <= c && c <= '9') || ('a' <= c && c <= 'f')
            };
            if !fits {
                return None;
            }
            i += 1;
        }
        Some(Identity { text: String::from_str(text) })
    }

    /// The canonical text of this identity.
    pub fn as_str(&self) -> (text: &str)
        ensures
            text@ == self@,
            is_canonical(text@),
    {
        proof {
            use_type_invariant(self);
        }
        self.text.as_str()
    }
}

impl Clone for Identity {
    fn clone(&self) -> (copy: Self)
        ensures
            copy@ == self@,
    {
        proof {
            use_type_invariant(self);
        }
        Identity { text: self.text.clone() }
    }
}

} // verus!
